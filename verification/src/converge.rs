//! Repeating a transform until its result stops changing.

use vstd::prelude::*;
use vstd::std_specs::cmp::PartialEqSpec;

verus! {

/// Whether `set` holds of every value that `f` makes of one of its members.
pub open spec fn closed_under<T, F: Fn(&T) -> T>(f: F, set: spec_fn(T) -> bool) -> bool {
    forall|a: T, b: T| set(a) && #[trigger] call_ensures(f, (&a,), b) ==> set(b)
}

/// Whether `f` can be applied to every member of `set`.
pub open spec fn applies_to<T, F: Fn(&T) -> T>(f: F, set: spec_fn(T) -> bool) -> bool {
    forall|a: T| set(a) ==> #[trigger] call_requires(f, (&a,))
}

/// Whether `measure` falls whenever `f` makes of a member of `set` another
/// value than the one it was given.
pub open spec fn falls_under<T, F: Fn(&T) -> T>(
    f: F,
    set: spec_fn(T) -> bool,
    measure: spec_fn(T) -> nat,
) -> bool {
    forall|a: T, b: T|
        set(a) && #[trigger] call_ensures(f, (&a,), b) && b != a ==> measure(b) < measure(a)
}

/// Whether repeating `f` from `x` must come to an end: `x` lies in a set that
/// `f` can be applied to and does not lead out of, and on which a measure
/// falls with every change.
pub open spec fn settles<T, F: Fn(&T) -> T>(
    f: F,
    x: T,
    set: spec_fn(T) -> bool,
    measure: spec_fn(T) -> nat,
) -> bool {
    &&& set(x)
    &&& applies_to(f, set)
    &&& closed_under(f, set)
    &&& falls_under(f, set, measure)
}

/// Whether `==` on `T` is equality of values.
pub open spec fn compares_by_value<T: PartialEq>() -> bool {
    &&& T::obeys_eq_spec()
    &&& forall|a: T, b: T| #[trigger] a.eq_spec(&b) <==> a == b
}

/// Applies `f` to `x`, then to what came out, and so on, and returns the
/// first result that equals the value it was made from.
///
/// The repetition has to end: some measure has to fall with every change (see
/// [`settles`]; a caller names a set and a measure and asserts `settles` of
/// them). The result is then a value that `f` leaves as it is, and one that
/// the repetition reaches from `x`: it lies in every set that holds `x` and
/// is closed under `f`.
pub fn converge<T: PartialEq, F: Fn(&T) -> T>(f: F, x: T) -> (r: T)
    requires
        compares_by_value::<T>(),
        exists|set: spec_fn(T) -> bool, measure: spec_fn(T) -> nat|
            #[trigger] settles(f, x, set, measure),
    ensures
        call_ensures(f, (&r,), r),
        forall|set: spec_fn(T) -> bool| set(x) && #[trigger] closed_under(f, set) ==> set(r),
{
    let ghost (set, measure) = choose|set: spec_fn(T) -> bool, measure: spec_fn(T) -> nat|
        #[trigger] settles(f, x, set, measure);
    let mut last = x;
    loop
        invariant
            compares_by_value::<T>(),
            settles(f, x, set, measure),
            set(last),
            forall|s: spec_fn(T) -> bool| s(x) && #[trigger] closed_under(f, s) ==> s(last),
        ensures
            call_ensures(f, (&last,), last),
            forall|s: spec_fn(T) -> bool| s(x) && #[trigger] closed_under(f, s) ==> s(last),
        decreases measure(last),
    {
        let next = f(&last);
        let same = next == last;
        last = next;
        if same {
            break ;
        }
    }
    last
}

} // verus!
