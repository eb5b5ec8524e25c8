//! Simplification to a fixed point: passes repeated until one changes nothing.
//!
//! That the repetition ends is part of what is proved here. Every rule that
//! rewrites a node makes the tree lighter by [`weight`], so a pass that
//! changes a tree lowers its weight, and a weight cannot fall forever.

use crate::converge::converge;
use crate::converge::settles;
use crate::domain::Atom;
use crate::domain::Numeric;
use crate::expr::plus;
use crate::expr::power;
use crate::expr::Expr;
use crate::simplify::first_rule;
use crate::simplify::simplified;
use crate::simplify::simplify;
use crate::simplify::try_simplify;
use crate::simplify::Rule;
use vstd::prelude::*;

verus! {

/// The weight of a tree: one for a leaf, and for a node the weights of its
/// children and one more, or four more where the node is a product.
pub open spec fn weight<T, U>(e: Expr<T, U>) -> nat
    decreases e,
{
    match e {
        Expr::Variable(_) | Expr::Constant(_) => 1,
        Expr::Plus(l, r) | Expr::Power(l, r) => 1 + weight(*l) + weight(*r),
        Expr::Times(l, r) => 4 + weight(*l) + weight(*r),
    }
}

/// A tree weighs at least one.
proof fn lemma_weight_positive<T, U>(e: Expr<T, U>)
    ensures
        weight(e) >= 1,
{
}

/// The weight of a node over two children.
proof fn lemma_node_weight<T, U>(a: Expr<T, U>, b: Expr<T, U>)
    ensures
        weight(plus(a, b)) == 1 + weight(a) + weight(b),
        weight(power(a, b)) == 1 + weight(a) + weight(b),
{
}

/// A pass that changes a tree makes it lighter.
pub proof fn lemma_pass_lightens<T, U: Numeric>(e: Expr<T, U>)
    ensures
        simplified(e) matches Some(n) ==> n == e || weight(n) < weight(e),
    decreases e,
{
    let one = Expr::<T, U>::Constant(U::one_value());
    let l = e.left();
    let r = e.right();
    lemma_weight_positive(l);
    lemma_weight_positive(r);
    match first_rule(e) {
        Rule::Descend => {
            match e {
                Expr::Plus(a, b) | Expr::Times(a, b) | Expr::Power(a, b) => {
                    lemma_pass_lightens(*a);
                    lemma_pass_lightens(*b);
                },
                _ => {},
            }
        },
        Rule::MergePowers => {
            lemma_node_weight(l.left(), l.right());
            lemma_node_weight(r.left(), r.right());
            lemma_node_weight(l.right(), r.right());
            lemma_node_weight(l.left(), plus(l.right(), r.right()));
        },
        Rule::RaisePower => {
            lemma_node_weight(l.left(), l.right());
            lemma_node_weight(l.right(), one);
            lemma_node_weight(l.left(), plus(l.right(), one));
        },
        Rule::CollapsePower => {
            lemma_node_weight(l.left(), l.right());
            if let Some(n) = simplified(e) {
                lemma_node_weight(l.left(), n.right());
            }
        },
        Rule::Square => {
            lemma_node_weight(one, one);
            lemma_node_weight(l, plus(one, one));
        },
        _ => {},
    }
}

/// The tree that repeated passes over `e` end with: the first result of a
/// pass that equals the tree the pass was given. `None` where a pass on the
/// way has no result.
///
/// A proof about a given tree unfolds the definition once for every pass,
/// with `reveal_with_fuel`.
pub open spec fn fixed_point<T, U: Numeric>(e: Expr<T, U>) -> Option<Expr<T, U>>
    decreases weight(e),
{
    match simplified(e) {
        Some(n) => if n == e {
            Some(e)
        } else {
            proof {
                lemma_pass_lightens(e);
            }
            fixed_point(n)
        },
        None => None,
    }
}

/// What one more pass makes of a tree that repeated passes have reached, and
/// of a `None` that stands for a pass without a result.
spec fn next_pass<T, U: Numeric>(e: Option<Expr<T, U>>) -> Option<Expr<T, U>> {
    match e {
        Some(a) => simplified(a),
        None => None,
    }
}

/// Where repeated passes lead from `e`, a `None` staying what it is.
spec fn limit<T, U: Numeric>(e: Option<Expr<T, U>>) -> Option<Expr<T, U>> {
    match e {
        Some(a) => fixed_point(a),
        None => None,
    }
}

/// A pass does not change where the passes lead.
proof fn lemma_pass_keeps_limit<T, U: Numeric>(e: Expr<T, U>)
    ensures
        limit(simplified(e)) == fixed_point(e),
{
    lemma_pass_lightens(e);
}

/// Passes over `e` repeated until one changes nothing.
///
/// Every pass on the way has to have a result in the numeric domain. For a
/// given tree that is shown by unfolding [`fixed_point`] pass by pass; for a
/// tree that is not known beforehand, [`try_simplify_to_fixed_point`] finds
/// out.
pub fn simplify_to_fixed_point<T: Atom, U: Numeric>(e: Expr<T, U>) -> (r: Expr<T, U>)
    requires
        fixed_point(e) is Some,
    ensures
        Some(r) == fixed_point(e),
        simplified(r) == Some(r),
{
    proof {
        law_fixed_point_idempotent(e);
    }
    let pass = |x: &Expr<T, U>| -> (y: Expr<T, U>)
        requires
            simplified(*x) is Some,
        ensures
            Some(y) == simplified(*x),
        { simplify(x.clone()) };
    // The passes stay among the trees that lead where `e` leads, and the
    // weight falls with every pass that changes its tree.
    let ghost set = |a: Expr<T, U>| fixed_point(a) == fixed_point(e);
    let ghost measure = |a: Expr<T, U>| weight(a);
    proof {
        assert forall|a: Expr<T, U>, b: Expr<T, U>| set(a) && call_ensures(pass, (&a,), b) implies set(
            b,
        ) && (b != a ==> measure(b) < measure(a)) by {
            lemma_pass_keeps_limit(a);
            lemma_pass_lightens(a);
        }
        assert(settles(pass, e, set, measure));
    }
    converge(pass, e)
}

/// Passes over `e` repeated until one changes nothing, or `None` where a pass
/// on the way has no result in the numeric domain.
pub fn try_simplify_to_fixed_point<T: Atom, U: Numeric>(e: &Expr<T, U>) -> (r: Option<
    Expr<T, U>,
>)
    ensures
        r == fixed_point(*e),
        r matches Some(x) ==> simplified(x) == Some(x),
{
    proof {
        law_fixed_point_idempotent(*e);
    }
    let pass = |x: &Option<Expr<T, U>>| -> (y: Option<Expr<T, U>>)
        ensures
            y == next_pass(*x),
        {
            match x {
                Some(a) => try_simplify(a),
                None => None,
            }
        };
    // A pass without a result is carried on as `None`, which every further
    // pass leaves as it is and which weighs less than any tree.
    let ghost set = |a: Option<Expr<T, U>>| limit(a) == fixed_point(*e);
    let ghost measure = |a: Option<Expr<T, U>>|
        match a {
            Some(x) => weight(x) + 1,
            None => 0nat,
        };
    proof {
        assert forall|a: Option<Expr<T, U>>, b: Option<Expr<T, U>>|
            set(a) && call_ensures(pass, (&a,), b) implies set(b) && (b != a ==> measure(b)
            < measure(a)) by {
            if let Some(x) = a {
                lemma_pass_keeps_limit(x);
                lemma_pass_lightens(x);
            }
        }
        assert(settles(pass, Some(*e), set, measure));
    }
    converge(pass, Some(e.clone()))
}

/// Simplifying what is simplified changes nothing: where the passes over `e`
/// end with `r`, a pass over `r` gives `r`, and so the passes over `r` end
/// with `r`.
pub proof fn law_fixed_point_idempotent<T, U: Numeric>(e: Expr<T, U>)
    ensures
        fixed_point(e) matches Some(r) ==> simplified(r) == Some(r) && fixed_point(r) == Some(r),
    decreases weight(e),
{
    if let Some(n) = simplified(e) {
        if n != e {
            lemma_pass_lightens(e);
            law_fixed_point_idempotent(n);
        }
    }
}

/// Adding zero in front changes nothing in the end: the passes over
/// `Constant(zero) + e` lead where the passes over `e` lead.
pub proof fn law_zero_plus_vanishes<T, U: Numeric>(e: Expr<T, U>)
    ensures
        fixed_point(Expr::Constant(U::zero_value()) + e) == fixed_point(e),
{
    let sum = Expr::Constant(U::zero_value()) + e;
    if let Expr::Constant(c) = e {
        U::law_zero_plus(c);
    }
    assert(simplified(sum) == Some(e));
    lemma_pass_keeps_limit(sum);
}

} // verus!
