//! Symbolic differentiation.
//!
//! The derivative is built by the sum rule, the product rule and the power
//! rule, along the structure of the tree and without simplifying anything.
//! The power rule treats the exponent as if it did not depend on the variable:
//! for an exponent that does, what comes out is a well-formed tree and not the
//! derivative.

use crate::domain::Atom;
use crate::domain::Numeric;
use crate::expr::Expr;
use vstd::prelude::*;

verus! {

/// Zero minus one, the number that the power rule adds to an exponent.
pub open spec fn minus_one<U: Numeric>() -> Option<U> {
    U::zero_value().difference(U::one_value())
}

/// The sum node over `a` and `b`, where both are there.
pub open spec fn sum_of<T, U>(a: Option<Expr<T, U>>, b: Option<Expr<T, U>>) -> Option<Expr<T, U>> {
    match (a, b) {
        (Some(x), Some(y)) => Some(x + y),
        _ => None,
    }
}

/// The derivative of `e` with respect to `var`:
///
/// - of `var` itself one, of another variable and of a constant zero;
/// - of `a + b` the sum of the two derivatives;
/// - of `a * b` the sum `a * b' + b * a'`;
/// - of `b ^ x` the product `(x * b ^ (x + (zero - one))) * b'`.
///
/// `None` where a power is to be differentiated and the domain has no
/// `zero - one`.
pub open spec fn derivative<T, U: Numeric>(e: Expr<T, U>, var: T) -> Option<Expr<T, U>>
    decreases e,
{
    match e {
        Expr::Variable(x) => Some(
            Expr::Constant(
                if x == var {
                    U::one_value()
                } else {
                    U::zero_value()
                },
            ),
        ),
        Expr::Constant(_) => Some(Expr::Constant(U::zero_value())),
        Expr::Plus(a, b) => sum_of(derivative(*a, var), derivative(*b, var)),
        Expr::Times(a, b) => match (derivative(*a, var), derivative(*b, var)) {
            (Some(da), Some(db)) => Some(*a * db + *b * da),
            _ => None,
        },
        Expr::Power(b, x) => match (minus_one::<U>(), derivative(*b, var)) {
            (Some(m), Some(db)) => Some(*x * b.pow(*x + Expr::Constant(m)) * db),
            _ => None,
        },
    }
}

/// The derivative of `e` with respect to `var`, or `None` where the tree
/// holds a power to differentiate and the domain has no `zero - one`.
pub fn try_differentiate<T: Atom, U: Numeric>(e: &Expr<T, U>, var: T) -> (r: Option<Expr<T, U>>)
    ensures
        r == derivative(*e, var),
    decreases *e,
{
    match e {
        Expr::Variable(x) => {
            if x.same(&var) {
                Some(Expr::Constant(U::one()))
            } else {
                Some(Expr::Constant(U::zero()))
            }
        },
        Expr::Constant(_) => Some(Expr::Constant(U::zero())),
        Expr::Plus(a, b) => match (try_differentiate(&**a, var), try_differentiate(&**b, var)) {
            (Some(da), Some(db)) => Some(da + db),
            _ => None,
        },
        Expr::Times(a, b) => match (try_differentiate(&**a, var), try_differentiate(&**b, var)) {
            (Some(da), Some(db)) => Some((**a).clone() * db + (**b).clone() * da),
            _ => None,
        },
        Expr::Power(b, x) => match (
            U::zero().checked_difference(U::one()),
            try_differentiate(&**b, var),
        ) {
            (Some(m), Some(db)) => Some(
                (**x).clone() * (**b).clone().pow((**x).clone() + Expr::Constant(m)) * db,
            ),
            _ => None,
        },
    }
}

/// The derivative of `e` with respect to `var`.
///
/// The tree has to have a derivative. In a domain with a `zero - one` every
/// tree has one; in another domain those trees have one in which no power is
/// to be differentiated.
pub fn differentiate<T: Atom, U: Numeric>(e: Expr<T, U>, var: T) -> (r: Expr<T, U>)
    requires
        minus_one::<U>() is Some || derivative(e, var) is Some,
    ensures
        Some(r) == derivative(e, var),
{
    proof {
        if minus_one::<U>() is Some {
            law_derivative_exists(e, var);
        }
    }
    match try_differentiate(&e, var) {
        Some(r) => r,
        None => unreached(),
    }
}

/// In a domain that has a `zero - one`, every tree has a derivative.
pub proof fn law_derivative_exists<T, U: Numeric>(e: Expr<T, U>, var: T)
    requires
        minus_one::<U>() is Some,
    ensures
        derivative(e, var) is Some,
    decreases e,
{
    match e {
        Expr::Plus(a, b) | Expr::Times(a, b) => {
            law_derivative_exists(*a, var);
            law_derivative_exists(*b, var);
        },
        Expr::Power(b, _) => {
            law_derivative_exists(*b, var);
        },
        _ => {},
    }
}

/// Differentiation distributes over a sum: the derivative of `a + b` is the
/// sum of the derivatives of `a` and of `b`, as trees and before any
/// simplification. It is there where both of them are.
pub proof fn law_derivative_of_sum<T, U: Numeric>(a: Expr<T, U>, b: Expr<T, U>, var: T)
    ensures
        derivative(a + b, var) == sum_of(derivative(a, var), derivative(b, var)),
{
}

} // verus!
