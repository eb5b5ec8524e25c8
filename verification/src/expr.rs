//! The expression tree.
//!
//! An expression is a tree with variables and constants at its leaves and
//! sums, products and powers inside. Trees are values: every operation of
//! this crate takes a tree and builds a new one. Two trees are equal when
//! they have the same shape and the same leaves; nothing is ever evaluated to
//! compare them.

use crate::domain::Atom;
use vstd::prelude::*;
use vstd::std_specs::cmp::PartialEqSpecImpl;
use vstd::std_specs::ops::AddSpecImpl;
use vstd::std_specs::ops::MulSpecImpl;

verus! {

/// An algebraic expression over symbols of type `T` and constants of type `U`.
#[derive(Debug)]
pub enum Expr<T, U> {
    /// A named unknown.
    Variable(T),
    /// A numeric literal.
    Constant(U),
    /// The sum of two expressions.
    Plus(Box<Expr<T, U>>, Box<Expr<T, U>>),
    /// The product of two expressions.
    Times(Box<Expr<T, U>>, Box<Expr<T, U>>),
    /// One expression raised to another.
    Power(Box<Expr<T, U>>, Box<Expr<T, U>>),
}

/// The sum node over `l` and `r`.
pub open spec fn plus<T, U>(l: Expr<T, U>, r: Expr<T, U>) -> Expr<T, U> {
    Expr::Plus(Box::new(l), Box::new(r))
}

/// The product node over `l` and `r`.
pub open spec fn times<T, U>(l: Expr<T, U>, r: Expr<T, U>) -> Expr<T, U> {
    Expr::Times(Box::new(l), Box::new(r))
}

/// The power node with base `b` and exponent `x`.
pub open spec fn power<T, U>(b: Expr<T, U>, x: Expr<T, U>) -> Expr<T, U> {
    Expr::Power(Box::new(b), Box::new(x))
}

impl<T, U> Expr<T, U> {
    /// The number of edges on the longest path from the root to a leaf.
    pub open spec fn height(self) -> nat
        decreases self,
    {
        match self {
            Expr::Variable(_) | Expr::Constant(_) => 0,
            Expr::Plus(l, r) | Expr::Times(l, r) | Expr::Power(l, r) => {
                let a = l.height();
                let b = r.height();
                if a >= b {
                    a + 1
                } else {
                    b + 1
                }
            },
        }
    }

    /// Whether the node has two children.
    pub open spec fn is_binary(self) -> bool {
        self is Plus || self is Times || self is Power
    }

    /// The first child of a sum, a product or a power.
    pub open spec fn left(self) -> Self {
        match self {
            Expr::Plus(l, _) | Expr::Times(l, _) | Expr::Power(l, _) => *l,
            _ => self,
        }
    }

    /// The second child of a sum, a product or a power.
    pub open spec fn right(self) -> Self {
        match self {
            Expr::Plus(_, r) | Expr::Times(_, r) | Expr::Power(_, r) => *r,
            _ => self,
        }
    }

    /// The number that a constant holds.
    pub open spec fn value(self) -> U {
        self->Constant_0
    }

    /// `self + rhs` in a contract: the sum node over the two.
    #[verifier::inline]
    pub open spec fn spec_add(self, rhs: Self) -> Self {
        plus(self, rhs)
    }

    /// `self * rhs` in a contract: the product node over the two.
    #[verifier::inline]
    pub open spec fn spec_mul(self, rhs: Self) -> Self {
        times(self, rhs)
    }

    /// `self.pow(rhs)` in a contract: the power node over the two.
    #[verifier::inline]
    pub open spec fn spec_pow(self, rhs: Self) -> Self {
        power(self, rhs)
    }

    /// Raises `self` to `rhs`: the power node over the two.
    #[verifier::when_used_as_spec(spec_pow)]
    pub fn pow(self, rhs: Self) -> (r: Self)
        ensures
            r == power(self, rhs),
    {
        Expr::Power(Box::new(self), Box::new(rhs))
    }
}

impl<T, U> core::ops::Add for Expr<T, U> {
    type Output = Expr<T, U>;

    /// The sum node over `self` and `rhs`.
    fn add(self, rhs: Self) -> (r: Self)
        ensures
            r == plus(self, rhs),
    {
        Expr::Plus(Box::new(self), Box::new(rhs))
    }
}

impl<T, U> AddSpecImpl for Expr<T, U> {
    open spec fn obeys_add_spec() -> bool {
        true
    }

    open spec fn add_req(self, rhs: Self) -> bool {
        true
    }

    open spec fn add_spec(self, rhs: Self) -> Self {
        plus(self, rhs)
    }
}

impl<T, U> core::ops::Mul for Expr<T, U> {
    type Output = Expr<T, U>;

    /// The product node over `self` and `rhs`.
    fn mul(self, rhs: Self) -> (r: Self)
        ensures
            r == times(self, rhs),
    {
        Expr::Times(Box::new(self), Box::new(rhs))
    }
}

impl<T, U> MulSpecImpl for Expr<T, U> {
    open spec fn obeys_mul_spec() -> bool {
        true
    }

    open spec fn mul_req(self, rhs: Self) -> bool {
        true
    }

    open spec fn mul_spec(self, rhs: Self) -> Self {
        times(self, rhs)
    }
}

impl<T: Copy, U: Copy> Clone for Expr<T, U> {
    /// A copy of the whole tree.
    fn clone(&self) -> (r: Self)
        ensures
            r == *self,
        decreases *self,
    {
        match self {
            Expr::Variable(x) => Expr::Variable(*x),
            Expr::Constant(c) => Expr::Constant(*c),
            Expr::Plus(l, r) => Expr::Plus(Box::new((**l).clone()), Box::new((**r).clone())),
            Expr::Times(l, r) => Expr::Times(Box::new((**l).clone()), Box::new((**r).clone())),
            Expr::Power(l, r) => Expr::Power(Box::new((**l).clone()), Box::new((**r).clone())),
        }
    }
}

impl<T: Atom, U: Atom> Expr<T, U> {
    /// Structural equality: the same shape with the same leaves.
    pub fn same(&self, other: &Self) -> (r: bool)
        ensures
            r == (*self == *other),
        decreases *self,
    {
        match (self, other) {
            (Expr::Variable(x), Expr::Variable(y)) => x.same(y),
            (Expr::Constant(x), Expr::Constant(y)) => x.same(y),
            (Expr::Plus(a, b), Expr::Plus(c, d)) => (**a).same(&**c) && (**b).same(&**d),
            (Expr::Times(a, b), Expr::Times(c, d)) => (**a).same(&**c) && (**b).same(&**d),
            (Expr::Power(a, b), Expr::Power(c, d)) => (**a).same(&**c) && (**b).same(&**d),
            _ => false,
        }
    }
}

impl<T: Atom, U: Atom> PartialEq for Expr<T, U> {
    fn eq(&self, other: &Self) -> (r: bool) {
        self.same(other)
    }
}

impl<T: Atom, U: Atom> Eq for Expr<T, U> {

}

impl<T: Atom, U: Atom> PartialEqSpecImpl for Expr<T, U> {
    open spec fn obeys_eq_spec() -> bool {
        true
    }

    open spec fn eq_spec(&self, other: &Self) -> bool {
        *self == *other
    }
}

} // verus!
