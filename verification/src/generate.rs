//! Random expression trees, to try differentiation and simplification on.
//!
//! The shape of a tree comes from the thread's random number generator. The
//! constants at its leaves come from a source that the caller hands in, so
//! that the caller decides how they are distributed. What is drawn cannot be
//! foretold; the contracts say what holds of a tree whatever was drawn.

use crate::expr::Expr;
use rand::Rng;
use vstd::prelude::*;

verus! {

/// `Rng::gen` of rand at `bool`, on the generator that `rand::thread_rng`
/// hands out. Nothing is known of the value. `thread_rng` panics where the
/// system has no entropy to seed a generator with.
#[verifier::external_body]
fn random_bool() -> (r: bool) {
    rand::thread_rng().gen()
}

/// `Rng::gen` of rand at `u32`, on the generator that `rand::thread_rng`
/// hands out. Nothing is known of the value. `thread_rng` panics where the
/// system has no entropy to seed a generator with.
#[verifier::external_body]
fn random_u32() -> (r: u32) {
    rand::thread_rng().gen()
}

/// `Rng::gen` of rand at `i32`, on the generator that `rand::thread_rng`
/// hands out. Nothing is known of the value. `thread_rng` panics where the
/// system has no entropy to seed a generator with.
#[verifier::external_body]
fn random_i32() -> (r: i32) {
    rand::thread_rng().gen()
}

/// How a tree grows by one level.
#[derive(Debug, Clone, Copy, PartialEq, Eq, Structural)]
pub enum Growth {
    /// The sum of two smaller trees.
    Sum,
    /// The product of two smaller trees.
    Product,
    /// A smaller tree raised to a small constant.
    Power,
}

/// The growth that a draw stands for: its remainder by three picks one of the
/// three.
pub open spec fn growth_of(draw: u32) -> Growth {
    if draw % 3 == 0 {
        Growth::Sum
    } else if draw % 3 == 1 {
        Growth::Product
    } else {
        Growth::Power
    }
}

/// The exponent that a draw stands for: the remainder of its magnitude by
/// five, and one more.
pub open spec fn exponent_of(draw: i32) -> int {
    if draw < 0 {
        (-draw) % 5 + 1
    } else {
        draw % 5 + 1
    }
}

/// The leaf that a draw stands for: the variable, or else the constant.
pub open spec fn leaf_of(variable: bool, var: char, value: i32) -> Expr<char, i32> {
    if variable {
        Expr::Variable(var)
    } else {
        Expr::Constant(value)
    }
}

/// The numbers that `constant` can supply.
pub open spec fn supplied_by<F: Fn() -> i32>(constant: F) -> spec_fn(i32) -> bool {
    |c: i32| call_ensures(constant, (), c)
}

/// Whether `e` is a tree of `depth` levels as [`generate`] builds them: at
/// depth zero the variable or a constant that the source supplies, above that
/// a sum or a product of two such trees of one level less, or such a tree
/// raised to a constant from one to five.
pub open spec fn generated(
    e: Expr<char, i32>,
    depth: nat,
    var: char,
    supplied: spec_fn(i32) -> bool,
) -> bool
    decreases depth,
{
    if depth == 0 {
        e == Expr::<char, i32>::Variable(var) || (e matches Expr::Constant(c) && supplied(c))
    } else {
        match e {
            Expr::Plus(l, r) | Expr::Times(l, r) => generated(*l, (depth - 1) as nat, var, supplied)
                && generated(*r, (depth - 1) as nat, var, supplied),
            Expr::Power(b, x) => generated(*b, (depth - 1) as nat, var, supplied) && (
            *x matches Expr::Constant(k) && 1 <= k <= 5),
            _ => false,
        }
    }
}

/// Whether `e` is a polynomial of degree `degree` as [`generate2`] builds
/// them: a constant that the source supplies at degree zero, and above that
/// `c * var ^ degree + rest` with such a constant `c` and with `rest` such a
/// polynomial of one degree less.
pub open spec fn polynomial(
    e: Expr<char, i32>,
    degree: nat,
    var: char,
    supplied: spec_fn(i32) -> bool,
) -> bool
    decreases degree,
{
    if degree == 0 {
        e matches Expr::Constant(c) && supplied(c)
    } else {
        &&& e matches Expr::Plus(term, rest)
        &&& *term matches Expr::Times(c, p)
        &&& *c matches Expr::Constant(v)
        &&& supplied(v)
        &&& *p == Expr::<char, i32>::Variable(var).pow(Expr::Constant(degree as i32))
        &&& polynomial(*rest, (degree - 1) as nat, var, supplied)
    }
}

/// The growth that `draw` stands for.
pub fn growth_for(draw: u32) -> (g: Growth)
    ensures
        g == growth_of(draw),
{
    let choice: u32 = draw % 3;
    if choice == 0 {
        Growth::Sum
    } else if choice == 1 {
        Growth::Product
    } else {
        Growth::Power
    }
}

/// The exponent that `draw` stands for, a number from one to five.
pub fn exponent_for(draw: i32) -> (k: i32)
    ensures
        k == exponent_of(draw),
        1 <= k <= 5,
{
    let wide: i64 = draw as i64;
    let magnitude: i64 = if wide < 0 {
        -wide
    } else {
        wide
    };
    (magnitude % 5 + 1) as i32
}

/// The leaf that the draw `variable` stands for.
pub fn leaf_for(variable: bool, var: char, value: i32) -> (e: Expr<char, i32>)
    ensures
        e == leaf_of(variable, var, value),
{
    if variable {
        Expr::Variable(var)
    } else {
        Expr::Constant(value)
    }
}

/// A tree as [`generate`] builds it is as high as it is deep.
pub proof fn lemma_generated_height(
    e: Expr<char, i32>,
    depth: nat,
    var: char,
    supplied: spec_fn(i32) -> bool,
)
    requires
        generated(e, depth, var, supplied),
    ensures
        e.height() == depth,
    decreases depth,
{
    if depth > 0 {
        match e {
            Expr::Plus(l, r) | Expr::Times(l, r) => {
                lemma_generated_height(*l, (depth - 1) as nat, var, supplied);
                lemma_generated_height(*r, (depth - 1) as nat, var, supplied);
            },
            Expr::Power(b, x) => {
                lemma_generated_height(*b, (depth - 1) as nat, var, supplied);
                assert(x.height() == 0);
            },
            _ => {},
        }
    }
}

/// A random tree of `depth` levels over the variable `var`, with constants
/// that `constant` supplies.
///
/// At depth zero the tree is a leaf: a constant is drawn from the source, and
/// a random bit decides whether it or the variable becomes the leaf. Above
/// that a random number decides between the sum of two trees of one level
/// less, their product, and one such tree raised to a random constant from
/// one to five. Every path but the one into such an exponent has `depth`
/// edges.
pub fn generate<F: Fn() -> i32>(depth: usize, var: char, constant: &F) -> (r: Expr<char, i32>)
    requires
        call_requires(*constant, ()),
    ensures
        generated(r, depth as nat, var, supplied_by(*constant)),
        r.height() == depth,
        depth == 0 ==> r is Variable || r is Constant,
    decreases depth,
{
    let r = if depth == 0 {
        let value = constant();
        leaf_for(random_bool(), var, value)
    } else {
        match growth_for(random_u32()) {
            Growth::Sum => generate(depth - 1, var, constant) + generate(depth - 1, var, constant),
            Growth::Product => generate(depth - 1, var, constant) * generate(
                depth - 1,
                var,
                constant,
            ),
            Growth::Power => generate(depth - 1, var, constant).pow(
                Expr::Constant(exponent_for(random_i32())),
            ),
        }
    };
    proof {
        lemma_generated_height(r, depth as nat, var, supplied_by(*constant));
    }
    r
}

/// A polynomial of degree `depth` in the variable `var` with coefficients
/// that `constant` supplies: `c * var ^ depth + ..` down to a constant term,
/// the coefficient of the highest power drawn first.
pub fn generate2<F: Fn() -> i32>(depth: usize, var: char, constant: &F) -> (r: Expr<char, i32>)
    requires
        call_requires(*constant, ()),
        depth <= i32::MAX,
    ensures
        polynomial(r, depth as nat, var, supplied_by(*constant)),
    decreases depth,
{
    let value = constant();
    if depth == 0 {
        Expr::Constant(value)
    } else {
        Expr::Constant(value) * Expr::Variable(var).pow(Expr::Constant(depth as i32)) + generate2(
            depth - 1,
            var,
            constant,
        )
    }
}

} // verus!
