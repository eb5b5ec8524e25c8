//! One pass of simplification.
//!
//! A pass looks at the root of a tree and applies the first rule of an
//! ordered list that matches it. Only where no rule rewrites the root does the
//! pass go down into the two children and rebuild the node from what it makes
//! of them. [`first_rule`] is the order, [`applied`] is what each rule builds,
//! and [`simplified`] puts the two together.
//!
//! A rule that computes with constants has a result only where the numeric
//! domain has one: a sum or product that the domain cannot hold, or a power
//! whose exponent is no natural number, leaves the pass without a value.

use crate::domain::Atom;
use crate::domain::Numeric;
use crate::expr::Expr;
use vstd::prelude::*;

verus! {

/// The rewriting rules, in the order in which a pass tries them on a node of
/// their operator.
#[derive(Debug, Clone, Copy, PartialEq, Eq, Structural)]
pub enum Rule {
    /// `Constant(x) + Constant(y)` becomes `Constant(x + y)`.
    FoldSum,
    /// `Constant(x) * Constant(y)` becomes `Constant(x * y)`.
    FoldProduct,
    /// `Power(x, y) * Power(x, z)` becomes `Power(x, y + z)`.
    MergePowers,
    /// `Power(x, y) * x` becomes `Power(x, y + Constant(one))`.
    RaisePower,
    /// `Power(Power(x, Constant(y)), Constant(z))` becomes
    /// `Power(x, Constant(y * z))`.
    CollapsePower,
    /// `Power(x, Constant(one))` becomes `x`.
    ExponentOne,
    /// `Power(x, Constant(zero))` becomes `Constant(one)`.
    ExponentZero,
    /// `Power(Constant(zero), y)` becomes `Constant(zero)`, whatever `y` is.
    BaseZero,
    /// `Power(Constant(one), y)` becomes `Constant(one)`, whatever `y` is.
    BaseOne,
    /// `Power(Constant(x), Constant(y))` becomes the constant `x` to the `y`.
    Evaluate,
    /// `x * x` becomes `Power(x, Constant(one) + Constant(one))`.
    Square,
    /// `Constant(zero) + y` becomes `y`.
    ZeroPlus,
    /// `x + Constant(zero)` becomes `x`.
    PlusZero,
    /// `Constant(one) * y` becomes `y`.
    OneTimes,
    /// `x * Constant(one)` becomes `x`.
    TimesOne,
    /// `Constant(zero) * y` becomes `Constant(zero)`.
    ZeroTimes,
    /// `x * Constant(zero)` becomes `Constant(zero)`.
    TimesZero,
    /// No rule rewrites the root: the pass simplifies the two children.
    Descend,
    /// A variable or a constant stays as it is.
    Leaf,
}

/// The rule that a pass applies to the root of `e`: the first one that
/// matches.
pub open spec fn first_rule<T, U: Numeric>(e: Expr<T, U>) -> Rule {
    let zero = Expr::<T, U>::Constant(U::zero_value());
    let one = Expr::<T, U>::Constant(U::one_value());
    let l = e.left();
    let r = e.right();
    match e {
        Expr::Variable(_) | Expr::Constant(_) => Rule::Leaf,
        Expr::Plus(_, _) => {
            if l is Constant && r is Constant {
                Rule::FoldSum
            } else if l == zero {
                Rule::ZeroPlus
            } else if r == zero {
                Rule::PlusZero
            } else {
                Rule::Descend
            }
        },
        Expr::Times(_, _) => {
            if l is Constant && r is Constant {
                Rule::FoldProduct
            } else if l is Power && r is Power && l.left() == r.left() {
                Rule::MergePowers
            } else if l is Power && l.left() == r {
                Rule::RaisePower
            } else if l == r {
                Rule::Square
            } else if l == one {
                Rule::OneTimes
            } else if r == one {
                Rule::TimesOne
            } else if l == zero {
                Rule::ZeroTimes
            } else if r == zero {
                Rule::TimesZero
            } else {
                Rule::Descend
            }
        },
        Expr::Power(_, _) => {
            if l is Power && l.right() is Constant && r is Constant {
                Rule::CollapsePower
            } else if r == one {
                Rule::ExponentOne
            } else if r == zero {
                Rule::ExponentZero
            } else if l == zero {
                Rule::BaseZero
            } else if l == one {
                Rule::BaseOne
            } else if l is Constant && r is Constant {
                Rule::Evaluate
            } else {
                Rule::Descend
            }
        },
    }
}

/// `base` multiplied `n` times onto one: `base * (base * (.. * one))`.
/// `None` as soon as a product leaves the domain.
pub open spec fn repeated_product<U: Numeric>(base: U, n: nat) -> Option<U>
    decreases n,
{
    if n == 0 {
        Some(U::one_value())
    } else {
        match repeated_product(base, (n - 1) as nat) {
            Some(p) => base.product(p),
            None => None,
        }
    }
}

/// `base` to the power `exponent`, where the exponent is a natural number of
/// the domain and every product on the way stays inside the domain.
pub open spec fn raised<U: Numeric>(base: U, exponent: U) -> Option<U> {
    match exponent.count() {
        Some(n) => repeated_product(base, n),
        None => None,
    }
}

/// The constant with the value `v`, where there is one.
pub open spec fn literal<T, U>(v: Option<U>) -> Option<Expr<T, U>> {
    match v {
        Some(c) => Some(Expr::Constant(c)),
        None => None,
    }
}

/// What `rule` builds from `e`, for a rule that matches the root of `e`.
/// `Descend` is not among them: what it builds depends on the children's own
/// passes, see [`simplified`].
pub open spec fn applied<T, U: Numeric>(rule: Rule, e: Expr<T, U>) -> Option<Expr<T, U>> {
    let zero = Expr::<T, U>::Constant(U::zero_value());
    let one = Expr::<T, U>::Constant(U::one_value());
    let l = e.left();
    let r = e.right();
    match rule {
        Rule::FoldSum => literal(l.value().sum(r.value())),
        Rule::FoldProduct => literal(l.value().product(r.value())),
        Rule::MergePowers => Some(l.left().pow(l.right() + r.right())),
        Rule::RaisePower => Some(l.left().pow(l.right() + one)),
        Rule::CollapsePower => match l.right().value().product(r.value()) {
            Some(p) => Some(l.left().pow(Expr::Constant(p))),
            None => None,
        },
        Rule::ExponentOne => Some(l),
        Rule::ExponentZero => Some(one),
        Rule::BaseZero => Some(zero),
        Rule::BaseOne => Some(one),
        Rule::Evaluate => literal(raised(l.value(), r.value())),
        Rule::Square => Some(l.pow(one + one)),
        Rule::ZeroPlus => Some(r),
        Rule::PlusZero => Some(l),
        Rule::OneTimes => Some(r),
        Rule::TimesOne => Some(l),
        Rule::ZeroTimes => Some(zero),
        Rule::TimesZero => Some(zero),
        Rule::Descend => None,
        Rule::Leaf => Some(e),
    }
}

/// The node of `e`'s operator over `l` and `r`.
pub open spec fn rebuilt<T, U>(e: Expr<T, U>, l: Expr<T, U>, r: Expr<T, U>) -> Expr<T, U> {
    match e {
        Expr::Plus(_, _) => l + r,
        Expr::Times(_, _) => l * r,
        Expr::Power(_, _) => l.pow(r),
        _ => e,
    }
}

/// The result of one pass over `e`, or `None` where the pass has none: where
/// a rule on the way needs a number that the domain does not have.
pub open spec fn simplified<T, U: Numeric>(e: Expr<T, U>) -> Option<Expr<T, U>>
    decreases e,
{
    match first_rule(e) {
        Rule::Descend => match e {
            Expr::Plus(l, r) | Expr::Times(l, r) | Expr::Power(l, r) => match (
                simplified(*l),
                simplified(*r),
            ) {
                (Some(a), Some(b)) => Some(rebuilt(e, a, b)),
                _ => None,
            },
            _ => None,
        },
        rule => applied(rule, e),
    }
}

impl<T: Atom, U: Numeric> Expr<T, U> {
    /// Whether this is a constant.
    fn is_constant(&self) -> (r: bool)
        ensures
            r == (*self is Constant),
    {
        match self {
            Expr::Constant(_) => true,
            _ => false,
        }
    }

    /// Whether this is a power.
    fn is_power(&self) -> (r: bool)
        ensures
            r == (*self is Power),
    {
        match self {
            Expr::Power(_, _) => true,
            _ => false,
        }
    }

    /// Whether this is the constant `c`.
    fn holds(&self, c: U) -> (r: bool)
        ensures
            r == (*self == Expr::<T, U>::Constant(c)),
    {
        match self {
            Expr::Constant(x) => x.same(&c),
            _ => false,
        }
    }

    /// The first child of a node with two children.
    fn first(&self) -> (l: &Self)
        requires
            self.is_binary(),
        ensures
            *l == self.left(),
    {
        match self {
            Expr::Plus(l, _) | Expr::Times(l, _) | Expr::Power(l, _) => &**l,
            _ => unreached(),
        }
    }

    /// The second child of a node with two children.
    fn second(&self) -> (r: &Self)
        requires
            self.is_binary(),
        ensures
            *r == self.right(),
    {
        match self {
            Expr::Plus(_, r) | Expr::Times(_, r) | Expr::Power(_, r) => &**r,
            _ => unreached(),
        }
    }

    /// The number that a constant holds.
    fn number(&self) -> (c: U)
        requires
            *self is Constant,
        ensures
            c == self.value(),
    {
        match self {
            Expr::Constant(c) => *c,
            _ => unreached(),
        }
    }

    /// The rule that a pass applies to the root of this tree.
    pub fn rule(&self) -> (rule: Rule)
        ensures
            rule == first_rule(*self),
    {
        match self {
            Expr::Variable(_) | Expr::Constant(_) => Rule::Leaf,
            Expr::Plus(l, r) => {
                if l.is_constant() && r.is_constant() {
                    Rule::FoldSum
                } else if l.holds(U::zero()) {
                    Rule::ZeroPlus
                } else if r.holds(U::zero()) {
                    Rule::PlusZero
                } else {
                    Rule::Descend
                }
            },
            Expr::Times(l, r) => {
                if l.is_constant() && r.is_constant() {
                    Rule::FoldProduct
                } else if l.is_power() && r.is_power() && l.first().same(r.first()) {
                    Rule::MergePowers
                } else if l.is_power() && l.first().same(r) {
                    Rule::RaisePower
                } else if l.same(r) {
                    Rule::Square
                } else if l.holds(U::one()) {
                    Rule::OneTimes
                } else if r.holds(U::one()) {
                    Rule::TimesOne
                } else if l.holds(U::zero()) {
                    Rule::ZeroTimes
                } else if r.holds(U::zero()) {
                    Rule::TimesZero
                } else {
                    Rule::Descend
                }
            },
            Expr::Power(l, r) => {
                if l.is_power() && l.second().is_constant() && r.is_constant() {
                    Rule::CollapsePower
                } else if r.holds(U::one()) {
                    Rule::ExponentOne
                } else if r.holds(U::zero()) {
                    Rule::ExponentZero
                } else if l.holds(U::zero()) {
                    Rule::BaseZero
                } else if l.holds(U::one()) {
                    Rule::BaseOne
                } else if l.is_constant() && r.is_constant() {
                    Rule::Evaluate
                } else {
                    Rule::Descend
                }
            },
        }
    }
}

/// While `repeated_product` has no value for `k` factors, it has none for more.
proof fn lemma_product_stays_out<U: Numeric>(base: U, k: nat, n: nat)
    requires
        k <= n,
        repeated_product(base, k) is None,
    ensures
        repeated_product(base, n) is None,
    decreases n,
{
    if k < n {
        lemma_product_stays_out(base, k, (n - 1) as nat);
    }
}

/// `base` to the power `exponent` by repeated multiplication, or `None` where
/// the exponent is no natural number of the domain or a product leaves the
/// domain.
pub fn try_ipow<U: Numeric>(base: U, exponent: U) -> (r: Option<U>)
    ensures
        r == raised(base, exponent),
{
    if !exponent.is_count() {
        return None;
    }
    let ghost n = exponent.count().unwrap();
    let ghost mut k: nat = 0;
    let mut product = U::one();
    let mut left = exponent;
    while !left.same(&U::zero())
        invariant
            exponent.count() == Some(n),
            left.count() is Some,
            k + left.count().unwrap() == n,
            repeated_product(base, k) == Some(product),
        decreases left.count().unwrap(),
    {
        proof {
            U::law_count_down(left);
            U::law_count_zero(left);
        }
        match left.checked_difference(U::one()) {
            Some(d) => {
                left = d;
            },
            None => {
                return None;
            },
        }
        proof {
            k = k + 1;
        }
        match base.checked_product(product) {
            Some(p) => {
                product = p;
            },
            None => {
                proof {
                    lemma_product_stays_out(base, k, n);
                }
                return None;
            },
        }
    }
    proof {
        U::law_count_zero(left);
    }
    Some(product)
}

/// `base` to the power `exponent` by repeated multiplication.
///
/// The exponent has to be a natural number of the domain, and the power has
/// to be a number of the domain.
pub fn ipow<U: Numeric>(base: U, exponent: U) -> (r: U)
    requires
        raised(base, exponent) is Some,
    ensures
        Some(r) == raised(base, exponent),
{
    match try_ipow(base, exponent) {
        Some(r) => r,
        None => unreached(),
    }
}

/// One pass of simplification over `e`, or `None` where the pass has no
/// result in the numeric domain.
pub fn try_simplify<T: Atom, U: Numeric>(e: &Expr<T, U>) -> (r: Option<Expr<T, U>>)
    ensures
        r == simplified(*e),
    decreases *e,
{
    match e.rule() {
        Rule::FoldSum => match e.first().number().checked_sum(e.second().number()) {
            Some(v) => Some(Expr::Constant(v)),
            None => None,
        },
        Rule::FoldProduct => match e.first().number().checked_product(e.second().number()) {
            Some(v) => Some(Expr::Constant(v)),
            None => None,
        },
        Rule::MergePowers => {
            let l = e.first();
            let r = e.second();
            Some(l.first().clone().pow(l.second().clone() + r.second().clone()))
        },
        Rule::RaisePower => {
            let l = e.first();
            Some(l.first().clone().pow(l.second().clone() + Expr::Constant(U::one())))
        },
        Rule::CollapsePower => {
            let l = e.first();
            match l.second().number().checked_product(e.second().number()) {
                Some(v) => Some(l.first().clone().pow(Expr::Constant(v))),
                None => None,
            }
        },
        Rule::ExponentOne => Some(e.first().clone()),
        Rule::ExponentZero => Some(Expr::Constant(U::one())),
        Rule::BaseZero => Some(Expr::Constant(U::zero())),
        Rule::BaseOne => Some(Expr::Constant(U::one())),
        Rule::Evaluate => match try_ipow(e.first().number(), e.second().number()) {
            Some(v) => Some(Expr::Constant(v)),
            None => None,
        },
        Rule::Square => Some(
            e.first().clone().pow(Expr::Constant(U::one()) + Expr::Constant(U::one())),
        ),
        Rule::ZeroPlus => Some(e.second().clone()),
        Rule::PlusZero => Some(e.first().clone()),
        Rule::OneTimes => Some(e.second().clone()),
        Rule::TimesOne => Some(e.first().clone()),
        Rule::ZeroTimes => Some(Expr::Constant(U::zero())),
        Rule::TimesZero => Some(Expr::Constant(U::zero())),
        Rule::Descend => match e {
            Expr::Plus(l, r) => match (try_simplify(&**l), try_simplify(&**r)) {
                (Some(a), Some(b)) => Some(a + b),
                _ => None,
            },
            Expr::Times(l, r) => match (try_simplify(&**l), try_simplify(&**r)) {
                (Some(a), Some(b)) => Some(a * b),
                _ => None,
            },
            Expr::Power(l, r) => match (try_simplify(&**l), try_simplify(&**r)) {
                (Some(a), Some(b)) => Some(a.pow(b)),
                _ => None,
            },
            _ => None,
        },
        Rule::Leaf => Some(e.clone()),
    }
}

/// One pass of simplification over `e`.
///
/// Every number that the pass computes has to be a number of the domain.
pub fn simplify<T: Atom, U: Numeric>(e: Expr<T, U>) -> (r: Expr<T, U>)
    requires
        simplified(e) is Some,
    ensures
        Some(r) == simplified(e),
{
    match try_simplify(&e) {
        Some(r) => r,
        None => unreached(),
    }
}

} // verus!
