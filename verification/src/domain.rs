//! What an expression's leaves are made of: symbols and numbers.
//!
//! [`Atom`] is what any leaf value must offer: a test for equality and a text
//! to print. [`Numeric`] adds the arithmetic that differentiation and
//! simplification perform on constants. Arithmetic is partial: an operation
//! whose result the domain cannot represent has no value, and the contracts of
//! this crate leave such inputs out or report them.

use vstd::prelude::*;

verus! {

/// A leaf value: it can be copied, compared and printed.
pub trait Atom: Copy {
    /// The text that stands for the value where an expression is rendered.
    spec fn text(self) -> Seq<char>;

    /// Whether the two values are the same.
    fn same(&self, other: &Self) -> (r: bool)
        ensures
            r == (*self == *other),
    ;

    /// The value's text.
    fn render(&self) -> (r: String)
        ensures
            r@ == self.text(),
    ;
}

/// A numeric domain: identities, addition, multiplication and subtraction.
///
/// The operations are partial. `sum`, `product` and `difference` say which
/// results the domain has; the `checked_` methods compute them.
pub trait Numeric: Atom {
    /// The additive identity.
    spec fn zero_value() -> Self;

    /// The multiplicative identity.
    spec fn one_value() -> Self;

    /// `self + rhs`, where the domain holds it.
    spec fn sum(self, rhs: Self) -> Option<Self>;

    /// `self * rhs`, where the domain holds it.
    spec fn product(self, rhs: Self) -> Option<Self>;

    /// `self - rhs`, where the domain holds it.
    spec fn difference(self, rhs: Self) -> Option<Self>;

    /// The natural number that `self` stands for: how often one has to be
    /// subtracted from it to reach zero. `None` where that never happens.
    spec fn count(self) -> Option<nat>;

    /// Zero added to a value gives that value.
    proof fn law_zero_plus(x: Self)
        ensures
            Self::zero_value().sum(x) == Some(x),
    ;

    /// Zero is the one value that counts nothing.
    proof fn law_count_zero(x: Self)
        ensures
            x.count() == Some(0nat) <==> x == Self::zero_value(),
    ;

    /// A value that counts `n > 0` has a predecessor, which counts `n - 1`.
    proof fn law_count_down(x: Self)
        requires
            x.count() is Some,
            x != Self::zero_value(),
        ensures
            x.difference(Self::one_value()) is Some,
            x.difference(Self::one_value()).unwrap().count() == Some(
                (x.count().unwrap() - 1) as nat,
            ),
    ;

    /// The additive identity.
    fn zero() -> (r: Self)
        ensures
            r == Self::zero_value(),
    ;

    /// The multiplicative identity.
    fn one() -> (r: Self)
        ensures
            r == Self::one_value(),
    ;

    /// `self + rhs`, or `None` where the domain does not hold it.
    fn checked_sum(self, rhs: Self) -> (r: Option<Self>)
        ensures
            r == self.sum(rhs),
    ;

    /// `self * rhs`, or `None` where the domain does not hold it.
    fn checked_product(self, rhs: Self) -> (r: Option<Self>)
        ensures
            r == self.product(rhs),
    ;

    /// `self - rhs`, or `None` where the domain does not hold it.
    fn checked_difference(self, rhs: Self) -> (r: Option<Self>)
        ensures
            r == self.difference(rhs),
    ;

    /// Whether `self` stands for a natural number.
    fn is_count(&self) -> (r: bool)
        ensures
            r == self.count() is Some,
    ;
}

/// The decimal digit `0..=9` as a character.
pub open spec fn digit(d: nat) -> char {
    seq!['0', '1', '2', '3', '4', '5', '6', '7', '8', '9'][d as int]
}

/// The decimal digits of `n`, most significant first, without leading zeros.
pub open spec fn digits(n: nat) -> Seq<char>
    decreases n,
{
    if n < 10 {
        seq![digit(n)]
    } else {
        digits(n / 10).push(digit(n % 10))
    }
}

/// The decimal numeral of `v`: a minus sign for a negative number, then the
/// digits of its magnitude.
pub open spec fn decimal(v: int) -> Seq<char> {
    if v < 0 {
        seq!['-'] + digits((-v) as nat)
    } else {
        digits(v as nat)
    }
}

/// `String::push` of std: the string grows by the one character.
#[verifier::external_body]
fn push_char(s: &mut String, c: char)
    ensures
        final(s)@ == old(s)@.push(c),
{
    s.push(c)
}

/// `num_traits::zero` at `i32`: the crate's `Zero` impl for `i32` returns the
/// literal `0`.
#[verifier::external_body]
fn zero_i32() -> (r: i32)
    ensures
        r == 0,
{
    num_traits::zero()
}

/// `num_traits::one` at `i32`: the crate's `One` impl for `i32` returns the
/// literal `1`.
#[verifier::external_body]
fn one_i32() -> (r: i32)
    ensures
        r == 1,
{
    num_traits::one()
}

/// `num_traits::zero` at `u32`: the crate's `Zero` impl for `u32` returns the
/// literal `0`.
#[verifier::external_body]
fn zero_u32() -> (r: u32)
    ensures
        r == 0,
{
    num_traits::zero()
}

/// `num_traits::one` at `u32`: the crate's `One` impl for `u32` returns the
/// literal `1`.
#[verifier::external_body]
fn one_u32() -> (r: u32)
    ensures
        r == 1,
{
    num_traits::one()
}

/// The character of the digit `d`.
fn digit_char(d: u64) -> (c: char)
    requires
        d < 10,
    ensures
        c == digit(d as nat),
{
    match d {
        0 => '0',
        1 => '1',
        2 => '2',
        3 => '3',
        4 => '4',
        5 => '5',
        6 => '6',
        7 => '7',
        8 => '8',
        _ => '9',
    }
}

/// Appends the decimal digits of `n` to `s`.
fn push_digits(s: &mut String, n: u64)
    ensures
        final(s)@ == old(s)@ + digits(n as nat),
    decreases n,
{
    if n >= 10 {
        push_digits(s, n / 10);
    }
    push_char(s, digit_char(n % 10));
}

impl Atom for char {
    open spec fn text(self) -> Seq<char> {
        seq![self]
    }

    fn same(&self, other: &Self) -> (r: bool) {
        *self == *other
    }

    fn render(&self) -> (r: String) {
        let mut s = String::new();
        push_char(&mut s, *self);
        s
    }
}

impl Atom for i32 {
    open spec fn text(self) -> Seq<char> {
        decimal(self as int)
    }

    fn same(&self, other: &Self) -> (r: bool) {
        *self == *other
    }

    fn render(&self) -> (r: String) {
        let v: i64 = *self as i64;
        let mut s = String::new();
        if v < 0 {
            push_char(&mut s, '-');
            push_digits(&mut s, (-v) as u64);
        } else {
            push_digits(&mut s, v as u64);
        }
        s
    }
}

impl Numeric for i32 {
    open spec fn zero_value() -> Self {
        0
    }

    open spec fn one_value() -> Self {
        1
    }

    open spec fn sum(self, rhs: Self) -> Option<Self> {
        if i32::MIN <= self + rhs <= i32::MAX {
            Some((self + rhs) as i32)
        } else {
            None
        }
    }

    open spec fn product(self, rhs: Self) -> Option<Self> {
        if i32::MIN <= self * rhs <= i32::MAX {
            Some((self * rhs) as i32)
        } else {
            None
        }
    }

    open spec fn difference(self, rhs: Self) -> Option<Self> {
        if i32::MIN <= self - rhs <= i32::MAX {
            Some((self - rhs) as i32)
        } else {
            None
        }
    }

    open spec fn count(self) -> Option<nat> {
        if self >= 0 {
            Some(self as nat)
        } else {
            None
        }
    }

    proof fn law_zero_plus(x: Self) {
    }

    proof fn law_count_zero(x: Self) {
    }

    proof fn law_count_down(x: Self) {
    }

    fn zero() -> (r: Self) {
        zero_i32()
    }

    fn one() -> (r: Self) {
        one_i32()
    }

    fn checked_sum(self, rhs: Self) -> (r: Option<Self>) {
        self.checked_add(rhs)
    }

    fn checked_product(self, rhs: Self) -> (r: Option<Self>) {
        self.checked_mul(rhs)
    }

    fn checked_difference(self, rhs: Self) -> (r: Option<Self>) {
        self.checked_sub(rhs)
    }

    fn is_count(&self) -> (r: bool) {
        *self >= 0
    }
}

impl Atom for u32 {
    open spec fn text(self) -> Seq<char> {
        decimal(self as int)
    }

    fn same(&self, other: &Self) -> (r: bool) {
        *self == *other
    }

    fn render(&self) -> (r: String) {
        let mut s = String::new();
        push_digits(&mut s, *self as u64);
        s
    }
}

impl Numeric for u32 {
    open spec fn zero_value() -> Self {
        0
    }

    open spec fn one_value() -> Self {
        1
    }

    open spec fn sum(self, rhs: Self) -> Option<Self> {
        if self + rhs <= u32::MAX {
            Some((self + rhs) as u32)
        } else {
            None
        }
    }

    open spec fn product(self, rhs: Self) -> Option<Self> {
        if self * rhs <= u32::MAX {
            Some((self * rhs) as u32)
        } else {
            None
        }
    }

    open spec fn difference(self, rhs: Self) -> Option<Self> {
        if self >= rhs {
            Some((self - rhs) as u32)
        } else {
            None
        }
    }

    open spec fn count(self) -> Option<nat> {
        Some(self as nat)
    }

    proof fn law_zero_plus(x: Self) {
    }

    proof fn law_count_zero(x: Self) {
    }

    proof fn law_count_down(x: Self) {
    }

    fn zero() -> (r: Self) {
        zero_u32()
    }

    fn one() -> (r: Self) {
        one_u32()
    }

    fn checked_sum(self, rhs: Self) -> (r: Option<Self>) {
        self.checked_add(rhs)
    }

    fn checked_product(self, rhs: Self) -> (r: Option<Self>) {
        self.checked_mul(rhs)
    }

    fn checked_difference(self, rhs: Self) -> (r: Option<Self>) {
        self.checked_sub(rhs)
    }

    fn is_count(&self) -> (r: bool) {
        true
    }
}

} // verus!
