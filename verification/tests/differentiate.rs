use symdiff::differentiate;
use symdiff::try_differentiate;
use symdiff::Expr;

fn x() -> Expr<char, i32> {
    Expr::Variable('x')
}

fn y() -> Expr<char, i32> {
    Expr::Variable('y')
}

fn c(n: i32) -> Expr<char, i32> {
    Expr::Constant(n)
}

fn ux() -> Expr<char, u32> {
    Expr::Variable('x')
}

fn uc(n: u32) -> Expr<char, u32> {
    Expr::Constant(n)
}

#[test]
fn derivative_of_the_variable_is_one() {
    assert_eq!(differentiate(x(), 'x'), c(1));
    assert_eq!(differentiate(y(), 'y'), c(1));
}

#[test]
fn derivative_of_another_variable_is_zero() {
    assert_eq!(differentiate(y(), 'x'), c(0));
    assert_eq!(differentiate(x(), 'y'), c(0));
}

#[test]
fn derivative_of_a_constant_is_zero() {
    assert_eq!(differentiate(c(5), 'x'), c(0));
    assert_eq!(differentiate(c(0), 'x'), c(0));
    assert_eq!(differentiate(c(-3), 'x'), c(0));
}

#[test]
fn sum_rule() {
    assert_eq!(differentiate(x() + y(), 'x'), c(1) + c(0));
    assert_eq!(differentiate(x() + c(2), 'x'), c(1) + c(0));
    assert_eq!(differentiate(x() + x() + c(2), 'x'), c(1) + c(1) + c(0));
}

#[test]
fn product_rule() {
    assert_eq!(differentiate(x() * y(), 'x'), x() * c(0) + y() * c(1));
    assert_eq!(differentiate(x() * x(), 'x'), x() * c(1) + x() * c(1));
    assert_eq!(differentiate(c(3) * x(), 'x'), c(3) * c(1) + x() * c(0));
}

#[test]
fn power_rule() {
    assert_eq!(
        differentiate(x().pow(c(3)), 'x'),
        c(3) * x().pow(c(3) + c(-1)) * c(1)
    );
    assert_eq!(
        differentiate((x() + c(1)).pow(c(2)), 'x'),
        c(2) * (x() + c(1)).pow(c(2) + c(-1)) * (c(1) + c(0))
    );
}

#[test]
fn power_rule_does_not_look_into_the_exponent() {
    assert_eq!(
        differentiate(y().pow(x()), 'x'),
        x() * y().pow(x() + c(-1)) * c(0)
    );
    assert_eq!(
        differentiate(x().pow(x()), 'x'),
        x() * x().pow(x() + c(-1)) * c(1)
    );
}

#[test]
fn derivative_is_not_simplified() {
    let d = differentiate(x() * x() + c(2), 'x');
    assert_eq!(d, (x() * c(1) + x() * c(1)) + c(0));
}

#[test]
fn derivative_of_a_sum_is_the_sum_of_the_derivatives() {
    let a = x().pow(c(3)) * y();
    let b = (x() + c(4)) * x();
    let whole = differentiate(a.clone() + b.clone(), 'x');
    assert_eq!(whole, differentiate(a, 'x') + differentiate(b, 'x'));
    let p = c(7);
    let q = y();
    assert_eq!(
        differentiate(p.clone() + q.clone(), 'y'),
        differentiate(p, 'y') + differentiate(q, 'y')
    );
}

#[test]
fn try_differentiate_agrees_with_differentiate() {
    let e = x().pow(c(3)) + x() * y();
    assert_eq!(try_differentiate(&e, 'x'), Some(differentiate(e.clone(), 'x')));
    assert_eq!(try_differentiate(&x(), 'x'), Some(c(1)));
}

#[test]
fn symbols_of_other_types_can_be_differentiated_by() {
    let e: Expr<u32, i32> = Expr::Variable(7) * Expr::Variable(8);
    assert_eq!(
        differentiate(e, 7),
        Expr::Variable(7) * Expr::Constant(0) + Expr::Variable(8) * Expr::Constant(1)
    );
}

#[test]
fn unsigned_trees_without_powers_have_a_derivative() {
    assert_eq!(try_differentiate(&ux(), 'x'), Some(uc(1)));
    assert_eq!(
        try_differentiate(&(ux() * ux() + uc(2)), 'x'),
        Some((ux() * uc(1) + ux() * uc(1)) + uc(0))
    );
}

#[test]
fn unsigned_powers_have_no_derivative() {
    assert_eq!(try_differentiate(&ux().pow(uc(3)), 'x'), None);
    assert_eq!(try_differentiate(&(ux() + ux().pow(uc(3))), 'x'), None);
    assert_eq!(try_differentiate(&(ux().pow(uc(3)) * ux()), 'x'), None);
    assert_eq!(try_differentiate(&uc(2).pow(uc(3)).pow(ux()), 'x'), None);
}

#[test]
fn an_unsigned_power_in_an_exponent_is_not_differentiated() {
    assert_eq!(try_differentiate(&(ux() + uc(1)), 'x'), Some(uc(1) + uc(0)));
    let e = ux() * uc(2);
    assert_eq!(try_differentiate(&e, 'x'), Some(ux() * uc(0) + uc(2) * uc(1)));
}
