use symdiff::emit_latex;
use symdiff::Expr;

fn x() -> Expr<char, i32> {
    Expr::Variable('x')
}

fn y() -> Expr<char, i32> {
    Expr::Variable('y')
}

fn c(n: i32) -> Expr<char, i32> {
    Expr::Constant(n)
}

#[test]
fn renderer_scenario() {
    assert_eq!(emit_latex(x() + c(1)), "(x) + (1)");
}

#[test]
fn leaves_render_as_their_text() {
    assert_eq!(emit_latex(x()), "x");
    assert_eq!(emit_latex(c(42)), "42");
    assert_eq!(emit_latex(c(0)), "0");
    assert_eq!(emit_latex(c(-5)), "-5");
    assert_eq!(emit_latex(c(i32::MIN)), "-2147483648");
    assert_eq!(emit_latex(c(i32::MAX)), "2147483647");
}

#[test]
fn a_product_renders_with_a_star() {
    assert_eq!(emit_latex(x() * y()), "(x) * (y)");
    assert_eq!(emit_latex(c(2) * x()), "(2) * (x)");
}

#[test]
fn a_power_renders_with_a_braced_exponent() {
    assert_eq!(emit_latex(x().pow(c(2))), "(x)^{2}");
    assert_eq!(emit_latex(x().pow(y() + c(1))), "(x)^{(y) + (1)}");
}

#[test]
fn every_operand_gets_its_parentheses() {
    assert_eq!(emit_latex((x() + c(1)) * y()), "((x) + (1)) * (y)");
    assert_eq!(
        emit_latex(((x() + c(1)) * y()).pow(c(2))),
        "(((x) + (1)) * (y))^{2}"
    );
    assert_eq!(emit_latex(x() + y() + c(-3)), "((x) + (y)) + (-3)");
    assert_eq!(
        emit_latex(c(3) * x().pow(c(2))),
        "(3) * ((x)^{2})"
    );
}

#[test]
fn nothing_is_simplified_on_the_way() {
    assert_eq!(emit_latex(c(2) + c(3)), "(2) + (3)");
    assert_eq!(emit_latex(x() * c(1)), "(x) * (1)");
    assert_eq!(emit_latex(x().pow(c(0))), "(x)^{0}");
}

#[test]
fn unsigned_constants_render_in_decimal() {
    let e: Expr<char, u32> = Expr::Variable('z') * Expr::Constant(u32::MAX);
    assert_eq!(emit_latex(e), "(z) * (4294967295)");
}
