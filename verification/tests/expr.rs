use symdiff::Expr;

fn x() -> Expr<char, i32> {
    Expr::Variable('x')
}

fn y() -> Expr<char, i32> {
    Expr::Variable('y')
}

fn c(n: i32) -> Expr<char, i32> {
    Expr::Constant(n)
}

#[test]
fn plus_builds_a_sum_node() {
    let e = x() + c(1);
    assert!(matches!(e, Expr::Plus(_, _)));
    assert_eq!(e, Expr::Plus(Box::new(x()), Box::new(c(1))));
}

#[test]
fn star_builds_a_product_node() {
    let e = x() * c(2);
    assert!(matches!(e, Expr::Times(_, _)));
    assert_eq!(e, Expr::Times(Box::new(x()), Box::new(c(2))));
}

#[test]
fn pow_builds_a_power_node() {
    let e = x().pow(c(3));
    assert!(matches!(e, Expr::Power(_, _)));
    assert_eq!(e, Expr::Power(Box::new(x()), Box::new(c(3))));
}

#[test]
fn operators_do_not_evaluate() {
    assert_ne!(c(2) + c(3), c(5));
    assert_ne!(c(2) * c(3), c(6));
    assert_ne!(c(2).pow(c(3)), c(8));
}

#[test]
fn operators_nest_to_the_left() {
    let e = x() + y() + c(2);
    assert_eq!(e, Expr::Plus(Box::new(x() + y()), Box::new(c(2))));
    let f = x() * y() * c(2);
    assert_eq!(f, Expr::Times(Box::new(x() * y()), Box::new(c(2))));
    let g = x() + y() * c(2);
    assert_eq!(g, Expr::Plus(Box::new(x()), Box::new(y() * c(2))));
}

#[test]
fn equality_is_structural() {
    assert_eq!(x(), x());
    assert_ne!(x(), y());
    assert_eq!(c(4), c(4));
    assert_ne!(c(4), c(5));
    assert_ne!(x() + y(), y() + x());
    assert_ne!(x() + y(), x() * y());
    assert_ne!(x() * y(), x().pow(y()));
    assert_ne!(x() + x(), c(2) * x());
    assert_eq!((x() + y()) * c(2), (x() + y()) * c(2));
    assert_ne!((x() + y()) * c(2), (x() + y()) * c(3));
}

#[test]
fn a_variable_is_no_constant() {
    let v: Expr<i32, i32> = Expr::Variable(1);
    let k: Expr<i32, i32> = Expr::Constant(1);
    assert_ne!(v, k);
    assert!(v.same(&Expr::Variable(1)));
    assert!(!v.same(&k));
}

#[test]
fn same_agrees_with_equality() {
    let e = (x() + c(1)).pow(c(2)) * y();
    assert!(e.same(&((x() + c(1)).pow(c(2)) * y())));
    assert!(!e.same(&((x() + c(1)).pow(c(3)) * y())));
    assert!(!e.same(&x()));
}

#[test]
fn clone_copies_the_whole_tree() {
    let e = (x() + c(1)).pow(c(2)) * (y() + c(-7));
    let f = e.clone();
    assert_eq!(e, f);
    assert_eq!(f, (x() + c(1)).pow(c(2)) * (y() + c(-7)));
}

#[test]
fn trees_over_other_leaf_types_can_be_built_and_shown() {
    let e = (Expr::Variable("x") + Expr::Constant(42)).pow(Expr::Constant(2) * Expr::Variable("y"));
    assert_eq!(
        format!("{:?}", e),
        "Power(Plus(Variable(\"x\"), Constant(42)), Times(Constant(2), Variable(\"y\")))"
    );
}
