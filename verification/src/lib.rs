//! Symbolic differentiation and simplification of algebraic expression trees.
//!
//! An [`Expr`] is a tree over variables and constants with sums, products and
//! powers. [`differentiate`] builds the derivative of a tree, [`simplify`]
//! rewrites a tree by one pass of its rules, [`simplify_to_fixed_point`]
//! repeats the passes until one changes nothing, [`emit_latex`] prints a
//! tree, and [`generate`] makes random trees to try the others on.
//!
//! The constants of a tree come from a numeric domain, a type with the
//! [`Numeric`] trait. Its arithmetic is partial, as machine arithmetic is.
//! The functions above ask that every number they compute exists in the
//! domain; their `try_` forms ask nothing and return `None` where one does
//! not.

pub mod converge;
pub mod differentiate;
pub mod domain;
pub mod expr;
pub mod fixed_point;
pub mod generate;
pub mod latex;
pub mod simplify;

pub use converge::converge;
pub use differentiate::differentiate;
pub use differentiate::try_differentiate;
pub use domain::Atom;
pub use domain::Numeric;
pub use expr::Expr;
pub use fixed_point::simplify_to_fixed_point;
pub use fixed_point::try_simplify_to_fixed_point;
pub use generate::generate;
pub use generate::generate2;
pub use latex::emit_latex;
pub use simplify::ipow;
pub use simplify::simplify;
pub use simplify::try_ipow;
pub use simplify::try_simplify;
pub use simplify::Rule;
