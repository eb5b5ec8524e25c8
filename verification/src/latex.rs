//! Rendering an expression as LaTeX.
//!
//! The text follows the tree and nothing else: every operand stands in
//! parentheses of its own, whether it needs them or not, so that the text can
//! be read back without knowing any precedence.

use crate::domain::Atom;
use crate::expr::Expr;
use vstd::prelude::*;
use vstd::string::StringExecFns;

verus! {

/// The LaTeX text of `e`: a leaf is its own text, a sum is `(A) + (B)`, a
/// product is `(A) * (B)` and a power is `(A)^{B}`.
pub open spec fn latex<T: Atom, U: Atom>(e: Expr<T, U>) -> Seq<char>
    decreases e,
{
    match e {
        Expr::Variable(x) => x.text(),
        Expr::Constant(c) => c.text(),
        Expr::Plus(a, b) => seq!['('] + latex(*a) + seq![')', ' ', '+', ' ', '('] + latex(*b)
            + seq![')'],
        Expr::Times(a, b) => seq!['('] + latex(*a) + seq![')', ' ', '*', ' ', '('] + latex(*b)
            + seq![')'],
        Expr::Power(a, b) => seq!['('] + latex(*a) + seq![')', '^', '{'] + latex(*b) + seq!['}'],
    }
}

/// Writes `open`, the text of `a`, `between`, the text of `b` and `close`.
fn write_node<T: Atom, U: Atom>(
    out: &mut String,
    open: &str,
    a: &Expr<T, U>,
    between: &str,
    b: &Expr<T, U>,
    close: &str,
)
    ensures
        final(out)@ == old(out)@ + (open@ + latex(*a) + between@ + latex(*b) + close@),
    decreases
            if a.height() >= b.height() {
                a.height() + 1
            } else {
                b.height() + 1
            },
            0nat,
{
    out.append(open);
    write_latex(a, out);
    out.append(between);
    write_latex(b, out);
    out.append(close);
}

/// Appends the LaTeX text of `e` to `out`.
fn write_latex<T: Atom, U: Atom>(e: &Expr<T, U>, out: &mut String)
    ensures
        final(out)@ == old(out)@ + latex(*e),
    decreases e.height(), 1nat,
{
    match e {
        Expr::Variable(x) => {
            let leaf = x.render();
            out.append(leaf.as_str());
        },
        Expr::Constant(c) => {
            let leaf = c.render();
            out.append(leaf.as_str());
        },
        Expr::Plus(a, b) => {
            proof {
                reveal_strlit("(");
                reveal_strlit(") + (");
                reveal_strlit(")");
            }
            write_node(out, "(", &**a, ") + (", &**b, ")");
        },
        Expr::Times(a, b) => {
            proof {
                reveal_strlit("(");
                reveal_strlit(") * (");
                reveal_strlit(")");
            }
            write_node(out, "(", &**a, ") * (", &**b, ")");
        },
        Expr::Power(a, b) => {
            proof {
                reveal_strlit("(");
                reveal_strlit(")^{");
                reveal_strlit("}");
            }
            write_node(out, "(", &**a, ")^{", &**b, "}");
        },
    }
}

/// The LaTeX text of `e`.
pub fn emit_latex<T: Atom, U: Atom>(e: Expr<T, U>) -> (r: String)
    ensures
        r@ == latex(e),
{
    let mut out = String::new();
    write_latex(&e, &mut out);
    out
}

} // verus!
