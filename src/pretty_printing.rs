//! Renders syntax trees in a fully parenthesised prefix form, for debugging.
use vstd::prelude::*;

use crate::expression::{BinaryExpr, Expr, GroupingExpr, Literal, Operator, Unary, UnaryExpr};
use crate::text::push_char;

verus! {

/// The source spelling of an infix operator.
pub open spec fn operator_text(op: Operator) -> Seq<char> {
    match op {
        Operator::Greater => seq!['>'],
        Operator::GreaterEqual => seq!['>', '='],
        Operator::Less => seq!['<'],
        Operator::LessEqual => seq!['<', '='],
        Operator::Equal => seq!['=', '='],
        Operator::NotEqual => seq!['!', '='],
        Operator::Minus => seq!['-'],
        Operator::Plus => seq!['+'],
        Operator::Divide => seq!['/'],
        Operator::Multiply => seq!['*'],
    }
}

/// The source spelling of a prefix operator.
pub open spec fn unary_text(u: Unary) -> Seq<char> {
    match u {
        Unary::Bang => seq!['!'],
        Unary::Minus => seq!['-'],
    }
}

/// A literal as printed: a number by its digits, a string without quotes.
pub open spec fn literal_text(l: Literal) -> Seq<char> {
    match l {
        Literal::Nil => "nil"@,
        Literal::Bool(b) => if b {
            "true"@
        } else {
            "false"@
        },
        Literal::Number(digits) => digits@,
        Literal::String(s) => s@,
    }
}

/// `(op operand)` for a prefix operator.
pub open spec fn unary_form(u: Unary, operand: Seq<char>) -> Seq<char> {
    seq!['('] + unary_text(u) + seq![' '] + operand + seq![')']
}

/// `(op left right)` for an infix operator.
pub open spec fn binary_form(op: Operator, left: Seq<char>, right: Seq<char>) -> Seq<char> {
    seq!['('] + operator_text(op) + seq![' '] + left + seq![' '] + right + seq![')']
}

/// `(group inner)` for a parenthesised expression.
pub open spec fn group_form(inner: Seq<char>) -> Seq<char> {
    "(group "@ + inner + seq![')']
}

/// An expression in prefix form.
pub open spec fn expr_text(e: Expr) -> Seq<char>
    decreases e,
{
    match e {
        Expr::Literal(l) => literal_text(l),
        Expr::Grouping(g) => group_form(expr_text(*g.expr)),
        Expr::Unary(u) => unary_form(u.unary, expr_text(*u.expr)),
        Expr::Binary(b) => binary_form(b.operator, expr_text(*b.left), expr_text(*b.right)),
    }
}

/// Printing a syntax tree node.
pub trait AstPrint {
    /// The text that the node prints as.
    spec fn ast_text(&self) -> Seq<char>;

    /// Appends the node's text to `out`.
    fn write_to(&self, out: &mut String)
        ensures
            final(out)@ == old(out)@ + self.ast_text(),
    ;

    /// The node's text.
    fn print_ast(&self) -> (r: String)
        ensures
            r@ == self.ast_text(),
    {
        let mut out = String::new();
        self.write_to(&mut out);
        out
    }
}

impl AstPrint for Operator {
    open spec fn ast_text(&self) -> Seq<char> {
        operator_text(*self)
    }

    fn write_to(&self, out: &mut String) {
        match self {
            Operator::Greater => push_char(out, '>'),
            Operator::GreaterEqual => {
                push_char(out, '>');
                push_char(out, '=');
            },
            Operator::Less => push_char(out, '<'),
            Operator::LessEqual => {
                push_char(out, '<');
                push_char(out, '=');
            },
            Operator::Equal => {
                push_char(out, '=');
                push_char(out, '=');
            },
            Operator::NotEqual => {
                push_char(out, '!');
                push_char(out, '=');
            },
            Operator::Minus => push_char(out, '-'),
            Operator::Plus => push_char(out, '+'),
            Operator::Divide => push_char(out, '/'),
            Operator::Multiply => push_char(out, '*'),
        }
        assert(out@ =~= old(out)@ + self.ast_text());
    }
}

impl AstPrint for Unary {
    open spec fn ast_text(&self) -> Seq<char> {
        unary_text(*self)
    }

    fn write_to(&self, out: &mut String) {
        match self {
            Unary::Bang => push_char(out, '!'),
            Unary::Minus => push_char(out, '-'),
        }
        assert(out@ =~= old(out)@ + self.ast_text());
    }
}

impl AstPrint for Literal {
    open spec fn ast_text(&self) -> Seq<char> {
        literal_text(*self)
    }

    fn write_to(&self, out: &mut String) {
        match self {
            Literal::Nil => out.append("nil"),
            Literal::Bool(v) => if *v {
                out.append("true")
            } else {
                out.append("false")
            },
            Literal::Number(digits) => out.append(digits.as_str()),
            Literal::String(v) => out.append(v.as_str()),
        }
    }
}

impl AstPrint for GroupingExpr {
    open spec fn ast_text(&self) -> Seq<char> {
        group_form(expr_text(*self.expr))
    }

    fn write_to(&self, out: &mut String) {
        write_grouping(self, out);
    }
}

impl AstPrint for UnaryExpr {
    open spec fn ast_text(&self) -> Seq<char> {
        unary_form(self.unary, expr_text(*self.expr))
    }

    fn write_to(&self, out: &mut String) {
        write_unary(self, out);
    }
}

impl AstPrint for BinaryExpr {
    open spec fn ast_text(&self) -> Seq<char> {
        binary_form(self.operator, expr_text(*self.left), expr_text(*self.right))
    }

    fn write_to(&self, out: &mut String) {
        write_binary(self, out);
    }
}

impl AstPrint for Expr {
    open spec fn ast_text(&self) -> Seq<char> {
        expr_text(*self)
    }

    fn write_to(&self, out: &mut String) {
        write_expr(self, out);
    }
}

fn write_expr(e: &Expr, out: &mut String)
    ensures
        final(out)@ == old(out)@ + expr_text(*e),
    decreases e,
{
    match e {
        Expr::Literal(l) => l.write_to(out),
        Expr::Grouping(g) => write_grouping(g, out),
        Expr::Unary(u) => write_unary(u, out),
        Expr::Binary(b) => write_binary(b, out),
    }
}

fn write_grouping(g: &GroupingExpr, out: &mut String)
    ensures
        final(out)@ == old(out)@ + group_form(expr_text(*g.expr)),
    decreases g,
{
    out.append("(group ");
    write_expr(&g.expr, out);
    push_char(out, ')');
    assert(out@ =~= old(out)@ + group_form(expr_text(*g.expr)));
}

fn write_unary(u: &UnaryExpr, out: &mut String)
    ensures
        final(out)@ == old(out)@ + unary_form(u.unary, expr_text(*u.expr)),
    decreases u,
{
    push_char(out, '(');
    u.unary.write_to(out);
    push_char(out, ' ');
    write_expr(&u.expr, out);
    push_char(out, ')');
    assert(out@ =~= old(out)@ + unary_form(u.unary, expr_text(*u.expr)));
}

fn write_binary(b: &BinaryExpr, out: &mut String)
    ensures
        final(out)@ == old(out)@ + binary_form(b.operator, expr_text(*b.left), expr_text(*b.right)),
    decreases b,
{
    push_char(out, '(');
    b.operator.write_to(out);
    push_char(out, ' ');
    write_expr(&b.left, out);
    push_char(out, ' ');
    write_expr(&b.right, out);
    push_char(out, ')');
    assert(out@ =~= old(out)@ + binary_form(b.operator, expr_text(*b.left), expr_text(*b.right)));
}

} // verus!
