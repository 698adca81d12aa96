//! The syntax tree that the parser builds and the evaluator and printer walk.
//!
//! ```text
//! expression     → equality ;
//! equality       → comparison ( ( "!=" | "==" ) comparison )* ;
//! comparison     → term ( ( ">" | ">=" | "<" | "<=" ) term )* ;
//! term           → factor ( ( "-" | "+" ) factor )* ;
//! factor         → unary ( ( "/" | "*" ) unary )* ;
//! unary          → ( "!" | "-" ) unary
//!                | primary ;
//! primary        → NUMBER | STRING | "true" | "false" | "nil"
//!                | "(" expression ")" ;
//! ```
use vstd::prelude::*;

verus! {

/// A literal; a number keeps its digits as written in the source.
#[derive(Debug, Clone, PartialEq)]
pub enum Literal {
    Nil,
    Bool(bool),
    Number(String),
    String(String),
}

/// A prefix operator.
#[derive(Debug, Clone, Copy, PartialEq, Eq)]
pub enum Unary {
    /// Logical negation, `!`.
    Bang,
    /// Arithmetic negation, `-`.
    Minus,
}

/// An expression; each node owns its children.
#[derive(Debug, PartialEq)]
pub enum Expr {
    Grouping(GroupingExpr),
    Unary(UnaryExpr),
    Binary(BinaryExpr),
    Literal(Literal),
}

/// An infix operator.
#[derive(Debug, Clone, Copy, PartialEq, Eq)]
pub enum Operator {
    Greater,
    GreaterEqual,
    Less,
    LessEqual,
    Equal,
    NotEqual,
    Minus,
    Plus,
    Divide,
    Multiply,
}

#[derive(Debug, PartialEq)]
pub struct BinaryExpr {
    pub left: Box<Expr>,
    pub operator: Operator,
    pub right: Box<Expr>,
}

#[derive(Debug, PartialEq)]
pub struct UnaryExpr {
    pub unary: Unary,
    pub expr: Box<Expr>,
}

/// A parenthesised expression.
#[derive(Debug, PartialEq)]
pub struct GroupingExpr {
    pub expr: Box<Expr>,
}

} // verus!
