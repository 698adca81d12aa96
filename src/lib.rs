//! Front half of a tree-walking interpreter for a small expression language:
//! a scanner, a precedence-climbing parser, an evaluator, and an AST printer.
pub mod text;
pub mod token;
pub mod scanner;
pub mod expression;
pub mod parse;
pub mod interpret;
pub mod pretty_printing;
