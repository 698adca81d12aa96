//! The parser: recursive descent over the precedence levels of the grammar.
//!
//! Levels are numbered from the loosest binding: 4 is equality, 3 comparison,
//! 2 term, 1 factor, and 0 the prefix operators with the primary forms.
use vstd::prelude::*;

use crate::expression::{BinaryExpr, Expr, GroupingExpr, Literal, Operator, Unary, UnaryExpr};
use crate::token::{Token, TokenType};

verus! {

/// Why a token sequence does not parse; each names the position of the
/// offending token in the sequence.
#[derive(Debug, Clone, Copy, PartialEq, Eq)]
pub enum ParseError {
    /// No expression starts at this token.
    ExpectedExpression(usize),
    /// A group opened earlier is not closed at this token.
    ExpectedRightParen(usize),
}

/// The kind of the token at `pos`, if there is one.
pub open spec fn token_at(toks: Seq<Token>, pos: int) -> Option<TokenType> {
    if 0 <= pos < toks.len() {
        Some(toks[pos].ty)
    } else {
        None
    }
}

/// The binary operator that a token stands for at a precedence level.
pub open spec fn level_operator(level: nat, t: TokenType) -> Option<Operator> {
    match t {
        TokenType::BangEqual if level == 4 => Some(Operator::NotEqual),
        TokenType::EqualEqual if level == 4 => Some(Operator::Equal),
        TokenType::Greater if level == 3 => Some(Operator::Greater),
        TokenType::GreaterEqual if level == 3 => Some(Operator::GreaterEqual),
        TokenType::Less if level == 3 => Some(Operator::Less),
        TokenType::LessEqual if level == 3 => Some(Operator::LessEqual),
        TokenType::Minus if level == 2 => Some(Operator::Minus),
        TokenType::Plus if level == 2 => Some(Operator::Plus),
        TokenType::Slash if level == 1 => Some(Operator::Divide),
        TokenType::Star if level == 1 => Some(Operator::Multiply),
        _ => None,
    }
}

/// The prefix operator that a token stands for.
pub open spec fn prefix_operator(t: TokenType) -> Option<Unary> {
    match t {
        TokenType::Bang => Some(Unary::Bang),
        TokenType::Minus => Some(Unary::Minus),
        _ => None,
    }
}

pub open spec fn binary(left: Expr, operator: Operator, right: Expr) -> Expr {
    Expr::Binary(BinaryExpr { left: Box::new(left), operator, right: Box::new(right) })
}

/// Parsing at a precedence level from `pos`: the expression and the position
/// after it, or the error.
pub open spec fn parse_level(toks: Seq<Token>, level: nat, pos: int) -> Result<(Expr, int), ParseError>
    decreases toks.len() - pos, level, 1nat,
{
    if level > 0 {
        match parse_level(toks, (level - 1) as nat, pos) {
            Ok((left, p)) => if pos < p <= toks.len() {
                parse_rest(toks, level, left, p)
            } else {
                Ok((left, p))
            },
            Err(e) => Err(e),
        }
    } else if 0 <= pos < toks.len() {
        match prefix_operator(toks[pos].ty) {
            Some(unary) => match parse_level(toks, 0, pos + 1) {
                Ok((e, p)) => Ok((Expr::Unary(UnaryExpr { unary, expr: Box::new(e) }), p)),
                Err(e) => Err(e),
            },
            None => parse_primary(toks, pos),
        }
    } else {
        Err(ParseError::ExpectedExpression(pos as usize))
    }
}

/// A primary form at `pos`, which is a position in `toks`.
pub open spec fn parse_primary(toks: Seq<Token>, pos: int) -> Result<(Expr, int), ParseError>
    decreases toks.len() - pos, 0nat, 0nat,
{
    if 0 <= pos < toks.len() {
        let literal = |l: Literal| Ok((Expr::Literal(l), pos + 1));
        match toks[pos].ty {
            TokenType::False => literal(Literal::Bool(false)),
            TokenType::True => literal(Literal::Bool(true)),
            TokenType::Nil => literal(Literal::Nil),
            TokenType::Number(v) => literal(Literal::Number(v)),
            TokenType::String(v) => literal(Literal::String(v)),
            TokenType::LeftParen => match parse_level(toks, 4, pos + 1) {
                Ok((e, p)) => if token_at(toks, p) == Some(TokenType::RightParen) {
                    Ok((Expr::Grouping(GroupingExpr { expr: Box::new(e) }), p + 1))
                } else {
                    Err(ParseError::ExpectedRightParen(p as usize))
                },
                Err(e) => Err(e),
            },
            _ => Err(ParseError::ExpectedExpression(pos as usize)),
        }
    } else {
        Err(ParseError::ExpectedExpression(pos as usize))
    }
}

/// The `(operator operand)*` tail of a binary level, folded to the left onto
/// `left`, from `pos`.
pub open spec fn parse_rest(toks: Seq<Token>, level: nat, left: Expr, pos: int) -> Result<(Expr, int), ParseError>
    decreases toks.len() - pos, level, 1nat,
{
    if 0 <= pos < toks.len() && level > 0 {
        match level_operator(level, toks[pos].ty) {
            Some(op) => match parse_level(toks, (level - 1) as nat, pos + 1) {
                Ok((right, p)) => if pos < p <= toks.len() {
                    parse_rest(toks, level, binary(left, op, right), p)
                } else {
                    Ok((binary(left, op, right), p))
                },
                Err(e) => Err(e),
            },
            None => Ok((left, pos)),
        }
    } else {
        Ok((left, pos))
    }
}

/// A parser over a token sequence, reading from a position in it.
pub struct Parser {
    tokens: Vec<Token>,
    position: usize,
}

impl Parser {
    /// The position never passes the end of the tokens.
    #[verifier::type_invariant]
    spec fn position_in_bounds(&self) -> bool {
        self.position <= self.tokens.len()
    }

    /// The tokens being parsed.
    pub closed spec fn tokens(&self) -> Seq<Token> {
        self.tokens@
    }

    /// The position of the next token to read.
    pub closed spec fn position(&self) -> nat {
        self.position as nat
    }

    /// A parser at the start of `tokens`.
    pub fn new(tokens: Vec<Token>) -> (r: Self)
        ensures
            r.tokens() == tokens@,
            r.position() == 0,
    {
        Self { tokens, position: 0 }
    }

    /// Parses one expression (an equality, the loosest level) from the
    /// current position; the tokens after it are not read.
    pub fn parse(self) -> (r: Result<Expr, ParseError>)
        ensures
            r == match parse_level(self.tokens(), 4, self.position() as int) {
                Ok((e, _)) => Ok(e),
                Err(e) => Err(e),
            },
    {
        proof {
            use_type_invariant(&self);
        }
        let mut parser = self;
        parser.expression()
    }

    fn peek(&self) -> (r: Option<&TokenType>)
        ensures
            r == match token_at(self.tokens@, self.position as int) {
                Some(t) => Some(&t),
                None => None,
            },
    {
        if self.position < self.tokens.len() {
            Some(&self.tokens[self.position].ty)
        } else {
            None
        }
    }

    fn expression(&mut self) -> (r: Result<Expr, ParseError>)
        requires
            old(self).position <= old(self).tokens.len(),
        ensures
            final(self).tokens@ == old(self).tokens@,
            final(self).position <= final(self).tokens.len(),
            r is Ok ==> final(self).position > old(self).position,
            match parse_level(old(self).tokens@, 4, old(self).position as int) {
                Ok((e, p)) => r == Ok::<Expr, ParseError>(e) && final(self).position == p,
                Err(e) => r == Err::<Expr, ParseError>(e),
            },
        decreases old(self).tokens.len() - old(self).position, 5nat, 0nat,
    {
        self.level(4)
    }

    /// The operator at the current token for a binary level.
    fn operator(&self, level: u8) -> (r: Option<Operator>)
        ensures
            r == match token_at(self.tokens@, self.position as int) {
                Some(t) => level_operator(level as nat, t),
                None => None,
            },
    {
        match (level, self.peek()) {
            (4, Some(TokenType::BangEqual)) => Some(Operator::NotEqual),
            (4, Some(TokenType::EqualEqual)) => Some(Operator::Equal),
            (3, Some(TokenType::Greater)) => Some(Operator::Greater),
            (3, Some(TokenType::GreaterEqual)) => Some(Operator::GreaterEqual),
            (3, Some(TokenType::Less)) => Some(Operator::Less),
            (3, Some(TokenType::LessEqual)) => Some(Operator::LessEqual),
            (2, Some(TokenType::Minus)) => Some(Operator::Minus),
            (2, Some(TokenType::Plus)) => Some(Operator::Plus),
            (1, Some(TokenType::Slash)) => Some(Operator::Divide),
            (1, Some(TokenType::Star)) => Some(Operator::Multiply),
            _ => None,
        }
    }

    /// Parses at a precedence level: for a binary level, operands of the next
    /// tighter level joined by this level's operators, left-associated.
    fn level(&mut self, level: u8) -> (r: Result<Expr, ParseError>)
        requires
            level <= 4,
            old(self).position <= old(self).tokens.len(),
        ensures
            final(self).tokens@ == old(self).tokens@,
            final(self).position <= final(self).tokens.len(),
            r is Ok ==> final(self).position > old(self).position,
            match parse_level(old(self).tokens@, level as nat, old(self).position as int) {
                Ok((e, p)) => r == Ok::<Expr, ParseError>(e) && final(self).position == p,
                Err(e) => r == Err::<Expr, ParseError>(e),
            },
        decreases old(self).tokens.len() - old(self).position, level, 2nat,
    {
        if level == 0 {
            return self.unary();
        }
        let ghost toks = self.tokens@;
        let ghost start = self.position as int;
        let mut left = self.level(level - 1)?;
        loop
            invariant
                self.tokens@ == toks,
                toks == old(self).tokens@,
                start == old(self).position,
                1 <= level <= 4,
                start < self.position <= self.tokens.len(),
                parse_level(toks, level as nat, start) == parse_rest(toks, level as nat, left, self.position as int),
            ensures
                self.tokens@ == toks,
                start < self.position <= self.tokens.len(),
                parse_level(toks, level as nat, start) == Ok::<(Expr, int), ParseError>((left, self.position as int)),
            decreases self.tokens.len() - self.position,
        {
            let operator = match self.operator(level) {
                Some(operator) => operator,
                None => break,
            };
            self.position += 1;
            let right = self.level(level - 1)?;
            left = Expr::Binary(BinaryExpr { left: Box::new(left), operator, right: Box::new(right) });
        }
        Ok(left)
    }

    fn unary(&mut self) -> (r: Result<Expr, ParseError>)
        requires
            old(self).position <= old(self).tokens.len(),
        ensures
            final(self).tokens@ == old(self).tokens@,
            final(self).position <= final(self).tokens.len(),
            r is Ok ==> final(self).position > old(self).position,
            match parse_level(old(self).tokens@, 0, old(self).position as int) {
                Ok((e, p)) => r == Ok::<Expr, ParseError>(e) && final(self).position == p,
                Err(e) => r == Err::<Expr, ParseError>(e),
            },
        decreases old(self).tokens.len() - old(self).position, 0nat, 1nat,
    {
        let unary = match self.peek() {
            Some(TokenType::Bang) => Unary::Bang,
            Some(TokenType::Minus) => Unary::Minus,
            _ => return self.primary(),
        };
        self.position += 1;
        let expr = self.unary()?;
        Ok(Expr::Unary(UnaryExpr { unary, expr: Box::new(expr) }))
    }

    fn primary(&mut self) -> (r: Result<Expr, ParseError>)
        requires
            old(self).position <= old(self).tokens.len(),
        ensures
            final(self).tokens@ == old(self).tokens@,
            final(self).position <= final(self).tokens.len(),
            r is Ok ==> final(self).position > old(self).position,
            match parse_primary(old(self).tokens@, old(self).position as int) {
                Ok((e, p)) => r == Ok::<Expr, ParseError>(e) && final(self).position == p,
                Err(e) => r == Err::<Expr, ParseError>(e),
            },
        decreases old(self).tokens.len() - old(self).position, 0nat, 0nat,
    {
        let position = self.position;
        let literal = match self.peek() {
            Some(TokenType::False) => Literal::Bool(false),
            Some(TokenType::True) => Literal::Bool(true),
            Some(TokenType::Nil) => Literal::Nil,
            Some(TokenType::Number(value)) => Literal::Number(value.clone()),
            Some(TokenType::String(value)) => Literal::String(value.clone()),
            Some(TokenType::LeftParen) => {
                self.position += 1;
                let expr = self.expression()?;
                if let Some(TokenType::RightParen) = self.peek() {
                    self.position += 1;
                    return Ok(Expr::Grouping(GroupingExpr { expr: Box::new(expr) }));
                }
                return Err(ParseError::ExpectedRightParen(self.position));
            },
            _ => return Err(ParseError::ExpectedExpression(position)),
        };
        self.position += 1;
        Ok(Expr::Literal(literal))
    }
}

} // verus!
