//! Tokens: the kinds the scanner recognises, and their mathematical model.
use vstd::prelude::*;

use crate::text::{chars, string_of, CharInfo};

verus! {

/// The kind of a token, with the text it carries where it carries one.
///
/// A number carries its digits as written in the source (`12`, `12.34`); what
/// double they stand for is left to the arithmetic that evaluates them.
#[derive(Debug, Clone, PartialEq)]
pub enum TokenType {
    // Single-character tokens.
    LeftParen,
    RightParen,
    LeftBrace,
    RightBrace,
    Comma,
    Dot,
    Minus,
    Plus,
    Semicolon,
    Slash,
    Star,
    // One or two character tokens.
    Bang,
    BangEqual,
    Equal,
    EqualEqual,
    Greater,
    GreaterEqual,
    Less,
    LessEqual,
    // Literals.
    Number(String),
    String(String),
    Identifier(String),
    // Keywords.
    And,
    Class,
    Else,
    False,
    Fun,
    For,
    If,
    Nil,
    Or,
    Print,
    Return,
    Super,
    This,
    True,
    Var,
    While,
    // End of input.
    Eof,
}

/// A token with the (1-based) line on which its first character stands.
#[derive(Debug, Clone, PartialEq)]
pub struct Token {
    pub ty: TokenType,
    pub line: usize,
}

/// The model of a [`TokenType`]: the same kinds, with text as a sequence of characters.
pub enum TokenKind {
    LeftParen,
    RightParen,
    LeftBrace,
    RightBrace,
    Comma,
    Dot,
    Minus,
    Plus,
    Semicolon,
    Slash,
    Star,
    Bang,
    BangEqual,
    Equal,
    EqualEqual,
    Greater,
    GreaterEqual,
    Less,
    LessEqual,
    Number(Seq<char>),
    String(Seq<char>),
    Identifier(Seq<char>),
    And,
    Class,
    Else,
    False,
    Fun,
    For,
    If,
    Nil,
    Or,
    Print,
    Return,
    Super,
    This,
    True,
    Var,
    While,
    Eof,
}

impl View for TokenType {
    type V = TokenKind;

    open spec fn view(&self) -> TokenKind {
        match self {
            TokenType::LeftParen => TokenKind::LeftParen,
            TokenType::RightParen => TokenKind::RightParen,
            TokenType::LeftBrace => TokenKind::LeftBrace,
            TokenType::RightBrace => TokenKind::RightBrace,
            TokenType::Comma => TokenKind::Comma,
            TokenType::Dot => TokenKind::Dot,
            TokenType::Minus => TokenKind::Minus,
            TokenType::Plus => TokenKind::Plus,
            TokenType::Semicolon => TokenKind::Semicolon,
            TokenType::Slash => TokenKind::Slash,
            TokenType::Star => TokenKind::Star,
            TokenType::Bang => TokenKind::Bang,
            TokenType::BangEqual => TokenKind::BangEqual,
            TokenType::Equal => TokenKind::Equal,
            TokenType::EqualEqual => TokenKind::EqualEqual,
            TokenType::Greater => TokenKind::Greater,
            TokenType::GreaterEqual => TokenKind::GreaterEqual,
            TokenType::Less => TokenKind::Less,
            TokenType::LessEqual => TokenKind::LessEqual,
            TokenType::Number(s) => TokenKind::Number(s@),
            TokenType::String(s) => TokenKind::String(s@),
            TokenType::Identifier(s) => TokenKind::Identifier(s@),
            TokenType::And => TokenKind::And,
            TokenType::Class => TokenKind::Class,
            TokenType::Else => TokenKind::Else,
            TokenType::False => TokenKind::False,
            TokenType::Fun => TokenKind::Fun,
            TokenType::For => TokenKind::For,
            TokenType::If => TokenKind::If,
            TokenType::Nil => TokenKind::Nil,
            TokenType::Or => TokenKind::Or,
            TokenType::Print => TokenKind::Print,
            TokenType::Return => TokenKind::Return,
            TokenType::Super => TokenKind::Super,
            TokenType::This => TokenKind::This,
            TokenType::True => TokenKind::True,
            TokenType::Var => TokenKind::Var,
            TokenType::While => TokenKind::While,
            TokenType::Eof => TokenKind::Eof,
        }
    }
}

impl View for Token {
    type V = (TokenKind, nat);

    open spec fn view(&self) -> (TokenKind, nat) {
        (self.ty@, self.line as nat)
    }
}

/// The reserved word spelled by `w`, if it spells one.
pub open spec fn keyword(w: Seq<char>) -> Option<TokenKind> {
    if w == "and"@ {
        Some(TokenKind::And)
    } else if w == "class"@ {
        Some(TokenKind::Class)
    } else if w == "else"@ {
        Some(TokenKind::Else)
    } else if w == "false"@ {
        Some(TokenKind::False)
    } else if w == "fun"@ {
        Some(TokenKind::Fun)
    } else if w == "for"@ {
        Some(TokenKind::For)
    } else if w == "if"@ {
        Some(TokenKind::If)
    } else if w == "nil"@ {
        Some(TokenKind::Nil)
    } else if w == "or"@ {
        Some(TokenKind::Or)
    } else if w == "print"@ {
        Some(TokenKind::Print)
    } else if w == "return"@ {
        Some(TokenKind::Return)
    } else if w == "super"@ {
        Some(TokenKind::Super)
    } else if w == "this"@ {
        Some(TokenKind::This)
    } else if w == "true"@ {
        Some(TokenKind::True)
    } else if w == "var"@ {
        Some(TokenKind::Var)
    } else if w == "while"@ {
        Some(TokenKind::While)
    } else {
        None
    }
}

/// The token for a word (a run of alphanumeric characters and underscores):
/// its reserved word, or else an identifier carrying the word.
pub open spec fn word_token(w: Seq<char>) -> TokenKind {
    match keyword(w) {
        Some(k) => k,
        None => TokenKind::Identifier(w),
    }
}

/// The token for the word `t[from..to]`: its reserved word, or else an identifier.
pub(crate) fn word_token_of(t: &Vec<CharInfo>, from: usize, to: usize) -> (r: TokenType)
    requires
        from <= to <= t.len(),
    ensures
        r@ == word_token(chars(t@.subrange(from as int, to as int))),
{
    if spells(t, from, to, "and") {
        TokenType::And
    } else if spells(t, from, to, "class") {
        TokenType::Class
    } else if spells(t, from, to, "else") {
        TokenType::Else
    } else if spells(t, from, to, "false") {
        TokenType::False
    } else if spells(t, from, to, "fun") {
        TokenType::Fun
    } else if spells(t, from, to, "for") {
        TokenType::For
    } else if spells(t, from, to, "if") {
        TokenType::If
    } else if spells(t, from, to, "nil") {
        TokenType::Nil
    } else if spells(t, from, to, "or") {
        TokenType::Or
    } else if spells(t, from, to, "print") {
        TokenType::Print
    } else if spells(t, from, to, "return") {
        TokenType::Return
    } else if spells(t, from, to, "super") {
        TokenType::Super
    } else if spells(t, from, to, "this") {
        TokenType::This
    } else if spells(t, from, to, "true") {
        TokenType::True
    } else if spells(t, from, to, "var") {
        TokenType::Var
    } else if spells(t, from, to, "while") {
        TokenType::While
    } else {
        TokenType::Identifier(string_of(t, from, to))
    }
}

/// Whether `t[from..to]` spells `word`.
fn spells(t: &Vec<CharInfo>, from: usize, to: usize, word: &str) -> (r: bool)
    requires
        from <= to <= t.len(),
    ensures
        r == (chars(t@.subrange(from as int, to as int)) == word@),
{
    let n = word.unicode_len();
    if to - from != n {
        return false;
    }
    let mut i: usize = 0;
    while i < n
        invariant
            n == word@.len(),
            to - from == n,
            from <= to <= t.len(),
            i <= n,
            forall|j: int| 0 <= j < i ==> t@[from + j].c == word@[j],
        decreases n - i,
    {
        if t[from + i].c != word.get_char(i) {
            assert(chars(t@.subrange(from as int, to as int))[i as int] != word@[i as int]);
            return false;
        }
        i += 1;
    }
    assert(chars(t@.subrange(from as int, to as int)) =~= word@);
    true
}

} // verus!
