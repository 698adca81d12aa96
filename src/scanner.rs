//! The scanner: source text to tokens, with a diagnostic for each span it skips.
use vstd::prelude::*;

use crate::text::{chars, classified, classify, string_of, CharInfo};
use crate::token::{word_token, word_token_of, Token, TokenKind, TokenType};

verus! {

/// A problem found while scanning; the offending span yields no token.
#[derive(Debug, Clone, Copy, PartialEq, Eq)]
pub enum ScanError {
    /// A character that can start no token.
    InvalidCharacter(char),
    /// A string literal that the input ends inside of.
    UnterminatedString,
}

/// A scan error with the line on which the offending span starts.
#[derive(Debug, Clone, Copy, PartialEq, Eq)]
pub struct ScanDiagnostic {
    pub line: usize,
    pub error: ScanError,
}

impl View for ScanDiagnostic {
    type V = (nat, ScanError);

    open spec fn view(&self) -> (nat, ScanError) {
        (self.line as nat, self.error)
    }
}

/// The classes of characters that the scanner consumes in runs.
pub enum CharClass {
    Whitespace,
    Digit,
    /// Alphanumeric characters and `_`.
    Word,
    /// Every character but the one given.
    Except(char),
}

pub open spec fn is_digit(c: char) -> bool {
    '0' <= c <= '9'
}

pub open spec fn in_class(x: CharInfo, class: CharClass) -> bool {
    match class {
        CharClass::Whitespace => x.space,
        CharClass::Digit => is_digit(x.c),
        CharClass::Word => x.alnum || x.c == '_',
        CharClass::Except(t) => x.c != t,
    }
}

/// Where the run of `class` characters that starts at `i` ends.
pub open spec fn run_end(s: Seq<CharInfo>, i: int, class: CharClass) -> int
    decreases s.len() - i,
{
    if 0 <= i < s.len() && in_class(s[i], class) {
        run_end(s, i + 1, class)
    } else {
        i
    }
}

/// The number of `'\n'` in `s[from..to]`.
pub open spec fn newlines(s: Seq<CharInfo>, from: int, to: int) -> nat
    decreases to - from,
{
    if from < to {
        newlines(s, from, to - 1) + if s[to - 1].c == '\n' {
            1nat
        } else {
            0nat
        }
    } else {
        0
    }
}

/// Whether `s[i]` exists and is `c`.
pub open spec fn char_at(s: Seq<CharInfo>, i: int, c: char) -> bool {
    0 <= i < s.len() && s[i].c == c
}

/// A one-character token, or its two-character form where `s[p + 1]` is `=`.
pub open spec fn one_or_two(s: Seq<CharInfo>, p: int, one: TokenKind, two: TokenKind) -> (
    int,
    Result<Option<TokenKind>, ScanError>,
) {
    if char_at(s, p + 1, '=') {
        (p + 2, Ok(Some(two)))
    } else {
        (p + 1, Ok(Some(one)))
    }
}

/// What the characters starting at `s[p]` (not whitespace) scan to: where the
/// scan ends, and the token found, nothing (a comment), or an error.
pub open spec fn lex(s: Seq<CharInfo>, p: int) -> (int, Result<Option<TokenKind>, ScanError>) {
    let c = s[p].c;
    let single = |k: TokenKind| (p + 1, Ok(Some(k)));
    if c == '(' {
        single(TokenKind::LeftParen)
    } else if c == ')' {
        single(TokenKind::RightParen)
    } else if c == '{' {
        single(TokenKind::LeftBrace)
    } else if c == '}' {
        single(TokenKind::RightBrace)
    } else if c == '.' {
        single(TokenKind::Dot)
    } else if c == ',' {
        single(TokenKind::Comma)
    } else if c == '-' {
        single(TokenKind::Minus)
    } else if c == '+' {
        single(TokenKind::Plus)
    } else if c == ';' {
        single(TokenKind::Semicolon)
    } else if c == '*' {
        single(TokenKind::Star)
    } else if c == '/' {
        if char_at(s, p + 1, '/') {
            // A comment runs through the end of its line.
            let q = run_end(s, p + 2, CharClass::Except('\n'));
            (if q < s.len() { q + 1 } else { q }, Ok(None))
        } else {
            single(TokenKind::Slash)
        }
    } else if c == '!' {
        one_or_two(s, p, TokenKind::Bang, TokenKind::BangEqual)
    } else if c == '=' {
        one_or_two(s, p, TokenKind::Equal, TokenKind::EqualEqual)
    } else if c == '>' {
        one_or_two(s, p, TokenKind::Greater, TokenKind::GreaterEqual)
    } else if c == '<' {
        one_or_two(s, p, TokenKind::Less, TokenKind::LessEqual)
    } else if c == '"' {
        let q = run_end(s, p + 1, CharClass::Except('"'));
        if q < s.len() {
            (q + 1, Ok(Some(TokenKind::String(chars(s.subrange(p + 1, q))))))
        } else {
            (q, Err(ScanError::UnterminatedString))
        }
    } else if is_digit(c) {
        let q = run_end(s, p, CharClass::Digit);
        // The fraction belongs to the number only where a digit follows the dot.
        let r = if char_at(s, q, '.') && q + 1 < s.len() && is_digit(s[q + 1].c) {
            run_end(s, q + 1, CharClass::Digit)
        } else {
            q
        };
        (r, Ok(Some(TokenKind::Number(chars(s.subrange(p, r))))))
    } else if in_class(s[p], CharClass::Word) {
        let q = run_end(s, p, CharClass::Word);
        (q, Ok(Some(word_token(chars(s.subrange(p, q))))))
    } else {
        (p + 1, Err(ScanError::InvalidCharacter(c)))
    }
}

/// One step of the scanner from `s[pos]`: where the skipped whitespace ends
/// (the span scanned starts there), where the step ends, and its outcome;
/// `Ok(None)` at the end of input and after a comment.
pub open spec fn scan_step(s: Seq<CharInfo>, pos: int) -> (int, int, Result<Option<TokenKind>, ScanError>) {
    let p = run_end(s, pos, CharClass::Whitespace);
    if p < s.len() {
        let (next, outcome) = lex(s, p);
        (p, next, outcome)
    } else {
        (p, p, Ok(None))
    }
}

pub proof fn lemma_run_end(s: Seq<CharInfo>, i: int, class: CharClass)
    requires
        0 <= i <= s.len(),
    ensures
        i <= run_end(s, i, class) <= s.len(),
        forall|j: int| i <= j < run_end(s, i, class) ==> in_class(#[trigger] s[j], class),
        run_end(s, i, class) < s.len() ==> !in_class(s[run_end(s, i, class)], class),
    decreases s.len() - i,
{
    if i < s.len() && in_class(s[i], class) {
        lemma_run_end(s, i + 1, class);
    }
}

pub proof fn lemma_scan_step_bounds(s: Seq<CharInfo>, pos: int)
    requires
        0 <= pos <= s.len(),
    ensures
        pos <= scan_step(s, pos).0 <= scan_step(s, pos).1 <= s.len(),
        pos < s.len() ==> pos < scan_step(s, pos).1,
{
    let p = run_end(s, pos, CharClass::Whitespace);
    lemma_run_end(s, pos, CharClass::Whitespace);
    if p < s.len() {
        let c = s[p].c;
        if c == '/' && char_at(s, p + 1, '/') {
            lemma_run_end(s, p + 2, CharClass::Except('\n'));
        } else if c == '"' {
            lemma_run_end(s, p + 1, CharClass::Except('"'));
        } else if is_digit(c) {
            lemma_run_end(s, p, CharClass::Digit);
            let q = run_end(s, p, CharClass::Digit);
            if char_at(s, q, '.') && q + 1 < s.len() && is_digit(s[q + 1].c) {
                lemma_run_end(s, q + 1, CharClass::Digit);
            }
        } else if in_class(s[p], CharClass::Word) {
            lemma_run_end(s, p, CharClass::Word);
        }
    }
}

/// Scanning `s` from `pos`, with `line` the line on which `s[pos]` stands: the
/// tokens with their lines, ending in the end-of-input token, and the errors
/// with the lines on which they start.
pub open spec fn scan_from(s: Seq<CharInfo>, pos: int, line: nat) -> (Seq<(TokenKind, nat)>, Seq<(nat, ScanError)>)
    decreases s.len() - pos,
{
    if 0 <= pos < s.len() {
        let (start, next, outcome) = scan_step(s, pos);
        proof {
            lemma_scan_step_bounds(s, pos);
        }
        let at = line + newlines(s, pos, start);
        let rest = scan_from(s, next, line + newlines(s, pos, next));
        match outcome {
            Ok(Some(k)) => (seq![(k, at)] + rest.0, rest.1),
            Ok(None) => rest,
            Err(e) => (rest.0, seq![(at, e)] + rest.1),
        }
    } else {
        (seq![(TokenKind::Eof, line)], seq![])
    }
}

/// The tokens and the scan errors of a whole (classified) source text, lines counted from 1.
pub open spec fn scan(s: Seq<CharInfo>) -> (Seq<(TokenKind, nat)>, Seq<(nat, ScanError)>) {
    scan_from(s, 0, 1)
}

pub proof fn lemma_newlines_split(s: Seq<CharInfo>, a: int, b: int, c: int)
    requires
        a <= b <= c,
    ensures
        newlines(s, a, b) + newlines(s, b, c) == newlines(s, a, c),
        newlines(s, a, b) <= b - a,
    decreases c - a,
{
    if b < c {
        lemma_newlines_split(s, a, b, c - 1);
    } else if a < b {
        lemma_newlines_split(s, a, b - 1, b - 1);
    }
}

/// The scanner's output ends with exactly one end-of-input token.
pub proof fn lemma_scan_ends_with_eof(s: Seq<CharInfo>, pos: int, line: nat)
    ensures
        scan_from(s, pos, line).0.len() >= 1,
        scan_from(s, pos, line).0.last().0 == TokenKind::Eof,
        forall|i: int|
            0 <= i < scan_from(s, pos, line).0.len() - 1 ==> (#[trigger] scan_from(s, pos, line).0[i]).0
                != TokenKind::Eof,
    decreases s.len() - pos,
{
    if 0 <= pos < s.len() {
        let (start, next, outcome) = scan_step(s, pos);
        lemma_scan_step_bounds(s, pos);
        lemma_scan_ends_with_eof(s, next, line + newlines(s, pos, next));
        let rest = scan_from(s, next, line + newlines(s, pos, next));
        if let Ok(Some(k)) = outcome {
            lemma_lex_never_eof(s, start);
            let at = line + newlines(s, pos, start);
            assert forall|i: int| 0 <= i < scan_from(s, pos, line).0.len() - 1 implies (#[trigger] scan_from(s, pos, line).0[i]).0
                != TokenKind::Eof by {
                if i > 0 {
                    assert(scan_from(s, pos, line).0[i] == rest.0[i - 1]);
                }
            }
        }
    }
}

proof fn lemma_lex_never_eof(s: Seq<CharInfo>, p: int)
    requires
        0 <= p < s.len(),
    ensures
        lex(s, p).1 != Ok::<Option<TokenKind>, ScanError>(Some(TokenKind::Eof)),
{
}

fn in_class_exec(x: CharInfo, class: &CharClass) -> (r: bool)
    ensures
        r == in_class(x, *class),
{
    match class {
        CharClass::Whitespace => x.space,
        CharClass::Digit => '0' <= x.c && x.c <= '9',
        CharClass::Word => x.alnum || x.c == '_',
        CharClass::Except(t) => x.c != *t,
    }
}

fn skip_run(chars: &Vec<CharInfo>, i: usize, class: CharClass) -> (r: usize)
    requires
        i <= chars.len(),
    ensures
        r == run_end(chars@, i as int, class),
{
    let mut j = i;
    while j < chars.len() && in_class_exec(chars[j], &class)
        invariant
            i <= j <= chars.len(),
            run_end(chars@, j as int, class) == run_end(chars@, i as int, class),
        decreases chars.len() - j,
    {
        j += 1;
    }
    j
}

fn count_newlines(chars: &Vec<CharInfo>, from: usize, to: usize) -> (r: usize)
    requires
        from <= to <= chars.len(),
    ensures
        r == newlines(chars@, from as int, to as int),
{
    let mut n: usize = 0;
    let mut i = from;
    while i < to
        invariant
            from <= i <= to <= chars.len(),
            n == newlines(chars@, from as int, i as int),
            n <= i - from,
        decreases to - i,
    {
        if chars[i].c == '\n' {
            n += 1;
        }
        i += 1;
    }
    n
}


/// The model of a scan outcome.
pub open spec fn outcome_view(o: Result<Option<TokenType>, ScanError>) -> Result<Option<TokenKind>, ScanError> {
    match o {
        Ok(Some(t)) => Ok(Some(t@)),
        Ok(None) => Ok(None),
        Err(e) => Err(e),
    }
}

fn single(p: usize, t: TokenType) -> (r: (usize, Result<Option<TokenType>, ScanError>))
    requires
        p < usize::MAX,
    ensures
        r.0 == p + 1,
        r.1 == Ok::<Option<TokenType>, ScanError>(Some(t)),
{
    (p + 1, Ok(Some(t)))
}

fn one_or_two_at(chars: &Vec<CharInfo>, p: usize, one: TokenType, two: TokenType) -> (r: (usize, Result<Option<TokenType>, ScanError>))
    requires
        p < chars.len(),
    ensures
        r.0 == one_or_two(chars@, p as int, one@, two@).0,
        outcome_view(r.1) == one_or_two(chars@, p as int, one@, two@).1,
{
    if p + 1 < chars.len() && chars[p + 1].c == '=' {
        (p + 2, Ok(Some(two)))
    } else {
        (p + 1, Ok(Some(one)))
    }
}

fn lex_at(chars: &Vec<CharInfo>, p: usize) -> (r: (usize, Result<Option<TokenType>, ScanError>))
    requires
        p < chars.len(),
    ensures
        r.0 == lex(chars@, p as int).0,
        outcome_view(r.1) == lex(chars@, p as int).1,
{
    let s = Ghost(chars@);
    let c = chars[p].c;
    match c {
        '(' => single(p, TokenType::LeftParen),
        ')' => single(p, TokenType::RightParen),
        '{' => single(p, TokenType::LeftBrace),
        '}' => single(p, TokenType::RightBrace),
        '.' => single(p, TokenType::Dot),
        ',' => single(p, TokenType::Comma),
        '-' => single(p, TokenType::Minus),
        '+' => single(p, TokenType::Plus),
        ';' => single(p, TokenType::Semicolon),
        '*' => single(p, TokenType::Star),
        '/' => {
            if p + 1 < chars.len() && chars[p + 1].c == '/' {
                let q = skip_run(chars, p + 2, CharClass::Except('\n'));
                proof {
                    lemma_run_end(s@, p + 2, CharClass::Except('\n'));
                }
                (if q < chars.len() { q + 1 } else { q }, Ok(None))
            } else {
                single(p, TokenType::Slash)
            }
        },
        '!' => one_or_two_at(chars, p, TokenType::Bang, TokenType::BangEqual),
        '=' => one_or_two_at(chars, p, TokenType::Equal, TokenType::EqualEqual),
        '>' => one_or_two_at(chars, p, TokenType::Greater, TokenType::GreaterEqual),
        '<' => one_or_two_at(chars, p, TokenType::Less, TokenType::LessEqual),
        '"' => {
            let q = skip_run(chars, p + 1, CharClass::Except('"'));
            proof {
                lemma_run_end(s@, p + 1, CharClass::Except('"'));
            }
            if q < chars.len() {
                (q + 1, Ok(Some(TokenType::String(string_of(chars, p + 1, q)))))
            } else {
                (q, Err(ScanError::UnterminatedString))
            }
        },
        '0'..='9' => {
            let q = skip_run(chars, p, CharClass::Digit);
            proof {
                lemma_run_end(s@, p as int, CharClass::Digit);
            }
            let r = if chars.len() - q > 1 && chars[q].c == '.' && '0' <= chars[q + 1].c && chars[q + 1].c <= '9' {
                let r = skip_run(chars, q + 1, CharClass::Digit);
                proof {
                    lemma_run_end(s@, q + 1, CharClass::Digit);
                }
                r
            } else {
                q
            };
            (r, Ok(Some(TokenType::Number(string_of(chars, p, r)))))
        },
        _ => {
            if in_class_exec(chars[p], &CharClass::Word) {
                let q = skip_run(chars, p, CharClass::Word);
                proof {
                    lemma_run_end(s@, p as int, CharClass::Word);
                }
                (q, Ok(Some(word_token_of(chars, p, q))))
            } else {
                (p + 1, Err(ScanError::InvalidCharacter(c)))
            }
        },
    }
}


/// Scans one token from the start of `input`, skipping whitespace first.
///
/// Returns the number of newlines consumed, what is left of the input, and
/// the token: `Ok(None)` where only whitespace or a comment was consumed.
pub fn scan_token(input: &str) -> (r: (usize, &str, Result<Option<TokenType>, ScanError>))
    ensures
        ({
            let (start, next, outcome) = scan_step(classified(input@), 0);
            &&& r.0 == newlines(classified(input@), 0, next)
            &&& r.1@ == input@.subrange(next, input@.len() as int)
            &&& outcome_view(r.2) == outcome
        }),
{
    let chars = classify(input);
    let (_, next, outcome) = step_at(&chars, 0);
    proof {
        lemma_scan_step_bounds(chars@, 0);
    }
    (count_newlines(&chars, 0, next), input.substring_char(next, chars.len()), outcome)
}

/// One scanner step from `chars[pos]`.
fn step_at(chars: &Vec<CharInfo>, pos: usize) -> (r: (usize, usize, Result<Option<TokenType>, ScanError>))
    requires
        pos <= chars.len(),
    ensures
        r.0 == scan_step(chars@, pos as int).0,
        r.1 == scan_step(chars@, pos as int).1,
        outcome_view(r.2) == scan_step(chars@, pos as int).2,
{
    let p = skip_run(chars, pos, CharClass::Whitespace);
    proof {
        lemma_run_end(chars@, pos as int, CharClass::Whitespace);
    }
    if p < chars.len() {
        let (next, outcome) = lex_at(chars, p);
        (p, next, outcome)
    } else {
        (p, p, Ok(None))
    }
}

/// Scans a whole source text into tokens, ending with one end-of-input token,
/// and the diagnostics for the spans that yield none; scanning goes on past
/// each error.
pub fn scan_tokens(source: &str) -> (r: (Vec<Token>, Vec<ScanDiagnostic>))
    requires
        source@.len() < usize::MAX,
    ensures
        r.0@.map_values(|t: Token| t@) == scan(classified(source@)).0,
        r.1@.map_values(|d: ScanDiagnostic| d@) == scan(classified(source@)).1,
        r.0.len() >= 1,
        r.0@.last().ty@ == TokenKind::Eof,
        forall|i: int| 0 <= i < r.0.len() - 1 ==> (#[trigger] r.0@[i]).ty@ != TokenKind::Eof,
{
    scan_classified(&classify(source))
}

/// Scans text whose characters come with their classes, as `scan_tokens` does.
pub fn scan_classified(chars: &Vec<CharInfo>) -> (r: (Vec<Token>, Vec<ScanDiagnostic>))
    requires
        chars.len() < usize::MAX,
    ensures
        r.0@.map_values(|t: Token| t@) == scan(chars@).0,
        r.1@.map_values(|d: ScanDiagnostic| d@) == scan(chars@).1,
        r.0.len() >= 1,
        r.0@.last().ty@ == TokenKind::Eof,
        forall|i: int| 0 <= i < r.0.len() - 1 ==> (#[trigger] r.0@[i]).ty@ != TokenKind::Eof,
{
    let ghost s = chars@;
    let mut tokens: Vec<Token> = Vec::new();
    let mut errors: Vec<ScanDiagnostic> = Vec::new();
    let mut pos: usize = 0;
    let mut line: usize = 1;
    while pos < chars.len()
        invariant
            chars@ == s,
            s.len() < usize::MAX,
            pos <= s.len(),
            line == 1 + newlines(s, 0, pos as int),
            tokens@.map_values(|t: Token| t@) + scan_from(s, pos as int, line as nat).0 == scan(s).0,
            errors@.map_values(|d: ScanDiagnostic| d@) + scan_from(s, pos as int, line as nat).1 == scan(s).1,
        decreases s.len() - pos,
    {
        let (start, next, outcome) = step_at(&chars, pos);
        proof {
            lemma_scan_step_bounds(s, pos as int);
            lemma_newlines_split(s, 0, pos as int, start as int);
            lemma_newlines_split(s, 0, pos as int, next as int);
            lemma_newlines_split(s, 0, start as int, next as int);
            lemma_newlines_split(s, pos as int, start as int, next as int);
            lemma_newlines_split(s, 0, next as int, next as int);
        }
        let at = line + count_newlines(&chars, pos, start);
        let ghost old_tokens = tokens@;
        let ghost old_errors = errors@;
        let ghost rest = scan_from(s, next as int, (line + newlines(s, pos as int, next as int)) as nat);
        match outcome {
            Ok(Some(ty)) => {
                tokens.push(Token { ty, line: at });
                assert(tokens@.map_values(|t: Token| t@) =~= old_tokens.map_values(|t: Token| t@).push((ty@, at as nat)));
                assert(tokens@.map_values(|t: Token| t@) + rest.0 =~= old_tokens.map_values(|t: Token| t@) + (seq![(ty@, at as nat)] + rest.0));
            },
            Ok(None) => {},
            Err(error) => {
                errors.push(ScanDiagnostic { line: at, error });
                assert(errors@.map_values(|d: ScanDiagnostic| d@) =~= old_errors.map_values(|d: ScanDiagnostic| d@).push((at as nat, error)));
                assert(errors@.map_values(|d: ScanDiagnostic| d@) + rest.1 =~= old_errors.map_values(|d: ScanDiagnostic| d@) + (seq![(at as nat, error)] + rest.1));
            },
        }
        line = line + count_newlines(&chars, pos, next);
        pos = next;
    }
    tokens.push(Token { ty: TokenType::Eof, line });
    proof {
        lemma_scan_ends_with_eof(s, 0, 1);
        assert(tokens@.map_values(|t: Token| t@) =~= scan(s).0);
        assert(errors@.map_values(|d: ScanDiagnostic| d@) =~= scan(s).1);
        assert forall|i: int| 0 <= i < tokens.len() implies (#[trigger] tokens@[i]).ty@ == scan(s).0[i].0 by {
            assert(tokens@.map_values(|t: Token| t@)[i] == tokens@[i]@);
        }
    }
    (tokens, errors)
}

} // verus!
