use rlox::scanner::{scan_classified, scan_token, scan_tokens, ScanDiagnostic, ScanError};
use rlox::text::{classify, classify_char, CharInfo};
use rlox::token::{Token, TokenType};

fn number_value(token: Option<TokenType>) -> f64 {
    match token {
        Some(TokenType::Number(digits)) => digits.parse::<f64>().unwrap(),
        other => panic!("not a number token: {:?}", other),
    }
}

#[test]
fn scanning_line() {
    let expected = &[
        Token {
            line: 1,
            ty: TokenType::LeftParen,
        },
        Token {
            line: 1,
            ty: TokenType::RightParen,
        },
        Token {
            line: 1,
            ty: TokenType::Eof,
        },
    ];
    assert_eq!(scan_tokens("()").0, expected);
    assert_eq!(scan_tokens("(    )").0, expected);

    let mut input = "!*+-/=<> <= === ";
    let expected_tokens = &[
        Some(TokenType::Bang),
        Some(TokenType::Star),
        Some(TokenType::Plus),
        Some(TokenType::Minus),
        Some(TokenType::Slash),
        Some(TokenType::Equal),
        Some(TokenType::Less),
        Some(TokenType::Greater),
        Some(TokenType::LessEqual),
        Some(TokenType::EqualEqual),
        Some(TokenType::Equal),
        None,
    ];
    let mut idx = 0;
    while !input.is_empty() {
        let (processed_line, remainder, res) = scan_token(input);
        assert_eq!(0, processed_line);
        assert_eq!(expected_tokens[idx], res.unwrap());
        input = remainder;
        idx += 1;
    }
}

#[test]
fn continues_scanning_on_errors() {
    let input = "123 + @200"; // '@' is invalid
    let expected = &[
        Token {
            line: 1,
            ty: TokenType::Number("123".to_string()),
        },
        Token {
            line: 1,
            ty: TokenType::Plus,
        },
        Token {
            line: 1,
            ty: TokenType::Number("200".to_string()),
        },
        Token {
            line: 1,
            ty: TokenType::Eof,
        },
    ];
    let (tokens, diagnostics) = scan_tokens(input);
    assert_eq!(tokens, expected);
    assert_eq!(
        diagnostics,
        vec![ScanDiagnostic {
            line: 1,
            error: ScanError::InvalidCharacter('@'),
        }]
    );
}

#[test]
fn scan_empty() {
    let (lines, _, res) = scan_token("");
    assert_eq!(0, lines);
    assert_eq!(res.unwrap(), None);
}

#[test]
fn scan_invalid_characters() {
    for c in &[":", "@", "#", "$", "%", "^", "&", "[", "]"] {
        let (lines, _, res) = scan_token(c);
        assert_eq!(0, lines);
        assert!(res.is_err());
    }
}

#[test]
fn scan_left_paren() {
    let (_, _, res) = scan_token("(");
    assert_eq!(res.unwrap(), Some(TokenType::LeftParen));

    let (_, rem, res) = scan_token("(foo");
    assert_eq!("foo", rem);
    assert_eq!(res.unwrap(), Some(TokenType::LeftParen));
}

#[test]
fn scan_right_paren() {
    let (_, rem, token) = scan_token(")foo");
    assert_eq!("foo", rem);
    assert_eq!(token.unwrap(), Some(TokenType::RightParen));
}

#[test]
fn scan_left_brace() {
    let (_, rem, token) = scan_token("{foo");
    assert_eq!("foo", rem);
    assert_eq!(token.unwrap(), Some(TokenType::LeftBrace));
}

#[test]
fn scan_right_brace() {
    let (_, rem, token) = scan_token("}foo");
    assert_eq!("foo", rem);
    assert_eq!(token.unwrap(), Some(TokenType::RightBrace));
}

#[test]
fn scan_dot() {
    let (_, rem, token) = scan_token(".foo");
    assert_eq!("foo", rem);
    assert_eq!(token.unwrap(), Some(TokenType::Dot));
}

#[test]
fn scan_comma() {
    let (_, rem, token) = scan_token(",foo");
    assert_eq!("foo", rem);
    assert_eq!(token.unwrap(), Some(TokenType::Comma));
}

#[test]
fn scan_minus() {
    let (_, rem, token) = scan_token("-foo");
    assert_eq!("foo", rem);
    assert_eq!(token.unwrap(), Some(TokenType::Minus));
}

#[test]
fn scan_plus() {
    let (_, rem, token) = scan_token("+foo");
    assert_eq!("foo", rem);
    assert_eq!(token.unwrap(), Some(TokenType::Plus));
}

#[test]
fn scan_star() {
    let (_, rem, token) = scan_token("*foo");
    assert_eq!("foo", rem);
    assert_eq!(token.unwrap(), Some(TokenType::Star));
}

#[test]
fn scan_slash() {
    let (_, rem, token) = scan_token("/foo");
    assert_eq!("foo", rem);
    assert_eq!(token.unwrap(), Some(TokenType::Slash));
}

#[test]
fn scan_comment() {
    // A comment that the input ends inside of consumes no newline.
    let (lines, rem, token) = scan_token("//foo");
    assert_eq!(0, lines);
    assert_eq!("", rem);
    assert_eq!(token.unwrap(), None);

    let (lines, rem, token) = scan_token("//foo\nbar");
    assert_eq!(1, lines);
    assert_eq!("bar", rem);
    assert_eq!(token.unwrap(), None);
}

#[test]
fn scan_bang() {
    let (_, rem, token) = scan_token("!foo");
    assert_eq!("foo", rem);
    assert_eq!(token.unwrap(), Some(TokenType::Bang));

    let (_, rem, token) = scan_token("!=foo");
    assert_eq!("foo", rem);
    assert_eq!(token.unwrap(), Some(TokenType::BangEqual));

    let (_, rem, token) = scan_token("! =foo");
    assert_eq!(" =foo", rem);
    assert_eq!(token.unwrap(), Some(TokenType::Bang));
}

#[test]
fn scan_less() {
    let (_, rem, token) = scan_token("<foo");
    assert_eq!("foo", rem);
    assert_eq!(token.unwrap(), Some(TokenType::Less));

    let (_, rem, token) = scan_token("<=foo");
    assert_eq!("foo", rem);
    assert_eq!(token.unwrap(), Some(TokenType::LessEqual));
}

#[test]
fn scan_greater() {
    let (_, rem, token) = scan_token(">foo");
    assert_eq!("foo", rem);
    assert_eq!(token.unwrap(), Some(TokenType::Greater));

    let (_, rem, token) = scan_token(">=foo");
    assert_eq!("foo", rem);
    assert_eq!(token.unwrap(), Some(TokenType::GreaterEqual));
}

#[test]
fn scan_equal() {
    let (_, rem, token) = scan_token("=foo");
    assert_eq!("foo", rem);
    assert_eq!(token.unwrap(), Some(TokenType::Equal));

    let (_, rem, token) = scan_token("==foo");
    assert_eq!("foo", rem);
    assert_eq!(token.unwrap(), Some(TokenType::EqualEqual));
}

#[test]
fn scan_string() {
    let (_, rem, token) = scan_token(r#""some string" some leftovers"#);
    assert_eq!(" some leftovers", rem);
    assert_eq!(
        token.unwrap(),
        Some(TokenType::String("some string".to_string()))
    );

    let (_, _, token) = scan_token(r#""an unterminated string"#);
    assert!(token.is_err());
}

#[test]
fn scan_multiline_string() {
    let (new_lines, _, res) = scan_token(
        r#""some
multiline
string""#,
    );
    assert_eq!(2, new_lines);
    assert_eq!(
        Some(TokenType::String("some\nmultiline\nstring".to_string())),
        res.unwrap()
    );
}

#[test]
fn scan_number() {
    let (_, _, res) = scan_token("12.34");
    assert_eq!(number_value(res.unwrap()), 12.34);
    let (_, _, res) = scan_token("10");
    assert_eq!(number_value(res.unwrap()), 10.0);
    let (_, _, res) = scan_token("10.");
    assert_eq!(number_value(res.unwrap()), 10.0);
    let (_, _, res) = scan_token("12..34");
    assert_eq!(number_value(res.unwrap()), 12.0);
    let (_, _, res) = scan_token("1.2.3.4");
    assert_eq!(number_value(res.unwrap()), 1.2);
    let (_, _, res) = scan_token(".1234");
    assert_eq!(res.unwrap(), Some(TokenType::Dot));
}

#[test]
fn scan_identifier() {
    let (_, _, res) = scan_token("eof");
    assert_eq!(res.unwrap(), Some(TokenType::Identifier("eof".to_string())));
    let (_, _, res) = scan_token("foo");
    assert_eq!(res.unwrap(), Some(TokenType::Identifier("foo".to_string())));
    let (_, _, res) = scan_token("_");
    assert_eq!(res.unwrap(), Some(TokenType::Identifier("_".to_string())));
    let (_, _, res) = scan_token("   _123");
    assert_eq!(
        res.unwrap(),
        Some(TokenType::Identifier("_123".to_string()))
    );
    let (_, _, res) = scan_token("_for");
    assert_eq!(
        res.unwrap(),
        Some(TokenType::Identifier("_for".to_string()))
    );
}

#[test]
fn scan_keyword() {
    let tests = [
        ("class", TokenType::Class),
        ("and", TokenType::And),
        ("or", TokenType::Or),
        ("else", TokenType::Else),
        ("false", TokenType::False),
        ("true", TokenType::True),
        ("fun", TokenType::Fun),
        ("print", TokenType::Print),
        ("return", TokenType::Return),
        ("this", TokenType::This),
        ("var", TokenType::Var),
        ("while", TokenType::While),
    ];
    for (input, token) in tests {
        let (lines, rem, res) = scan_token(input);
        assert_eq!("", rem);
        assert_eq!(0, lines);
        assert_eq!(Some(token), res.unwrap());
    }
}

#[test]
fn scan_remaining_keywords() {
    let tests = [
        ("for", TokenType::For),
        ("if", TokenType::If),
        ("nil", TokenType::Nil),
        ("super", TokenType::Super),
    ];
    for (input, token) in tests {
        let (_, rem, res) = scan_token(input);
        assert_eq!("", rem);
        assert_eq!(Some(token), res.unwrap());
    }
    // A keyword is matched only as a whole word.
    let (_, rem, res) = scan_token("nils+");
    assert_eq!("+", rem);
    assert_eq!(Some(TokenType::Identifier("nils".to_string())), res.unwrap());
}

#[test]
fn scan_unicode_word() {
    let (_, rem, res) = scan_token("héllo wörld");
    assert_eq!(" wörld", rem);
    assert_eq!(Some(TokenType::Identifier("héllo".to_string())), res.unwrap());
}

#[test]
fn scan_error_kinds() {
    let (_, rem, res) = scan_token("@x");
    assert_eq!("x", rem);
    assert_eq!(Err(ScanError::InvalidCharacter('@')), res);

    let (lines, rem, res) = scan_token("\"open\nended");
    assert_eq!(1, lines);
    assert_eq!("", rem);
    assert_eq!(Err(ScanError::UnterminatedString), res);
}

#[test]
fn scan_counts_lines() {
    let (tokens, diagnostics) = scan_tokens("1\n\n+ \"a\nb\" // note\n# 2");
    let expected = vec![
        Token { ty: TokenType::Number("1".to_string()), line: 1 },
        Token { ty: TokenType::Plus, line: 3 },
        Token { ty: TokenType::String("a\nb".to_string()), line: 3 },
        Token { ty: TokenType::Number("2".to_string()), line: 5 },
        Token { ty: TokenType::Eof, line: 5 },
    ];
    assert_eq!(expected, tokens);
    assert_eq!(
        vec![ScanDiagnostic { line: 5, error: ScanError::InvalidCharacter('#') }],
        diagnostics
    );
}

#[test]
fn scan_whitespace_kinds() {
    let (lines, rem, res) = scan_token(" \t\r\n\n(x");
    assert_eq!(2, lines);
    assert_eq!("x", rem);
    assert_eq!(Some(TokenType::LeftParen), res.unwrap());
}

#[test]
fn scan_ends_with_one_eof() {
    for source in ["", "   ", "// only a comment", "\"unterminated", "@@", "1 + 2"] {
        let (tokens, _) = scan_tokens(source);
        let eofs = tokens.iter().filter(|t| t.ty == TokenType::Eof).count();
        assert_eq!(1, eofs);
        assert_eq!(TokenType::Eof, tokens.last().unwrap().ty);
    }
}

#[test]
fn classifies_characters() {
    assert_eq!(CharInfo { c: ' ', space: true, alnum: false }, classify_char(' '));
    assert_eq!(CharInfo { c: '\n', space: true, alnum: false }, classify_char('\n'));
    assert_eq!(CharInfo { c: 'é', space: false, alnum: true }, classify_char('é'));
    assert_eq!(CharInfo { c: '7', space: false, alnum: true }, classify_char('7'));
    assert_eq!(CharInfo { c: '_', space: false, alnum: false }, classify_char('_'));
    let classified = classify("a (");
    assert_eq!(3, classified.len());
    assert_eq!(vec![classify_char('a'), classify_char(' '), classify_char('(')], classified);
}

#[test]
fn scans_by_the_given_classes() {
    let info = |c: char, space: bool, alnum: bool| CharInfo { c, space, alnum };
    // Here '%' counts as a word character and 'x' as whitespace.
    let text = vec![info('%', false, true), info('x', true, false), info('a', false, true), info('@', false, false)];
    let (tokens, diagnostics) = scan_classified(&text);
    assert_eq!(
        vec![
            Token { ty: TokenType::Identifier("%".to_string()), line: 1 },
            Token { ty: TokenType::Identifier("a".to_string()), line: 1 },
            Token { ty: TokenType::Eof, line: 1 },
        ],
        tokens
    );
    assert_eq!(vec![ScanDiagnostic { line: 1, error: ScanError::InvalidCharacter('@') }], diagnostics);
}

#[test]
fn comments_do_not_stop_scanning() {
    let (tokens, _) = scan_tokens("1 // one\n2");
    assert_eq!(
        vec![
            Token { ty: TokenType::Number("1".to_string()), line: 1 },
            Token { ty: TokenType::Number("2".to_string()), line: 2 },
            Token { ty: TokenType::Eof, line: 2 },
        ],
        tokens
    );
}
