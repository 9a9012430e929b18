use jlox::lox::Lox;
use jlox::scanner::Scanner;
use jlox::tokens::{Token, TokenType};

fn scan(code: &str) -> Vec<Token> {
    let mut scanner = Scanner::new(code.to_string());
    scanner.scan_tokens().expect("scan failed");
    scanner.tokens
}

fn kinds(tokens: &[Token]) -> Vec<TokenType> {
    tokens.iter().map(|t| t.ttype()).collect()
}

#[test]
fn whitespace_only_is_just_eof() {
    let tokens = scan("   \n\t \n");
    assert_eq!(kinds(&tokens), vec![TokenType::Eof]);
    assert_eq!(tokens[0].line(), 3);
    assert_eq!(tokens[0].offset(), 0);
}

#[test]
fn empty_input_is_just_eof() {
    let tokens = scan("");
    assert_eq!(kinds(&tokens), vec![TokenType::Eof]);
    assert_eq!(tokens[0].line(), 1);
}

#[test]
fn integer_literal_verbatim() {
    let tokens = scan("123\n");
    assert_eq!(kinds(&tokens), vec![TokenType::Number, TokenType::Eof]);
    assert_eq!(tokens[0].literal().as_deref(), Some("123"));
    assert_eq!(tokens[0].line(), 1);
    assert_eq!(tokens[0].offset(), 2);
}

#[test]
fn fractional_literal_verbatim() {
    let tokens = scan("3.14\n");
    assert_eq!(kinds(&tokens), vec![TokenType::Number, TokenType::Eof]);
    assert_eq!(tokens[0].literal().as_deref(), Some("3.14"));
    assert_eq!(tokens[0].offset(), 3);
}

#[test]
fn dot_after_identifier_and_space_starts_fraction() {
    let tokens = scan("x .5\n");
    assert_eq!(
        kinds(&tokens),
        vec![TokenType::Identifier, TokenType::Number, TokenType::Eof]
    );
    assert_eq!(tokens[0].literal().as_deref(), Some("x"));
    assert_eq!(tokens[1].literal().as_deref(), Some(".5"));
    assert_eq!(tokens[1].offset(), 3);
}

#[test]
fn two_char_operators_combine() {
    for (src, tt) in [
        ("!=\n", TokenType::BangEqual),
        ("==\n", TokenType::EqualEqual),
        (">=\n", TokenType::GreaterEqual),
        ("<=\n", TokenType::LessEqual),
    ] {
        let tokens = scan(src);
        assert_eq!(kinds(&tokens), vec![tt, TokenType::Eof]);
        assert_eq!(tokens[0].line(), 1);
        assert_eq!(tokens[0].offset(), 1);
    }
}

#[test]
fn separated_equals_stay_single() {
    let tokens = scan("= =\n");
    assert_eq!(
        kinds(&tokens),
        vec![TokenType::Equal, TokenType::Equal, TokenType::Eof]
    );
    assert_eq!(tokens[0].offset(), 0);
    assert_eq!(tokens[1].offset(), 2);
}

#[test]
fn comment_emits_nothing() {
    let tokens = scan("// any text at all !=.\"\n");
    assert_eq!(kinds(&tokens), vec![TokenType::Eof]);
    assert_eq!(tokens[0].line(), 2);
}

#[test]
fn comment_after_code() {
    let tokens = scan("a // comment\nb\n");
    assert_eq!(
        kinds(&tokens),
        vec![TokenType::Identifier, TokenType::Identifier, TokenType::Eof]
    );
    assert_eq!(tokens[0].literal().as_deref(), Some("a"));
    assert_eq!(tokens[1].literal().as_deref(), Some("b"));
    assert_eq!(tokens[1].line(), 2);
}

#[test]
fn slash_alone_emits_slash() {
    let tokens = scan("/ \n");
    assert_eq!(kinds(&tokens), vec![TokenType::Slash, TokenType::Eof]);
    assert_eq!(tokens[0].offset(), 0);
}

#[test]
fn slash_equal_is_two_singles() {
    let tokens = scan("/=\n");
    assert_eq!(
        kinds(&tokens),
        vec![TokenType::Slash, TokenType::Equal, TokenType::Eof]
    );
    assert_eq!(tokens[0].offset(), 0);
    assert_eq!(tokens[1].offset(), 1);
}

#[test]
fn line_and_column_counters() {
    let lox = Lox::new();
    let tokens = lox.run("a\nb").expect("scan failed");
    assert_eq!(
        kinds(&tokens),
        vec![TokenType::Identifier, TokenType::Identifier, TokenType::Eof]
    );
    assert_eq!(tokens[1].literal().as_deref(), Some("b"));
    assert_eq!(tokens[1].line(), 2);
    assert_eq!(tokens[1].offset(), 0);
}

#[test]
fn var_declaration_token_stream() {
    let lox = Lox::new();
    let tokens = lox.run("var x = 1.5;").expect("scan failed");
    assert_eq!(
        kinds(&tokens),
        vec![
            TokenType::Var,
            TokenType::Identifier,
            TokenType::Equal,
            TokenType::Number,
            TokenType::Semicolon,
            TokenType::Eof,
        ]
    );
    assert_eq!(tokens[0].literal(), &None);
    assert_eq!(tokens[1].literal().as_deref(), Some("x"));
    assert_eq!(tokens[3].literal().as_deref(), Some("1.5"));
    assert_eq!(tokens[4].literal(), &None);
}

#[test]
fn double_dot_is_fatal() {
    let mut scanner = Scanner::new("1..2\n".to_string());
    let err = scanner.scan_tokens().expect_err("double dot must fail");
    assert_eq!(err.line, 1);
    assert_eq!(err.offset, 2);
    assert_eq!(err.message, "Did not expect '.'");
    // the scan stopped before any token for `2`, and no end marker was added
    assert!(scanner.tokens.is_empty());
}

#[test]
fn double_dot_is_fatal_through_run() {
    let lox = Lox::new();
    let err = lox.run("1..2").expect_err("double dot must fail");
    assert_eq!(err.line, 1);
    assert_eq!(err.offset, 2);
}

#[test]
fn string_literal_spans_newline() {
    let lox = Lox::new();
    let tokens = lox.run("\"a\nb\"").expect("scan failed");
    assert_eq!(kinds(&tokens), vec![TokenType::String, TokenType::Eof]);
    assert_eq!(tokens[0].literal().as_deref(), Some("\"a\nb\""));
    assert_eq!(tokens[0].line(), 2);
    assert_eq!(tokens[0].offset(), 1);
}

#[test]
fn string_literal_keeps_quotes() {
    let tokens = scan("\"hi\"\n");
    assert_eq!(kinds(&tokens), vec![TokenType::String, TokenType::Eof]);
    assert_eq!(tokens[0].literal().as_deref(), Some("\"hi\""));
}

#[test]
fn all_keywords_resolve() {
    let src = "and class else false fun for if nil or print return super this true var while\n";
    let tokens = scan(src);
    assert_eq!(
        kinds(&tokens),
        vec![
            TokenType::And,
            TokenType::Class,
            TokenType::Else,
            TokenType::False,
            TokenType::Fun,
            TokenType::For,
            TokenType::If,
            TokenType::Nil,
            TokenType::Or,
            TokenType::Print,
            TokenType::Return,
            TokenType::Super,
            TokenType::This,
            TokenType::True,
            TokenType::Var,
            TokenType::While,
            TokenType::Eof,
        ]
    );
    for t in &tokens {
        assert_eq!(t.literal(), &None);
    }
}

#[test]
fn near_keyword_is_identifier() {
    let tokens = scan("vars whiles iff\n");
    assert_eq!(
        kinds(&tokens),
        vec![
            TokenType::Identifier,
            TokenType::Identifier,
            TokenType::Identifier,
            TokenType::Eof,
        ]
    );
    assert_eq!(tokens[0].literal().as_deref(), Some("vars"));
}

#[test]
fn punctuation_tokens() {
    let tokens = scan("(){},-+;*\n");
    assert_eq!(
        kinds(&tokens),
        vec![
            TokenType::LeftParen,
            TokenType::RightParen,
            TokenType::LeftBrace,
            TokenType::RightBrace,
            TokenType::Comma,
            TokenType::Minus,
            TokenType::Plus,
            TokenType::Semicolon,
            TokenType::Star,
            TokenType::Eof,
        ]
    );
    for (j, t) in tokens.iter().enumerate().take(9) {
        assert_eq!(t.offset(), j);
    }
}

#[test]
fn dot_between_identifiers() {
    let tokens = scan("a.b\n");
    assert_eq!(
        kinds(&tokens),
        vec![
            TokenType::Identifier,
            TokenType::Dot,
            TokenType::Identifier,
            TokenType::Eof,
        ]
    );
    assert_eq!(tokens[1].offset(), 1);
    assert_eq!(tokens[2].literal().as_deref(), Some("b"));
}

#[test]
fn token_accessors() {
    let t = Token::new(TokenType::Number, Some("42".to_string()), 3, 7);
    assert_eq!(t.ttype(), TokenType::Number);
    assert_eq!(t.literal().as_deref(), Some("42"));
    assert_eq!(t.line(), 3);
    assert_eq!(t.offset(), 7);
}

#[test]
fn lox_new_has_no_error() {
    let lox = Lox::new();
    assert!(!lox.has_error);
}

#[test]
fn error_context_window() {
    let (before, at, after) = jlox::diagnostic::error_context("abc\ndefghij\n", 2, 3);
    assert_eq!(before, "def");
    assert_eq!(at, "g");
    assert_eq!(after, "hij");
}

#[test]
fn error_context_clips_long_line() {
    let line: String = "0123456789012345678901234567890123456789".to_string();
    let (before, at, after) = jlox::diagnostic::error_context(&line, 1, 20);
    assert_eq!(before, "567890123456789");
    assert_eq!(at, "0");
    assert_eq!(after, "123456789012345");
}

#[test]
fn error_context_at_line_start() {
    let (before, at, after) = jlox::diagnostic::error_context("x\n", 1, 0);
    assert_eq!(before, "");
    assert_eq!(at, "x");
    assert_eq!(after, "");
}

#[test]
fn error_context_past_last_line() {
    let (before, at, after) = jlox::diagnostic::error_context("x\n", 5, 0);
    assert_eq!(before, "");
    assert_eq!(at, "");
    assert_eq!(after, "");
}
