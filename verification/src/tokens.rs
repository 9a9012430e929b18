//! Token records and token classification: the token kinds, the keyword
//! table, and the punctuation and operator tables.

use vstd::prelude::*;

verus! {

/// The kind of a lexical token.
#[derive(Debug, Clone, Copy, PartialEq, Eq, Structural)]
pub enum TokenType {
    // Single-character tokens.
    LeftParen,
    RightParen,
    LeftBrace,
    RightBrace,
    Comma,
    Dot,
    Minus,
    Plus,
    Semicolon,
    Star,
    // One or two character tokens.
    Bang,
    BangEqual,
    Equal,
    EqualEqual,
    Greater,
    GreaterEqual,
    Less,
    LessEqual,
    Slash,
    // Literals.
    Identifier,
    String,
    Number,
    // Keywords.
    And,
    Class,
    Else,
    False,
    Fun,
    For,
    If,
    Nil,
    Or,
    Print,
    Return,
    Super,
    This,
    True,
    Var,
    While,
    // Terminator.
    Eof,
}

/// The mathematical content of a token: its kind, the raw text it was read
/// from (for identifiers, strings and numbers), and its position.
pub ghost struct TokenView {
    pub ttype: TokenType,
    pub literal: Option<Seq<char>>,
    pub line: nat,
    pub offset: nat,
}

/// A classified lexical unit with position information. `line` is 1-based;
/// `offset` is the 0-based column from the start of that line.
#[derive(Debug, Clone)]
pub struct Token {
    ttype: TokenType,
    literal: Option<String>,
    line: usize,
    offset: usize,
}

impl View for Token {
    type V = TokenView;

    closed spec fn view(&self) -> TokenView {
        TokenView {
            ttype: self.ttype,
            literal: match self.literal {
                Some(s) => Some(s@),
                None => None,
            },
            line: self.line as nat,
            offset: self.offset as nat,
        }
    }
}

impl Token {
    pub fn new(ttype: TokenType, literal: Option<String>, line: usize, offset: usize) -> (r: Self)
        ensures
            r@ == (TokenView {
                ttype,
                literal: match literal {
                    Some(s) => Some(s@),
                    None => None::<Seq<char>>,
                },
                line: line as nat,
                offset: offset as nat,
            }),
    {
        Self { ttype, literal, line, offset }
    }

    pub fn ttype(&self) -> (r: TokenType)
        ensures
            r == self@.ttype,
    {
        self.ttype
    }

    pub fn literal(&self) -> (r: &Option<String>)
        ensures
            match r {
                Some(s) => self@.literal == Some(s@),
                None => self@.literal is None,
            },
    {
        &self.literal
    }

    pub fn line(&self) -> (r: usize)
        ensures
            r as nat == self@.line,
    {
        self.line
    }

    pub fn offset(&self) -> (r: usize)
        ensures
            r as nat == self@.offset,
    {
        self.offset
    }
}

/// The views of a sequence of tokens.
pub open spec fn toks_view(ts: Seq<Token>) -> Seq<TokenView>
    decreases ts.len(),
{
    if ts.len() == 0 {
        Seq::empty()
    } else {
        toks_view(ts.drop_last()).push(ts.last()@)
    }
}

pub broadcast proof fn lemma_toks_view_push(ts: Seq<Token>, t: Token)
    ensures
        #[trigger] toks_view(ts.push(t)) == toks_view(ts).push(t@),
{
    assert(ts.push(t).drop_last() =~= ts);
}

/// Appending one further element distributes over concatenation.
pub broadcast proof fn lemma_concat_push(a: Seq<TokenView>, b: Seq<TokenView>, x: TokenView)
    ensures
        #[trigger] (a + b.push(x)) == (a + b).push(x),
{
    assert(a + b.push(x) =~= (a + b).push(x));
}

/// The single-character punctuation table.
pub open spec fn single_tt(c: char) -> Option<TokenType> {
    if c == '(' {
        Some(TokenType::LeftParen)
    } else if c == ')' {
        Some(TokenType::RightParen)
    } else if c == '{' {
        Some(TokenType::LeftBrace)
    } else if c == '}' {
        Some(TokenType::RightBrace)
    } else if c == ',' {
        Some(TokenType::Comma)
    } else if c == '.' {
        Some(TokenType::Dot)
    } else if c == '-' {
        Some(TokenType::Minus)
    } else if c == '+' {
        Some(TokenType::Plus)
    } else if c == ';' {
        Some(TokenType::Semicolon)
    } else if c == '*' {
        Some(TokenType::Star)
    } else {
        None
    }
}

pub fn single_lookup(c: char) -> (r: Option<TokenType>)
    ensures
        r == single_tt(c),
{
    match c {
        '(' => Some(TokenType::LeftParen),
        ')' => Some(TokenType::RightParen),
        '{' => Some(TokenType::LeftBrace),
        '}' => Some(TokenType::RightBrace),
        ',' => Some(TokenType::Comma),
        '.' => Some(TokenType::Dot),
        '-' => Some(TokenType::Minus),
        '+' => Some(TokenType::Plus),
        ';' => Some(TokenType::Semicolon),
        '*' => Some(TokenType::Star),
        _ => None,
    }
}

/// The table of characters that may start a two-character operator.
pub open spec fn two_tt(c: char) -> Option<TokenType> {
    if c == '!' {
        Some(TokenType::Bang)
    } else if c == '=' {
        Some(TokenType::Equal)
    } else if c == '>' {
        Some(TokenType::Greater)
    } else if c == '<' {
        Some(TokenType::Less)
    } else if c == '/' {
        Some(TokenType::Slash)
    } else {
        None
    }
}

pub fn two_lookup(c: char) -> (r: Option<TokenType>)
    ensures
        r == two_tt(c),
{
    match c {
        '!' => Some(TokenType::Bang),
        '=' => Some(TokenType::Equal),
        '>' => Some(TokenType::Greater),
        '<' => Some(TokenType::Less),
        '/' => Some(TokenType::Slash),
        _ => None,
    }
}

/// The reserved-word table: the token kind of a word, if it is a keyword.
pub open spec fn keyword_tt(w: Seq<char>) -> Option<TokenType> {
    if w == seq!['a', 'n', 'd'] {
        Some(TokenType::And)
    } else if w == seq!['c', 'l', 'a', 's', 's'] {
        Some(TokenType::Class)
    } else if w == seq!['e', 'l', 's', 'e'] {
        Some(TokenType::Else)
    } else if w == seq!['f', 'a', 'l', 's', 'e'] {
        Some(TokenType::False)
    } else if w == seq!['f', 'u', 'n'] {
        Some(TokenType::Fun)
    } else if w == seq!['f', 'o', 'r'] {
        Some(TokenType::For)
    } else if w == seq!['i', 'f'] {
        Some(TokenType::If)
    } else if w == seq!['n', 'i', 'l'] {
        Some(TokenType::Nil)
    } else if w == seq!['o', 'r'] {
        Some(TokenType::Or)
    } else if w == seq!['p', 'r', 'i', 'n', 't'] {
        Some(TokenType::Print)
    } else if w == seq!['r', 'e', 't', 'u', 'r', 'n'] {
        Some(TokenType::Return)
    } else if w == seq!['s', 'u', 'p', 'e', 'r'] {
        Some(TokenType::Super)
    } else if w == seq!['t', 'h', 'i', 's'] {
        Some(TokenType::This)
    } else if w == seq!['t', 'r', 'u', 'e'] {
        Some(TokenType::True)
    } else if w == seq!['v', 'a', 'r'] {
        Some(TokenType::Var)
    } else if w == seq!['w', 'h', 'i', 'l', 'e'] {
        Some(TokenType::While)
    } else {
        None
    }
}

fn buf_is2(buf: &Vec<char>, a: char, b: char) -> (r: bool)
    ensures
        r == (buf@ == seq![a, b]),
{
    let r = buf.len() == 2 && buf[0] == a && buf[1] == b;
    proof {
        if r {
            assert(buf@ =~= seq![a, b]);
        }
    }
    r
}

fn buf_is3(buf: &Vec<char>, a: char, b: char, c: char) -> (r: bool)
    ensures
        r == (buf@ == seq![a, b, c]),
{
    let r = buf.len() == 3 && buf[0] == a && buf[1] == b && buf[2] == c;
    proof {
        if r {
            assert(buf@ =~= seq![a, b, c]);
        }
    }
    r
}

fn buf_is4(buf: &Vec<char>, a: char, b: char, c: char, d: char) -> (r: bool)
    ensures
        r == (buf@ == seq![a, b, c, d]),
{
    let r = buf.len() == 4 && buf[0] == a && buf[1] == b && buf[2] == c && buf[3] == d;
    proof {
        if r {
            assert(buf@ =~= seq![a, b, c, d]);
        }
    }
    r
}

fn buf_is5(buf: &Vec<char>, a: char, b: char, c: char, d: char, e: char) -> (r: bool)
    ensures
        r == (buf@ == seq![a, b, c, d, e]),
{
    let r = buf.len() == 5 && buf[0] == a && buf[1] == b && buf[2] == c && buf[3] == d && buf[4]
        == e;
    proof {
        if r {
            assert(buf@ =~= seq![a, b, c, d, e]);
        }
    }
    r
}

fn buf_is6(buf: &Vec<char>, a: char, b: char, c: char, d: char, e: char, f: char) -> (r: bool)
    ensures
        r == (buf@ == seq![a, b, c, d, e, f]),
{
    let r = buf.len() == 6 && buf[0] == a && buf[1] == b && buf[2] == c && buf[3] == d && buf[4]
        == e && buf[5] == f;
    proof {
        if r {
            assert(buf@ =~= seq![a, b, c, d, e, f]);
        }
    }
    r
}

/// Look an accumulated word up in the reserved-word table.
pub fn keyword_lookup(buf: &Vec<char>) -> (r: Option<TokenType>)
    ensures
        r == keyword_tt(buf@),
{
    if buf_is3(buf, 'a', 'n', 'd') {
        Some(TokenType::And)
    } else if buf_is5(buf, 'c', 'l', 'a', 's', 's') {
        Some(TokenType::Class)
    } else if buf_is4(buf, 'e', 'l', 's', 'e') {
        Some(TokenType::Else)
    } else if buf_is5(buf, 'f', 'a', 'l', 's', 'e') {
        Some(TokenType::False)
    } else if buf_is3(buf, 'f', 'u', 'n') {
        Some(TokenType::Fun)
    } else if buf_is3(buf, 'f', 'o', 'r') {
        Some(TokenType::For)
    } else if buf_is2(buf, 'i', 'f') {
        Some(TokenType::If)
    } else if buf_is3(buf, 'n', 'i', 'l') {
        Some(TokenType::Nil)
    } else if buf_is2(buf, 'o', 'r') {
        Some(TokenType::Or)
    } else if buf_is5(buf, 'p', 'r', 'i', 'n', 't') {
        Some(TokenType::Print)
    } else if buf_is6(buf, 'r', 'e', 't', 'u', 'r', 'n') {
        Some(TokenType::Return)
    } else if buf_is5(buf, 's', 'u', 'p', 'e', 'r') {
        Some(TokenType::Super)
    } else if buf_is4(buf, 't', 'h', 'i', 's') {
        Some(TokenType::This)
    } else if buf_is4(buf, 't', 'r', 'u', 'e') {
        Some(TokenType::True)
    } else if buf_is3(buf, 'v', 'a', 'r') {
        Some(TokenType::Var)
    } else if buf_is5(buf, 'w', 'h', 'i', 'l', 'e') {
        Some(TokenType::While)
    } else {
        None
    }
}

} // verus!
