//! The mathematical model of the scanner: a finite-state machine stepped
//! once per source character.
//!
//! `scan_prefix(src, n)` is the machine state after consuming the first `n`
//! characters of `src`, and `scan_model(src)` the state after the whole
//! text.  The executable scanner is proved to produce exactly the tokens of
//! this model.

use vstd::prelude::*;
use crate::chars::{is_ws_char, is_digit_char};
use crate::tokens::{TokenType, TokenView, single_tt, two_tt, keyword_tt};

verus! {

/// The scanning mode governing how the next character is interpreted.
///
/// `Next` is the starting mode and takes any character.  `MaybeTwo` means a
/// character that may begin a two-character operator was just read, and the
/// next character decides.  `SoloDot` means a bare `.` was read, which a
/// digit turns into the start of a fractional number.  The other modes
/// accumulate a comment, a string literal, the integer or fractional part
/// of a number, or an identifier-or-keyword word.
#[derive(Debug, Clone, Copy, PartialEq, Eq, Structural)]
pub enum ScanState {
    Comment,
    Next,
    MaybeTwo,
    IdentifierOrKeyword,
    InString,
    Number,
    NumberWithDot,
    SoloDot,
}

/// The position of the fatal double-dot error, when one occurred.
pub ghost struct ErrAt {
    pub line: nat,
    pub offset: nat,
}

/// The full state of the scanning machine: the active mode, the buffer of
/// an in-progress literal or word, the pending operator kind for
/// `MaybeTwo`, the 1-based line count, the index at which the current line
/// starts, the tokens emitted so far, and the fatal error, if any.
/// Once `err` is set the machine no longer moves.
pub ghost struct ScanModel {
    pub state: ScanState,
    pub buf: Seq<char>,
    pub pending: TokenType,
    pub line: nat,
    pub line_start: nat,
    pub toks: Seq<TokenView>,
    pub err: Option<ErrAt>,
}

/// A token of fixed spelling, which carries no literal text.
pub open spec fn tok(ttype: TokenType, line: nat, offset: nat) -> TokenView {
    TokenView { ttype, literal: None, line, offset }
}

/// A token that carries the raw text it was read from.
pub open spec fn tok_lit(ttype: TokenType, lit: Seq<char>, line: nat, offset: nat) -> TokenView {
    TokenView { ttype, literal: Some(lit), line, offset }
}

/// The token a finished word flushes to: the matching keyword kind if the
/// word is reserved, else an identifier carrying the word.
pub open spec fn word_token(w: Seq<char>, line: nat, offset: nat) -> TokenView {
    match keyword_tt(w) {
        Some(tt) => tok(tt, line, offset),
        None => tok_lit(TokenType::Identifier, w, line, offset),
    }
}

/// The end-of-input marker: always at column 0 of the final line.
pub open spec fn eof_tok(line: nat) -> TokenView {
    tok(TokenType::Eof, line, 0)
}

/// The column of a token whose last character stands at index `i - 1`,
/// one position before the character now being consumed.
pub open spec fn off1(i: nat, line_start: nat) -> nat {
    (i - line_start - 1) as nat
}

/// The column of a token whose last character stands at index `i`.
pub open spec fn off0(i: nat, line_start: nat) -> nat {
    (i - line_start) as nat
}

/// The combined two-character operator kind for a pending one-character
/// kind followed by `=`.
pub open spec fn combined(pending: TokenType) -> TokenType {
    match pending {
        TokenType::Bang => TokenType::BangEqual,
        TokenType::Equal => TokenType::EqualEqual,
        TokenType::Greater => TokenType::GreaterEqual,
        TokenType::Less => TokenType::LessEqual,
        _ => pending,
    }
}

/// The machine state before any character has been consumed.
pub open spec fn init_model() -> ScanModel {
    ScanModel {
        state: ScanState::Next,
        buf: Seq::empty(),
        pending: TokenType::Print,
        line: 1,
        line_start: 0,
        toks: Seq::empty(),
        err: None,
    }
}

pub open spec fn step_comment(m: ScanModel, c: char, i: nat) -> ScanModel {
    if c == '\n' {
        ScanModel { state: ScanState::Next, line: m.line + 1, line_start: i + 1, ..m }
    } else {
        m
    }
}

pub open spec fn step_next(m: ScanModel, c: char, i: nat) -> ScanModel {
    if c == '.' {
        ScanModel { state: ScanState::SoloDot, ..m }
    } else {
        match single_tt(c) {
            Some(tt) => ScanModel { toks: m.toks.push(tok(tt, m.line, off0(i, m.line_start))), ..m },
            None => match two_tt(c) {
                Some(tt) => ScanModel { state: ScanState::MaybeTwo, pending: tt, ..m },
                None => if is_ws_char(c) {
                    if c == '\n' {
                        ScanModel { line: m.line + 1, line_start: i + 1, ..m }
                    } else {
                        m
                    }
                } else if c == '"' {
                    ScanModel { state: ScanState::InString, buf: seq![c], ..m }
                } else if is_digit_char(c) {
                    ScanModel { state: ScanState::Number, buf: seq![c], ..m }
                } else {
                    ScanModel { state: ScanState::IdentifierOrKeyword, buf: seq![c], ..m }
                },
            },
        }
    }
}

pub open spec fn step_solo_dot(m: ScanModel, c: char, i: nat) -> ScanModel {
    if is_digit_char(c) {
        ScanModel { state: ScanState::NumberWithDot, buf: seq!['.', c], ..m }
    } else {
        let t1 = m.toks.push(tok(TokenType::Dot, m.line, off1(i, m.line_start)));
        if c == '.' {
            ScanModel { state: ScanState::SoloDot, toks: t1, ..m }
        } else {
            match single_tt(c) {
                Some(tt) => ScanModel {
                    state: ScanState::Next,
                    toks: t1.push(tok(tt, m.line, off0(i, m.line_start))),
                    ..m
                },
                None => match two_tt(c) {
                    Some(tt) => ScanModel { state: ScanState::MaybeTwo, pending: tt, toks: t1, ..m },
                    None => if is_ws_char(c) {
                        if c == '\n' {
                            ScanModel {
                                state: ScanState::Next,
                                toks: t1,
                                line: m.line + 1,
                                line_start: i + 1,
                                ..m
                            }
                        } else {
                            ScanModel { state: ScanState::Next, toks: t1, ..m }
                        }
                    } else if c == '"' {
                        ScanModel { state: ScanState::InString, buf: seq![c], toks: t1, ..m }
                    } else {
                        ScanModel {
                            state: ScanState::IdentifierOrKeyword,
                            buf: seq![c],
                            toks: t1,
                            ..m
                        }
                    },
                },
            }
        }
    }
}

pub open spec fn step_number(m: ScanModel, c: char, i: nat) -> ScanModel {
    if c == '.' {
        ScanModel { state: ScanState::NumberWithDot, buf: m.buf.push('.'), ..m }
    } else {
        let number = tok_lit(TokenType::Number, m.buf, m.line, off1(i, m.line_start));
        match single_tt(c) {
            Some(tt) => ScanModel {
                state: ScanState::Next,
                toks: m.toks.push(number).push(tok(tt, m.line, off0(i, m.line_start))),
                ..m
            },
            None => match two_tt(c) {
                Some(tt) => ScanModel {
                    state: ScanState::MaybeTwo,
                    pending: tt,
                    toks: m.toks.push(number),
                    ..m
                },
                None => if is_ws_char(c) {
                    if c == '\n' {
                        ScanModel {
                            state: ScanState::Next,
                            toks: m.toks.push(number),
                            line: m.line + 1,
                            line_start: i + 1,
                            ..m
                        }
                    } else {
                        ScanModel { state: ScanState::Next, toks: m.toks.push(number), ..m }
                    }
                } else {
                    ScanModel { buf: m.buf.push(c), ..m }
                },
            },
        }
    }
}

pub open spec fn step_number_dot(m: ScanModel, c: char, i: nat) -> ScanModel {
    if c == '.' {
        ScanModel { err: Some(ErrAt { line: m.line, offset: off0(i, m.line_start) }), ..m }
    } else {
        let number = tok_lit(TokenType::Number, m.buf, m.line, off1(i, m.line_start));
        match single_tt(c) {
            Some(tt) => ScanModel {
                state: ScanState::Next,
                toks: m.toks.push(number).push(tok(tt, m.line, off0(i, m.line_start))),
                ..m
            },
            None => match two_tt(c) {
                Some(tt) => ScanModel {
                    state: ScanState::MaybeTwo,
                    pending: tt,
                    toks: m.toks.push(number),
                    ..m
                },
                None => if is_ws_char(c) {
                    if c == '\n' {
                        ScanModel {
                            state: ScanState::Next,
                            toks: m.toks.push(number),
                            line: m.line + 1,
                            line_start: i + 1,
                            ..m
                        }
                    } else {
                        ScanModel { state: ScanState::Next, toks: m.toks.push(number), ..m }
                    }
                } else if is_digit_char(c) {
                    ScanModel { buf: m.buf.push(c), ..m }
                } else {
                    m
                },
            },
        }
    }
}

pub open spec fn step_in_string(m: ScanModel, c: char, i: nat) -> ScanModel {
    let b = m.buf.push(c);
    if c == '"' {
        ScanModel {
            state: ScanState::Next,
            buf: b,
            toks: m.toks.push(
                tok_lit(TokenType::String, b, m.line, off0(i, m.line_start)),
            ),
            ..m
        }
    } else if c == '\n' {
        ScanModel { buf: b, line: m.line + 1, line_start: i + 1, ..m }
    } else {
        ScanModel { buf: b, ..m }
    }
}

pub open spec fn step_maybe_two(m: ScanModel, c: char, i: nat) -> ScanModel {
    let pending_tok = tok(m.pending, m.line, off1(i, m.line_start));
    match single_tt(c) {
        Some(tt) => ScanModel {
            state: ScanState::Next,
            toks: m.toks.push(pending_tok).push(tok(tt, m.line, off0(i, m.line_start))),
            ..m
        },
        None => match two_tt(c) {
            Some(tt) => if c == '=' && m.pending != TokenType::Slash {
                ScanModel {
                    state: ScanState::Next,
                    toks: m.toks.push(
                        tok(combined(m.pending), m.line, off0(i, m.line_start)),
                    ),
                    ..m
                }
            } else if c == '/' && m.pending == TokenType::Slash {
                ScanModel { state: ScanState::Comment, ..m }
            } else {
                ScanModel { pending: tt, toks: m.toks.push(pending_tok), ..m }
            },
            None => if is_ws_char(c) {
                if c == '\n' {
                    ScanModel {
                        state: ScanState::Next,
                        toks: m.toks.push(pending_tok),
                        line: m.line + 1,
                        line_start: i + 1,
                        ..m
                    }
                } else {
                    ScanModel { state: ScanState::Next, toks: m.toks.push(pending_tok), ..m }
                }
            } else if c == '"' {
                ScanModel {
                    state: ScanState::InString,
                    buf: seq![c],
                    toks: m.toks.push(pending_tok),
                    ..m
                }
            } else if is_digit_char(c) {
                ScanModel {
                    state: ScanState::Number,
                    buf: seq![c],
                    toks: m.toks.push(pending_tok),
                    ..m
                }
            } else {
                ScanModel {
                    state: ScanState::IdentifierOrKeyword,
                    buf: seq![c],
                    toks: m.toks.push(pending_tok),
                    ..m
                }
            },
        },
    }
}

pub open spec fn step_word(m: ScanModel, c: char, i: nat) -> ScanModel {
    let word = word_token(m.buf, m.line, off1(i, m.line_start));
    match single_tt(c) {
        Some(tt) => ScanModel {
            state: ScanState::Next,
            toks: m.toks.push(word).push(tok(tt, m.line, off0(i, m.line_start))),
            ..m
        },
        None => match two_tt(c) {
            Some(tt) => ScanModel {
                state: ScanState::MaybeTwo,
                pending: tt,
                toks: m.toks.push(word),
                ..m
            },
            None => if is_ws_char(c) {
                if c == '\n' {
                    ScanModel {
                        state: ScanState::Next,
                        toks: m.toks.push(word),
                        line: m.line + 1,
                        line_start: i + 1,
                        ..m
                    }
                } else {
                    ScanModel { state: ScanState::Next, toks: m.toks.push(word), ..m }
                }
            } else if c == '"' {
                ScanModel {
                    state: ScanState::InString,
                    buf: seq![c],
                    toks: m.toks.push(word),
                    ..m
                }
            } else {
                ScanModel { buf: m.buf.push(c), ..m }
            },
        },
    }
}

/// One step of the machine: consume the character `c` standing at index
/// `i`.  A machine that has already failed no longer moves.
pub open spec fn step(m: ScanModel, c: char, i: nat) -> ScanModel {
    if m.err is Some {
        m
    } else {
        match m.state {
            ScanState::Comment => step_comment(m, c, i),
            ScanState::Next => step_next(m, c, i),
            ScanState::MaybeTwo => step_maybe_two(m, c, i),
            ScanState::IdentifierOrKeyword => step_word(m, c, i),
            ScanState::InString => step_in_string(m, c, i),
            ScanState::Number => step_number(m, c, i),
            ScanState::NumberWithDot => step_number_dot(m, c, i),
            ScanState::SoloDot => step_solo_dot(m, c, i),
        }
    }
}

/// The machine state after consuming the first `n` characters of `src`.
pub open spec fn scan_prefix(src: Seq<char>, n: nat) -> ScanModel
    decreases n,
{
    if n == 0 {
        init_model()
    } else {
        step(scan_prefix(src, (n - 1) as nat), src[n - 1], (n - 1) as nat)
    }
}

/// The machine state after consuming the whole of `src`.
pub open spec fn scan_model(src: Seq<char>) -> ScanModel {
    scan_prefix(src, src.len())
}

/// Before the first character the machine is in its starting state.
pub proof fn lemma_scan_prefix_zero(src: Seq<char>)
    ensures
        scan_prefix(src, 0) == init_model(),
{
}

/// Consuming one further character steps the machine once.
pub proof fn lemma_scan_prefix_unfold(src: Seq<char>, i: nat)
    requires
        i < src.len(),
    ensures
        scan_prefix(src, i + 1) == step(scan_prefix(src, i), src[i as int], i),
{
}

/// Once the machine has failed, consuming further characters changes
/// nothing.
pub proof fn lemma_err_absorbing(src: Seq<char>, i: nat, j: nat)
    requires
        i <= j <= src.len(),
        scan_prefix(src, i).err is Some,
    ensures
        scan_prefix(src, j) == scan_prefix(src, i),
    decreases j - i,
{
    if j > i {
        lemma_err_absorbing(src, i, (j - 1) as nat);
    }
}

} // verus!
