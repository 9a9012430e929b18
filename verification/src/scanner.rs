//! The executable scanner, proved to emit exactly the tokens of the
//! machine model in `machine`.

use vstd::prelude::*;
use vstd::string::StringExecFns;
use crate::chars::{chars_of, chars_to_string, is_ws, is_digit};
use crate::tokens::{Token, TokenType, toks_view, single_lookup, two_lookup, keyword_lookup};
use crate::machine::{ScanState, scan_model, scan_prefix, eof_tok, combined, lemma_err_absorbing};

verus! {

/// The one fatal lexical error: a second `.` inside an already-started
/// fractional number.  `line` is 1-based, `offset` the 0-based column of
/// the offending character.
#[derive(Debug, Clone)]
pub struct ScanError {
    pub line: usize,
    pub offset: usize,
    pub message: String,
}

/// A scanner over one complete source text.  `scan_tokens` appends the
/// tokens it reads to `tokens`.
pub struct Scanner {
    pub source: String,
    pub tokens: Vec<Token>,
}

fn combine(pending: TokenType) -> (r: TokenType)
    ensures
        r == combined(pending),
{
    match pending {
        TokenType::Bang => TokenType::BangEqual,
        TokenType::Equal => TokenType::EqualEqual,
        TokenType::Greater => TokenType::GreaterEqual,
        TokenType::Less => TokenType::LessEqual,
        _ => pending,
    }
}

impl Scanner {
    pub fn new(code: String) -> (r: Self)
        ensures
            r.source@ == code@,
            r.tokens@.len() == 0,
    {
        Scanner { source: code, tokens: Vec::new() }
    }

    /// Scan the whole source text.  On success the tokens of the machine
    /// model, terminated by exactly one end-of-input marker, are appended
    /// to `self.tokens`.  On the fatal double-dot error the tokens read
    /// before the error are appended, no end-of-input marker is added, and
    /// the error's position is returned.
    #[verifier::loop_isolation(false)]
    pub fn scan_tokens(&mut self) -> (res: Result<(), ScanError>)
        requires
            old(self).source@.len() < usize::MAX,
        ensures
            final(self).source@ == old(self).source@,
            res is Ok <==> scan_model(old(self).source@).err is None,
            res is Ok ==> {
                let m = scan_model(old(self).source@);
                toks_view(final(self).tokens@) == toks_view(old(self).tokens@) + m.toks.push(
                    eof_tok(m.line),
                )
            },
            match res {
                Ok(_) => true,
                Err(e) => {
                    let m = scan_model(old(self).source@);
                    match m.err {
                        Some(a) => e.line as nat == a.line && e.offset as nat == a.offset
                            && e.message@ == "Did not expect '.'"@ && toks_view(
                            final(self).tokens@,
                        ) == toks_view(old(self).tokens@) + m.toks,
                        None => false,
                    }
                },
            },
    {
        broadcast use crate::tokens::lemma_toks_view_push;
        broadcast use crate::tokens::lemma_concat_push;

        let chars = chars_of(self.source.as_str());
        let n = chars.len();
        let ghost src = self.source@;
        let ghost toks0 = self.tokens@;
        let mut state = ScanState::Next;
        let mut buf: Vec<char> = Vec::new();
        let mut pending = TokenType::Print;
        let mut line_count: usize = 1;
        let mut line_start: usize = 0;
        let mut i: usize = 0;
        while i < n
            invariant
                i <= n,
                n == src.len(),
                n < usize::MAX,
                chars@ == src,
                self.source@ == src,
                src == old(self).source@,
                toks0 == old(self).tokens@,
                scan_prefix(src, i as nat).err is None,
                state == scan_prefix(src, i as nat).state,
                buf@ == scan_prefix(src, i as nat).buf,
                pending == scan_prefix(src, i as nat).pending,
                line_count as nat == scan_prefix(src, i as nat).line,
                line_start as nat == scan_prefix(src, i as nat).line_start,
                toks_view(self.tokens@) == toks_view(toks0) + scan_prefix(src, i as nat).toks,
                line_start <= i,
                (state == ScanState::SoloDot || state == ScanState::MaybeTwo || state
                    == ScanState::Number || state == ScanState::NumberWithDot || state
                    == ScanState::IdentifierOrKeyword) ==> line_start < i,
                line_count <= i + 1,
            decreases n - i,
        {
            let c = chars[i];
            match state {
                ScanState::Comment => {
                    if c == '\n' {
                        line_count += 1;
                        line_start = i + 1;
                        state = ScanState::Next;
                    }
                },
                ScanState::SoloDot => {
                    if is_digit(c) {
                        buf.clear();
                        buf.push('.');
                        buf.push(c);
                        proof {
                            assert(buf@ =~= seq!['.', c]);
                        }
                        state = ScanState::NumberWithDot;
                    } else {
                        self.tokens.push(
                            Token::new(TokenType::Dot, None, line_count, i - line_start - 1),
                        );
                        if c == '.' {
                            state = ScanState::SoloDot;
                        } else if let Some(tt) = single_lookup(c) {
                            self.tokens.push(Token::new(tt, None, line_count, i - line_start));
                            state = ScanState::Next;
                        } else if let Some(tt) = two_lookup(c) {
                            state = ScanState::MaybeTwo;
                            pending = tt;
                        } else if is_ws(c) {
                            if c == '\n' {
                                line_count += 1;
                                line_start = i + 1;
                            }
                            state = ScanState::Next;
                        } else if c == '"' {
                            state = ScanState::InString;
                            buf.clear();
                            buf.push(c);
                            proof {
                                assert(buf@ =~= seq![c]);
                            }
                        } else {
                            state = ScanState::IdentifierOrKeyword;
                            buf.clear();
                            buf.push(c);
                            proof {
                                assert(buf@ =~= seq![c]);
                            }
                        }
                    }
                },
                ScanState::NumberWithDot => {
                    if c == '.' {
                        let message = String::from_str("Did not expect '.'");
                        let e = ScanError { line: line_count, offset: i - line_start, message };
                        proof {
                            lemma_err_absorbing(src, (i + 1) as nat, src.len());
                        }
                        return Err(e);
                    } else if let Some(tt) = single_lookup(c) {
                        let number = chars_to_string(&buf);
                        self.tokens.push(
                            Token::new(
                                TokenType::Number,
                                Some(number),
                                line_count,
                                i - line_start - 1,
                            ),
                        );
                        self.tokens.push(Token::new(tt, None, line_count, i - line_start));
                        state = ScanState::Next;
                    } else if let Some(tt) = two_lookup(c) {
                        let number = chars_to_string(&buf);
                        self.tokens.push(
                            Token::new(
                                TokenType::Number,
                                Some(number),
                                line_count,
                                i - line_start - 1,
                            ),
                        );
                        state = ScanState::MaybeTwo;
                        pending = tt;
                    } else if is_ws(c) {
                        let number = chars_to_string(&buf);
                        self.tokens.push(
                            Token::new(
                                TokenType::Number,
                                Some(number),
                                line_count,
                                i - line_start - 1,
                            ),
                        );
                        if c == '\n' {
                            line_count += 1;
                            line_start = i + 1;
                        }
                        state = ScanState::Next;
                    } else if is_digit(c) {
                        buf.push(c);
                    }
                },
                ScanState::Number => {
                    if c == '.' {
                        buf.push('.');
                        state = ScanState::NumberWithDot;
                    } else if let Some(tt) = single_lookup(c) {
                        let number = chars_to_string(&buf);
                        self.tokens.push(
                            Token::new(
                                TokenType::Number,
                                Some(number),
                                line_count,
                                i - line_start - 1,
                            ),
                        );
                        self.tokens.push(Token::new(tt, None, line_count, i - line_start));
                        state = ScanState::Next;
                    } else if let Some(tt) = two_lookup(c) {
                        let number = chars_to_string(&buf);
                        self.tokens.push(
                            Token::new(
                                TokenType::Number,
                                Some(number),
                                line_count,
                                i - line_start - 1,
                            ),
                        );
                        state = ScanState::MaybeTwo;
                        pending = tt;
                    } else if is_ws(c) {
                        let number = chars_to_string(&buf);
                        self.tokens.push(
                            Token::new(
                                TokenType::Number,
                                Some(number),
                                line_count,
                                i - line_start - 1,
                            ),
                        );
                        if c == '\n' {
                            line_count += 1;
                            line_start = i + 1;
                        }
                        state = ScanState::Next;
                    } else {
                        buf.push(c);
                    }
                },
                ScanState::InString => {
                    buf.push(c);
                    if c == '"' {
                        let word = chars_to_string(&buf);
                        self.tokens.push(
                            Token::new(TokenType::String, Some(word), line_count, i - line_start),
                        );
                        state = ScanState::Next;
                    } else if c == '\n' {
                        line_count += 1;
                        line_start = i + 1;
                    }
                },
                ScanState::Next => {
                    if c == '.' {
                        state = ScanState::SoloDot;
                    } else if let Some(tt) = single_lookup(c) {
                        self.tokens.push(Token::new(tt, None, line_count, i - line_start));
                    } else if let Some(tt) = two_lookup(c) {
                        state = ScanState::MaybeTwo;
                        pending = tt;
                    } else if is_ws(c) {
                        if c == '\n' {
                            line_count += 1;
                            line_start = i + 1;
                        }
                    } else if c == '"' {
                        state = ScanState::InString;
                        buf.clear();
                        buf.push(c);
                        proof {
                            assert(buf@ =~= seq![c]);
                        }
                    } else if is_digit(c) {
                        state = ScanState::Number;
                        buf.clear();
                        buf.push(c);
                        proof {
                            assert(buf@ =~= seq![c]);
                        }
                    } else {
                        state = ScanState::IdentifierOrKeyword;
                        buf.clear();
                        buf.push(c);
                        proof {
                            assert(buf@ =~= seq![c]);
                        }
                    }
                },
                ScanState::MaybeTwo => {
                    if let Some(tt) = single_lookup(c) {
                        self.tokens.push(
                            Token::new(pending, None, line_count, i - line_start - 1),
                        );
                        self.tokens.push(Token::new(tt, None, line_count, i - line_start));
                        state = ScanState::Next;
                    } else if let Some(tt) = two_lookup(c) {
                        if c == '=' && pending != TokenType::Slash {
                            self.tokens.push(
                                Token::new(combine(pending), None, line_count, i - line_start),
                            );
                            state = ScanState::Next;
                        } else if c == '/' && pending == TokenType::Slash {
                            state = ScanState::Comment;
                        } else {
                            self.tokens.push(
                                Token::new(pending, None, line_count, i - line_start - 1),
                            );
                            pending = tt;
                        }
                    } else if is_ws(c) {
                        self.tokens.push(
                            Token::new(pending, None, line_count, i - line_start - 1),
                        );
                        if c == '\n' {
                            line_count += 1;
                            line_start = i + 1;
                        }
                        state = ScanState::Next;
                    } else if c == '"' {
                        self.tokens.push(
                            Token::new(pending, None, line_count, i - line_start - 1),
                        );
                        state = ScanState::InString;
                        buf.clear();
                        buf.push(c);
                        proof {
                            assert(buf@ =~= seq![c]);
                        }
                    } else if is_digit(c) {
                        self.tokens.push(
                            Token::new(pending, None, line_count, i - line_start - 1),
                        );
                        state = ScanState::Number;
                        buf.clear();
                        buf.push(c);
                        proof {
                            assert(buf@ =~= seq![c]);
                        }
                    } else {
                        self.tokens.push(
                            Token::new(pending, None, line_count, i - line_start - 1),
                        );
                        state = ScanState::IdentifierOrKeyword;
                        buf.clear();
                        buf.push(c);
                        proof {
                            assert(buf@ =~= seq![c]);
                        }
                    }
                },
                ScanState::IdentifierOrKeyword => {
                    if let Some(tt) = single_lookup(c) {
                        self.flush_word(&buf, line_count, i - line_start - 1);
                        self.tokens.push(Token::new(tt, None, line_count, i - line_start));
                        state = ScanState::Next;
                    } else if let Some(tt) = two_lookup(c) {
                        self.flush_word(&buf, line_count, i - line_start - 1);
                        state = ScanState::MaybeTwo;
                        pending = tt;
                    } else if is_ws(c) {
                        self.flush_word(&buf, line_count, i - line_start - 1);
                        if c == '\n' {
                            line_count += 1;
                            line_start = i + 1;
                        }
                        state = ScanState::Next;
                    } else if c == '"' {
                        self.flush_word(&buf, line_count, i - line_start - 1);
                        state = ScanState::InString;
                        buf.clear();
                        buf.push(c);
                        proof {
                            assert(buf@ =~= seq![c]);
                        }
                    } else {
                        buf.push(c);
                    }
                },
            }
            proof {
                assert(toks_view(self.tokens@) =~= toks_view(toks0) + scan_prefix(
                    src,
                    (i + 1) as nat,
                ).toks);
            }
            i += 1;
        }
        let eof_token = Token::new(TokenType::Eof, None, line_count, 0);
        self.tokens.push(eof_token);
        proof {
            assert(toks_view(self.tokens@) =~= toks_view(toks0) + scan_model(src).toks.push(
                eof_tok(scan_model(src).line),
            ));
        }
        Ok(())
    }

    /// Emit the token a finished word stands for: the keyword kind if the
    /// word is reserved, else an identifier carrying the word.
    fn flush_word(&mut self, buf: &Vec<char>, line_count: usize, offset: usize)
        ensures
            final(self).source == old(self).source,
            toks_view(final(self).tokens@) == toks_view(old(self).tokens@).push(
                crate::machine::word_token(buf@, line_count as nat, offset as nat),
            ),
    {
        broadcast use crate::tokens::lemma_toks_view_push;

        if let Some(word_tt) = keyword_lookup(buf) {
            self.tokens.push(Token::new(word_tt, None, line_count, offset));
        } else {
            let word = chars_to_string(buf);
            self.tokens.push(Token::new(TokenType::Identifier, Some(word), line_count, offset));
        }
    }
}

} // verus!
