//! Proved laws of the scanning machine: properties that hold of whole
//! classes of inputs, stated over the model in `machine`.

use vstd::prelude::*;
use crate::chars::{is_ws_char, is_digit_char};
use crate::tokens::{TokenType, TokenView, single_tt, two_tt};
use crate::machine::{
    ScanState, ScanModel, scan_model, scan_prefix, step, tok, tok_lit, word_token, off1,
    lemma_scan_prefix_zero, lemma_scan_prefix_unfold,
};

verus! {

/// Every character of `s` in `[a, b)` is a digit.
pub open spec fn digits(s: Seq<char>, a: int, b: int) -> bool {
    forall|j: int| a <= j < b ==> is_digit_char(#[trigger] s[j])
}

/// A character that keeps an in-progress word going: nothing the scanner
/// recognises as punctuation, an operator start, whitespace or a quote.
pub open spec fn is_word_cont(c: char) -> bool {
    &&& single_tt(c) is None
    &&& two_tt(c) is None
    &&& !is_ws_char(c)
    &&& c != '"'
}

/// Consuming whitespace from the starting mode emits nothing and ends in
/// the starting mode.
proof fn lemma_ws_run(src: Seq<char>, a: int, b: int)
    requires
        0 <= a <= b <= src.len(),
        scan_prefix(src, a as nat).err is None,
        scan_prefix(src, a as nat).state == ScanState::Next,
        forall|j: int| a <= j < b ==> is_ws_char(#[trigger] src[j]),
    ensures
        scan_prefix(src, b as nat).err is None,
        scan_prefix(src, b as nat).state == ScanState::Next,
        scan_prefix(src, b as nat).toks == scan_prefix(src, a as nat).toks,
        scan_prefix(src, b as nat).pending == scan_prefix(src, a as nat).pending,
        scan_prefix(src, b as nat).buf == scan_prefix(src, a as nat).buf,
    decreases b - a,
{
    if b > a {
        lemma_ws_run(src, a, b - 1);
    }
}

/// Consuming digits while reading the integer part of a number appends
/// them to the buffer and emits nothing.
proof fn lemma_digit_run(src: Seq<char>, a: int, b: int)
    requires
        0 <= a <= b <= src.len(),
        scan_prefix(src, a as nat).err is None,
        scan_prefix(src, a as nat).state == ScanState::Number,
        digits(src, a, b),
    ensures
        scan_prefix(src, b as nat).err is None,
        scan_prefix(src, b as nat).state == ScanState::Number,
        scan_prefix(src, b as nat).toks == scan_prefix(src, a as nat).toks,
        scan_prefix(src, b as nat).buf == scan_prefix(src, a as nat).buf + src.subrange(a, b),
        scan_prefix(src, b as nat).line == scan_prefix(src, a as nat).line,
        scan_prefix(src, b as nat).line_start == scan_prefix(src, a as nat).line_start,
    decreases b - a,
{
    if b > a {
        lemma_digit_run(src, a, b - 1);
        assert((scan_prefix(src, a as nat).buf + src.subrange(a, b - 1)).push(src[b - 1]) =~= scan_prefix(
            src,
            a as nat,
        ).buf + src.subrange(a, b));
    } else {
        assert(scan_prefix(src, a as nat).buf + src.subrange(a, a) =~= scan_prefix(
            src,
            a as nat,
        ).buf);
    }
}

/// Consuming digits while reading the fractional part of a number appends
/// them to the buffer and emits nothing.
proof fn lemma_frac_run(src: Seq<char>, a: int, b: int)
    requires
        0 <= a <= b <= src.len(),
        scan_prefix(src, a as nat).err is None,
        scan_prefix(src, a as nat).state == ScanState::NumberWithDot,
        digits(src, a, b),
    ensures
        scan_prefix(src, b as nat).err is None,
        scan_prefix(src, b as nat).state == ScanState::NumberWithDot,
        scan_prefix(src, b as nat).toks == scan_prefix(src, a as nat).toks,
        scan_prefix(src, b as nat).buf == scan_prefix(src, a as nat).buf + src.subrange(a, b),
        scan_prefix(src, b as nat).line == scan_prefix(src, a as nat).line,
        scan_prefix(src, b as nat).line_start == scan_prefix(src, a as nat).line_start,
    decreases b - a,
{
    if b > a {
        lemma_frac_run(src, a, b - 1);
        assert((scan_prefix(src, a as nat).buf + src.subrange(a, b - 1)).push(src[b - 1]) =~= scan_prefix(
            src,
            a as nat,
        ).buf + src.subrange(a, b));
    } else {
        assert(scan_prefix(src, a as nat).buf + src.subrange(a, a) =~= scan_prefix(
            src,
            a as nat,
        ).buf);
    }
}

/// Consuming word characters while reading an identifier or keyword
/// appends them to the buffer and emits nothing.
proof fn lemma_word_run(src: Seq<char>, a: int, b: int)
    requires
        0 <= a <= b <= src.len(),
        scan_prefix(src, a as nat).err is None,
        scan_prefix(src, a as nat).state == ScanState::IdentifierOrKeyword,
        forall|j: int| a <= j < b ==> is_word_cont(#[trigger] src[j]),
    ensures
        scan_prefix(src, b as nat).err is None,
        scan_prefix(src, b as nat).state == ScanState::IdentifierOrKeyword,
        scan_prefix(src, b as nat).toks == scan_prefix(src, a as nat).toks,
        scan_prefix(src, b as nat).buf == scan_prefix(src, a as nat).buf + src.subrange(a, b),
        scan_prefix(src, b as nat).line == scan_prefix(src, a as nat).line,
        scan_prefix(src, b as nat).line_start == scan_prefix(src, a as nat).line_start,
    decreases b - a,
{
    if b > a {
        lemma_word_run(src, a, b - 1);
        assert((scan_prefix(src, a as nat).buf + src.subrange(a, b - 1)).push(src[b - 1]) =~= scan_prefix(
            src,
            a as nat,
        ).buf + src.subrange(a, b));
    } else {
        assert(scan_prefix(src, a as nat).buf + src.subrange(a, a) =~= scan_prefix(
            src,
            a as nat,
        ).buf);
    }
}

/// Consuming comment characters up to, but not including, the closing
/// newline changes nothing at all.
proof fn lemma_comment_run(src: Seq<char>, a: int, b: int)
    requires
        0 <= a <= b <= src.len(),
        scan_prefix(src, a as nat).err is None,
        scan_prefix(src, a as nat).state == ScanState::Comment,
        forall|j: int| a <= j < b ==> #[trigger] src[j] != '\n',
    ensures
        scan_prefix(src, b as nat) == scan_prefix(src, a as nat),
    decreases b - a,
{
    if b > a {
        lemma_comment_run(src, a, b - 1);
    }
}

/// An input consisting solely of whitespace yields no token at all, so the
/// scanner's output for it is exactly one end-of-input marker.
pub proof fn lemma_whitespace_only(src: Seq<char>)
    requires
        forall|j: int| 0 <= j < src.len() ==> is_ws_char(#[trigger] src[j]),
    ensures
        scan_model(src).err is None,
        scan_model(src).toks == Seq::<TokenView>::empty(),
    {
    lemma_ws_run(src, 0, src.len() as int);
}

/// A valid numeric literal of the form `digit+ ('.' digit+)?`, flushed by
/// the trailing newline, is read as exactly one number token whose literal
/// is the matched text verbatim.  `k` is the length of the integer part:
/// the characters before `k` are digits, and either the literal ends there
/// or a decimal point follows with one or more further digits.
pub proof fn lemma_number_literal(lit: Seq<char>, k: int)
    requires
        1 <= k <= lit.len(),
        digits(lit, 0, k),
        k == lit.len() || (lit[k] == '.' && k + 1 < lit.len() && digits(
            lit,
            k + 1,
            lit.len() as int,
        )),
    ensures
        scan_model(lit.push('\n')).err is None,
        scan_model(lit.push('\n')).toks == seq![
            tok_lit(TokenType::Number, lit, 1, (lit.len() - 1) as nat),
        ],
{
    let src = lit.push('\n');
    let n = lit.len() as int;
    assert(digits(src, 0, k)) by {
        assert(forall|j: int| 0 <= j < k ==> src[j] == lit[j]);
    }
    lemma_scan_prefix_zero(src);
    lemma_scan_prefix_unfold(src, 0);
    assert(scan_prefix(src, 1).state == ScanState::Number);
    assert(scan_prefix(src, 1).buf =~= seq![src[0]]);
    lemma_digit_run(src, 1, k);
    assert(scan_prefix(src, k as nat).buf =~= lit.subrange(0, k)) by {
        assert(seq![src[0]] + src.subrange(1, k) =~= src.subrange(0, k));
        assert(src.subrange(0, k) =~= lit.subrange(0, k));
    }
    if k == n {
        lemma_scan_prefix_unfold(src, n as nat);
        assert(lit.subrange(0, n) =~= lit);
        assert(scan_prefix(src, (n + 1) as nat).toks =~= seq![
            tok_lit(TokenType::Number, lit, 1, (n - 1) as nat),
        ]);
    } else {
        // the decimal point
        lemma_scan_prefix_unfold(src, k as nat);
        assert(scan_prefix(src, (k + 1) as nat).state == ScanState::NumberWithDot);
        assert(scan_prefix(src, (k + 1) as nat).buf =~= lit.subrange(0, k + 1));
        assert(digits(src, k + 1, n)) by {
            assert(forall|j: int| k + 1 <= j < n ==> src[j] == lit[j]);
        }
        lemma_frac_run(src, k + 1, n);
        assert(scan_prefix(src, n as nat).buf =~= lit) by {
            assert(lit.subrange(0, k + 1) + src.subrange(k + 1, n) =~= lit);
        }
        lemma_scan_prefix_unfold(src, n as nat);
        assert(scan_prefix(src, (n + 1) as nat).toks =~= seq![
            tok_lit(TokenType::Number, lit, 1, (n - 1) as nat),
        ]);
    }
}

/// After an identifier and a space, a `.` followed by a digit starts a
/// fractional number: the scanner emits the word's token and one number
/// token, and no standalone dot token.
pub proof fn lemma_dot_starts_fraction(w: Seq<char>, d: char)
    requires
        w.len() > 0,
        forall|j: int| 0 <= j < w.len() ==> is_word_cont(#[trigger] w[j]),
        !is_digit_char(w[0]),
        is_digit_char(d),
    ensures
        scan_model(w + seq![' ', '.', d, '\n']).err is None,
        scan_model(w + seq![' ', '.', d, '\n']).toks == seq![
            word_token(w, 1, (w.len() - 1) as nat),
            tok_lit(TokenType::Number, seq!['.', d], 1, w.len() + 2),
        ],
{
    let src = w + seq![' ', '.', d, '\n'];
    let n = w.len() as int;
    assert(src.len() == n + 4);
    assert(forall|j: int| 0 <= j < n ==> src[j] == w[j]);
    assert(src[n] == ' ' && src[n + 1] == '.' && src[n + 2] == d && src[n + 3] == '\n');
    lemma_scan_prefix_zero(src);
    lemma_scan_prefix_unfold(src, 0);
    assert(scan_prefix(src, 1).state == ScanState::IdentifierOrKeyword);
    assert(scan_prefix(src, 1).buf =~= seq![src[0]]);
    lemma_word_run(src, 1, n);
    assert(scan_prefix(src, n as nat).buf =~= w) by {
        assert(seq![src[0]] + src.subrange(1, n) =~= w);
    }
    lemma_scan_prefix_unfold(src, n as nat);
    assert(scan_prefix(src, (n + 1) as nat).state == ScanState::Next);
    assert(scan_prefix(src, (n + 1) as nat).toks =~= seq![word_token(w, 1, (n - 1) as nat)]);
    lemma_scan_prefix_unfold(src, (n + 1) as nat);
    assert(scan_prefix(src, (n + 2) as nat).state == ScanState::SoloDot);
    lemma_scan_prefix_unfold(src, (n + 2) as nat);
    assert(scan_prefix(src, (n + 3) as nat).state == ScanState::NumberWithDot);
    lemma_scan_prefix_unfold(src, (n + 3) as nat);
    assert(scan_prefix(src, (n + 4) as nat).toks =~= seq![
        word_token(w, 1, (n - 1) as nat),
        tok_lit(TokenType::Number, seq!['.', d], 1, (n + 2) as nat),
    ]);
}

/// Each two-character operator spelling followed by a newline is read as
/// exactly one combined token, never as two one-character tokens.
pub proof fn lemma_combined_operator(c: char)
    requires
        c == '!' || c == '=' || c == '>' || c == '<',
    ensures
        scan_model(seq![c, '=', '\n']).err is None,
        c == '!' ==> scan_model(seq![c, '=', '\n']).toks == seq![
            tok(TokenType::BangEqual, 1, 1),
        ],
        c == '=' ==> scan_model(seq![c, '=', '\n']).toks == seq![
            tok(TokenType::EqualEqual, 1, 1),
        ],
        c == '>' ==> scan_model(seq![c, '=', '\n']).toks == seq![
            tok(TokenType::GreaterEqual, 1, 1),
        ],
        c == '<' ==> scan_model(seq![c, '=', '\n']).toks == seq![
            tok(TokenType::LessEqual, 1, 1),
        ],
{
    let src = seq![c, '=', '\n'];
    lemma_scan_prefix_zero(src);
    lemma_scan_prefix_unfold(src, 0);
    lemma_scan_prefix_unfold(src, 1);
    lemma_scan_prefix_unfold(src, 2);
    if c == '!' {
        assert(scan_prefix(src, 3).toks =~= seq![tok(TokenType::BangEqual, 1, 1)]);
    }
    if c == '=' {
        assert(scan_prefix(src, 3).toks =~= seq![tok(TokenType::EqualEqual, 1, 1)]);
    }
    if c == '>' {
        assert(scan_prefix(src, 3).toks =~= seq![tok(TokenType::GreaterEqual, 1, 1)]);
    }
    if c == '<' {
        assert(scan_prefix(src, 3).toks =~= seq![tok(TokenType::LessEqual, 1, 1)]);
    }
}

/// A `//` comment is fully elided: everything up to the closing newline
/// emits no token, and the newline only closes the comment.
pub proof fn lemma_comment_elided(body: Seq<char>)
    requires
        forall|j: int| 0 <= j < body.len() ==> #[trigger] body[j] != '\n',
    ensures
        scan_model(seq!['/', '/'] + body + seq!['\n']).err is None,
        scan_model(seq!['/', '/'] + body + seq!['\n']).toks == Seq::<TokenView>::empty(),
        scan_model(seq!['/', '/'] + body + seq!['\n']).state == ScanState::Next,
        scan_model(seq!['/', '/'] + body + seq!['\n']).line == 2,
{
    let src = seq!['/', '/'] + body + seq!['\n'];
    let n = body.len() as int;
    assert(src.len() == n + 3);
    assert(src[0] == '/' && src[1] == '/');
    assert(forall|j: int| 2 <= j < n + 2 ==> src[j] == body[j - 2] && #[trigger] src[j] != '\n');
    assert(src[n + 2] == '\n');
    lemma_scan_prefix_zero(src);
    lemma_scan_prefix_unfold(src, 0);
    assert(scan_prefix(src, 1).state == ScanState::MaybeTwo);
    lemma_scan_prefix_unfold(src, 1);
    assert(scan_prefix(src, 2).state == ScanState::Comment);
    lemma_comment_run(src, 2, n + 2);
    lemma_scan_prefix_unfold(src, (n + 2) as nat);
}

/// A `/` not followed by a second `/` always emits a slash token: whatever
/// character comes next, the pending slash is flushed first.
pub proof fn lemma_slash_alone(m: ScanModel, c: char, i: nat)
    requires
        m.err is None,
        m.state == ScanState::MaybeTwo,
        m.pending == TokenType::Slash,
        c != '/',
    ensures
        step(m, c, i).toks.len() > m.toks.len(),
        step(m, c, i).toks[m.toks.len() as int] == tok(
            TokenType::Slash,
            m.line,
            off1(i, m.line_start),
        ),
{
}

} // verus!
