//! The computation behind the diagnostic rendering: selecting the source
//! line an error lies on, and the context window around the offending
//! column.

use vstd::prelude::*;
use crate::chars::{chars_of, chars_to_string};

verus! {

/// The index of the first newline of `s` at or after `from`, or the
/// length of `s` if there is none.
pub open spec fn next_newline(s: Seq<char>, from: int) -> int
    decreases s.len() - from,
{
    if from < 0 {
        next_newline(s, 0)
    } else if from >= s.len() {
        s.len() as int
    } else if s[from] == '\n' {
        from
    } else {
        next_newline(s, from + 1)
    }
}

/// The index at which the 0-based `k`-th line of `s` starts: one past the
/// `k`-th newline.  Past the last line it saturates at one past the end.
pub open spec fn start_of_line(s: Seq<char>, k: int) -> int
    decreases k,
{
    if k <= 0 {
        0
    } else {
        next_newline(s, start_of_line(s, k - 1)) + 1
    }
}

/// The text of the 0-based `k`-th line of `s`: the characters from its
/// start up to the next newline, and empty past the last line.
pub open spec fn nth_line(s: Seq<char>, k: int) -> Seq<char> {
    let a = start_of_line(s, k);
    if a > s.len() {
        Seq::empty()
    } else {
        s.subrange(a, next_newline(s, a))
    }
}

/// Up to `count` characters of `s` starting at `from`, clipped to the end
/// of `s`.
pub open spec fn seq_window(s: Seq<char>, from: int, count: int) -> Seq<char>
    recommends
        0 <= from,
        0 <= count,
{
    if from >= s.len() {
        Seq::empty()
    } else if from + count >= s.len() {
        s.subrange(from, s.len() as int)
    } else {
        s.subrange(from, from + count)
    }
}

/// `next_newline` names the first newline at or after `from`: up to the
/// index it names there is none, and it stops at a newline or at the end.
proof fn lemma_next_newline_found(s: Seq<char>, from: int, j: int)
    requires
        0 <= from <= j <= s.len(),
        forall|t: int| from <= t < j ==> s[t] != '\n',
        j == s.len() || s[j] == '\n',
    ensures
        next_newline(s, from) == j,
    decreases j - from,
{
    if from < j {
        lemma_next_newline_found(s, from + 1, j);
    }
}

/// Once a line start lies past the end of the text, every later line
/// starts there too.
proof fn lemma_start_saturates(s: Seq<char>, k: int, k2: int)
    requires
        0 <= k <= k2,
        start_of_line(s, k) == s.len() + 1,
    ensures
        start_of_line(s, k2) == s.len() + 1,
    decreases k2 - k,
{
    if k < k2 {
        lemma_start_saturates(s, k + 1, k2);
    }
}

/// The index of the first newline of `v` at or after `from`, or the
/// length of `v` if there is none.
fn find_newline(v: &Vec<char>, from: usize) -> (r: usize)
    requires
        from <= v@.len(),
    ensures
        from <= r <= v@.len(),
        r as int == next_newline(v@, from as int),
{
    let mut j = from;
    while j < v.len()
        invariant
            from <= j <= v@.len(),
            forall|t: int| from <= t < j ==> v@[t] != '\n',
        decreases v@.len() - j,
    {
        if v[j] == '\n' {
            proof {
                lemma_next_newline_found(v@, from as int, j as int);
            }
            return j;
        }
        j += 1;
    }
    proof {
        lemma_next_newline_found(v@, from as int, j as int);
    }
    j
}

/// Up to `count` characters of `v` starting at `from`, clipped to the end.
fn window(v: &Vec<char>, from: usize, count: usize) -> (r: String)
    ensures
        r@ == seq_window(v@, from as int, count as int),
{
    let a = if from >= v.len() {
        v.len()
    } else {
        from
    };
    let b = if from >= v.len() {
        v.len()
    } else if count >= v.len() - from {
        v.len()
    } else {
        from + count
    };
    let mut out: Vec<char> = Vec::new();
    let mut j = a;
    while j < b
        invariant
            a <= j <= b <= v@.len(),
            out@ == v@.subrange(a as int, j as int),
        decreases b - j,
    {
        out.push(v[j]);
        proof {
            assert(v@.subrange(a as int, j as int).push(v@[j as int]) =~= v@.subrange(
                a as int,
                j + 1 as int,
            ));
        }
        j += 1;
    }
    proof {
        assert(out@ =~= seq_window(v@, from as int, count as int));
    }
    chars_to_string(&out)
}

/// The 1-based `line`-th line of `code`, or the empty string if `code`
/// has fewer lines.
fn select_line(code: &str, line: usize) -> (r: String)
    requires
        1 <= line,
        code@.len() < usize::MAX,
    ensures
        r@ == nth_line(code@, line as int - 1),
{
    let v = chars_of(code);
    let ghost s = code@;
    let mut a: usize = 0;
    let mut t: usize = 0;
    while t < line - 1
        invariant
            s == v@,
            s == code@,
            1 <= line,
            s.len() < usize::MAX,
            t <= line - 1,
            a <= s.len() + 1,
            a as int == start_of_line(s, t as int),
        decreases line - 1 - t,
    {
        if a > v.len() {
            proof {
                lemma_start_saturates(s, t as int, line as int - 1);
            }
            return String::new();
        }
        let nn = find_newline(&v, a);
        a = nn + 1;
        t += 1;
    }
    if a > v.len() {
        return String::new();
    }
    let b = find_newline(&v, a);
    let mut out: Vec<char> = Vec::new();
    let mut j = a;
    while j < b
        invariant
            s == v@,
            a <= j <= b <= s.len(),
            out@ == s.subrange(a as int, j as int),
        decreases b - j,
    {
        out.push(v[j]);
        proof {
            assert(s.subrange(a as int, j as int).push(s[j as int]) =~= s.subrange(
                a as int,
                j + 1 as int,
            ));
        }
        j += 1;
    }
    chars_to_string(&out)
}

/// The pieces of the diagnostic rendering for an error at the 1-based
/// `line` and 0-based column `offset` of `code`: up to 15 characters
/// before the offending column, the offending character itself, and up to
/// 15 characters after it.
pub fn error_context(code: &str, line: usize, offset: usize) -> (r: (String, String, String))
    requires
        1 <= line,
        code@.len() < usize::MAX,
        offset < usize::MAX,
    ensures
        ({
            let ln = nth_line(code@, line as int - 1);
            &&& r.0@ == seq_window(
                ln,
                if offset <= 15 {
                    0int
                } else {
                    offset - 15
                },
                if offset <= 15 {
                    offset as int
                } else {
                    15int
                },
            )
            &&& r.1@ == seq_window(ln, offset as int, 1)
            &&& r.2@ == seq_window(ln, offset as int + 1, 15)
        }),
{
    let source_line = select_line(code, line);
    let v = chars_of(source_line.as_str());
    let back_start = if offset <= 15 {
        0
    } else {
        offset - 15
    };
    let back_count = if offset <= 15 {
        offset
    } else {
        15
    };
    let before = window(&v, back_start, back_count);
    let at = window(&v, offset, 1);
    let after = window(&v, offset + 1, 15);
    (before, at, after)
}

} // verus!
