//! The embedding interface: scan one complete source text, with the
//! trailing newline the scanner's contract expects appended first.

use vstd::prelude::*;
use vstd::string::StringExecFns;
use crate::scanner::{Scanner, ScanError};
use crate::tokens::{Token, toks_view};
use crate::machine::{scan_model, eof_tok};

verus! {

/// One scanning session.  `has_error` records whether a diagnostic was
/// reported during the session.
pub struct Lox {
    pub has_error: bool,
}

impl Lox {
    pub fn new() -> (r: Self)
        ensures
            !r.has_error,
    {
        Lox { has_error: false }
    }

    /// Scan `code` with a newline appended, so that any in-progress
    /// literal or identifier at end of input is flushed.  On success the
    /// result is the model's tokens terminated by exactly one end-of-input
    /// marker; on the fatal double-dot error it is that error's position.
    pub fn run(&self, code: &str) -> (r: Result<Vec<Token>, ScanError>)
        requires
            code@.len() + 1 < usize::MAX,
        ensures
            r is Ok <==> scan_model(code@ + "\n"@).err is None,
            match r {
                Ok(ts) => {
                    let m = scan_model(code@ + "\n"@);
                    toks_view(ts@) == m.toks.push(eof_tok(m.line))
                },
                Err(e) => match scan_model(code@ + "\n"@).err {
                    Some(a) => e.line as nat == a.line && e.offset as nat == a.offset
                        && e.message@ == "Did not expect '.'"@,
                    None => false,
                },
            },
    {
        proof {
            reveal_strlit("\n");
        }
        let src = code.to_owned().concat("\n");
        let mut scanner = Scanner::new(src);
        match scanner.scan_tokens() {
            Ok(()) => {
                proof {
                    let m = scan_model(code@ + "\n"@);
                    assert(toks_view(scanner.tokens@) =~= m.toks.push(eof_tok(m.line)));
                }
                Ok(scanner.tokens)
            },
            Err(e) => Err(e),
        }
    }
}

} // verus!
