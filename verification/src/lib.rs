//! A verified lexical scanner for a small dynamic scripting language.
//!
//! The scanner walks the source text once, character by character, driving a
//! finite-state machine that classifies punctuation, one- and two-character
//! operators, string literals, numeric literals, identifiers, keywords and
//! comments, while tracking line and column positions for diagnostics.
//!
//! Errors come in two tiers.  The one fatal lexical error is a second `.`
//! inside an already-started fractional number; it is returned to the
//! caller as a typed result rather than aborting, so that an embedding
//! such as a prompt loop can recover.  Every other unrecognised character
//! is deliberately lenient: it is absorbed into the current
//! identifier-like or number buffer and never reported, so callers must
//! not rely on unknown-symbol detection.

pub mod chars;
pub mod tokens;
pub mod machine;
pub mod scanner;
pub mod laws;
pub mod lox;
pub mod diagnostic;
