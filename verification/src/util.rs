//! Parsers for the values of single command line options.

use crate::text::find_char;
use crate::text::same_text;
use vstd::prelude::*;

verus! {

/// How much of a topic a consumer is shown.
#[derive(Clone, Copy, Debug, PartialEq, Eq, Structural)]
pub enum Isolation {
    /// Every record, whether or not it is committed yet.
    ReadUncommitted,
    /// Committed records only.
    ReadCommitted,
}

/// An error in what the user typed.
#[derive(Debug)]
pub enum CliError {
    /// An argument that cannot be read; the text says why.
    InvalidArg(String),
}

impl CliError {
    /// The text of the error.
    pub open spec fn text(self) -> Seq<char> {
        match self {
            CliError::InvalidArg(reason) => reason@,
        }
    }
}

/// The isolation that a word stands for. Each of the two has four spellings.
pub open spec fn isolation_of(word: Seq<char>) -> Option<Isolation> {
    if word == "read_committed"@ || word == "ReadCommitted"@ || word == "readCommitted"@ || word
        == "readcommitted"@ {
        Some(Isolation::ReadCommitted)
    } else if word == "read_uncommitted"@ || word == "ReadUncommitted"@ || word
        == "readUncommitted"@ || word == "readuncommitted"@ {
        Some(Isolation::ReadUncommitted)
    } else {
        None
    }
}

/// What is said of a word that stands for no isolation.
pub open spec fn unrecognized_isolation_text(word: Seq<char>) -> Seq<char> {
    "unrecognized isolation: "@ + word
        + ". Supported: read_committed (ReadCommitted), read_uncommitted (ReadUncommitted)"@
}

/// Reads an isolation from one of its spellings.
pub fn parse_isolation(s: &str) -> (parsed: Result<Isolation, String>)
    ensures
        match parsed {
            Ok(isolation) => isolation_of(s@) == Some(isolation),
            Err(reason) => isolation_of(s@) is None && reason@ == unrecognized_isolation_text(s@),
        },
{
    if same_text(s, "read_committed") || same_text(s, "ReadCommitted") || same_text(s, "readCommitted")
        || same_text(s, "readcommitted") {
        Ok(Isolation::ReadCommitted)
    } else if same_text(s, "read_uncommitted") || same_text(s, "ReadUncommitted") || same_text(
        s,
        "readUncommitted",
    ) || same_text(s, "readuncommitted") {
        Ok(Isolation::ReadUncommitted)
    } else {
        let mut reason = String::from_str("unrecognized isolation: ");
        reason.append(s);
        reason.append(
            ". Supported: read_committed (ReadCommitted), read_uncommitted (ReadUncommitted)",
        );
        Err(reason)
    }
}

/// What is said of an argument that holds no `=`.
pub open spec fn missing_equals_text(arg: Seq<char>) -> Seq<char> {
    "invalid KEY=value: no `=` found in `"@ + arg + "`"@
}

/// Splits `KEY=value` at its first `=`: the key is what stands before it,
/// the value what stands after, further `=` included. An argument without
/// `=` is refused.
pub fn parse_key_val(s: &str) -> (parsed: Result<(String, String), CliError>)
    ensures
        match parsed {
            Ok((key, value)) => s@ == key@ + seq!['='] + value@ && !key@.contains('='),
            Err(e) => !s@.contains('=') && e.text() == missing_equals_text(s@),
        },
{
    match find_char(s, '=') {
        Some(pos) => {
            let end: usize = s.unicode_len();
            let key = s.substring_char(0, pos).to_owned();
            let value = s.substring_char(pos + 1, end).to_owned();
            assert(s@ =~= key@ + seq!['='] + value@);
            Ok((key, value))
        },
        None => {
            let mut reason = String::from_str("invalid KEY=value: no `=` found in `");
            reason.append(s);
            reason.append("`");
            Err(CliError::InvalidArg(reason))
        },
    }
}

} // verus!
