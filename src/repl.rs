//! The interactive prompt: each line is a command line of its own.
use vstd::prelude::*;

use crate::DsError;

verus! {

/// The words of `line` under POSIX shell quoting, or nothing where its
/// quoting is invalid.
pub uninterp spec fn shell_words(line: Seq<char>) -> Option<Seq<Seq<char>>>;

/// The views of some strings.
pub open spec fn views(v: Seq<String>) -> Seq<Seq<char>> {
    v.map_values(|s: String| s@)
}

/// Relies on `shlex::split`: the words of a line, `None` where the quoting
/// is invalid.
#[verifier::external_body]
fn split_words(line: &str) -> (r: Option<Vec<String>>)
    ensures
        match r {
            Some(v) => shell_words(line@) == Some(views(v@)),
            None => shell_words(line@) is None,
        },
{
    shlex::split(line)
}

/// The arguments typed on a line of the prompt.
pub fn line_args(line: &str) -> (r: Result<Vec<String>, DsError>)
    ensures
        match r {
            Ok(v) => shell_words(line@) == Some(views(v@)),
            Err(e) => shell_words(line@) is None && e == DsError::InvalidREPL,
        },
{
    match split_words(line) {
        Some(v) => Ok(v),
        None => Err(DsError::InvalidREPL),
    }
}

} // verus!
