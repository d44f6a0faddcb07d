//! Captured output and its classification.
//!
//! A calculator run ends in exactly one of five outcomes, and the order of
//! the checks is significant: a spawn failure is reported before any output
//! is looked at; a supervised run whose exit status carries the reserved
//! timeout value is a timeout, even when partial output exists; a non-empty
//! standard error stream is a tool-reported error, whatever standard output
//! holds; empty output on both streams means the statement produced no
//! printable result; only what remains is a success, whose payload is the
//! normalized standard output.

use vstd::prelude::*;

use crate::host::{chars_to_string, io_error_text};
use crate::normalize::{handle_output, normalized};

verus! {

/// What running the external calculator produced.
pub struct CapturedOutput {
    /// The child's exit status code, or none when a signal ended it. The
    /// reserved value 124 from the timeout supervisor signals that the
    /// duration was exceeded.
    pub status_code: Option<i32>,
    /// The complete captured standard output stream, decoded to characters.
    pub stdout: Vec<char>,
    /// The complete captured standard error stream, decoded to characters.
    pub stderr: Vec<char>,
}

/// A classified failure of one calculator invocation.
#[derive(Debug)]
pub enum BCError {
    /// The child process could not be spawned at all: bad path, permission,
    /// or another I/O failure, reported before any output classification.
    IOError(std::io::Error),
    /// Both streams were empty: the statement produced no printable output.
    NoResult,
    /// The timeout supervisor reported that the calculation exceeded its
    /// duration.
    Timeout,
    /// The calculator wrote to its standard error stream; the normalized
    /// text is carried verbatim. Maybe it is a syntax error.
    Error(String),
}

impl From<std::io::Error> for BCError {
    fn from(err: std::io::Error) -> Self {
        BCError::IOError(err)
    }
}

impl vstd::std_specs::convert::FromSpecImpl<std::io::Error> for BCError {
    open spec fn obeys_from_spec() -> bool {
        true
    }

    open spec fn from_spec(err: std::io::Error) -> Self {
        BCError::IOError(err)
    }
}

impl From<String> for BCError {
    fn from(err: String) -> Self {
        BCError::Error(err)
    }
}

impl vstd::std_specs::convert::FromSpecImpl<String> for BCError {
    open spec fn obeys_from_spec() -> bool {
        true
    }

    open spec fn from_spec(err: String) -> Self {
        BCError::Error(err)
    }
}

impl BCError {
    /// The human-readable description of the failure: the I/O error's own
    /// text for a spawn failure, a fixed sentence for an absent result and
    /// for a timeout, and the tool-reported text verbatim.
    pub fn message(&self) -> (r: String)
        ensures
            self matches BCError::NoResult ==> r@ == "There is no result of BC."@,
            self matches BCError::Timeout ==> r@ == "The BC calculation has timed out."@,
            (self matches BCError::Error(text) ==> r@ == text@),
    {
        match self {
            BCError::IOError(err) => io_error_text(err),
            BCError::NoResult => "There is no result of BC.".to_owned(),
            BCError::Timeout => "The BC calculation has timed out.".to_owned(),
            BCError::Error(text) => text.clone(),
        }
    }
}

/// The classification contract: the single result a captured run must map
/// to. A timeout — the reserved exit status, inspected only for a
/// supervised run — is reported first; then a non-empty standard error wins
/// over any standard output; then empty standard output means no result;
/// what remains is a success carrying the normalized standard output.
pub open spec fn classified_as(
    check_timeout: bool,
    code: Option<i32>,
    out: Seq<char>,
    err: Seq<char>,
    r: Result<String, BCError>,
) -> bool {
    if check_timeout && code == Some(124i32) {
        r == Err::<String, BCError>(BCError::Timeout)
    } else if err.len() > 0 {
        (r matches Err(BCError::Error(t)) && t@ == normalized(err))
    } else if out.len() == 0 {
        r == Err::<String, BCError>(BCError::NoResult)
    } else {
        (r matches Ok(s) && s@ == normalized(out))
    }
}

/// Classifies one captured run into the single outcome it must yield, and
/// normalizes the stream that carries the payload. `check_timeout` is set
/// for a run wrapped by the timeout supervisor, whose reserved exit status
/// is inspected before any content.
pub fn classify_output(output: CapturedOutput, check_timeout: bool) -> (r: Result<
    String,
    BCError,
>)
    ensures
        classified_as(check_timeout, output.status_code, output.stdout@, output.stderr@, r),
{
    if check_timeout {
        if let Some(code) = output.status_code {
            if code == 124 {
                return Err(BCError::Timeout);
            }
        }
    }
    if output.stderr.len() == 0 {
        if output.stdout.len() == 0 {
            Err(BCError::NoResult)
        } else {
            let s = handle_output(&output.stdout);
            Ok(chars_to_string(&s))
        }
    } else {
        let t = handle_output(&output.stderr);
        Err(BCError::Error(chars_to_string(&t)))
    }
}

} // verus!
