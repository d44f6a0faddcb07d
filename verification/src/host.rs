//! The trusted boundary to the host system.
//!
//! Every item here is believed, not verified: each wraps one call into an
//! outside crate or the standard library and converts between its values and
//! the library's own plain values. The rest of the crate is proved against
//! these contracts.

use vstd::prelude::*;

use crate::outcome::CapturedOutput;

verus! {

/// The standard library's I/O error, as reported when a child process cannot
/// be spawned. Opaque to the verifier; it is carried through to the caller
/// untouched.
#[verifier::external_type_specification]
#[verifier::external_body]
pub struct ExIoError(std::io::Error);

/// Runs `program` with `args` as one child process, writes `input` to its
/// standard input and closes it, then waits and captures the complete
/// standard output and standard error streams together with the exit status
/// code.
///
/// Relies on `duct::cmd` and `duct::Expression::{stdin_bytes,
/// stdout_capture, stderr_capture, unchecked, run}`: `run` spawns exactly
/// this one command (resolving a bare name on the search path), returns the
/// I/O error when the child cannot be spawned at all, and otherwise waits
/// for it to exit without treating a non-zero status as an error. The
/// captured bytes are decoded as UTF-8, invalid sequences becoming
/// replacement characters. Nothing is promised of the outcome: what the
/// child writes and how it exits depend on the host, and the callers state
/// what holds of every outcome.
#[verifier::external_body]
pub(crate) fn run_with_input(program: &str, args: &Vec<String>, input: &str) -> Result<
    CapturedOutput,
    std::io::Error,
> {
    let run = duct::cmd(program, args.iter().map(|a| a.as_str()))
        .stdin_bytes(input.as_bytes())
        .stdout_capture()
        .stderr_capture()
        .unchecked()
        .run();
    match run {
        Ok(o) => Ok(CapturedOutput {
            status_code: o.status.code(),
            stdout: String::from_utf8_lossy(&o.stdout).chars().collect(),
            stderr: String::from_utf8_lossy(&o.stderr).chars().collect(),
        }),
        Err(e) => Err(e),
    }
}

/// Builds the `String` holding exactly the given characters, in order.
///
/// Relies on `String`'s `FromIterator<char>` implementation: collecting
/// characters yields the string of exactly those characters.
#[verifier::external_body]
pub(crate) fn chars_to_string(v: &Vec<char>) -> (r: String)
    ensures
        r@ == v@,
{
    v.iter().collect()
}

/// The display text of an I/O error.
///
/// Relies on `std::io::Error`'s `Display` implementation, through
/// `ToString::to_string`; nothing is promised of the text.
#[verifier::external_body]
pub(crate) fn io_error_text(e: &std::io::Error) -> String {
    e.to_string()
}

} // verus!
