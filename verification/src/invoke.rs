//! The process invoker.
//!
//! Each call builds one invocation of the external calculator — optionally
//! wrapped by the timeout-enforcing supervisor process — feeds it the
//! statement on its input stream, and classifies what came back. The
//! argument protocol is pinned by the contracts of the request builders:
//! the calculator always receives its two fixed flags, the supervisor
//! receives the duration in decimal seconds with the `s` unit suffix, and
//! the statement is terminated by exactly one newline.

use vstd::prelude::*;
use vstd::string::StringExecFns;

use crate::host::run_with_input;
use crate::normalize::normalized;
use crate::outcome::{classify_output, BCError};

verus! {

/// The decimal digit character for `d`.
pub open spec fn digit_char(d: nat) -> char
    recommends
        d < 10,
{
    ((48 + d) as u8) as char
}

/// The decimal digit characters of `n`, most significant first.
pub open spec fn dec_digits(n: nat) -> Seq<char>
    decreases n,
{
    if n < 10 {
        seq![digit_char(n)]
    } else {
        dec_digits(n / 10).push(digit_char(n % 10))
    }
}

/// Appends the decimal digits of `n` to `out`, most significant first.
fn push_digits(n: u32, out: &mut Vec<char>)
    ensures
        final(out)@ == old(out)@ + dec_digits(n as nat),
    decreases n,
{
    if n >= 10 {
        proof {
            assert(n as int / 10 < n as int) by (nonlinear_arith)
                requires
                    n >= 10,
            ;
        }
        push_digits(n / 10, out);
        let d: u8 = (n % 10) as u8;
        out.push((48 + d) as char);
        proof {
            assert(out@ =~= old(out)@ + dec_digits(n as nat));
        }
    } else {
        let d: u8 = n as u8;
        out.push((48 + d) as char);
        proof {
            assert(out@ =~= old(out)@ + dec_digits(n as nat));
        }
    }
}

/// The duration argument handed to the timeout supervisor: the bound in
/// seconds, written in decimal, followed by the `s` unit suffix.
pub fn duration_arg(secs: u32) -> (r: String)
    ensures
        r@ == dec_digits(secs as nat).push('s'),
{
    let mut chars: Vec<char> = Vec::new();
    push_digits(secs, &mut chars);
    chars.push('s');
    proof {
        assert(chars@ =~= dec_digits(secs as nat).push('s'));
    }
    crate::host::chars_to_string(&chars)
}

/// One calculator invocation, ready to run: the program to spawn, its
/// argument list in order, and what is written to its input stream.
pub struct Request {
    /// The executable to spawn: the calculator itself, or the timeout
    /// supervisor when the run is bounded.
    pub program: String,
    /// The argument list, in order.
    pub args: Vec<String>,
    /// What the child reads on its input stream: the statement and exactly
    /// one trailing line terminator.
    pub input: String,
}

/// Builds the plain invocation: the calculator at `bc_path` with its two
/// fixed flags — extended math mode and banner suppression — and the
/// statement, terminated by exactly one newline, on its input stream.
pub fn build_request(bc_path: &str, statement: &str) -> (req: Request)
    ensures
        req.program@ == bc_path@,
        req.args@.len() == 2,
        req.args@[0]@ == "-l"@,
        req.args@[1]@ == "-q"@,
        req.input@ == statement@ + "\n"@,
{
    let mut args: Vec<String> = Vec::new();
    args.push("-l".to_owned());
    args.push("-q".to_owned());
    let mut input = statement.to_owned();
    input.append("\n");
    Request { program: bc_path.to_owned(), args, input }
}

/// Builds the supervised invocation: the timeout supervisor at
/// `timeout_path` receives the duration argument first, then the calculator
/// path and the calculator's two fixed flags; the input stream is fed as in
/// the plain invocation.
pub fn build_timeout_request(
    timeout_path: &str,
    timeout_secs: u32,
    bc_path: &str,
    statement: &str,
) -> (req: Request)
    ensures
        req.program@ == timeout_path@,
        req.args@.len() == 4,
        req.args@[0]@ == dec_digits(timeout_secs as nat).push('s'),
        req.args@[1]@ == bc_path@,
        req.args@[2]@ == "-l"@,
        req.args@[3]@ == "-q"@,
        req.input@ == statement@ + "\n"@,
{
    let mut args: Vec<String> = Vec::new();
    args.push(duration_arg(timeout_secs));
    args.push(bc_path.to_owned());
    args.push("-l".to_owned());
    args.push("-q".to_owned());
    let mut input = statement.to_owned();
    input.append("\n");
    Request { program: timeout_path.to_owned(), args, input }
}

/// Calls the external calculator at `bc_path` on one statement and returns
/// the normalized result string or the classified failure. Without a
/// supervisor no run is ever classified as a timeout; every success and
/// every tool-reported error carries the normalization of a non-empty
/// captured stream.
pub fn bc(bc_path: &str, statement: &str) -> (r: Result<String, BCError>)
    ensures
        !(r matches Err(BCError::Timeout)),
        r matches Ok(s) ==> exists|raw: Seq<char>| raw.len() >= 1 && s@ == normalized(raw),
        r matches Err(BCError::Error(t)) ==> exists|raw: Seq<char>|
            raw.len() >= 1 && t@ == normalized(raw),
{
    let req = build_request(bc_path, statement);
    match run_with_input(req.program.as_str(), &req.args, req.input.as_str()) {
        Ok(output) => {
            let ghost out_chars = output.stdout@;
            let ghost err_chars = output.stderr@;
            let r = classify_output(output, false);
            proof {
                if err_chars.len() > 0 {
                    assert(exists|raw: Seq<char>|
                        raw.len() >= 1 && #[trigger] normalized(raw) == normalized(err_chars)) by {
                        assert(err_chars.len() >= 1);
                        assert(normalized(err_chars) == normalized(err_chars));
                    }
                } else if out_chars.len() > 0 {
                    assert(exists|raw: Seq<char>|
                        raw.len() >= 1 && #[trigger] normalized(raw) == normalized(out_chars)) by {
                        assert(out_chars.len() >= 1);
                        assert(normalized(out_chars) == normalized(out_chars));
                    }
                }
            }
            r
        },
        Err(e) => Err(BCError::IOError(e)),
    }
}

/// Calls the calculator under the timeout supervisor at `timeout_path`,
/// bounded to `timeout_secs` seconds, and returns the normalized result
/// string or the classified failure; a run the supervisor ended for
/// exceeding its duration is reported as a timeout before any content is
/// classified.
pub fn bc_timeout(
    timeout_path: &str,
    timeout_secs: u32,
    bc_path: &str,
    statement: &str,
) -> (r: Result<String, BCError>)
    ensures
        r matches Ok(s) ==> exists|raw: Seq<char>| raw.len() >= 1 && s@ == normalized(raw),
        r matches Err(BCError::Error(t)) ==> exists|raw: Seq<char>|
            raw.len() >= 1 && t@ == normalized(raw),
{
    let req = build_timeout_request(timeout_path, timeout_secs, bc_path, statement);
    match run_with_input(req.program.as_str(), &req.args, req.input.as_str()) {
        Ok(output) => {
            let ghost out_chars = output.stdout@;
            let ghost err_chars = output.stderr@;
            let r = classify_output(output, true);
            proof {
                if err_chars.len() > 0 {
                    assert(exists|raw: Seq<char>|
                        raw.len() >= 1 && #[trigger] normalized(raw) == normalized(err_chars)) by {
                        assert(err_chars.len() >= 1);
                        assert(normalized(err_chars) == normalized(err_chars));
                    }
                } else if out_chars.len() > 0 {
                    assert(exists|raw: Seq<char>|
                        raw.len() >= 1 && #[trigger] normalized(raw) == normalized(out_chars)) by {
                        assert(out_chars.len() >= 1);
                        assert(normalized(out_chars) == normalized(out_chars));
                    }
                }
            }
            r
        },
        Err(e) => Err(BCError::IOError(e)),
    }
}

/// The plain call with the default calculator command name.
pub fn bc_default(statement: &str) -> (r: Result<String, BCError>)
    ensures
        !(r matches Err(BCError::Timeout)),
        r matches Ok(s) ==> exists|raw: Seq<char>| raw.len() >= 1 && s@ == normalized(raw),
        r matches Err(BCError::Error(t)) ==> exists|raw: Seq<char>|
            raw.len() >= 1 && t@ == normalized(raw),
{
    bc("bc", statement)
}

/// The supervised call with the default supervisor command name, the
/// default fifteen-second bound, and the default calculator command name.
pub fn bc_timeout_default(statement: &str) -> (r: Result<String, BCError>)
    ensures
        r matches Ok(s) ==> exists|raw: Seq<char>| raw.len() >= 1 && s@ == normalized(raw),
        r matches Err(BCError::Error(t)) ==> exists|raw: Seq<char>|
            raw.len() >= 1 && t@ == normalized(raw),
{
    bc_timeout("timeout", 15, "bc", statement)
}

/// The supervised call with the default command names and a chosen bound.
pub fn bc_timeout_secs(timeout_secs: u32, statement: &str) -> (r: Result<String, BCError>)
    ensures
        r matches Ok(s) ==> exists|raw: Seq<char>| raw.len() >= 1 && s@ == normalized(raw),
        r matches Err(BCError::Error(t)) ==> exists|raw: Seq<char>|
            raw.len() >= 1 && t@ == normalized(raw),
{
    bc_timeout("timeout", timeout_secs, "bc", statement)
}

} // verus!
