//! Evaluate arbitrary-precision arithmetic expressions by delegating to an
//! external command-line calculator.
//!
//! Each call spawns one fresh calculator process (optionally wrapped by a
//! timeout-enforcing supervisor process), feeds it the expression on its
//! input stream, captures its complete output, and classifies the run: the
//! captured standard output is normalized into one clean result string, or
//! a typed error is returned. The normalization step — dropping the
//! trailing line terminator and re-joining the backslash-newline
//! line-continuation markers the calculator emits for long numbers — is
//! specified and proved in [`normalize`]; the classification order (spawn
//! failure, timeout, tool-reported error, no result, success) is pinned by
//! the contract of [`outcome::classify_output`].

mod host;
pub mod invoke;
pub mod normalize;
pub mod outcome;

pub use invoke::{bc, bc_default, bc_timeout, bc_timeout_default, bc_timeout_secs};
pub use outcome::{classify_output, BCError, CapturedOutput};
