//! Trusted boundary to the process's two output streams. Each function
//! prints one line; nothing is claimed of the effect.

use std::io::Write;
use vstd::prelude::*;

verus! {

/// Relies on std::io::stdout: writes the line and a newline to standard
/// output, ignoring write errors.
#[verifier::external_body]
pub(crate) fn emit_out(line: &str) {
    let _ = writeln!(std::io::stdout(), "{}", line);
}

/// Relies on std::io::stderr: writes the line and a newline to standard
/// error, ignoring write errors.
#[verifier::external_body]
pub(crate) fn emit_err(line: &str) {
    let _ = writeln!(std::io::stderr(), "{}", line);
}

} // verus!
