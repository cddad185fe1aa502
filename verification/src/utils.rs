//! Error types shared across the library, and small decision helpers for
//! the process-facing shell around it.

use std::io::Write;
use vstd::prelude::*;

verus! {

/// Relies on std::io::Stdout: prints one line of diagnostic text to
/// standard output.
#[verifier::external_body]
pub(crate) fn print_line(msg: &str) {
    let _ = writeln!(std::io::stdout(), "{}", msg);
}

/// The kinds of failure the tool distinguishes.  Failures that originate in
/// the filesystem or in the settings parser carry the underlying error's
/// rendered text.
#[derive(Debug, Clone)]
pub enum KdErrorKind {
    /// The settings file does not exist.
    NotFound,
    /// A filesystem operation failed; the payload is the reported cause.
    IOError(String),
    /// The settings text is not valid TOML; the payload is the parser's
    /// diagnostic.
    TOMLError(String),
    /// An external command failed or produced unusable output.
    RuntimeError,
    /// The settings are well-formed TOML but semantically inconsistent.
    ConfigError,
}

/// An error together with a human-readable message.
#[derive(Debug, Clone)]
pub struct KdError {
    pub kind: KdErrorKind,
    pub message: String,
}

impl KdError {
    pub fn new(kind: KdErrorKind, message: String) -> (r: Self)
        ensures
            r.kind == kind,
            r.message == message,
    {
        Self { kind, message }
    }
}

/// Decides what a finished source-fetch command amounts to: a failed exit
/// status is a runtime error, output that was not valid text is a runtime
/// error, and otherwise the captured standard output is the fetched source
/// expression.  A failure message echoes the repository and revision the
/// fetch was for.
pub fn nurl_result(repo: &str, rev: &str, success: bool, stdout: Option<String>) -> (r: Result<
    String,
    KdError,
>)
    ensures
        !success ==> (r is Err && r->Err_0.kind is RuntimeError && r->Err_0.message@
            == "command failed: "@ + repo@ + " at "@ + rev@),
        success && stdout is None ==> (r is Err && r->Err_0.kind is RuntimeError
            && r->Err_0.message@ == "Failed to parse Nurl output: "@ + repo@ + " at "@ + rev@),
        success && stdout is Some ==> (r is Ok && r->Ok_0 == stdout->Some_0),
{
    if !success {
        return Err(
            KdError::new(
                KdErrorKind::RuntimeError,
                "command failed: ".to_owned().concat(repo).concat(" at ").concat(rev),
            ),
        );
    }
    match stdout {
        Some(text) => Ok(text),
        None => Err(
            KdError::new(
                KdErrorKind::RuntimeError,
                "Failed to parse Nurl output: ".to_owned().concat(repo).concat(" at ").concat(rev),
            ),
        ),
    }
}

/// Whether a directory entry with the given metadata is an executable file:
/// a regular file with at least one execute permission bit set.
pub fn is_executable(is_file: bool, mode: u32) -> (r: bool)
    ensures
        r == (is_file && mode & 0o111 != 0),
{
    is_file && mode & 0o111 != 0
}

} // verus!
