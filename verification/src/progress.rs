//! Progress feedback on the error stream: a best-effort write handle, a
//! live terminal-width query, and a guard that restores terminal state.

use vstd::prelude::*;

use std::io::Write;

verus! {

/// The process's standard error stream handle, held while progress is shown.
#[verifier::external_type_specification]
#[verifier::external_body]
pub struct ExStderr(std::io::Stderr);

/// A best-effort write failed; the caller tolerates it.
#[derive(Clone, Copy, Debug, PartialEq, Eq, Structural)]
pub enum StreamError {
    Io,
}

/// Relies on std::io::stderr: a new handle to the process's error stream.
#[verifier::external_body]
pub(crate) fn os_stderr() -> std::io::Stderr {
    std::io::stderr()
}

/// Relies on std::io::Write::write_all on the error stream: writes the whole
/// of `text` or reports the first error.
#[verifier::external_body]
fn stderr_write_all(w: &mut std::io::Stderr, text: &str) -> Result<(), StreamError> {
    w.write_all(text.as_bytes()).map_err(|_| StreamError::Io)
}

/// Relies on std::io::Write::flush on the error stream.
#[verifier::external_body]
fn stderr_flush(w: &mut std::io::Stderr) -> Result<(), StreamError> {
    w.flush().map_err(|_| StreamError::Io)
}

/// Relies on crossterm::terminal::size: the live terminal's columns and
/// rows, where a terminal is attached.
#[verifier::external_body]
fn detected_terminal_size() -> Option<(u16, u16)> {
    crossterm::terminal::size().ok()
}

/// The width decision from an explicit override and a detected size: the
/// override wins; otherwise the detected columns; otherwise nothing.
pub fn select_width(columns_override: Option<u16>, detected: Option<(u16, u16)>) -> (r: Option<
    u16,
>)
    ensures
        columns_override matches Some(c) ==> r == Some(c),
        columns_override is None ==> r == (match detected {
            Some(size) => Some(size.0),
            None => None::<u16>,
        }),
{
    match columns_override {
        Some(c) => Some(c),
        None => match detected {
            Some(size) => Some(size.0),
            None => None,
        },
    }
}

/// The terminal width: an explicit override wins, otherwise the live
/// terminal is measured anew on every call, since it can be resized mid-run.
pub fn term_width(columns_override: Option<u16>) -> (r: Option<u16>)
    ensures
        columns_override is Some ==> r == columns_override,
{
    select_width(columns_override, detected_terminal_size())
}

/// A handle for transient status feedback, valid while one operation is in
/// flight; every write goes to the error stream at once.
#[derive(Debug)]
pub struct ProgressOutput {
    output: std::io::Stderr,
}

impl ProgressOutput {
    pub(crate) fn new(output: std::io::Stderr) -> ProgressOutput {
        ProgressOutput { output }
    }

    /// Writes already-formatted feedback to the error stream, best-effort.
    pub fn write_fmt(&mut self, text: &str) -> Result<(), StreamError> {
        stderr_write_all(&mut self.output, text)
    }

    /// Flushes the error stream, best-effort.
    pub fn flush(&mut self) -> Result<(), StreamError> {
        stderr_flush(&mut self.output)
    }

    /// The terminal width, re-read on every call, never cached.
    pub fn term_width(&self, columns_override: Option<u16>) -> (r: Option<u16>)
        ensures
            columns_override is Some ==> r == columns_override,
    {
        term_width(columns_override)
    }

    /// A guard holding restoration text. The shell ties `restore` to the end
    /// of the guarded scope on every exit path, so the text reaches the
    /// error stream exactly once, also when the guarded operation fails.
    pub fn output_guard(&self, text: String) -> (r: OutputGuard)
        ensures
            r.text@ == text@,
    {
        OutputGuard { text, output: os_stderr() }
    }
}

/// Restoration text owed to the error stream when a guarded scope ends.
#[derive(Debug)]
pub struct OutputGuard {
    pub text: String,
    pub output: std::io::Stderr,
}

impl OutputGuard {
    /// Writes exactly the stored restoration text to the error stream and
    /// flushes it. Consuming the guard makes a second write impossible.
    pub fn restore(self) -> Result<(), StreamError> {
        let OutputGuard { text, mut output } = self;
        let wrote = stderr_write_all(&mut output, text.as_str());
        let flushed = stderr_flush(&mut output);
        match (wrote, flushed) {
            (Ok(_), Ok(_)) => Ok(()),
            _ => Err(StreamError::Io),
        }
    }
}

} // verus!
