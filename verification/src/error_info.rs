//! Diagnostic details attached to a verdict.

use vstd::prelude::*;
use vstd::string::*;

verus! {

/// What is known about a failure: a readable message, where the source
/// places it, the captured streams, and how the process ended.
#[derive(Debug, Clone, PartialEq, Eq)]
pub struct ErrorInfo {
    /// Error message
    pub message: String,
    /// Error code (if applicable)
    pub code: Option<String>,
    /// Line number where the error occurred
    pub line: Option<u32>,
    /// Column number where the error occurred
    pub column: Option<u32>,
    /// Standard error output
    pub stderr: Option<String>,
    /// Standard output
    pub stdout: Option<String>,
    /// Exit code of the process
    pub exit_code: Option<i32>,
    /// Signal that terminated the process
    pub signal: Option<i32>,
}

/// The text held by an optional string.
pub open spec fn opt_text(s: Option<String>) -> Option<Seq<char>> {
    match s {
        Some(t) => Some(t@),
        None => None,
    }
}

/// The mathematical content of an [`ErrorInfo`].
pub struct ErrorInfoView {
    pub message: Seq<char>,
    pub code: Option<Seq<char>>,
    pub line: Option<u32>,
    pub column: Option<u32>,
    pub stderr: Option<Seq<char>>,
    pub stdout: Option<Seq<char>>,
    pub exit_code: Option<i32>,
    pub signal: Option<i32>,
}

impl View for ErrorInfo {
    type V = ErrorInfoView;

    open spec fn view(&self) -> ErrorInfoView {
        ErrorInfoView {
            message: self.message@,
            code: opt_text(self.code),
            line: self.line,
            column: self.column,
            stderr: opt_text(self.stderr),
            stdout: opt_text(self.stdout),
            exit_code: self.exit_code,
            signal: self.signal,
        }
    }
}

impl ErrorInfoView {
    /// An error that consists of a message only.
    pub open spec fn bare(message: Seq<char>) -> ErrorInfoView {
        ErrorInfoView {
            message,
            code: None,
            line: None,
            column: None,
            stderr: None,
            stdout: None,
            exit_code: None,
            signal: None,
        }
    }
}

/// Returns a copy of an optional string.
pub fn duplicate_text(text: &Option<String>) -> (copy: Option<String>)
    ensures
        copy == *text,
{
    match text {
        Some(t) => Some(t.clone()),
        None => None,
    }
}

/// Returns a copy of an optional error info.
pub fn duplicate_info(info: &Option<ErrorInfo>) -> (copy: Option<ErrorInfo>)
    ensures
        copy == *info,
{
    match info {
        Some(i) => Some(i.duplicate()),
        None => None,
    }
}

impl ErrorInfo {
    /// Creates an error info that carries a message and nothing else.
    pub fn new(message: String) -> (info: ErrorInfo)
        ensures
            info@ == ErrorInfoView::bare(message@),
    {
        ErrorInfo {
            message,
            code: None,
            line: None,
            column: None,
            stderr: None,
            stdout: None,
            exit_code: None,
            signal: None,
        }
    }

    /// Returns a copy of this error info, equal to it in every field.
    pub fn duplicate(&self) -> (copy: ErrorInfo)
        ensures
            copy == *self,
    {
        ErrorInfo {
            message: self.message.clone(),
            code: duplicate_text(&self.code),
            line: self.line,
            column: self.column,
            stderr: duplicate_text(&self.stderr),
            stdout: duplicate_text(&self.stdout),
            exit_code: self.exit_code,
            signal: self.signal,
        }
    }

    /// Creates an error info from the content of standard error, which
    /// becomes both the message and the attached stream.
    pub fn from_stderr(stderr: String) -> (info: ErrorInfo)
        ensures
            info@ == (ErrorInfoView { stderr: Some(stderr@), ..ErrorInfoView::bare(stderr@) }),
    {
        ErrorInfo {
            message: stderr.clone(),
            code: None,
            line: None,
            column: None,
            stderr: Some(stderr),
            stdout: None,
            exit_code: None,
            signal: None,
        }
    }

    /// Creates an error info for a failed compilation.
    pub fn compilation_error(message: String, stderr: Option<String>) -> (info: ErrorInfo)
        ensures
            info@ == (ErrorInfoView { stderr: opt_text(stderr), ..ErrorInfoView::bare(message@) }),
    {
        ErrorInfo {
            message,
            code: None,
            line: None,
            column: None,
            stderr,
            stdout: None,
            exit_code: None,
            signal: None,
        }
    }

    /// Creates an error info for a process that a signal terminated.
    pub fn runtime_error(message: String, signal: i32, stderr: Option<String>) -> (info: ErrorInfo)
        ensures
            info@ == (ErrorInfoView {
                stderr: opt_text(stderr),
                signal: Some(signal),
                ..ErrorInfoView::bare(message@)
            }),
    {
        ErrorInfo {
            message,
            code: None,
            line: None,
            column: None,
            stderr,
            stdout: None,
            exit_code: None,
            signal: Some(signal),
        }
    }
}

} // verus!
