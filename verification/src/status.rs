//! The verdict taxonomy: the closed set of states a judgment can be in.

use vstd::prelude::*;
use vstd::string::*;

verus! {

/// The kind of fault behind a runtime error.
#[derive(Debug, Clone, Copy, PartialEq, Eq, Structural)]
pub enum RuntimeErrorType {
    /// Segmentation fault
    SegmentationFault,
    /// Floating point exception
    FloatingPointException,
    /// Division by zero
    DivisionByZero,
    /// Assertion failed
    AssertionFailed,
    /// Stack overflow
    StackOverflow,
    /// Null pointer dereference
    NullPointerDereference,
    /// File operation error
    FileOperationError,
    /// Permission denied
    PermissionDenied,
    /// Other unspecified runtime error
    Other,
}

/// The status of a judgment. Only `RuntimeError` carries a payload.
#[derive(Debug, Clone, Copy, PartialEq, Eq, Structural)]
pub enum JudgeStatus {
    /// The submission passed all test cases
    Accepted,
    /// The submission failed one or more test cases
    WrongAnswer,
    /// The submission exceeded the time limit
    TimeLimitExceeded,
    /// The submission exceeded the memory limit
    MemoryLimitExceeded,
    /// The submission encountered a runtime error
    RuntimeError(RuntimeErrorType),
    /// The submission failed to compile
    CompileError,
    /// The submission contains restricted operations
    RestrictedOperation,
    /// Output limit exceeded
    OutputLimitExceeded,
    /// An internal system error occurred during judgment
    SystemError,
    /// The submission is waiting in queue
    Pending,
    /// The submission is currently being judged
    Judging,
    /// The submission was cancelled
    Cancelled,
}

impl RuntimeErrorType {
    /// The description of the fault.
    pub open spec fn spec_as_str(self) -> Seq<char> {
        match self {
            RuntimeErrorType::SegmentationFault => "Segmentation fault"@,
            RuntimeErrorType::FloatingPointException => "Floating point exception"@,
            RuntimeErrorType::DivisionByZero => "Division by zero"@,
            RuntimeErrorType::AssertionFailed => "Assertion failed"@,
            RuntimeErrorType::StackOverflow => "Stack overflow"@,
            RuntimeErrorType::NullPointerDereference => "Null pointer dereference"@,
            RuntimeErrorType::FileOperationError => "File operation error"@,
            RuntimeErrorType::PermissionDenied => "Permission denied"@,
            RuntimeErrorType::Other => "Unknown runtime error"@,
        }
    }

    /// Returns a description of the runtime error.
    pub fn as_str(&self) -> (text: &'static str)
        ensures
            text@ == self.spec_as_str(),
    {
        match self {
            RuntimeErrorType::SegmentationFault => "Segmentation fault",
            RuntimeErrorType::FloatingPointException => "Floating point exception",
            RuntimeErrorType::DivisionByZero => "Division by zero",
            RuntimeErrorType::AssertionFailed => "Assertion failed",
            RuntimeErrorType::StackOverflow => "Stack overflow",
            RuntimeErrorType::NullPointerDereference => "Null pointer dereference",
            RuntimeErrorType::FileOperationError => "File operation error",
            RuntimeErrorType::PermissionDenied => "Permission denied",
            RuntimeErrorType::Other => "Unknown runtime error",
        }
    }

    /// Returns the description as an owned string.
    pub fn to_string(&self) -> (text: String)
        ensures
            text@ == self.spec_as_str(),
    {
        self.as_str().to_string()
    }
}

impl JudgeStatus {
    /// The status of a submission that passed.
    pub open spec fn spec_is_accepted(self) -> bool {
        self == JudgeStatus::Accepted
    }

    /// Every status but `Pending` and `Judging` is final.
    pub open spec fn spec_is_final(self) -> bool {
        self != JudgeStatus::Pending && self != JudgeStatus::Judging
    }

    /// The status carries a runtime-error kind.
    pub open spec fn spec_is_runtime_error(self) -> bool {
        self is RuntimeError
    }

    /// The statuses that report a failure of the program or of the system.
    /// A wrong answer is not among them, nor is a cancellation.
    pub open spec fn spec_is_error(self) -> bool {
        self == JudgeStatus::TimeLimitExceeded || self == JudgeStatus::MemoryLimitExceeded
            || self is RuntimeError || self == JudgeStatus::CompileError || self
            == JudgeStatus::RestrictedOperation || self == JudgeStatus::OutputLimitExceeded
            || self == JudgeStatus::SystemError
    }

    /// The name of the status.
    pub open spec fn spec_as_str(self) -> Seq<char> {
        match self {
            JudgeStatus::Accepted => "Accepted"@,
            JudgeStatus::WrongAnswer => "Wrong Answer"@,
            JudgeStatus::TimeLimitExceeded => "Time Limit Exceeded"@,
            JudgeStatus::MemoryLimitExceeded => "Memory Limit Exceeded"@,
            JudgeStatus::RuntimeError(_) => "Runtime Error"@,
            JudgeStatus::CompileError => "Compile Error"@,
            JudgeStatus::RestrictedOperation => "Restricted Operation"@,
            JudgeStatus::OutputLimitExceeded => "Output Limit Exceeded"@,
            JudgeStatus::SystemError => "System\n Error"@,
            JudgeStatus::Pending => "Pending"@,
            JudgeStatus::Judging => "Judging"@,
            JudgeStatus::Cancelled => "Cancelled"@,
        }
    }

    /// The short code of the status.
    pub open spec fn spec_as_code(self) -> Seq<char> {
        match self {
            JudgeStatus::Accepted => "AC"@,
            JudgeStatus::WrongAnswer => "WA"@,
            JudgeStatus::TimeLimitExceeded => "TLE"@,
            JudgeStatus::MemoryLimitExceeded => "MLE"@,
            JudgeStatus::RuntimeError(_) => "RE"@,
            JudgeStatus::CompileError => "CE"@,
            JudgeStatus::RestrictedOperation => "RO"@,
            JudgeStatus::OutputLimitExceeded => "OLE"@,
            JudgeStatus::SystemError => "SE"@,
            JudgeStatus::Pending => "PD"@,
            JudgeStatus::Judging => "JG"@,
            JudgeStatus::Cancelled => "CN"@,
        }
    }

    /// The runtime-error kind, where the status carries one.
    pub open spec fn spec_runtime_error_type(self) -> Option<RuntimeErrorType> {
        match self {
            JudgeStatus::RuntimeError(kind) => Some(kind),
            _ => None,
        }
    }

    /// Returns true if the status is `Accepted`.
    pub fn is_accepted(&self) -> (yes: bool)
        ensures
            yes == self.spec_is_accepted(),
    {
        matches!(self, JudgeStatus::Accepted)
    }

    /// Returns true if the status is final, that is neither `Pending` nor
    /// `Judging`.
    pub fn is_final(&self) -> (yes: bool)
        ensures
            yes == self.spec_is_final(),
    {
        !matches!(self, JudgeStatus::Pending | JudgeStatus::Judging)
    }

    /// Returns true if the status reports an error. `WrongAnswer` does not.
    pub fn is_error(&self) -> (yes: bool)
        ensures
            yes == self.spec_is_error(),
    {
        matches!(
            self,
            JudgeStatus::TimeLimitExceeded
                | JudgeStatus::MemoryLimitExceeded
                | JudgeStatus::RuntimeError(_)
                | JudgeStatus::CompileError
                | JudgeStatus::RestrictedOperation
                | JudgeStatus::OutputLimitExceeded
                | JudgeStatus::SystemError
        )
    }

    /// Returns true if the status is a runtime error of any kind.
    pub fn is_runtime_error(&self) -> (yes: bool)
        ensures
            yes == self.spec_is_runtime_error(),
    {
        matches!(self, JudgeStatus::RuntimeError(_))
    }

    /// Returns the name of the status.
    pub fn as_str(&self) -> (text: &'static str)
        ensures
            text@ == self.spec_as_str(),
    {
        match self {
            JudgeStatus::Accepted => "Accepted",
            JudgeStatus::WrongAnswer => "Wrong Answer",
            JudgeStatus::TimeLimitExceeded => "Time Limit Exceeded",
            JudgeStatus::MemoryLimitExceeded => "Memory Limit Exceeded",
            JudgeStatus::RuntimeError(_) => "Runtime Error",
            JudgeStatus::CompileError => "Compile Error",
            JudgeStatus::RestrictedOperation => "Restricted Operation",
            JudgeStatus::OutputLimitExceeded => "Output Limit Exceeded",
            JudgeStatus::SystemError => "System\n Error",
            JudgeStatus::Pending => "Pending",
            JudgeStatus::Judging => "Judging",
            JudgeStatus::Cancelled => "Cancelled",
        }
    }

    /// Returns the short code of the status.
    pub fn as_code(&self) -> (code: &'static str)
        ensures
            code@ == self.spec_as_code(),
    {
        match self {
            JudgeStatus::Accepted => "AC",
            JudgeStatus::WrongAnswer => "WA",
            JudgeStatus::TimeLimitExceeded => "TLE",
            JudgeStatus::MemoryLimitExceeded => "MLE",
            JudgeStatus::RuntimeError(_) => "RE",
            JudgeStatus::CompileError => "CE",
            JudgeStatus::RestrictedOperation => "RO",
            JudgeStatus::OutputLimitExceeded => "OLE",
            JudgeStatus::SystemError => "SE",
            JudgeStatus::Pending => "PD",
            JudgeStatus::Judging => "JG",
            JudgeStatus::Cancelled => "CN",
        }
    }

    /// Returns the runtime-error kind if the status carries one.
    pub fn runtime_error_type(&self) -> (kind: Option<RuntimeErrorType>)
        ensures
            kind == self.spec_runtime_error_type(),
    {
        match self {
            JudgeStatus::RuntimeError(error_type) => Some(*error_type),
            _ => None,
        }
    }

    /// Returns the name of the status as an owned string.
    pub fn to_string(&self) -> (text: String)
        ensures
            text@ == self.spec_as_str(),
    {
        self.as_str().to_string()
    }
}

impl From<JudgeStatus> for String {
    /// Converts a status into its name.
    fn from(status: JudgeStatus) -> (text: String)
        ensures
            text@ == status.spec_as_str(),
    {
        status.to_string()
    }
}

impl vstd::std_specs::convert::FromSpecImpl<JudgeStatus> for String {
    open spec fn obeys_from_spec() -> bool {
        false
    }

    open spec fn from_spec(status: JudgeStatus) -> String {
        arbitrary()
    }
}

/// An accepted status is final and no error; the non-final statuses are no
/// errors either; a runtime error is an error and is final.
pub proof fn lemma_status_classes(s: JudgeStatus)
    ensures
        s.spec_is_accepted() ==> s.spec_is_final() && !s.spec_is_error(),
        !s.spec_is_final() ==> !s.spec_is_error() && !s.spec_is_accepted(),
        s.spec_is_runtime_error() ==> s.spec_is_error() && s.spec_is_final(),
        s.spec_is_runtime_error() <==> s.spec_runtime_error_type() is Some,
{
}

} // verus!
