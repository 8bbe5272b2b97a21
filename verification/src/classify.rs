//! The outcome classifier: from what a process left behind to a verdict.
//!
//! The rules are tried in a fixed order and the first that applies decides:
//! a run that the deadline ended exceeded its time limit; a peak memory at
//! or over the limit exceeded the memory limit; a capture that hit its cap
//! exceeded the output limit; a terminating signal is a runtime error of the
//! signal's kind; any exit but a clean zero is a compile error while
//! compiling and a runtime error otherwise; and a clean exit is accepted or
//! a wrong answer by the comparison of the outputs.

use vstd::prelude::*;
use vstd::string::*;
use crate::error_info::{ErrorInfo, ErrorInfoView};
use crate::status::{JudgeStatus, RuntimeErrorType};
use crate::text::{outputs_agree, outputs_match, truncate_text, truncated, ComparisonPolicy};

verus! {

/// The signal of an illegal instruction.
pub const SIGILL: i32 = 4;

/// The signal of an abort, which a failed assertion raises.
pub const SIGABRT: i32 = 6;

/// The signal of an arithmetic fault.
pub const SIGFPE: i32 = 8;

/// The signal of an invalid memory access.
pub const SIGSEGV: i32 = 11;

/// What a sandboxed process was started for.
#[derive(Debug, Clone, Copy, PartialEq, Eq, Structural)]
pub enum ExecutionPhase {
    /// The compiler runs on the submitted source.
    Compilation,
    /// The program runs on the input of a test case.
    Run,
}

/// What is known of a process after it ended.
#[derive(Debug, Clone, PartialEq, Eq)]
pub struct RawOutcome {
    /// The exit code, where the process exited by itself
    pub exit_code: Option<i32>,
    /// The signal that terminated the process, if one did
    pub signal: Option<i32>,
    /// The deadline passed and the process was terminated for it
    pub timed_out: bool,
    /// The capture of a stream reached its cap before the process ended
    pub output_capped: bool,
    /// Elapsed wall-clock time in milliseconds
    pub wall_time_ms: u64,
    /// Peak memory in kilobytes
    pub peak_memory_kb: u64,
    /// What the process wrote to standard output
    pub stdout: String,
    /// What the process wrote to standard error
    pub stderr: String,
}

/// A status with the details that explain it.
#[derive(Debug, Clone, PartialEq, Eq)]
pub struct Verdict {
    /// The status that the rules give
    pub status: JudgeStatus,
    /// The details, for every status but `Accepted`
    pub error_info: Option<ErrorInfo>,
}

/// The kind of runtime error that a terminating signal stands for. A signal
/// that is not a recognised fault gives `Other`.
pub open spec fn signal_kind(signal: i32) -> RuntimeErrorType {
    if signal == SIGSEGV {
        RuntimeErrorType::SegmentationFault
    } else if signal == SIGFPE {
        RuntimeErrorType::FloatingPointException
    } else if signal == SIGABRT {
        RuntimeErrorType::AssertionFailed
    } else if signal == SIGILL {
        RuntimeErrorType::StackOverflow
    } else {
        RuntimeErrorType::Other
    }
}

/// The message that goes with a status: the description of the fault for a
/// runtime error, the name of the status for every other.
pub open spec fn status_message(status: JudgeStatus) -> Seq<char> {
    match status {
        JudgeStatus::RuntimeError(kind) => kind.spec_as_str(),
        _ => status.spec_as_str(),
    }
}

impl RawOutcome {
    /// The process exited by itself with code zero.
    pub open spec fn exited_cleanly(&self) -> bool {
        self.signal is None && self.exit_code == Some(0i32)
    }

    /// The status that the rules give this outcome under a memory limit in
    /// kilobytes, where `agree` says whether the output passes for the
    /// expected one. While compiling there is no output to compare.
    pub open spec fn spec_status(
        &self,
        memory_limit: u64,
        phase: ExecutionPhase,
        agree: bool,
    ) -> JudgeStatus {
        if self.timed_out {
            JudgeStatus::TimeLimitExceeded
        } else if self.peak_memory_kb >= memory_limit {
            JudgeStatus::MemoryLimitExceeded
        } else if self.output_capped {
            JudgeStatus::OutputLimitExceeded
        } else if self.signal is Some {
            JudgeStatus::RuntimeError(signal_kind(self.signal->0))
        } else if self.exit_code != Some(0i32) {
            if phase == ExecutionPhase::Compilation {
                JudgeStatus::CompileError
            } else {
                JudgeStatus::RuntimeError(RuntimeErrorType::Other)
            }
        } else if phase == ExecutionPhase::Compilation || agree {
            JudgeStatus::Accepted
        } else {
            JudgeStatus::WrongAnswer
        }
    }

    /// The details that go with a status of this outcome: the status's
    /// message, both streams cut to `cap` bytes, the exit code and the signal.
    pub open spec fn spec_error_info(&self, status: JudgeStatus, cap: usize) -> ErrorInfoView {
        ErrorInfoView {
            message: status_message(status),
            code: None,
            line: None,
            column: None,
            stderr: Some(truncated(self.stderr@, cap as nat)),
            stdout: Some(truncated(self.stdout@, cap as nat)),
            exit_code: self.exit_code,
            signal: self.signal,
        }
    }
}

/// Returns the kind of runtime error that a terminating signal stands for.
pub fn classify_signal(signal: i32) -> (kind: RuntimeErrorType)
    ensures
        kind == signal_kind(signal),
{
    if signal == SIGSEGV {
        RuntimeErrorType::SegmentationFault
    } else if signal == SIGFPE {
        RuntimeErrorType::FloatingPointException
    } else if signal == SIGABRT {
        RuntimeErrorType::AssertionFailed
    } else if signal == SIGILL {
        RuntimeErrorType::StackOverflow
    } else {
        RuntimeErrorType::Other
    }
}

/// Returns the message that goes with a status.
pub fn message_for(status: JudgeStatus) -> (message: String)
    ensures
        message@ == status_message(status),
{
    match status {
        JudgeStatus::RuntimeError(kind) => kind.to_string(),
        _ => status.to_string(),
    }
}

/// Returns the status of an outcome, given whether its output passes for
/// the expected one.
pub fn status_of(outcome: &RawOutcome, memory_limit: u64, phase: ExecutionPhase, agree: bool) -> (status:
    JudgeStatus)
    ensures
        status == outcome.spec_status(memory_limit, phase, agree),
{
    if outcome.timed_out {
        return JudgeStatus::TimeLimitExceeded;
    }
    if outcome.peak_memory_kb >= memory_limit {
        return JudgeStatus::MemoryLimitExceeded;
    }
    if outcome.output_capped {
        return JudgeStatus::OutputLimitExceeded;
    }
    if let Some(signal) = outcome.signal {
        return JudgeStatus::RuntimeError(classify_signal(signal));
    }
    let clean = match outcome.exit_code {
        Some(code) => code == 0,
        None => false,
    };
    if !clean {
        return match phase {
            ExecutionPhase::Compilation => JudgeStatus::CompileError,
            ExecutionPhase::Run => JudgeStatus::RuntimeError(RuntimeErrorType::Other),
        };
    }
    match phase {
        ExecutionPhase::Compilation => JudgeStatus::Accepted,
        ExecutionPhase::Run => if agree {
            JudgeStatus::Accepted
        } else {
            JudgeStatus::WrongAnswer
        },
    }
}

/// Classifies the outcome of a process. `memory_limit` is the effective
/// limit in kilobytes, `expected_output` what a correct run would have
/// written, `policy` how the two outputs are compared, and `cap` the number
/// of bytes up to which a stream is attached to the details.
pub fn classify(
    outcome: &RawOutcome,
    memory_limit: u64,
    phase: ExecutionPhase,
    expected_output: &str,
    policy: ComparisonPolicy,
    cap: usize,
) -> (verdict: Verdict)
    ensures
        verdict.status == outcome.spec_status(
            memory_limit,
            phase,
            outputs_agree(outcome.stdout@, expected_output@, policy),
        ),
        verdict.error_info is None <==> verdict.status.spec_is_accepted(),
        verdict.error_info is Some ==> verdict.error_info->0@ == outcome.spec_error_info(
            verdict.status,
            cap,
        ),
{
    let agree = outputs_match(outcome.stdout.as_str(), expected_output, policy);
    let status = status_of(outcome, memory_limit, phase, agree);
    if status.is_accepted() {
        return Verdict { status, error_info: None };
    }
    let info = ErrorInfo {
        message: message_for(status),
        code: None,
        line: None,
        column: None,
        stderr: Some(truncate_text(outcome.stderr.as_str(), cap)),
        stdout: Some(truncate_text(outcome.stdout.as_str(), cap)),
        exit_code: outcome.exit_code,
        signal: outcome.signal,
    };
    Verdict { status, error_info: Some(info) }
}

/// Returns the verdict for a failure of the environment: the status is
/// `SystemError` and the details hold the diagnostic and nothing else. Such
/// a failure is never laid on the submitted program.
pub fn system_error(diagnostic: String) -> (verdict: Verdict)
    ensures
        verdict.status == JudgeStatus::SystemError,
        verdict.error_info is Some,
        verdict.error_info->0@ == ErrorInfoView::bare(diagnostic@),
{
    Verdict { status: JudgeStatus::SystemError, error_info: Some(ErrorInfo::new(diagnostic)) }
}

/// A process that the segmentation-fault signal terminated, and that was
/// neither ended by the deadline nor over its memory limit nor over the
/// output cap, is a runtime error of the segmentation-fault kind, whatever
/// it wrote to standard output and whatever was expected of it.
pub proof fn lemma_segfault_whatever_stdout(
    outcome: RawOutcome,
    memory_limit: u64,
    phase: ExecutionPhase,
    agree: bool,
)
    requires
        outcome.signal == Some(SIGSEGV),
        !outcome.timed_out,
        outcome.peak_memory_kb < memory_limit,
        !outcome.output_capped,
    ensures
        outcome.spec_status(memory_limit, phase, agree) == JudgeStatus::RuntimeError(
            RuntimeErrorType::SegmentationFault,
        ),
{
}

/// The rules give every outcome a final status, one of those that a
/// program's run or a compilation can end in.
pub proof fn lemma_status_is_final(
    outcome: RawOutcome,
    memory_limit: u64,
    phase: ExecutionPhase,
    agree: bool,
)
    ensures
        outcome.spec_status(memory_limit, phase, agree).spec_is_final(),
        outcome.spec_status(memory_limit, phase, agree) != JudgeStatus::SystemError,
        outcome.spec_status(memory_limit, phase, agree) != JudgeStatus::Cancelled,
        outcome.spec_status(memory_limit, phase, agree) != JudgeStatus::RestrictedOperation,
        outcome.spec_status(memory_limit, phase, agree) == JudgeStatus::CompileError ==> phase
            == ExecutionPhase::Compilation,
        outcome.spec_status(memory_limit, phase, agree) == JudgeStatus::WrongAnswer ==> phase
            == ExecutionPhase::Run && outcome.exited_cleanly() && !agree,
{
}

} // verus!
