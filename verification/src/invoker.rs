//! The container runtime invoker as a state machine.
//!
//! One invocation runs one process in one sandbox instance. The machine
//! names the next action, the caller performs it and hands back what
//! happened. The order is fixed: provision the root file system, write the
//! isolation document, launch, wait under a deadline, terminate by force if
//! the wait did not end with the process's own exit, delete the backend's
//! registration, remove the root file system, report. The two cleanup
//! actions are handed out on every path but one, and whether they succeed
//! has no part in the report. The one path without them is a provisioning
//! that was refused because the place holds what another environment left
//! there: nothing of it is this invocation's to remove.

use vstd::prelude::*;
use vstd::string::*;
use vstd::utf8::*;
use crate::capture::decode_stream;
use crate::classify::RawOutcome;
use crate::evaluate::ExecutionReport;

verus! {

/// Where an invocation stands: the action that was handed out last.
#[derive(Debug, Clone, Copy, PartialEq, Eq, Structural)]
pub enum InvokerPhase {
    Provisioning,
    WritingSpec,
    Launching,
    Waiting,
    Terminating,
    Deleting,
    Removing,
    Finished,
}

/// What the caller is to do next.
#[derive(Debug, Clone, Copy, PartialEq, Eq, Structural)]
pub enum InvokerAction {
    /// Create the skeleton of the root file system.
    Provision,
    /// Write the isolation document beside the root file system.
    WriteSpec,
    /// Create and start the container.
    Launch,
    /// Wait for the process to exit, for at most this long.
    Wait { deadline_ms: u64 },
    /// Terminate every process of the container by force.
    Terminate,
    /// Delete the container's registration from the backend.
    DeleteRegistration,
    /// Remove the root file system.
    RemoveRootfs,
    /// Nothing is left to do: take the report.
    Report,
}

/// Why the wait for the process ended.
#[derive(Debug, Clone, Copy, PartialEq, Eq, Structural)]
pub enum EndCause {
    /// The process exited, or the invocation never came to wait for it.
    Natural,
    /// The deadline passed.
    Deadline,
    /// A stream went over the capture cap.
    OutputCap,
    /// The owning task was cancelled.
    Cancelled,
}

/// What the backend tells of a process that ended.
#[derive(Debug, Clone, PartialEq, Eq)]
pub struct ProcessExit {
    /// The exit code, where the process exited by itself
    pub exit_code: Option<i32>,
    /// The signal that terminated the process, if one did
    pub signal: Option<i32>,
    /// Elapsed wall-clock time in milliseconds
    pub wall_time_ms: u64,
    /// Peak memory in kilobytes
    pub peak_memory_kb: u64,
    /// The captured standard output
    pub stdout: Vec<u8>,
    /// The captured standard error
    pub stderr: Vec<u8>,
}

/// What happened when the caller performed an action.
#[derive(Debug, Clone, PartialEq, Eq)]
pub enum InvokerEvent {
    /// The action was performed.
    Done,
    /// The action failed; the text is the diagnostic.
    Failed(String),
    /// Provisioning was refused, and nothing was created: the place of the
    /// root file system holds what another environment left there. The text
    /// is the diagnostic.
    Refused(String),
    /// The process ended and left this behind.
    Exited(ProcessExit),
    /// The deadline passed while the process was waited for.
    DeadlineElapsed,
    /// A stream went over the capture cap while the process was waited for.
    OutputCapExceeded,
    /// The owning task was cancelled.
    CancelRequested,
}

/// One invocation of the container runtime.
#[derive(Debug, Clone, PartialEq, Eq)]
pub struct Invocation {
    /// The action that was handed out last
    pub phase: InvokerPhase,
    /// How long the process may be waited for, in milliseconds
    pub deadline_ms: u64,
    /// Why the wait for the process ended
    pub cause: EndCause,
    /// What the process left behind, once it ended
    pub exit: Option<ProcessExit>,
    /// The diagnostic of the first failure of the environment
    pub failure: Option<String>,
    /// Whether provisioning was refused, so that nothing is to be cleaned up
    pub refused: bool,
    /// Whether the deletion of the registration was handed out
    pub delete_issued: bool,
    /// Whether the removal of the root file system was handed out
    pub remove_issued: bool,
}

/// The deadline for a process: its time limit and the grace period, both
/// in milliseconds, held to the largest number there is.
pub open spec fn deadline_of(time_limit_ms: u64, grace_ms: u64) -> u64 {
    if time_limit_ms + grace_ms > u64::MAX {
        u64::MAX
    } else {
        (time_limit_ms + grace_ms) as u64
    }
}

/// The number of actions that are still to come after a phase, at most.
pub open spec fn steps_left(phase: InvokerPhase) -> nat {
    match phase {
        InvokerPhase::Provisioning => 7,
        InvokerPhase::WritingSpec => 6,
        InvokerPhase::Launching => 5,
        InvokerPhase::Waiting => 4,
        InvokerPhase::Terminating => 3,
        InvokerPhase::Deleting => 2,
        InvokerPhase::Removing => 1,
        InvokerPhase::Finished => 0,
    }
}

/// The action that is handed out on entering a phase.
pub open spec fn action_of(phase: InvokerPhase, deadline_ms: u64) -> InvokerAction {
    match phase {
        InvokerPhase::Provisioning => InvokerAction::Provision,
        InvokerPhase::WritingSpec => InvokerAction::WriteSpec,
        InvokerPhase::Launching => InvokerAction::Launch,
        InvokerPhase::Waiting => InvokerAction::Wait { deadline_ms },
        InvokerPhase::Terminating => InvokerAction::Terminate,
        InvokerPhase::Deleting => InvokerAction::DeleteRegistration,
        InvokerPhase::Removing => InvokerAction::RemoveRootfs,
        InvokerPhase::Finished => InvokerAction::Report,
    }
}

/// The phase that follows `phase` on `event`. The steps before the wait go
/// on only when they were performed, and anything else leads to cleanup,
/// but for a refused provisioning, which leads to the report at once. A
/// wait that the process's exit ends leads to cleanup, any other end of the
/// wait to termination first. Cleanup goes on whatever happens.
pub open spec fn next_phase(phase: InvokerPhase, event: InvokerEvent) -> InvokerPhase {
    match phase {
        InvokerPhase::Provisioning => if event is Done {
            InvokerPhase::WritingSpec
        } else if event is Refused {
            InvokerPhase::Finished
        } else {
            InvokerPhase::Deleting
        },
        InvokerPhase::WritingSpec => if event is Done {
            InvokerPhase::Launching
        } else {
            InvokerPhase::Deleting
        },
        InvokerPhase::Launching => if event is Done {
            InvokerPhase::Waiting
        } else {
            InvokerPhase::Deleting
        },
        InvokerPhase::Waiting => if event is Exited {
            InvokerPhase::Deleting
        } else {
            InvokerPhase::Terminating
        },
        InvokerPhase::Terminating => InvokerPhase::Deleting,
        InvokerPhase::Deleting => InvokerPhase::Removing,
        InvokerPhase::Removing => InvokerPhase::Finished,
        InvokerPhase::Finished => InvokerPhase::Finished,
    }
}

/// Whether cleanup failures and late events are ignored in `phase`: once
/// cleanup has begun, nothing that happens changes what will be reported.
pub open spec fn in_cleanup(phase: InvokerPhase) -> bool {
    phase == InvokerPhase::Deleting || phase == InvokerPhase::Removing || phase
        == InvokerPhase::Finished
}

/// The cause after `event` came in `phase`: the first cause other than a
/// natural end stays.
pub open spec fn next_cause(phase: InvokerPhase, cause: EndCause, event: InvokerEvent) -> EndCause {
    if in_cleanup(phase) || cause != EndCause::Natural {
        cause
    } else if event is CancelRequested {
        EndCause::Cancelled
    } else if phase == InvokerPhase::Waiting && event is DeadlineElapsed {
        EndCause::Deadline
    } else if phase == InvokerPhase::Waiting && event is OutputCapExceeded {
        EndCause::OutputCap
    } else {
        EndCause::Natural
    }
}

/// Whether `event` is a failure of the environment in `phase`: a failed
/// action, or an event that has no place there.
pub open spec fn is_failure(phase: InvokerPhase, event: InvokerEvent) -> bool {
    match phase {
        InvokerPhase::Provisioning | InvokerPhase::WritingSpec | InvokerPhase::Launching => !(event
            is Done || event is CancelRequested),
        InvokerPhase::Waiting => event is Failed || event is Done || event is Refused,
        _ => false,
    }
}

/// The diagnostic of an event that is a failure.
pub open spec fn diagnostic_of(event: InvokerEvent) -> Seq<char> {
    match event {
        InvokerEvent::Failed(text) => text@,
        InvokerEvent::Refused(text) => text@,
        _ => "the isolation backend answered out of turn"@,
    }
}

impl Invocation {
    /// The state is one that the machine itself can have reached. Until
    /// the wait is over nothing has failed and nothing has ended. A wait
    /// that the deadline or the cap ended leaves no failure behind. Each
    /// cleanup action was handed out when its phase was entered, unless
    /// provisioning was refused: then the invocation has finished with that
    /// failure and handed out neither.
    pub open spec fn wf(&self) -> bool {
        &&& steps_left(self.phase) >= 4 ==> self.exit is None && self.failure is None
            && self.cause == EndCause::Natural
        &&& (self.cause == EndCause::Deadline || self.cause == EndCause::OutputCap)
            ==> self.failure is None
        &&& if self.refused {
            &&& self.phase == InvokerPhase::Finished
            &&& self.failure is Some
            &&& self.cause == EndCause::Natural
            &&& self.exit is None
            &&& !self.delete_issued
            &&& !self.remove_issued
        } else {
            &&& self.delete_issued <==> steps_left(self.phase) <= 2
            &&& self.remove_issued <==> steps_left(self.phase) <= 1
        }
    }

    /// Whether the machine has handed out its last action.
    pub open spec fn is_finished(&self) -> bool {
        self.phase == InvokerPhase::Finished
    }

    /// Starts an invocation for a process with an effective time limit and
    /// a grace period, both in milliseconds. The first action is to
    /// provision the root file system.
    pub fn start(time_limit_ms: u64, grace_ms: u64) -> (started: (Invocation, InvokerAction))
        ensures
            started.0.wf(),
            started.0.phase == InvokerPhase::Provisioning,
            started.0.deadline_ms == deadline_of(time_limit_ms, grace_ms),
            started.0.cause == EndCause::Natural,
            started.0.exit is None,
            started.0.failure is None,
            !started.0.refused,
            started.1 == InvokerAction::Provision,
    {
        let deadline_ms = if time_limit_ms > u64::MAX - grace_ms {
            u64::MAX
        } else {
            time_limit_ms + grace_ms
        };
        let invocation = Invocation {
            phase: InvokerPhase::Provisioning,
            deadline_ms,
            cause: EndCause::Natural,
            exit: None,
            failure: None,
            refused: false,
            delete_issued: false,
            remove_issued: false,
        };
        (invocation, InvokerAction::Provision)
    }

    /// Takes in what happened when the caller performed the last action,
    /// and returns the next action.
    pub fn step(&mut self, event: InvokerEvent) -> (action: InvokerAction)
        requires
            old(self).wf(),
        ensures
            final(self).wf(),
            final(self).deadline_ms == old(self).deadline_ms,
            final(self).phase == next_phase(old(self).phase, event),
            action == action_of(final(self).phase, final(self).deadline_ms),
            final(self).cause == next_cause(old(self).phase, old(self).cause, event),
            final(self).exit == if event is Exited && (old(self).phase == InvokerPhase::Waiting
                || old(self).phase == InvokerPhase::Terminating) {
                Some(event->Exited_0)
            } else {
                old(self).exit
            },
            old(self).failure is Some ==> final(self).failure == old(self).failure,
            old(self).failure is None && !(is_failure(old(self).phase, event) && old(self).cause
                == EndCause::Natural) ==> final(self).failure is None,
            old(self).failure is None && is_failure(old(self).phase, event) && old(self).cause
                == EndCause::Natural ==> final(self).failure is Some && final(self).failure->0@
                == diagnostic_of(event),
            final(self).refused == (old(self).refused || (old(self).phase
                == InvokerPhase::Provisioning && event is Refused)),
            !old(self).is_finished() ==> steps_left(final(self).phase) < steps_left(
                old(self).phase,
            ),
    {
        let phase = self.phase;
        let cleaning = matches!(
            phase,
            InvokerPhase::Deleting | InvokerPhase::Removing | InvokerPhase::Finished
        );
        let waiting = matches!(phase, InvokerPhase::Waiting);
        let natural = matches!(self.cause, EndCause::Natural);
        let performed = matches!(event, InvokerEvent::Done);
        let exited = matches!(event, InvokerEvent::Exited(_));
        let turned_away = matches!(event, InvokerEvent::Refused(_));

        if !cleaning && natural {
            match &event {
                InvokerEvent::CancelRequested => {
                    self.cause = EndCause::Cancelled;
                },
                InvokerEvent::DeadlineElapsed => {
                    if waiting {
                        self.cause = EndCause::Deadline;
                    }
                },
                InvokerEvent::OutputCapExceeded => {
                    if waiting {
                        self.cause = EndCause::OutputCap;
                    }
                },
                _ => {},
            }
        }
        let fails = match phase {
            InvokerPhase::Provisioning | InvokerPhase::WritingSpec | InvokerPhase::Launching => {
                !(performed || matches!(event, InvokerEvent::CancelRequested))
            },
            InvokerPhase::Waiting => performed || turned_away || matches!(
                event,
                InvokerEvent::Failed(_)
            ),
            _ => false,
        };
        let next = match phase {
            InvokerPhase::Provisioning => if performed {
                InvokerPhase::WritingSpec
            } else if turned_away {
                InvokerPhase::Finished
            } else {
                InvokerPhase::Deleting
            },
            InvokerPhase::WritingSpec => if performed {
                InvokerPhase::Launching
            } else {
                InvokerPhase::Deleting
            },
            InvokerPhase::Launching => if performed {
                InvokerPhase::Waiting
            } else {
                InvokerPhase::Deleting
            },
            InvokerPhase::Waiting => if exited {
                InvokerPhase::Deleting
            } else {
                InvokerPhase::Terminating
            },
            InvokerPhase::Terminating => InvokerPhase::Deleting,
            InvokerPhase::Deleting => InvokerPhase::Removing,
            InvokerPhase::Removing => InvokerPhase::Finished,
            InvokerPhase::Finished => InvokerPhase::Finished,
        };
        let takes_exit = matches!(phase, InvokerPhase::Waiting | InvokerPhase::Terminating);
        match event {
            InvokerEvent::Exited(exit) => {
                if takes_exit {
                    self.exit = Some(exit);
                } else if fails && natural && self.failure.is_none() {
                    self.failure = Some("the isolation backend answered out of turn".to_string());
                }
            },
            InvokerEvent::Failed(text) => {
                if fails && natural && self.failure.is_none() {
                    self.failure = Some(text);
                }
            },
            InvokerEvent::Refused(text) => {
                if fails && natural && self.failure.is_none() {
                    self.failure = Some(text);
                }
            },
            _ => {
                if fails && natural && self.failure.is_none() {
                    self.failure = Some("the isolation backend answered out of turn".to_string());
                }
            },
        }
        if turned_away && matches!(phase, InvokerPhase::Provisioning) {
            self.refused = true;
        }
        self.phase = next;
        match next {
            InvokerPhase::Deleting => {
                self.delete_issued = true;
            },
            InvokerPhase::Removing => {
                self.remove_issued = true;
            },
            _ => {},
        }
        match next {
            InvokerPhase::Provisioning => InvokerAction::Provision,
            InvokerPhase::WritingSpec => InvokerAction::WriteSpec,
            InvokerPhase::Launching => InvokerAction::Launch,
            InvokerPhase::Waiting => InvokerAction::Wait { deadline_ms: self.deadline_ms },
            InvokerPhase::Terminating => InvokerAction::Terminate,
            InvokerPhase::Deleting => InvokerAction::DeleteRegistration,
            InvokerPhase::Removing => InvokerAction::RemoveRootfs,
            InvokerPhase::Finished => InvokerAction::Report,
        }
    }
}

/// The outcome of a process that ended and left `exit` behind, where the
/// wait for it ended for `cause`. A stream that is not valid UTF-8 counts as
/// empty here.
pub open spec fn outcome_matches(outcome: RawOutcome, exit: ProcessExit, cause: EndCause) -> bool {
    &&& outcome.exit_code == exit.exit_code
    &&& outcome.signal == exit.signal
    &&& outcome.timed_out == (cause == EndCause::Deadline)
    &&& outcome.output_capped == (cause == EndCause::OutputCap)
    &&& outcome.wall_time_ms == exit.wall_time_ms
    &&& outcome.peak_memory_kb == exit.peak_memory_kb
    &&& outcome.stdout@ == stream_text(exit.stdout@)
    &&& outcome.stderr@ == stream_text(exit.stderr@)
}

/// The outcome of a process that was terminated by force and of which
/// nothing else is known: it ran for the whole of the deadline and left
/// nothing behind.
pub open spec fn outcome_unknown(outcome: RawOutcome, deadline_ms: u64, cause: EndCause) -> bool {
    &&& outcome.exit_code is None
    &&& outcome.signal is None
    &&& outcome.timed_out == (cause == EndCause::Deadline)
    &&& outcome.output_capped == (cause == EndCause::OutputCap)
    &&& outcome.wall_time_ms == deadline_ms
    &&& outcome.peak_memory_kb == 0
    &&& outcome.stdout@.len() == 0
    &&& outcome.stderr@.len() == 0
}

/// The text of a captured stream: what the bytes encode, or nothing where
/// they are not valid UTF-8.
pub open spec fn stream_text(bytes: Seq<u8>) -> Seq<char> {
    if valid_utf8(bytes) {
        decode_utf8(bytes)
    } else {
        Seq::empty()
    }
}

/// Returns the text of a captured stream and whether the bytes were valid.
pub fn read_stream(bytes: Vec<u8>) -> (read: (String, bool))
    ensures
        read.0@ == stream_text(bytes@),
        read.1 == valid_utf8(bytes@),
{
    match decode_stream(bytes) {
        Some(text) => (text, true),
        None => (String::new(), false),
    }
}

impl Invocation {
    /// The report of this invocation, once it has finished. A cancelled
    /// invocation reports the cancellation. A failure of the environment is
    /// reported with its diagnostic. A process that exited by itself is
    /// reported with what it left behind, unless a stream of it is not
    /// valid UTF-8, which is reported as a failure. A process that was
    /// terminated for the deadline or the cap is reported as ended so,
    /// with what is known of it.
    pub open spec fn reports(&self, report: ExecutionReport) -> bool {
        if self.cause == EndCause::Cancelled {
            report is Cancelled
        } else if self.failure is Some {
            report is BackendFailure && report->BackendFailure_0 == self.failure->0
        } else if self.exit is Some {
            let exit = self.exit->0;
            if self.cause == EndCause::Natural && !(valid_utf8(exit.stdout@) && valid_utf8(
                exit.stderr@,
            )) {
                report is BackendFailure && report->BackendFailure_0@
                    == "the output of the process is not valid UTF-8"@
            } else {
                report is Completed && outcome_matches(report->Completed_0, exit, self.cause)
            }
        } else if self.cause == EndCause::Natural {
            report is BackendFailure && report->BackendFailure_0@
                == "the process ended without a report"@
        } else {
            report is Completed && outcome_unknown(
                report->Completed_0,
                self.deadline_ms,
                self.cause,
            )
        }
    }

    /// Returns the report of the invocation, or nothing while it has not
    /// finished.
    pub fn report(self) -> (report: Option<ExecutionReport>)
        ensures
            report is Some <==> self.is_finished(),
            report is Some ==> self.reports(report->0),
    {
        if !matches!(self.phase, InvokerPhase::Finished) {
            return None;
        }
        if matches!(self.cause, EndCause::Cancelled) {
            return Some(ExecutionReport::Cancelled);
        }
        if let Some(diagnostic) = self.failure {
            return Some(ExecutionReport::BackendFailure(diagnostic));
        }
        let natural = matches!(self.cause, EndCause::Natural);
        let timed_out = matches!(self.cause, EndCause::Deadline);
        let output_capped = matches!(self.cause, EndCause::OutputCap);
        match self.exit {
            Some(exit) => {
                let (stdout, stdout_valid) = read_stream(exit.stdout);
                let (stderr, stderr_valid) = read_stream(exit.stderr);
                if natural && !(stdout_valid && stderr_valid) {
                    return Some(
                        ExecutionReport::BackendFailure(
                            "the output of the process is not valid UTF-8".to_string(),
                        ),
                    );
                }
                Some(
                    ExecutionReport::Completed(
                        RawOutcome {
                            exit_code: exit.exit_code,
                            signal: exit.signal,
                            timed_out,
                            output_capped,
                            wall_time_ms: exit.wall_time_ms,
                            peak_memory_kb: exit.peak_memory_kb,
                            stdout,
                            stderr,
                        },
                    ),
                )
            },
            None => {
                if natural {
                    return Some(
                        ExecutionReport::BackendFailure(
                            "the process ended without a report".to_string(),
                        ),
                    );
                }
                Some(
                    ExecutionReport::Completed(
                        RawOutcome {
                            exit_code: None,
                            signal: None,
                            timed_out,
                            output_capped,
                            wall_time_ms: self.deadline_ms,
                            peak_memory_kb: 0,
                            stdout: String::new(),
                            stderr: String::new(),
                        },
                    ),
                )
            },
        }
    }
}

/// The phase of an invocation that started and then took in `events`, one
/// after the other.
pub open spec fn phase_after(events: Seq<InvokerEvent>) -> InvokerPhase
    decreases events.len(),
{
    if events.len() == 0 {
        InvokerPhase::Provisioning
    } else {
        next_phase(phase_after(events.drop_last()), events.last())
    }
}

/// Only an invocation that has taken in nothing is still provisioning.
pub proof fn lemma_provisioning_is_the_start(events: Seq<InvokerEvent>)
    requires
        phase_after(events) == InvokerPhase::Provisioning,
    ensures
        events.len() == 0,
{
}

/// However an invocation whose provisioning was not refused came to its
/// end, it entered the phase in which the backend's registration is
/// deleted, and after that the phase in which the root file system is
/// removed, before it finished. No sequence of events, be it of successes,
/// crashes, timeouts or failures, leads past either.
pub proof fn lemma_cleanup_precedes_finish(events: Seq<InvokerEvent>)
    requires
        phase_after(events) == InvokerPhase::Finished,
        !(events[0] is Refused),
    ensures
        exists|i: int, j: int|
            0 <= i < j < events.len() && phase_after(#[trigger] events.take(i))
                == InvokerPhase::Deleting && phase_after(#[trigger] events.take(j))
                == InvokerPhase::Removing,
    decreases events.len(),
{
    let n = events.len() as int;
    let front = events.drop_last();
    assert(events.take(n - 1) =~= front);
    if phase_after(front) == InvokerPhase::Provisioning {
        lemma_provisioning_is_the_start(front);
        assert(events.last() == events[0]);
    }
    if phase_after(front) == InvokerPhase::Finished {
        assert(front[0] == events[0]);
        lemma_cleanup_precedes_finish(front);
        let (i, j) = choose|i: int, j: int|
            0 <= i < j < front.len() && phase_after(#[trigger] front.take(i))
                == InvokerPhase::Deleting && phase_after(#[trigger] front.take(j))
                == InvokerPhase::Removing;
        assert(events.take(i) =~= front.take(i));
        assert(events.take(j) =~= front.take(j));
    } else {
        assert(phase_after(front) == InvokerPhase::Removing);
        let before = front.drop_last();
        assert(phase_after(before) == InvokerPhase::Deleting);
        assert(events.take(n - 2) =~= before);
        assert(phase_after(events.take(n - 2)) == InvokerPhase::Deleting && phase_after(
            events.take(n - 1),
        ) == InvokerPhase::Removing);
    }
}

/// An invocation whose provisioning was refused finishes at once: it hands
/// out no action but the report, and so removes nothing of what it found.
pub proof fn lemma_refused_removes_nothing(events: Seq<InvokerEvent>, k: int)
    requires
        events.len() > 0,
        events[0] is Refused,
        1 <= k <= events.len(),
    ensures
        phase_after(events.take(k)) == InvokerPhase::Finished,
    decreases k,
{
    let taken = events.take(k);
    assert(taken.drop_last() =~= events.take(k - 1));
    if k == 1 {
        assert(taken.last() == events[0]);
        assert(phase_after(events.take(0)) == InvokerPhase::Provisioning);
    } else {
        lemma_refused_removes_nothing(events, k - 1);
    }
}

/// Every invocation that has finished, and whose provisioning was not
/// refused, has handed out both cleanup actions: the deletion of the
/// backend's registration and the removal of the root file system, whether
/// the process succeeded, crashed, ran out of time or never started.
pub proof fn lemma_finished_after_cleanup(invocation: Invocation)
    requires
        invocation.wf(),
        invocation.is_finished(),
        !invocation.refused,
    ensures
        invocation.delete_issued,
        invocation.remove_issued,
{
}

/// Whatever happens, an invocation comes one action closer to its end with
/// every event, and no invocation takes more than seven events to finish.
pub proof fn lemma_steps_bounded(phase: InvokerPhase, event: InvokerEvent)
    ensures
        steps_left(phase) <= 7,
        phase != InvokerPhase::Finished ==> steps_left(next_phase(phase, event)) < steps_left(
            phase,
        ),
        !in_cleanup(next_phase(phase, event)) ==> !in_cleanup(phase),
{
}

} // verus!
