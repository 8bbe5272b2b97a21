//! The test case evaluator as a state machine.
//!
//! The evaluator decides and the caller acts: [`Evaluation::next_step`]
//! names the process to run next, the caller runs it in a sandbox and hands
//! back an [`ExecutionReport`], and [`Evaluation::on_report`] takes the
//! report in. A task that needs compiling is compiled first; if that fails
//! no test case runs. The test cases then run in task order, all of them
//! unless the deployment stops at the first failure, and
//! [`Evaluation::finish`] draws the result.

use vstd::prelude::*;
use vstd::string::*;
use crate::classify::{classify, system_error, ExecutionPhase, RawOutcome, Verdict};
use crate::error_info::{ErrorInfo, ErrorInfoView};
use crate::identity::{utc_now, Timestamp};
use crate::judge_result::{all_passed, case_passed, JudgeResult, SCORE_FULL};
use crate::scoring::{
    aggregate_error_info,
    aggregate_memory,
    aggregate_score,
    aggregate_status,
    aggregate_time,
    is_peak,
    overall_error_info,
    overall_score,
    overall_status,
    Measure,
};
use crate::status::JudgeStatus;
use crate::task::JudgeTask;
use crate::test_case::{TestCase, TestCaseResult};
use crate::text::{outputs_agree, truncate_text, truncated, ComparisonPolicy};

verus! {

/// The number of times a task may be attempted in all: once, and once more
/// after a failure of the environment.
pub const MAX_ATTEMPTS: u32 = 2;

/// What a deployment fixes for every judgment.
#[derive(Debug, Clone, Copy, PartialEq, Eq, Structural)]
pub struct JudgeConfig {
    /// How outputs are compared
    pub comparison: ComparisonPolicy,
    /// The number of bytes up to which a stream is captured and attached
    pub output_cap: usize,
    /// The time in milliseconds that a process gets beyond its limit before
    /// it is terminated
    pub grace_ms: u64,
    /// Whether the first failed test case ends the judgment
    pub fail_fast: bool,
}

/// What the caller reports of a process it was asked to run.
#[derive(Debug, Clone, PartialEq, Eq)]
pub enum ExecutionReport {
    /// The process ran and ended, by itself or by force.
    Completed(RawOutcome),
    /// The environment failed: the sandbox could not be provisioned, the
    /// isolation document not written, or the backend not run.
    BackendFailure(String),
    /// The owning task was cancelled while the process was waited for.
    Cancelled,
}

/// Where compilation stands.
#[derive(Debug, Clone, Copy, PartialEq, Eq, Structural)]
pub enum CompileState {
    /// The language is not compiled.
    NotNeeded,
    /// The compiler has yet to run.
    Pending,
    /// The compiler ran and succeeded.
    Succeeded,
    /// The compiler did not succeed.
    Failed,
}

/// What the caller is to do next.
#[derive(Debug, Clone, Copy, PartialEq, Eq, Structural)]
pub enum EvalStep {
    /// Run the compiler under these limits.
    Compile { time_limit_ms: u64, memory_limit_kb: u64 },
    /// Run the program on the test case at `index` under these limits.
    RunCase { index: usize, time_limit_ms: u64, memory_limit_kb: u64 },
    /// Nothing is left to run: draw the result.
    Finish,
}

/// A judgment in progress.
#[derive(Debug, Clone, PartialEq, Eq)]
pub struct Evaluation {
    /// The task being judged
    pub task: JudgeTask,
    /// The deployment's settings
    pub config: JudgeConfig,
    /// Where compilation stands
    pub compile: CompileState,
    /// The verdict that ended the judgment before its test cases were
    /// through: a failed compilation, a failure of the environment while
    /// compiling, or a cancellation
    pub halt: Option<Verdict>,
    /// The results of the test cases run so far, in task order
    pub results: Vec<TestCaseResult>,
}

/// The result of test case `case` as `outcome` and `verdict` give it: the
/// case's identifier, input and expected output, the time and memory the
/// process used, and its standard output cut to `cap` bytes.
pub open spec fn records_outcome(
    result: TestCaseResult,
    case: TestCase,
    outcome: RawOutcome,
    verdict: Verdict,
    cap: usize,
) -> bool {
    &&& result.id == case.id
    &&& result.status == verdict.status
    &&& result.time_used == outcome.wall_time_ms
    &&& result.memory_used == outcome.peak_memory_kb
    &&& result.input == Some(case.input)
    &&& result.expected_output == Some(case.expected_output)
    &&& result.actual_output is Some
    &&& result.actual_output->0@ == truncated(outcome.stdout@, cap as nat)
    &&& result.error_info == verdict.error_info
}

/// The result of test case `case` where the environment failed with
/// `diagnostic`: a system error that used no time and no memory and has no
/// output.
pub open spec fn records_failure(
    result: TestCaseResult,
    case: TestCase,
    diagnostic: Seq<char>,
) -> bool {
    &&& result.id == case.id
    &&& result.status == JudgeStatus::SystemError
    &&& result.time_used == 0
    &&& result.memory_used == 0
    &&& result.input == Some(case.input)
    &&& result.expected_output == Some(case.expected_output)
    &&& result.actual_output is None
    &&& result.error_info is Some
    &&& result.error_info->0@ == ErrorInfoView::bare(diagnostic)
}

/// `verdict` is what the classifier gives for `outcome` of a process in
/// `phase`, held against `expected` under the settings `config`.
pub open spec fn is_verdict_of(
    verdict: Verdict,
    outcome: RawOutcome,
    memory_limit: u64,
    phase: ExecutionPhase,
    expected: Seq<char>,
    config: JudgeConfig,
) -> bool {
    &&& verdict.status == outcome.spec_status(
        memory_limit,
        phase,
        outputs_agree(outcome.stdout@, expected, config.comparison),
    )
    &&& verdict.error_info is None <==> verdict.status.spec_is_accepted()
    &&& verdict.error_info is Some ==> verdict.error_info->0@ == outcome.spec_error_info(
        verdict.status,
        config.output_cap,
    )
}

/// Returns whether a task whose attempt ended in `status` may be attempted
/// again after `attempts_made` attempts: only after a failure of the
/// environment, and only while attempts are left.
pub fn retry_allowed(status: JudgeStatus, attempts_made: u32) -> (again: bool)
    ensures
        again == (status == JudgeStatus::SystemError && attempts_made < MAX_ATTEMPTS),
{
    matches!(status, JudgeStatus::SystemError) && attempts_made < MAX_ATTEMPTS
}

/// Returns the result of a test case from the outcome of its run.
pub fn case_result(case: &TestCase, outcome: &RawOutcome, memory_limit: u64, config: &JudgeConfig) -> (result:
    TestCaseResult)
    ensures
        exists|verdict: Verdict|
            is_verdict_of(
                verdict,
                *outcome,
                memory_limit,
                ExecutionPhase::Run,
                case.expected_output@,
                *config,
            ) && records_outcome(result, *case, *outcome, verdict, config.output_cap),
{
    let verdict = classify(
        outcome,
        memory_limit,
        ExecutionPhase::Run,
        case.expected_output.as_str(),
        config.comparison,
        config.output_cap,
    );
    let ghost witness = verdict;
    let result = TestCaseResult {
        id: case.id.clone(),
        status: verdict.status,
        time_used: outcome.wall_time_ms,
        memory_used: outcome.peak_memory_kb,
        input: Some(case.input.clone()),
        expected_output: Some(case.expected_output.clone()),
        actual_output: Some(truncate_text(outcome.stdout.as_str(), config.output_cap)),
        error_info: verdict.error_info,
    };
    assert(is_verdict_of(
        witness,
        *outcome,
        memory_limit,
        ExecutionPhase::Run,
        case.expected_output@,
        *config,
    ) && records_outcome(result, *case, *outcome, witness, config.output_cap));
    result
}

/// Returns the result of a test case that could not run because the
/// environment failed.
pub fn case_failure(case: &TestCase, diagnostic: String) -> (result: TestCaseResult)
    ensures
        records_failure(result, *case, diagnostic@),
{
    let verdict = system_error(diagnostic);
    TestCaseResult {
        id: case.id.clone(),
        status: verdict.status,
        time_used: 0,
        memory_used: 0,
        input: Some(case.input.clone()),
        expected_output: Some(case.expected_output.clone()),
        actual_output: None,
        error_info: verdict.error_info,
    }
}

impl Evaluation {
    /// The state is one that the evaluator itself can have reached.
    pub open spec fn wf(&self) -> bool {
        &&& self.results@.len() <= self.task.test_cases@.len()
        &&& self.compile == CompileState::NotNeeded <==> !self.task.needs_compilation
        &&& self.compile == CompileState::Pending ==> self.results@.len() == 0
        &&& self.compile == CompileState::Failed ==> self.results@.len() == 0 && self.halt is Some
        &&& self.halt is Some ==> !self.halt->0.status.spec_is_accepted()
        &&& forall|i: int|
            0 <= i < self.results@.len() ==> (#[trigger] self.results@[i]).id
                == self.task.test_cases@[i].id
        &&& self.config.fail_fast && self.results@.len() > 0 ==> all_passed(
            self.results@.drop_last(),
        )
    }

    /// What the caller is to do next.
    pub open spec fn spec_next_step(&self) -> EvalStep {
        let done = self.results@.len() as int;
        if self.halt is Some {
            EvalStep::Finish
        } else if self.compile == CompileState::Pending {
            EvalStep::Compile {
                time_limit_ms: self.task.submission.time_limit,
                memory_limit_kb: self.task.submission.memory_limit,
            }
        } else if done >= self.task.test_cases@.len() {
            EvalStep::Finish
        } else if self.config.fail_fast && !all_passed(self.results@) {
            EvalStep::Finish
        } else {
            EvalStep::RunCase {
                index: self.results.len(),
                time_limit_ms: self.task.test_cases@[done].spec_effective_time_limit(
                    self.task.submission.time_limit,
                ),
                memory_limit_kb: self.task.test_cases@[done].spec_effective_memory_limit(
                    self.task.submission.memory_limit,
                ),
            }
        }
    }

    /// The state after a report on the compiler came in.
    pub open spec fn compiled_with(&self, before: Evaluation, report: ExecutionReport) -> bool {
        &&& self.results == before.results
        &&& match report {
            ExecutionReport::Completed(outcome) => exists|verdict: Verdict|
                {
                    &&& is_verdict_of(
                        verdict,
                        outcome,
                        before.task.submission.memory_limit,
                        ExecutionPhase::Compilation,
                        Seq::<char>::empty(),
                        before.config,
                    )
                    &&& if verdict.status.spec_is_accepted() {
                        self.compile == CompileState::Succeeded && self.halt is None
                    } else {
                        &&& self.compile == CompileState::Failed
                        &&& self.halt is Some
                        &&& self.halt->0.status == JudgeStatus::CompileError
                        &&& self.halt->0.error_info == verdict.error_info
                    }
                },
            ExecutionReport::BackendFailure(diagnostic) => {
                &&& self.compile == CompileState::Failed
                &&& self.halt is Some
                &&& self.halt->0.status == JudgeStatus::SystemError
                &&& self.halt->0.error_info is Some
                &&& self.halt->0.error_info->0@ == ErrorInfoView::bare(diagnostic@)
            },
            ExecutionReport::Cancelled => {
                &&& self.compile == before.compile
                &&& self.halt == Some(
                    Verdict { status: JudgeStatus::Cancelled, error_info: None },
                )
            },
        }
    }

    /// The state after a report on the test case at `index` came in.
    pub open spec fn ran_with(
        &self,
        before: Evaluation,
        index: int,
        memory_limit: u64,
        report: ExecutionReport,
    ) -> bool {
        &&& self.compile == before.compile
        &&& match report {
            ExecutionReport::Completed(outcome) => {
                &&& self.halt is None
                &&& self.results@.len() == index + 1
                &&& self.results@.drop_last() == before.results@
                &&& exists|verdict: Verdict|
                    is_verdict_of(
                        verdict,
                        outcome,
                        memory_limit,
                        ExecutionPhase::Run,
                        before.task.test_cases@[index].expected_output@,
                        before.config,
                    ) && records_outcome(
                        self.results@[index],
                        before.task.test_cases@[index],
                        outcome,
                        verdict,
                        before.config.output_cap,
                    )
            },
            ExecutionReport::BackendFailure(diagnostic) => {
                &&& self.halt is None
                &&& self.results@.len() == index + 1
                &&& self.results@.drop_last() == before.results@
                &&& records_failure(
                    self.results@[index],
                    before.task.test_cases@[index],
                    diagnostic@,
                )
            },
            ExecutionReport::Cancelled => {
                &&& self.results == before.results
                &&& self.halt == Some(
                    Verdict { status: JudgeStatus::Cancelled, error_info: None },
                )
            },
        }
    }

    /// Starts the judgment of a task: nothing has run yet, and compilation
    /// is pending exactly where the task asks for it.
    pub fn start(task: JudgeTask, config: JudgeConfig) -> (evaluation: Evaluation)
        ensures
            evaluation.task == task,
            evaluation.config == config,
            evaluation.results@.len() == 0,
            evaluation.halt is None,
            evaluation.compile == if task.needs_compilation {
                CompileState::Pending
            } else {
                CompileState::NotNeeded
            },
            evaluation.wf(),
    {
        let compile = if task.needs_compilation {
            CompileState::Pending
        } else {
            CompileState::NotNeeded
        };
        Evaluation { task, config, compile, halt: None, results: Vec::new() }
    }

    /// Returns what the caller is to do next.
    pub fn next_step(&self) -> (step: EvalStep)
        requires
            self.wf(),
        ensures
            step == self.spec_next_step(),
    {
        if self.halt.is_some() {
            return EvalStep::Finish;
        }
        if matches!(self.compile, CompileState::Pending) {
            return EvalStep::Compile {
                time_limit_ms: self.task.submission.time_limit,
                memory_limit_kb: self.task.submission.memory_limit,
            };
        }
        let done = self.results.len();
        if done >= self.task.test_cases.len() {
            return EvalStep::Finish;
        }
        if self.config.fail_fast && done > 0 && !self.results[done - 1].status.is_accepted() {
            return EvalStep::Finish;
        }
        proof {
            if self.config.fail_fast && done > 0 {
                let front = self.results@.drop_last();
                assert forall|i: int| 0 <= i < self.results@.len() implies case_passed(
                    #[trigger] self.results@[i],
                ) by {
                    if i < front.len() {
                        assert(front[i] == self.results@[i]);
                    }
                }
            }
        }
        let case = &self.task.test_cases[done];
        EvalStep::RunCase {
            index: done,
            time_limit_ms: case.effective_time_limit(self.task.submission.time_limit),
            memory_limit_kb: case.effective_memory_limit(self.task.submission.memory_limit),
        }
    }

    /// Takes in the report on the process that [`Evaluation::next_step`]
    /// asked for. After `Finish` a report changes nothing.
    pub fn on_report(&mut self, report: ExecutionReport)
        requires
            old(self).wf(),
        ensures
            final(self).wf(),
            final(self).task == old(self).task,
            final(self).config == old(self).config,
            match old(self).spec_next_step() {
                EvalStep::Finish => *final(self) == *old(self),
                EvalStep::Compile { .. } => final(self).compiled_with(*old(self), report),
                EvalStep::RunCase { index, memory_limit_kb, .. } => final(self).ran_with(
                    *old(self),
                    index as int,
                    memory_limit_kb,
                    report,
                ),
            },
    {
        let ghost before = *self;
        match self.next_step() {
            EvalStep::Finish => {},
            EvalStep::Compile { time_limit_ms: _, memory_limit_kb } => {
                match report {
                    ExecutionReport::Completed(outcome) => {
                        let verdict = classify(
                            &outcome,
                            memory_limit_kb,
                            ExecutionPhase::Compilation,
                            "",
                            self.config.comparison,
                            self.config.output_cap,
                        );
                        proof {
                            reveal_strlit("");
                            assert(""@ =~= Seq::<char>::empty());
                        }
                        let ghost witness = verdict;
                        if verdict.status.is_accepted() {
                            self.compile = CompileState::Succeeded;
                        } else {
                            self.compile = CompileState::Failed;
                            self.halt = Some(
                                Verdict {
                                    status: JudgeStatus::CompileError,
                                    error_info: verdict.error_info,
                                },
                            );
                        }
                        assert(is_verdict_of(
                            witness,
                            outcome,
                            before.task.submission.memory_limit,
                            ExecutionPhase::Compilation,
                            Seq::<char>::empty(),
                            before.config,
                        ));
                    },
                    ExecutionReport::BackendFailure(diagnostic) => {
                        self.compile = CompileState::Failed;
                        self.halt = Some(system_error(diagnostic));
                    },
                    ExecutionReport::Cancelled => {
                        self.halt = Some(
                            Verdict { status: JudgeStatus::Cancelled, error_info: None },
                        );
                    },
                }
            },
            EvalStep::RunCase { index, time_limit_ms: _, memory_limit_kb } => {
                match report {
                    ExecutionReport::Completed(outcome) => {
                        let result = case_result(
                            &self.task.test_cases[index],
                            &outcome,
                            memory_limit_kb,
                            &self.config,
                        );
                        self.results.push(result);
                        proof {
                            assert(self.results@.drop_last() =~= before.results@);
                            assert(self.results@[index as int] == result);
                        }
                    },
                    ExecutionReport::BackendFailure(diagnostic) => {
                        let result = case_failure(&self.task.test_cases[index], diagnostic);
                        self.results.push(result);
                        proof {
                            assert(self.results@.drop_last() =~= before.results@);
                            assert(self.results@[index as int] == result);
                        }
                    },
                    ExecutionReport::Cancelled => {
                        self.halt = Some(
                            Verdict { status: JudgeStatus::Cancelled, error_info: None },
                        );
                    },
                }
            },
        }
    }

    /// What the result of this judgment holds, but for the time at which it
    /// was completed. A judgment that was halted has the halting verdict
    /// and the score zero. Any other has the aggregate of its test case
    /// results, and the details of the first case that failed.
    pub open spec fn concludes_in(&self, result: JudgeResult) -> bool {
        &&& result.submission_id == self.task.submission.id
        &&& result.problem_id == self.task.submission.problem_id
        &&& result.user_id == self.task.submission.user_id
        &&& result.test_cases == self.results
        &&& is_peak(result.time_used, self.results@, Measure::Time)
        &&& is_peak(result.memory_used, self.results@, Measure::Memory)
        &&& match self.halt {
            Some(verdict) => {
                &&& result.status == verdict.status
                &&& result.error_info == verdict.error_info
                &&& result.score == 0
            },
            None => {
                &&& result.status == overall_status(
                    self.results@,
                    self.task.test_cases@.len(),
                )
                &&& result.error_info == overall_error_info(self.results@)
                &&& result.score == overall_score(
                    self.task.test_cases@,
                    self.results@,
                    result.status,
                )
            },
        }
    }

    /// Draws the result of the judgment, completed at a time that the
    /// caller supplies.
    pub fn finish(self, judged_at: Timestamp) -> (result: JudgeResult)
        requires
            self.wf(),
        ensures
            self.concludes_in(result),
            result.judged_at == judged_at,
            result.is_consistent(),
    {
        let time_used = aggregate_time(&self.results);
        let memory_used = aggregate_memory(&self.results);
        let submission_id = self.task.submission.id;
        let problem_id = self.task.submission.problem_id;
        let user_id = self.task.submission.user_id;
        match self.halt {
            Some(verdict) => {
                JudgeResult {
                    status: verdict.status,
                    time_used,
                    memory_used,
                    error_info: verdict.error_info,
                    test_cases: self.results,
                    submission_id,
                    problem_id,
                    user_id,
                    judged_at,
                    score: 0,
                }
            },
            None => {
                let status = aggregate_status(&self.results, self.task.test_cases.len());
                let error_info = aggregate_error_info(&self.results);
                let score = aggregate_score(&self.task.test_cases, &self.results, status);
                JudgeResult {
                    status,
                    time_used,
                    memory_used,
                    error_info,
                    test_cases: self.results,
                    submission_id,
                    problem_id,
                    user_id,
                    judged_at,
                    score,
                }
            },
        }
    }

    /// Draws the result of the judgment, completed now.
    pub fn judge_result(self) -> (result: JudgeResult)
        requires
            self.wf(),
        ensures
            self.concludes_in(result),
            result.is_consistent(),
    {
        self.finish(utc_now())
    }
}

/// A task that needs compiling and whose compiler did not exit with code
/// zero ends in `CompileError`, with no test case results and the score
/// zero, whatever else the compiler's run was like.
pub proof fn lemma_failed_compilation(
    before: Evaluation,
    after: Evaluation,
    outcome: RawOutcome,
    result: JudgeResult,
)
    requires
        before.wf(),
        before.halt is None,
        before.compile == CompileState::Pending,
        outcome.exit_code != Some(0i32),
        after.compiled_with(before, ExecutionReport::Completed(outcome)),
        after.concludes_in(result),
    ensures
        before.spec_next_step() is Compile,
        after.spec_next_step() == EvalStep::Finish,
        result.status == JudgeStatus::CompileError,
        result.test_cases@.len() == 0,
        result.score == 0,
{
}

} // verus!
