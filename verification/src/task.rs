//! A judge task: one submission with the test cases to run it against.

use vstd::prelude::*;
use vstd::string::*;
use crate::texts::{duplicate_texts, text_views};
use crate::submission::Submission;
use crate::test_case::{effective_limit, TestCase};

verus! {

/// One judgment request. It is built once and not changed afterwards.
#[derive(Debug, Clone, PartialEq, Eq)]
pub struct JudgeTask {
    /// Submission information
    pub submission: Submission,
    /// Test cases to run against the submission, in order
    pub test_cases: Vec<TestCase>,
    /// Whether the code is compiled first
    pub needs_compilation: bool,
    /// Whether the code runs in a sandbox; there is no other way to run it
    pub use_sandbox: bool,
    /// Compilation flags
    pub compile_flags: Option<Vec<String>>,
    /// Additional runtime arguments
    pub runtime_args: Option<Vec<String>>,
}

/// A program with the arguments it is called with.
#[derive(Debug, Clone, PartialEq, Eq)]
pub struct CommandLine {
    /// The program
    pub program: String,
    /// Its arguments, in order
    pub args: Vec<String>,
}

/// The texts of an optional list of strings: nothing for no list.
pub open spec fn listed_texts(list: Option<Vec<String>>) -> Seq<Seq<char>> {
    match list {
        Some(items) => text_views(items@),
        None => Seq::empty(),
    }
}

/// The sum of the weights of a sequence of test cases.
pub open spec fn weight_sum(cases: Seq<TestCase>) -> nat
    decreases cases.len(),
{
    if cases.len() == 0 {
        0
    } else {
        weight_sum(cases.drop_last()) + cases.last().weight as nat
    }
}

/// The two limits that a run stands under.
#[derive(Debug, Clone, Copy, PartialEq, Eq, Structural)]
pub enum LimitKind {
    /// The time limit, in milliseconds
    Time,
    /// The memory limit, in kilobytes
    Memory,
}

/// The limit of a kind that a test case has of its own, if it has one.
pub open spec fn own_limit(case: TestCase, kind: LimitKind) -> Option<u64> {
    match kind {
        LimitKind::Time => case.time_limit,
        LimitKind::Memory => case.memory_limit,
    }
}

/// `limit` is the largest of the limits of a kind that apply to `cases`,
/// each being the case's own limit where it has one and `default_limit`
/// where not; for no cases at all it is `default_limit`.
pub open spec fn is_max_limit(
    limit: u64,
    kind: LimitKind,
    cases: Seq<TestCase>,
    default_limit: u64,
) -> bool {
    if cases.len() == 0 {
        limit == default_limit
    } else {
        &&& forall|i: int|
            0 <= i < cases.len() ==> effective_limit(
                own_limit(#[trigger] cases[i], kind),
                default_limit,
            ) <= limit
        &&& exists|i: int|
            0 <= i < cases.len() && effective_limit(
                own_limit(#[trigger] cases[i], kind),
                default_limit,
            ) == limit
    }
}

/// A sum of weights is at most the number of cases times the largest weight.
pub proof fn lemma_weight_sum_bound(cases: Seq<TestCase>)
    ensures
        weight_sum(cases) <= cases.len() * u32::MAX,
    decreases cases.len(),
{
    if cases.len() > 0 {
        lemma_weight_sum_bound(cases.drop_last());
        assert((cases.len() - 1) * u32::MAX + u32::MAX == cases.len() * u32::MAX)
            by (nonlinear_arith);
    }
}

/// Returns the total weight of `cases`, in thousandths.
pub fn total_weight_of(cases: &Vec<TestCase>) -> (total: u128)
    ensures
        total == weight_sum(cases@),
        total <= usize::MAX * u32::MAX,
{
    let mut total: u128 = 0;
    let mut i: usize = 0;
    while i < cases.len()
        invariant
            i <= cases@.len(),
            total == weight_sum(cases@.take(i as int)),
        decreases cases@.len() - i,
    {
        proof {
            let next = cases@.take(i + 1);
            assert(next.drop_last() =~= cases@.take(i as int));
            lemma_weight_sum_bound(next);
            assert(next.len() * u32::MAX <= usize::MAX * u32::MAX) by (nonlinear_arith)
                requires
                    next.len() <= usize::MAX,
            ;
        }
        total = total + cases[i].weight as u128;
        i = i + 1;
    }
    proof {
        assert(cases@.take(i as int) =~= cases@);
        lemma_weight_sum_bound(cases@);
        assert(cases@.len() * u32::MAX <= usize::MAX * u32::MAX) by (nonlinear_arith)
            requires
                cases@.len() <= usize::MAX,
        ;
    }
    total
}

impl JudgeTask {
    /// The submission's limit of a kind, which applies to every case
    /// without one of its own.
    pub open spec fn spec_default_limit(&self, kind: LimitKind) -> u64 {
        match kind {
            LimitKind::Time => self.submission.time_limit,
            LimitKind::Memory => self.submission.memory_limit,
        }
    }

    /// The time limit that a run of any case of the task stays under.
    pub open spec fn spec_max_time_limit(&self, limit: u64) -> bool {
        is_max_limit(limit, LimitKind::Time, self.test_cases@, self.submission.time_limit)
    }

    /// The memory limit that a run of any case of the task stays under.
    pub open spec fn spec_max_memory_limit(&self, limit: u64) -> bool {
        is_max_limit(limit, LimitKind::Memory, self.test_cases@, self.submission.memory_limit)
    }

    /// Creates a judge task from a submission and test cases. The task is
    /// compiled where the language asks for it, and then with the language's
    /// default flags; it always runs in the sandbox.
    pub fn new(submission: Submission, test_cases: Vec<TestCase>) -> (task: JudgeTask)
        ensures
            task.submission == submission,
            task.test_cases == test_cases,
            task.needs_compilation == submission.language.spec_needs_compilation(),
            task.use_sandbox,
            task.runtime_args is None,
            task.needs_compilation ==> task.compile_flags is Some && text_views(
                task.compile_flags->0@,
            ) == submission.language.spec_default_compile_flags(),
            !task.needs_compilation ==> task.compile_flags is None,
    {
        let needs_compilation = submission.needs_compilation();
        let compile_flags = if needs_compilation {
            Some(submission.default_compile_flags())
        } else {
            None
        };
        JudgeTask {
            submission,
            test_cases,
            needs_compilation,
            use_sandbox: true,
            compile_flags,
            runtime_args: None,
        }
    }

    /// The arguments of the compiler: the task's compile flags, then the
    /// name of the source file.
    pub open spec fn spec_compile_args(&self) -> Seq<Seq<char>> {
        listed_texts(self.compile_flags).push(self.submission.spec_filename())
    }

    /// The arguments of the program's run: for a language that is not
    /// compiled the name of the source file, which the interpreter reads;
    /// then the task's runtime arguments.
    pub open spec fn spec_run_args(&self) -> Seq<Seq<char>> {
        if self.submission.language.spec_needs_compilation() {
            listed_texts(self.runtime_args)
        } else {
            seq![self.submission.spec_filename()] + listed_texts(self.runtime_args)
        }
    }

    /// Returns the command that compiles the submission: the language's
    /// compiler, the task's compile flags, the name of the source file.
    pub fn compile_command(&self) -> (command: CommandLine)
        ensures
            command.program@ == self.submission.language.spec_default_compiler(),
            text_views(command.args@) == self.spec_compile_args(),
    {
        let mut args = match &self.compile_flags {
            Some(flags) => duplicate_texts(flags),
            None => Vec::new(),
        };
        proof {
            assert(text_views(args@) =~= listed_texts(self.compile_flags));
        }
        let ghost flags = text_views(args@);
        args.push(self.submission.filename());
        proof {
            assert(text_views(args@) =~= flags.push(self.submission.spec_filename()));
        }
        CommandLine { program: self.submission.language.default_compiler().to_string(), args }
    }

    /// Returns the command that runs the submission: the language's runtime
    /// command, the name of the source file where an interpreter reads it,
    /// the task's runtime arguments.
    pub fn runtime_command(&self) -> (command: CommandLine)
        ensures
            command.program@ == self.submission.language.spec_default_runtime(),
            text_views(command.args@) == self.spec_run_args(),
    {
        let mut args: Vec<String> = Vec::new();
        if !self.submission.needs_compilation() {
            args.push(self.submission.filename());
        }
        let ghost head = text_views(args@);
        match &self.runtime_args {
            Some(extra) => {
                let mut i: usize = 0;
                while i < extra.len()
                    invariant
                        i <= extra@.len(),
                        text_views(args@) == head + text_views(extra@).take(i as int),
                    decreases extra@.len() - i,
                {
                    let ghost so_far = text_views(args@);
                    args.push(extra[i].clone());
                    proof {
                        assert(text_views(args@) =~= so_far.push(extra@[i as int]@));
                        assert(text_views(extra@).take(i + 1) =~= text_views(extra@).take(
                            i as int,
                        ).push(extra@[i as int]@));
                        assert(text_views(args@) =~= head + text_views(extra@).take(i + 1));
                    }
                    i = i + 1;
                }
                proof {
                    assert(text_views(extra@).take(i as int) =~= text_views(extra@));
                }
            },
            None => {
                proof {
                    assert(text_views(args@) =~= head + Seq::<Seq<char>>::empty());
                }
            },
        }
        proof {
            assert(head + listed_texts(self.runtime_args) =~= self.spec_run_args());
        }
        CommandLine { program: self.submission.default_runtime().to_string(), args }
    }

    /// Returns the number of test cases.
    pub fn test_case_count(&self) -> (count: usize)
        ensures
            count == self.test_cases@.len(),
    {
        self.test_cases.len()
    }

    /// Returns the total weight of all test cases, in thousandths.
    pub fn total_weight(&self) -> (total: u128)
        ensures
            total == weight_sum(self.test_cases@),
    {
        total_weight_of(&self.test_cases)
    }

    /// Returns the largest limit of a kind among the test cases, or the
    /// submission's limit where there are none.
    pub fn max_limit(&self, kind: LimitKind) -> (limit: u64)
        ensures
            is_max_limit(limit, kind, self.test_cases@, self.spec_default_limit(kind)),
    {
        let default_limit = match kind {
            LimitKind::Time => self.submission.time_limit,
            LimitKind::Memory => self.submission.memory_limit,
        };
        let mut limit: u64 = default_limit;
        let mut i: usize = 0;
        while i < self.test_cases.len()
            invariant
                i <= self.test_cases@.len(),
                is_max_limit(limit, kind, self.test_cases@.take(i as int), default_limit),
            decreases self.test_cases@.len() - i,
        {
            let ghost seen = self.test_cases@.take(i as int);
            let ghost next = self.test_cases@.take(i + 1);
            let ghost before = limit;
            let case = &self.test_cases[i];
            let candidate = match kind {
                LimitKind::Time => case.effective_time_limit(default_limit),
                LimitKind::Memory => case.effective_memory_limit(default_limit),
            };
            if i == 0 || candidate > limit {
                limit = candidate;
            }
            proof {
                assert(next[i as int] == self.test_cases@[i as int]);
                assert forall|k: int| 0 <= k < next.len() implies effective_limit(
                    own_limit(#[trigger] next[k], kind),
                    default_limit,
                ) <= limit by {
                    if k < i {
                        assert(next[k] == seen[k]);
                    }
                }
                if i == 0 || candidate > before {
                    assert(effective_limit(own_limit(next[i as int], kind), default_limit)
                        == limit);
                } else {
                    let at = choose|k: int|
                        0 <= k < seen.len() && effective_limit(
                            own_limit(#[trigger] seen[k], kind),
                            default_limit,
                        ) == limit;
                    assert(next[at] == seen[at]);
                }
            }
            i = i + 1;
        }
        assert(self.test_cases@.take(i as int) =~= self.test_cases@);
        limit
    }

    /// Returns the largest time limit among the test cases, or the
    /// submission's limit where there are none.
    pub fn max_time_limit(&self) -> (limit: u64)
        ensures
            self.spec_max_time_limit(limit),
    {
        self.max_limit(LimitKind::Time)
    }

    /// Returns the largest memory limit among the test cases, or the
    /// submission's limit where there are none.
    pub fn max_memory_limit(&self) -> (limit: u64)
        ensures
            self.spec_max_memory_limit(limit),
    {
        self.max_limit(LimitKind::Memory)
    }
}

} // verus!
