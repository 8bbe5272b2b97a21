//! The result of a judgment and what can be read from it.

use vstd::prelude::*;
use crate::error_info::ErrorInfo;
use crate::identity::{utc_now, Timestamp};
use crate::status::JudgeStatus;
use crate::test_case::TestCaseResult;

verus! {

/// The score of a submission that passed everything. Scores are fixed-point
/// numbers in hundredths of a point, from 0 for 0.00 to 10000 for 100.00.
pub const SCORE_FULL: u32 = 10000;

/// Detailed information about a judgment result.
#[derive(Debug, Clone, PartialEq, Eq)]
pub struct JudgeResult {
    /// The overall status of the judgment
    pub status: JudgeStatus,
    /// Time consumed in milliseconds
    pub time_used: u64,
    /// Memory used in kilobytes
    pub memory_used: u64,
    /// Detailed error information if applicable
    pub error_info: Option<ErrorInfo>,
    /// Test case results, in task order
    pub test_cases: Vec<TestCaseResult>,
    /// Submission ID this result belongs to
    pub submission_id: uuid::Uuid,
    /// Problem ID
    pub problem_id: uuid::Uuid,
    /// User ID
    pub user_id: uuid::Uuid,
    /// When the judgment was completed
    pub judged_at: Timestamp,
    /// Score achieved, in hundredths of a point
    pub score: u32,
}

/// Whether a test case result reports a passed case.
pub open spec fn case_passed(result: TestCaseResult) -> bool {
    result.status.spec_is_accepted()
}

/// The number of passed cases among `results`.
pub open spec fn passed_count(results: Seq<TestCaseResult>) -> nat {
    results.filter(|r: TestCaseResult| case_passed(r)).len()
}

/// Every case among `results` passed.
pub open spec fn all_passed(results: Seq<TestCaseResult>) -> bool {
    forall|i: int| 0 <= i < results.len() ==> case_passed(#[trigger] results[i])
}

/// The number of passed cases is the number of all cases exactly when every
/// case passed, and never more.
pub proof fn lemma_passed_count(results: Seq<TestCaseResult>)
    ensures
        passed_count(results) <= results.len(),
        passed_count(results) == results.len() <==> all_passed(results),
    decreases results.len(),
{
    reveal(Seq::filter);
    if results.len() > 0 {
        let front = results.drop_last();
        lemma_passed_count(front);
        if all_passed(results) {
            assert forall|i: int| 0 <= i < front.len() implies case_passed(
                #[trigger] front[i],
            ) by {
                assert(front[i] == results[i]);
            }
            assert(case_passed(results[results.len() - 1]));
        }
        if passed_count(results) == results.len() {
            assert(case_passed(results.last()));
            assert forall|i: int| 0 <= i < results.len() implies case_passed(
                #[trigger] results[i],
            ) by {
                if i < front.len() {
                    assert(front[i] == results[i]);
                }
            }
        }
    }
}

/// One more result adds one to the passed count if its case passed, and
/// nothing if not.
pub proof fn lemma_passed_count_push(results: Seq<TestCaseResult>, next: TestCaseResult)
    ensures
        passed_count(results.push(next)) == passed_count(results) + if case_passed(next) {
            1nat
        } else {
            0nat
        },
{
    reveal(Seq::filter);
    assert(results.push(next).drop_last() =~= results);
}

impl JudgeResult {
    /// The number of passed test cases.
    pub open spec fn spec_passed_test_cases(&self) -> nat {
        passed_count(self.test_cases@)
    }

    /// The number of test cases with a result.
    pub open spec fn spec_total_test_cases(&self) -> nat {
        self.test_cases@.len()
    }

    /// The status and the score agree with the test case results: the score
    /// is no more than the full score, and a result that says `Accepted`
    /// holds no case that failed.
    pub open spec fn is_consistent(&self) -> bool {
        &&& self.score <= SCORE_FULL
        &&& self.status.spec_is_accepted() ==> all_passed(self.test_cases@)
    }

    /// What a result holds that was built without test case results.
    pub open spec fn summarises(
        &self,
        status: JudgeStatus,
        time_used: u64,
        memory_used: u64,
        submission_id: uuid::Uuid,
        problem_id: uuid::Uuid,
        user_id: uuid::Uuid,
    ) -> bool {
        &&& self.status == status
        &&& self.time_used == time_used
        &&& self.memory_used == memory_used
        &&& self.test_cases@.len() == 0
        &&& self.submission_id == submission_id
        &&& self.problem_id == problem_id
        &&& self.user_id == user_id
    }

    /// Builds a result without test cases, completed at a time that the
    /// caller supplies. The score is full for `Accepted` and zero for every
    /// other status.
    pub fn completed_at(
        judged_at: Timestamp,
        status: JudgeStatus,
        time_used: u64,
        memory_used: u64,
        error_info: Option<ErrorInfo>,
        submission_id: uuid::Uuid,
        problem_id: uuid::Uuid,
        user_id: uuid::Uuid,
    ) -> (result: JudgeResult)
        ensures
            result.judged_at == judged_at,
            result.summarises(status, time_used, memory_used, submission_id, problem_id, user_id),
            result.error_info == error_info,
            result.score == if status.spec_is_accepted() {
                SCORE_FULL
            } else {
                0
            },
            result.is_consistent(),
    {
        let score: u32 = if status.is_accepted() {
            SCORE_FULL
        } else {
            0
        };
        JudgeResult {
            status,
            time_used,
            memory_used,
            error_info,
            test_cases: Vec::new(),
            submission_id,
            problem_id,
            user_id,
            judged_at,
            score,
        }
    }

    /// Creates the result of an accepted submission, completed now: no
    /// error, no test case results yet, the full score.
    pub fn accepted(
        time_used: u64,
        memory_used: u64,
        submission_id: uuid::Uuid,
        problem_id: uuid::Uuid,
        user_id: uuid::Uuid,
    ) -> (result: JudgeResult)
        ensures
            result.summarises(
                JudgeStatus::Accepted,
                time_used,
                memory_used,
                submission_id,
                problem_id,
                user_id,
            ),
            result.error_info is None,
            result.score == SCORE_FULL,
            result.is_consistent(),
    {
        JudgeResult::completed_at(
            utc_now(),
            JudgeStatus::Accepted,
            time_used,
            memory_used,
            None,
            submission_id,
            problem_id,
            user_id,
        )
    }

    /// Creates a result that carries error information, completed now: no
    /// test case results yet, the score zero.
    pub fn with_error(
        status: JudgeStatus,
        time_used: u64,
        memory_used: u64,
        error_info: ErrorInfo,
        submission_id: uuid::Uuid,
        problem_id: uuid::Uuid,
        user_id: uuid::Uuid,
    ) -> (result: JudgeResult)
        ensures
            result.summarises(status, time_used, memory_used, submission_id, problem_id, user_id),
            result.error_info == Some(error_info),
            result.score == 0,
            result.is_consistent(),
    {
        let mut result = JudgeResult::completed_at(
            utc_now(),
            status,
            time_used,
            memory_used,
            Some(error_info),
            submission_id,
            problem_id,
            user_id,
        );
        result.score = 0;
        result
    }

    /// Appends a test case result. Nothing else changes; the result stays
    /// consistent unless it says `Accepted` and the new case failed.
    pub fn add_test_case(&mut self, test_case: TestCaseResult)
        ensures
            final(self).test_cases@ == old(self).test_cases@.push(test_case),
            final(self).status == old(self).status,
            final(self).time_used == old(self).time_used,
            final(self).memory_used == old(self).memory_used,
            final(self).error_info == old(self).error_info,
            final(self).submission_id == old(self).submission_id,
            final(self).problem_id == old(self).problem_id,
            final(self).user_id == old(self).user_id,
            final(self).judged_at == old(self).judged_at,
            final(self).score == old(self).score,
            old(self).is_consistent() && (old(self).status.spec_is_accepted() ==> case_passed(
                test_case,
            )) ==> final(self).is_consistent(),
    {
        self.test_cases.push(test_case);
    }

    /// Returns the number of passed test cases.
    pub fn passed_test_cases(&self) -> (passed: usize)
        ensures
            passed == self.spec_passed_test_cases(),
            passed <= self.spec_total_test_cases(),
    {
        let mut passed: usize = 0;
        let mut i: usize = 0;
        while i < self.test_cases.len()
            invariant
                i <= self.test_cases@.len(),
                passed == passed_count(self.test_cases@.take(i as int)),
                passed <= i,
            decreases self.test_cases@.len() - i,
        {
            proof {
                let seen = self.test_cases@.take(i as int);
                assert(self.test_cases@.take(i + 1) =~= seen.push(self.test_cases@[i as int]));
                lemma_passed_count_push(seen, self.test_cases@[i as int]);
            }
            if self.test_cases[i].status.is_accepted() {
                passed = passed + 1;
            }
            i = i + 1;
        }
        assert(self.test_cases@.take(i as int) =~= self.test_cases@);
        passed
    }

    /// Returns the number of test cases with a result.
    pub fn total_test_cases(&self) -> (total: usize)
        ensures
            total == self.spec_total_test_cases(),
    {
        self.test_cases.len()
    }
}

/// No result reports more passed cases than it has cases, and a consistent
/// result whose status is `Accepted` reports all of its cases as passed.
pub proof fn lemma_passed_within_total(result: JudgeResult)
    ensures
        result.spec_passed_test_cases() <= result.spec_total_test_cases(),
        result.is_consistent() && result.status.spec_is_accepted()
            ==> result.spec_passed_test_cases() == result.spec_total_test_cases(),
{
    lemma_passed_count(result.test_cases@);
}

} // verus!
