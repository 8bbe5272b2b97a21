//! Aggregation: from the results of the test cases to the overall status,
//! the score, and the time and memory of a judgment.
//!
//! The overall status is `Accepted` when every case has a result and every
//! result is `Accepted`. Otherwise it is the status of the first case, in
//! task order, that was not accepted, whatever came after it. The score is
//! the weight of the passed cases as a share of the weight of all cases, on
//! a scale to [`SCORE_FULL`] and rounded to the nearest step, a half going
//! up. Time and memory are the largest that any one case used.

use vstd::prelude::*;
use crate::error_info::{duplicate_info, ErrorInfo};
use crate::judge_result::{all_passed, case_passed, SCORE_FULL};
use crate::status::JudgeStatus;
use crate::task::{lemma_weight_sum_bound, total_weight_of, weight_sum};
use crate::test_case::{TestCase, TestCaseResult};

verus! {

/// The weight of the passed cases among the first `n`: case `i` counts
/// where it has a result and that result is `Accepted`.
pub open spec fn passed_weight(cases: Seq<TestCase>, results: Seq<TestCaseResult>, n: nat) -> nat
    decreases n,
{
    if n == 0 {
        0
    } else {
        let i = n - 1;
        passed_weight(cases, results, i as nat) + if i < cases.len() && i < results.len()
            && case_passed(results[i]) {
            cases[i].weight as nat
        } else {
            0nat
        }
    }
}

/// The share `passed / total` on the scale to the full score, rounded to
/// the nearest step with a half going up.
pub open spec fn scaled_score(passed: nat, total: nat) -> nat
    recommends
        total > 0,
{
    (passed * SCORE_FULL as nat + total / 2) / total
}

/// The position of the first result that is not `Accepted`, or nothing
/// where every result is.
pub open spec fn first_failed(results: Seq<TestCaseResult>) -> Option<int>
    decreases results.len(),
{
    if results.len() == 0 {
        None
    } else if !case_passed(results[0]) {
        Some(0)
    } else {
        match first_failed(results.drop_first()) {
            Some(i) => Some(i + 1),
            None => None,
        }
    }
}

/// The overall status of a judgment with `n_cases` test cases of which
/// `results` are known, in task order: the status of the first result that
/// is not `Accepted`, whatever came after it. Without such a result the
/// judgment is accepted once every case has its result, and is still being
/// judged until then.
pub open spec fn overall_status(results: Seq<TestCaseResult>, n_cases: nat) -> JudgeStatus {
    match first_failed(results) {
        Some(i) => results[i].status,
        None => if results.len() >= n_cases {
            JudgeStatus::Accepted
        } else {
            JudgeStatus::Judging
        },
    }
}

/// The details of the first result that is not `Accepted`, or nothing
/// where every result is.
pub open spec fn overall_error_info(results: Seq<TestCaseResult>) -> Option<ErrorInfo> {
    match first_failed(results) {
        Some(i) => results[i].error_info,
        None => None,
    }
}

/// The score of a judgment. Where the cases have no weight at all the
/// score is full for an accepted judgment and zero for any other.
pub open spec fn overall_score(
    cases: Seq<TestCase>,
    results: Seq<TestCaseResult>,
    status: JudgeStatus,
) -> nat {
    let total = weight_sum(cases);
    if total == 0 {
        if status.spec_is_accepted() {
            SCORE_FULL as nat
        } else {
            0
        }
    } else {
        scaled_score(passed_weight(cases, results, cases.len()), total)
    }
}

/// What a run is measured by.
#[derive(Debug, Clone, Copy, PartialEq, Eq, Structural)]
pub enum Measure {
    /// The time used, in milliseconds
    Time,
    /// The memory used, in kilobytes
    Memory,
}

/// What a test case used of a measure.
pub open spec fn measured(result: TestCaseResult, measure: Measure) -> u64 {
    match measure {
        Measure::Time => result.time_used,
        Measure::Memory => result.memory_used,
    }
}

/// `peak` is the most that any of `results` used of a measure, or zero for
/// no results.
pub open spec fn is_peak(peak: u64, results: Seq<TestCaseResult>, measure: Measure) -> bool {
    &&& forall|i: int| 0 <= i < results.len() ==> measured(#[trigger] results[i], measure) <= peak
    &&& if results.len() == 0 {
        peak == 0
    } else {
        exists|i: int| 0 <= i < results.len() && measured(#[trigger] results[i], measure) == peak
    }
}

/// The first failure is what its name says: a result that is not
/// `Accepted`, with only accepted results before it. There is none exactly
/// when every result is `Accepted`.
pub proof fn lemma_first_failed(results: Seq<TestCaseResult>)
    ensures
        first_failed(results) is None <==> all_passed(results),
        first_failed(results) is Some ==> {
            let at = first_failed(results)->0;
            &&& 0 <= at < results.len()
            &&& !case_passed(results[at])
            &&& forall|j: int| 0 <= j < at ==> case_passed(#[trigger] results[j])
        },
    decreases results.len(),
{
    if results.len() > 0 {
        let rest = results.drop_first();
        lemma_first_failed(rest);
        if case_passed(results[0]) {
            if first_failed(rest) is Some {
                let at = first_failed(rest)->0;
                assert(results[at + 1] == rest[at]);
                assert forall|j: int| 0 <= j < at + 1 implies case_passed(
                    #[trigger] results[j],
                ) by {
                    if j > 0 {
                        assert(results[j] == rest[j - 1]);
                    }
                }
            } else {
                assert forall|j: int| 0 <= j < results.len() implies case_passed(
                    #[trigger] results[j],
                ) by {
                    if j > 0 {
                        assert(results[j] == rest[j - 1]);
                    }
                }
            }
            if all_passed(results) {
                assert forall|j: int| 0 <= j < rest.len() implies case_passed(
                    #[trigger] rest[j],
                ) by {
                    assert(rest[j] == results[j + 1]);
                }
            }
        }
    }
}

/// A result that is not `Accepted` and has only accepted results before it
/// is the first failure.
pub proof fn lemma_first_failed_at(results: Seq<TestCaseResult>, at: int)
    requires
        0 <= at < results.len(),
        !case_passed(results[at]),
        forall|j: int| 0 <= j < at ==> case_passed(#[trigger] results[j]),
    ensures
        first_failed(results) == Some(at),
{
    lemma_first_failed(results);
    let found = first_failed(results)->0;
    if found < at {
        assert(case_passed(results[found]));
    }
    if at < found {
        assert(case_passed(results[at]));
    }
}

/// A judgment whose overall status is `Accepted` has a result for every
/// case and no result that failed, and its score is the full score.
pub proof fn lemma_accepted_is_complete(cases: Seq<TestCase>, results: Seq<TestCaseResult>)
    requires
        overall_status(results, cases.len()).spec_is_accepted(),
    ensures
        all_passed(results),
        results.len() >= cases.len(),
        overall_score(cases, results, overall_status(results, cases.len())) == SCORE_FULL,
{
    lemma_first_failed(results);
    lemma_passed_weight_all(cases, results, cases.len());
    assert(cases.take(cases.len() as int) =~= cases);
    if weight_sum(cases) > 0 {
        lemma_scaled_score(weight_sum(cases), weight_sum(cases));
    }
}

/// The weight of the passed cases among the first `n` is no more than the
/// weight of those `n` cases.
pub proof fn lemma_passed_weight_prefix(cases: Seq<TestCase>, results: Seq<TestCaseResult>, n: nat)
    requires
        n <= cases.len(),
    ensures
        passed_weight(cases, results, n) <= weight_sum(cases.take(n as int)),
    decreases n,
{
    if n > 0 {
        lemma_passed_weight_prefix(cases, results, (n - 1) as nat);
        assert(cases.take(n as int).drop_last() =~= cases.take(n - 1));
    }
}

/// Where every case has a result and every result is `Accepted`, the passed
/// weight is the whole weight.
pub proof fn lemma_passed_weight_all(cases: Seq<TestCase>, results: Seq<TestCaseResult>, n: nat)
    requires
        n <= cases.len() <= results.len(),
        all_passed(results),
    ensures
        passed_weight(cases, results, n) == weight_sum(cases.take(n as int)),
    decreases n,
{
    if n > 0 {
        lemma_passed_weight_all(cases, results, (n - 1) as nat);
        assert(cases.take(n as int).drop_last() =~= cases.take(n - 1));
    }
}

/// A share of a whole is a score between zero and the full score; nothing
/// passed gives zero and everything passed gives the full score.
pub proof fn lemma_scaled_score(passed: nat, total: nat)
    requires
        0 < total,
        passed <= total,
    ensures
        scaled_score(passed, total) <= SCORE_FULL,
        passed == total ==> scaled_score(passed, total) == SCORE_FULL,
        passed == 0 ==> scaled_score(passed, total) == 0,
{
    let full = SCORE_FULL as nat;
    let top = passed * full + total / 2;
    assert(passed * full <= total * full) by (nonlinear_arith)
        requires
            passed <= total,
    ;
    assert(top < total * (full + 1)) by (nonlinear_arith)
        requires
            top <= total * full + total / 2,
            0 < total,
    ;
    assert(top / total <= full) by (nonlinear_arith)
        requires
            top < total * (full + 1),
            0 < total,
    ;
    if passed == total {
        assert(top / total >= full) by (nonlinear_arith)
            requires
                top >= total * full,
                0 < total,
        ;
    }
    if passed == 0 {
        assert(passed * full == 0) by (nonlinear_arith)
            requires
                passed == 0,
        ;
        assert((total / 2) / total == 0) by (nonlinear_arith)
            requires
                0 < total,
        ;
    }
}

/// Two test cases of the same weight, one accepted and one answered
/// wrongly, in either order, come to half the full score and to the overall
/// status `WrongAnswer`.
pub proof fn lemma_half_passed_half_score(cases: Seq<TestCase>, results: Seq<TestCaseResult>)
    requires
        cases.len() == 2,
        results.len() == 2,
        cases[0].weight == cases[1].weight,
        cases[0].weight > 0,
        (results[0].status == JudgeStatus::Accepted && results[1].status
            == JudgeStatus::WrongAnswer) || (results[0].status == JudgeStatus::WrongAnswer
            && results[1].status == JudgeStatus::Accepted),
    ensures
        overall_status(results, 2) == JudgeStatus::WrongAnswer,
        overall_score(cases, results, overall_status(results, 2)) == SCORE_FULL / 2,
{
    let weight = cases[0].weight as nat;
    if results[0].status == JudgeStatus::Accepted {
        lemma_first_failed_at(results, 1);
    } else {
        lemma_first_failed_at(results, 0);
    }
    assert(weight_sum(cases) == 2 * weight) by {
        reveal_with_fuel(weight_sum, 3);
        assert(cases.drop_last().drop_last().len() == 0);
        assert(cases.drop_last().last() == cases[0]);
    }
    assert(passed_weight(cases, results, 2) == weight) by {
        reveal_with_fuel(passed_weight, 3);
    }
    assert((weight * 10000 + (2 * weight) / 2) / (2 * weight) == 5000) by (nonlinear_arith)
        requires
            weight > 0,
    ;
}

/// Returns the position of the first result that is not `Accepted`, if
/// there is one.
pub fn first_failure(results: &Vec<TestCaseResult>) -> (found: Option<usize>)
    ensures
        found is Some <==> first_failed(results@) is Some,
        found is Some ==> found->0 as int == first_failed(results@)->0,
        found is Some ==> found->0 < results@.len() && !case_passed(results@[found->0 as int]),
        found is None <==> all_passed(results@),
{
    let mut i: usize = 0;
    while i < results.len()
        invariant
            i <= results@.len(),
            forall|j: int| 0 <= j < i ==> case_passed(#[trigger] results@[j]),
        decreases results@.len() - i,
    {
        if !results[i].status.is_accepted() {
            proof {
                lemma_first_failed_at(results@, i as int);
            }
            return Some(i);
        }
        i = i + 1;
    }
    proof {
        lemma_first_failed(results@);
    }
    None
}

/// Returns the overall status of a judgment with `n_cases` test cases.
pub fn aggregate_status(results: &Vec<TestCaseResult>, n_cases: usize) -> (status: JudgeStatus)
    ensures
        status == overall_status(results@, n_cases as nat),
        status.spec_is_accepted() <==> all_passed(results@) && results@.len() >= n_cases,
{
    proof {
        lemma_first_failed(results@);
    }
    match first_failure(results) {
        Some(i) => results[i].status,
        None => if results.len() >= n_cases {
            JudgeStatus::Accepted
        } else {
            JudgeStatus::Judging
        },
    }
}

/// Returns a copy of the details of the first result that is not
/// `Accepted`, if there is one.
pub fn aggregate_error_info(results: &Vec<TestCaseResult>) -> (info: Option<ErrorInfo>)
    ensures
        info == overall_error_info(results@),
{
    proof {
        lemma_first_failed(results@);
    }
    match first_failure(results) {
        Some(i) => duplicate_info(&results[i].error_info),
        None => None,
    }
}

/// Returns the weight of the passed cases, in thousandths.
pub fn aggregate_passed_weight(cases: &Vec<TestCase>, results: &Vec<TestCaseResult>) -> (passed:
    u128)
    ensures
        passed == passed_weight(cases@, results@, cases@.len()),
        passed <= weight_sum(cases@),
{
    let mut passed: u128 = 0;
    let mut i: usize = 0;
    while i < cases.len()
        invariant
            i <= cases@.len(),
            passed == passed_weight(cases@, results@, i as nat),
        decreases cases@.len() - i,
    {
        proof {
            lemma_passed_weight_prefix(cases@, results@, (i + 1) as nat);
            lemma_weight_sum_bound(cases@.take(i + 1));
            assert((i + 1) * u32::MAX <= usize::MAX * u32::MAX) by (nonlinear_arith)
                requires
                    i + 1 <= usize::MAX,
            ;
        }
        if i < results.len() && results[i].status.is_accepted() {
            passed = passed + cases[i].weight as u128;
        }
        i = i + 1;
    }
    proof {
        lemma_passed_weight_prefix(cases@, results@, cases@.len());
        assert(cases@.take(cases@.len() as int) =~= cases@);
    }
    passed
}

/// Returns the score for `passed` out of `total`, both weights in
/// thousandths, for a judgment that ended in `status`.
pub fn score_for(passed: u128, total: u128, status: JudgeStatus) -> (score: u32)
    requires
        passed <= total,
        total <= usize::MAX * u32::MAX,
    ensures
        score <= SCORE_FULL,
        total > 0 ==> score == scaled_score(passed as nat, total as nat),
        total == 0 ==> score == if status.spec_is_accepted() {
            SCORE_FULL
        } else {
            0
        },
{
    if total == 0 {
        return if status.is_accepted() {
            SCORE_FULL
        } else {
            0
        };
    }
    proof {
        lemma_scaled_score(passed as nat, total as nat);
        assert(usize::MAX * u32::MAX <= 0x1_0000_0000_0000_0000 * 0x1_0000_0000)
            by (nonlinear_arith);
        assert(passed * 10000 <= total * 10000) by (nonlinear_arith)
            requires
                passed <= total,
        ;
    }
    let quotient: u128 = (passed * 10000 + total / 2) / total;
    quotient as u32
}

/// Returns the score of a judgment that ended in `status`.
pub fn aggregate_score(
    cases: &Vec<TestCase>,
    results: &Vec<TestCaseResult>,
    status: JudgeStatus,
) -> (score: u32)
    ensures
        score == overall_score(cases@, results@, status),
        score <= SCORE_FULL,
{
    let passed = aggregate_passed_weight(cases, results);
    let total = total_weight_of(cases);
    score_for(passed, total, status)
}

/// Returns the most that any one case used of a measure, or zero for no
/// results.
pub fn aggregate_measure(results: &Vec<TestCaseResult>, measure: Measure) -> (peak: u64)
    ensures
        is_peak(peak, results@, measure),
{
    let mut peak: u64 = 0;
    let mut i: usize = 0;
    while i < results.len()
        invariant
            i <= results@.len(),
            is_peak(peak, results@.take(i as int), measure),
        decreases results@.len() - i,
    {
        let ghost seen = results@.take(i as int);
        let ghost next = results@.take(i + 1);
        let ghost before = peak;
        let used = match measure {
            Measure::Time => results[i].time_used,
            Measure::Memory => results[i].memory_used,
        };
        if used > peak {
            peak = used;
        }
        proof {
            assert(next[i as int] == results@[i as int]);
            assert forall|k: int| 0 <= k < next.len() implies measured(
                #[trigger] next[k],
                measure,
            ) <= peak by {
                if k < i {
                    assert(next[k] == seen[k]);
                }
            }
            if used > before || i == 0 {
                assert(measured(next[i as int], measure) == peak);
            } else {
                let at = choose|k: int|
                    0 <= k < seen.len() && measured(#[trigger] seen[k], measure) == peak;
                assert(next[at] == seen[at]);
            }
        }
        i = i + 1;
    }
    assert(results@.take(i as int) =~= results@);
    peak
}

/// Returns the longest time that any one case took, in milliseconds.
pub fn aggregate_time(results: &Vec<TestCaseResult>) -> (peak: u64)
    ensures
        is_peak(peak, results@, Measure::Time),
{
    aggregate_measure(results, Measure::Time)
}

/// Returns the most memory that any one case used, in kilobytes.
pub fn aggregate_memory(results: &Vec<TestCaseResult>) -> (peak: u64)
    ensures
        is_peak(peak, results@, Measure::Memory),
{
    aggregate_measure(results, Measure::Memory)
}

} // verus!
