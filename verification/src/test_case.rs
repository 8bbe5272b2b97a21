//! Test cases and the record of running one.

use vstd::prelude::*;
use vstd::string::*;
use crate::error_info::ErrorInfo;
use crate::status::JudgeStatus;

verus! {

/// The weight of a test case that counts once. Weights are fixed-point
/// numbers in thousandths, so that a weight of one half is 500.
pub const WEIGHT_UNIT: u32 = 1000;

/// One input with the output expected for it.
#[derive(Debug, Clone, PartialEq, Eq)]
pub struct TestCase {
    /// Test case identifier
    pub id: String,
    /// Input data for the test case
    pub input: String,
    /// Expected output
    pub expected_output: String,
    /// Time limit in milliseconds for this test case, if it has its own
    pub time_limit: Option<u64>,
    /// Memory limit in kilobytes for this test case, if it has its own
    pub memory_limit: Option<u64>,
    /// Whether this test case is hidden from the user
    pub is_hidden: bool,
    /// Weight of this test case in scoring, in thousandths
    pub weight: u32,
}

/// The outcome of one test case.
#[derive(Debug, Clone, PartialEq, Eq)]
pub struct TestCaseResult {
    /// Test case identifier
    pub id: String,
    /// Status for this test case
    pub status: JudgeStatus,
    /// Time used for this test case (ms)
    pub time_used: u64,
    /// Memory used for this test case (KB)
    pub memory_used: u64,
    /// Input data for the test case
    pub input: Option<String>,
    /// Expected output
    pub expected_output: Option<String>,
    /// Actual output from the submission
    pub actual_output: Option<String>,
    /// Error information if the test case failed
    pub error_info: Option<ErrorInfo>,
}

/// The limit that applies: the override where there is one, else the default.
pub open spec fn effective_limit(own: Option<u64>, default_limit: u64) -> u64 {
    match own {
        Some(limit) => limit,
        None => default_limit,
    }
}

impl TestCase {
    /// The time limit that applies to this case under a submission's limit.
    pub open spec fn spec_effective_time_limit(&self, default_time_limit: u64) -> u64 {
        effective_limit(self.time_limit, default_time_limit)
    }

    /// The memory limit that applies to this case under a submission's limit.
    pub open spec fn spec_effective_memory_limit(&self, default_memory_limit: u64) -> u64 {
        effective_limit(self.memory_limit, default_memory_limit)
    }

    /// Creates a visible test case of unit weight without limits of its own.
    pub fn new(id: String, input: String, expected_output: String) -> (case: TestCase)
        ensures
            case.id == id,
            case.input == input,
            case.expected_output == expected_output,
            case.time_limit is None,
            case.memory_limit is None,
            !case.is_hidden,
            case.weight == WEIGHT_UNIT,
    {
        TestCase {
            id,
            input,
            expected_output,
            time_limit: None,
            memory_limit: None,
            is_hidden: false,
            weight: WEIGHT_UNIT,
        }
    }

    /// Creates a hidden test case of unit weight without limits of its own.
    pub fn hidden(id: String, input: String, expected_output: String) -> (case: TestCase)
        ensures
            case.id == id,
            case.input == input,
            case.expected_output == expected_output,
            case.time_limit is None,
            case.memory_limit is None,
            case.is_hidden,
            case.weight == WEIGHT_UNIT,
    {
        TestCase {
            id,
            input,
            expected_output,
            time_limit: None,
            memory_limit: None,
            is_hidden: true,
            weight: WEIGHT_UNIT,
        }
    }

    /// Creates a visible test case of unit weight with its own limits.
    pub fn with_limits(
        id: String,
        input: String,
        expected_output: String,
        time_limit: u64,
        memory_limit: u64,
    ) -> (case: TestCase)
        ensures
            case.id == id,
            case.input == input,
            case.expected_output == expected_output,
            case.time_limit == Some(time_limit),
            case.memory_limit == Some(memory_limit),
            !case.is_hidden,
            case.weight == WEIGHT_UNIT,
    {
        TestCase {
            id,
            input,
            expected_output,
            time_limit: Some(time_limit),
            memory_limit: Some(memory_limit),
            is_hidden: false,
            weight: WEIGHT_UNIT,
        }
    }

    /// Returns the time limit that applies to this case.
    pub fn effective_time_limit(&self, default_time_limit: u64) -> (limit: u64)
        ensures
            limit == self.spec_effective_time_limit(default_time_limit),
    {
        match self.time_limit {
            Some(limit) => limit,
            None => default_time_limit,
        }
    }

    /// Returns the memory limit that applies to this case.
    pub fn effective_memory_limit(&self, default_memory_limit: u64) -> (limit: u64)
        ensures
            limit == self.spec_effective_memory_limit(default_memory_limit),
    {
        match self.memory_limit {
            Some(limit) => limit,
            None => default_memory_limit,
        }
    }
}

} // verus!
