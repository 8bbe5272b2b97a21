//! Verdict model and sandbox planning for a code-judging service.
//!
//! The crate holds the language catalogue, the submission, task and result
//! records, the rules that turn a raw process outcome into a verdict, the
//! aggregation of per-case verdicts into a score, and the construction of the
//! isolation document that a container runtime consumes. It decides; the
//! caller acts. Whatever touches the file system, the clock of a running
//! process or the container runtime is the caller's part, and the two state
//! machines here, [`evaluate::Evaluation`] and [`invoker::Invocation`], tell
//! the caller what to do next.
//!
//! Weights and scores are fixed-point numbers: a weight counts thousandths
//! and a score hundredths of a point.

pub mod admission;
pub mod capture;
pub mod classify;
pub mod error_info;
pub mod evaluate;
pub mod identity;
pub mod invoker;
pub mod json;
pub mod judge_result;
pub mod language;
pub mod metrics;
pub mod render;
pub mod runtime_spec;
pub mod sandbox;
pub mod scoring;
pub mod status;
pub mod submission;
pub mod task;
pub mod test_case;
pub mod text;
pub mod texts;
