use judge_core::error_info::ErrorInfo;
use judge_core::judge_result::{JudgeResult, SCORE_FULL};
use judge_core::language::ProgrammingLanguage;
use judge_core::status::{JudgeStatus, RuntimeErrorType};
use judge_core::submission::{Submission, PRIORITY_CONTEST, PRIORITY_NORMAL};
use judge_core::task::{JudgeTask, LimitKind};
use judge_core::test_case::{TestCase, TestCaseResult, WEIGHT_UNIT};
use uuid::Uuid;

fn points(score: u32) -> f64 {
    score as f64 / 100.0
}

#[test]
fn test_usage_examples() {
    // Example 1: Successful submission
    let submission_id = Uuid::new_v4();
    let problem_id = Uuid::new_v4();
    let user_id = Uuid::new_v4();
    let successful_result = JudgeResult::accepted(150, 1024, submission_id, problem_id, user_id);
    assert!(successful_result.status.is_accepted());
    assert_eq!(successful_result.time_used, 150);
    assert_eq!(successful_result.memory_used, 1024);

    // Example 2: Compilation error
    let compile_failure = ErrorInfo::compilation_error(
        "error: expected ';' after expression".to_string(),
        Some("main.c:5:5: error: expected ';' after expression".to_string()),
    );
    let compile_result = JudgeResult::with_error(
        JudgeStatus::CompileError,
        0,
        0,
        compile_failure,
        submission_id,
        problem_id,
        user_id,
    );
    assert!(compile_result.status.is_error());

    // Example 3: Runtime error with specific type
    let runtime_status = JudgeStatus::RuntimeError(RuntimeErrorType::SegmentationFault);
    let runtime_error = ErrorInfo::runtime_error(
        "Segmentation fault (core dumped)".to_string(),
        11,
        Some("".to_string()),
    );
    let runtime_result = JudgeResult::with_error(
        runtime_status,
        50,
        256,
        runtime_error,
        submission_id,
        problem_id,
        user_id,
    );
    assert!(runtime_result.status.is_runtime_error());

    // Example 4: Test case results
    let mut test_result = JudgeResult::accepted(200, 768, submission_id, problem_id, user_id);
    test_result.add_test_case(TestCaseResult {
        id: "test_1".to_string(),
        status: JudgeStatus::Accepted,
        time_used: 50,
        memory_used: 256,
        input: Some("1 2".to_string()),
        expected_output: Some("3".to_string()),
        actual_output: Some("3".to_string()),
        error_info: None,
    });
    test_result.add_test_case(TestCaseResult {
        id: "test_2".to_string(),
        status: JudgeStatus::WrongAnswer,
        time_used: 75,
        memory_used: 384,
        input: Some("5 7".to_string()),
        expected_output: Some("12".to_string()),
        actual_output: Some("13".to_string()),
        error_info: None,
    });
    assert_eq!(test_result.passed_test_cases(), 1);
    assert_eq!(test_result.total_test_cases(), 2);
}

#[test]
fn test_judge_status_methods() {
    assert!(JudgeStatus::Accepted.is_accepted());
    assert!(JudgeStatus::Accepted.is_final());
    assert!(!JudgeStatus::Accepted.is_error());

    assert!(JudgeStatus::RuntimeError(RuntimeErrorType::SegmentationFault).is_error());
    assert!(JudgeStatus::RuntimeError(RuntimeErrorType::SegmentationFault).is_runtime_error());

    assert!(!JudgeStatus::Pending.is_final());
    assert!(!JudgeStatus::Judging.is_final());
}

#[test]
fn test_runtime_error_type() {
    let status = JudgeStatus::RuntimeError(RuntimeErrorType::SegmentationFault);
    assert_eq!(
        status.runtime_error_type(),
        Some(RuntimeErrorType::SegmentationFault)
    );
    assert_eq!(
        RuntimeErrorType::SegmentationFault.as_str(),
        "Segmentation fault"
    );
}

#[test]
fn test_programming_language() {
    let lang = ProgrammingLanguage::Cpp17;
    assert_eq!(lang.file_extension(), "cpp");
    assert_eq!(lang.default_compiler(), "g++");
    assert!(lang.needs_compilation());
    assert_eq!(lang.as_str(), "C++17");

    let python = ProgrammingLanguage::Python3;
    assert_eq!(python.file_extension(), "py");
    assert!(!python.needs_compilation());
    assert_eq!(python.default_runtime(), "python3");
}

#[test]
fn test_judge_result() {
    let submission_id = Uuid::new_v4();
    let problem_id = Uuid::new_v4();
    let user_id = Uuid::new_v4();

    let _result = JudgeResult::accepted(100, 512, submission_id, problem_id, user_id);
    let result = JudgeResult::accepted(150, 1024, submission_id, problem_id, user_id);
    assert!(result.status.is_accepted());
    assert_eq!(result.time_used, 150);
    assert_eq!(result.memory_used, 1024);
    assert!(result.error_info.is_none());
    assert_eq!(result.submission_id, submission_id);
    assert_eq!(points(result.score), 100.0);

    let error_info = ErrorInfo::new("Compilation failed".to_string());
    let error_result = JudgeResult::with_error(
        JudgeStatus::CompileError,
        0,
        0,
        error_info,
        submission_id,
        problem_id,
        user_id,
    );
    assert!(error_result.status.is_error());
    assert!(error_result.error_info.is_some());
    assert_eq!(points(error_result.score), 0.0);
}

#[test]
fn test_error_info_creation() {
    let stderr_error = ErrorInfo::from_stderr("error: expected identifier".to_string());
    assert!(stderr_error.stderr.is_some());

    let compile_failure = ErrorInfo::compilation_error(
        "Compilation failed".to_string(),
        Some("error: syntax error".to_string()),
    );
    assert_eq!(compile_failure.message, "Compilation failed");
    assert!(compile_failure.stderr.is_some());

    let runtime_error = ErrorInfo::runtime_error(
        "Segmentation fault".to_string(),
        11,
        Some("core dumped".to_string()),
    );
    assert_eq!(runtime_error.signal, Some(11));
}

#[test]
fn language_table_is_complete() {
    let all = [
        (ProgrammingLanguage::C, "c", "gcc", true, "./a.out", "C"),
        (ProgrammingLanguage::Cpp, "cpp", "g++", true, "./a.out", "C++"),
        (ProgrammingLanguage::Cpp11, "cpp", "g++", true, "./a.out", "C++11"),
        (ProgrammingLanguage::Cpp14, "cpp", "g++", true, "./a.out", "C++14"),
        (ProgrammingLanguage::Cpp17, "cpp", "g++", true, "./a.out", "C++17"),
        (ProgrammingLanguage::Cpp20, "cpp", "g++", true, "./a.out", "C++20"),
        (ProgrammingLanguage::Python2, "py", "python2", false, "python2", "Python 2"),
        (ProgrammingLanguage::Python3, "py", "python3", false, "python3", "Python 3"),
        (ProgrammingLanguage::Java, "java", "javac", true, "java", "Java"),
        (ProgrammingLanguage::Rust, "rs", "rustc", true, "./main", "Rust"),
        (ProgrammingLanguage::Go, "go", "go", true, "./main", "Go"),
        (ProgrammingLanguage::JavaScript, "js", "node", false, "node", "JavaScript"),
        (ProgrammingLanguage::TypeScript, "ts", "ts-node", false, "ts-node", "TypeScript"),
    ];
    for (lang, ext, compiler, compiled, runtime, name) in all {
        assert_eq!(lang.file_extension(), ext);
        assert_eq!(lang.default_compiler(), compiler);
        assert_eq!(lang.needs_compilation(), compiled);
        assert_eq!(lang.default_runtime(), runtime);
        assert_eq!(lang.as_str(), name);
    }
}

#[test]
fn default_compile_flags_by_language() {
    assert_eq!(ProgrammingLanguage::C.default_compile_flags(), vec!["-O2", "-Wall"]);
    assert_eq!(
        ProgrammingLanguage::Cpp.default_compile_flags(),
        vec!["-O2", "-Wall", "-std=c++11"]
    );
    assert_eq!(
        ProgrammingLanguage::Cpp11.default_compile_flags(),
        vec!["-O2", "-Wall", "-std=c++11"]
    );
    assert_eq!(
        ProgrammingLanguage::Cpp14.default_compile_flags(),
        vec!["-O2", "-Wall", "-std=c++14"]
    );
    assert_eq!(
        ProgrammingLanguage::Cpp17.default_compile_flags(),
        vec!["-O2", "-Wall", "-std=c++17"]
    );
    assert_eq!(
        ProgrammingLanguage::Cpp20.default_compile_flags(),
        vec!["-O2", "-Wall", "-std=c++20"]
    );
    assert_eq!(ProgrammingLanguage::Java.default_compile_flags(), vec!["-Xlint:all"]);
    assert_eq!(ProgrammingLanguage::Rust.default_compile_flags(), vec!["-O"]);
    assert!(ProgrammingLanguage::Go.default_compile_flags().is_empty());
    assert!(ProgrammingLanguage::Python3.default_compile_flags().is_empty());
    assert!(ProgrammingLanguage::TypeScript.default_compile_flags().is_empty());
}

#[test]
fn status_names_and_codes() {
    let other = JudgeStatus::RuntimeError(RuntimeErrorType::Other);
    let all = [
        (JudgeStatus::Accepted, "Accepted", "AC"),
        (JudgeStatus::WrongAnswer, "Wrong Answer", "WA"),
        (JudgeStatus::TimeLimitExceeded, "Time Limit Exceeded", "TLE"),
        (JudgeStatus::MemoryLimitExceeded, "Memory Limit Exceeded", "MLE"),
        (other, "Runtime Error", "RE"),
        (JudgeStatus::CompileError, "Compile Error", "CE"),
        (JudgeStatus::RestrictedOperation, "Restricted Operation", "RO"),
        (JudgeStatus::OutputLimitExceeded, "Output Limit Exceeded", "OLE"),
        (JudgeStatus::SystemError, "System\n Error", "SE"),
        (JudgeStatus::Pending, "Pending", "PD"),
        (JudgeStatus::Judging, "Judging", "JG"),
        (JudgeStatus::Cancelled, "Cancelled", "CN"),
    ];
    for (status, name, code) in all {
        assert_eq!(status.as_str(), name);
        assert_eq!(status.as_code(), code);
        assert_eq!(status.to_string(), name);
        assert_eq!(String::from(status), name);
    }
}

#[test]
fn status_classes() {
    let errors = [
        JudgeStatus::TimeLimitExceeded,
        JudgeStatus::MemoryLimitExceeded,
        JudgeStatus::RuntimeError(RuntimeErrorType::DivisionByZero),
        JudgeStatus::CompileError,
        JudgeStatus::RestrictedOperation,
        JudgeStatus::OutputLimitExceeded,
        JudgeStatus::SystemError,
    ];
    for status in errors {
        assert!(status.is_error());
        assert!(status.is_final());
        assert!(!status.is_accepted());
    }
    for status in [JudgeStatus::WrongAnswer, JudgeStatus::Cancelled] {
        assert!(!status.is_error());
        assert!(status.is_final());
    }
    for status in [JudgeStatus::Pending, JudgeStatus::Judging] {
        assert!(!status.is_error());
        assert!(!status.is_final());
        assert!(!status.is_accepted());
    }
    assert_eq!(JudgeStatus::Accepted.runtime_error_type(), None);
    assert_eq!(JudgeStatus::CompileError.runtime_error_type(), None);
}

#[test]
fn runtime_error_descriptions() {
    let all = [
        (RuntimeErrorType::SegmentationFault, "Segmentation fault"),
        (RuntimeErrorType::FloatingPointException, "Floating point exception"),
        (RuntimeErrorType::DivisionByZero, "Division by zero"),
        (RuntimeErrorType::AssertionFailed, "Assertion failed"),
        (RuntimeErrorType::StackOverflow, "Stack overflow"),
        (RuntimeErrorType::NullPointerDereference, "Null pointer dereference"),
        (RuntimeErrorType::FileOperationError, "File operation error"),
        (RuntimeErrorType::PermissionDenied, "Permission denied"),
        (RuntimeErrorType::Other, "Unknown runtime error"),
    ];
    for (kind, text) in all {
        assert_eq!(kind.as_str(), text);
        assert_eq!(kind.to_string(), text);
    }
}

#[test]
fn error_info_constructors_fill_every_field() {
    let bare = ErrorInfo::new("boom".to_string());
    assert_eq!(
        bare,
        ErrorInfo {
            message: "boom".to_string(),
            code: None,
            line: None,
            column: None,
            stderr: None,
            stdout: None,
            exit_code: None,
            signal: None,
        }
    );
    let from_stderr = ErrorInfo::from_stderr("oops".to_string());
    assert_eq!(from_stderr.message, "oops");
    assert_eq!(from_stderr.stderr.as_deref(), Some("oops"));
    assert_eq!(from_stderr.signal, None);
    let compile = ErrorInfo::compilation_error("failed".to_string(), None);
    assert_eq!(compile.stderr, None);
    assert_eq!(compile.exit_code, None);
    let runtime = ErrorInfo::runtime_error("crash".to_string(), 8, None);
    assert_eq!(runtime.signal, Some(8));
    assert_eq!(runtime.stderr, None);
    assert_eq!(runtime.duplicate(), runtime);
}

#[test]
fn submission_constructors() {
    let problem = Uuid::new_v4();
    let user = Uuid::new_v4();
    let contest = Uuid::new_v4();
    let plain = Submission::new(
        problem,
        user,
        ProgrammingLanguage::Rust,
        "fn main() {}".to_string(),
        1000,
        65536,
    );
    assert_eq!(plain.problem_id, problem);
    assert_eq!(plain.user_id, user);
    assert_eq!(plain.priority, PRIORITY_NORMAL);
    assert_eq!(plain.priority, 0);
    assert_eq!(plain.contest_id, None);
    assert_eq!(plain.time_limit, 1000);
    assert_eq!(plain.memory_limit, 65536);
    assert_eq!(plain.source_code, "fn main() {}");
    assert_eq!(plain.filename(), "main.rs");
    assert!(plain.needs_compilation());
    assert_eq!(plain.default_compile_flags(), vec!["-O"]);
    assert_eq!(plain.default_runtime(), "./main");

    let in_contest = Submission::for_contest(
        problem,
        user,
        contest,
        ProgrammingLanguage::Python3,
        "print(1)".to_string(),
        2000,
        1024,
    );
    assert_eq!(in_contest.priority, PRIORITY_CONTEST);
    assert_eq!(in_contest.priority, 10);
    assert_eq!(in_contest.contest_id, Some(contest));
    assert_eq!(in_contest.filename(), "main.py");
    assert!(!in_contest.needs_compilation());
    assert_ne!(plain.id, in_contest.id);
}

#[test]
fn test_case_constructors_and_limits() {
    let plain = TestCase::new("a".to_string(), "1".to_string(), "2".to_string());
    assert!(!plain.is_hidden);
    assert_eq!(plain.weight, WEIGHT_UNIT);
    assert_eq!(plain.weight as f64 / 1000.0, 1.0);
    assert_eq!(plain.effective_time_limit(500), 500);
    assert_eq!(plain.effective_memory_limit(64), 64);
    let hidden = TestCase::hidden("b".to_string(), "1".to_string(), "2".to_string());
    assert!(hidden.is_hidden);
    assert_eq!(hidden.time_limit, None);
    let limited = TestCase::with_limits("c".to_string(), "1".to_string(), "2".to_string(), 100, 32);
    assert_eq!(limited.effective_time_limit(500), 100);
    assert_eq!(limited.effective_memory_limit(64), 32);
    assert_eq!(limited.id, "c");
    assert_eq!(limited.input, "1");
    assert_eq!(limited.expected_output, "2");
}

fn sample_submission(language: ProgrammingLanguage) -> Submission {
    Submission::new(Uuid::new_v4(), Uuid::new_v4(), language, "code".to_string(), 1000, 2048)
}

#[test]
fn judge_task_derives_compilation_from_language() {
    let compiled = JudgeTask::new(sample_submission(ProgrammingLanguage::Cpp20), vec![]);
    assert!(compiled.needs_compilation);
    assert!(compiled.use_sandbox);
    assert_eq!(
        compiled.compile_flags,
        Some(vec!["-O2".to_string(), "-Wall".to_string(), "-std=c++20".to_string()])
    );
    assert_eq!(compiled.runtime_args, None);
    assert_eq!(compiled.test_case_count(), 0);
    assert_eq!(compiled.total_weight(), 0);
    assert_eq!(compiled.max_time_limit(), 1000);
    assert_eq!(compiled.max_memory_limit(), 2048);

    let interpreted = JudgeTask::new(sample_submission(ProgrammingLanguage::JavaScript), vec![]);
    assert!(!interpreted.needs_compilation);
    assert!(interpreted.use_sandbox);
    assert_eq!(interpreted.compile_flags, None);
}

#[test]
fn judge_task_limits_and_weights() {
    let mut half = TestCase::with_limits("b".to_string(), "".to_string(), "".to_string(), 3000, 512);
    half.weight = 500;
    let cases = vec![
        TestCase::new("a".to_string(), "".to_string(), "".to_string()),
        half,
        TestCase::with_limits("c".to_string(), "".to_string(), "".to_string(), 200, 4096),
    ];
    let task = JudgeTask::new(sample_submission(ProgrammingLanguage::Go), cases);
    assert_eq!(task.test_case_count(), 3);
    assert_eq!(task.total_weight(), 2500);
    assert_eq!(task.max_time_limit(), 3000);
    assert_eq!(task.max_memory_limit(), 4096);

    assert_eq!(task.max_limit(LimitKind::Time), 3000);
    assert_eq!(task.max_limit(LimitKind::Memory), 4096);

    let low = vec![TestCase::with_limits("d".to_string(), "".to_string(), "".to_string(), 10, 20)];
    let task = JudgeTask::new(sample_submission(ProgrammingLanguage::Go), low);
    assert_eq!(task.max_time_limit(), 10);
    assert_eq!(task.max_memory_limit(), 20);
}

fn case_with(status: JudgeStatus) -> TestCaseResult {
    TestCaseResult {
        id: "t".to_string(),
        status,
        time_used: 1,
        memory_used: 1,
        input: None,
        expected_output: None,
        actual_output: None,
        error_info: None,
    }
}

#[test]
fn passed_never_exceeds_total() {
    let ids = (Uuid::new_v4(), Uuid::new_v4(), Uuid::new_v4());
    let mut result = JudgeResult::accepted(0, 0, ids.0, ids.1, ids.2);
    assert_eq!(result.passed_test_cases(), 0);
    assert_eq!(result.total_test_cases(), 0);
    let statuses = [
        JudgeStatus::Accepted,
        JudgeStatus::Accepted,
        JudgeStatus::Accepted,
    ];
    for status in statuses {
        result.add_test_case(case_with(status));
        assert!(result.passed_test_cases() <= result.total_test_cases());
    }
    assert!(result.status.is_accepted());
    assert_eq!(result.passed_test_cases(), result.total_test_cases());
    assert_eq!(result.score, SCORE_FULL);

    let mut failed = JudgeResult::with_error(
        JudgeStatus::WrongAnswer,
        0,
        0,
        ErrorInfo::new("wrong".to_string()),
        ids.0,
        ids.1,
        ids.2,
    );
    failed.add_test_case(case_with(JudgeStatus::Accepted));
    failed.add_test_case(case_with(JudgeStatus::WrongAnswer));
    failed.add_test_case(case_with(JudgeStatus::TimeLimitExceeded));
    assert_eq!(failed.passed_test_cases(), 1);
    assert_eq!(failed.total_test_cases(), 3);
    assert_eq!(failed.score, 0);
}

#[test]
fn identifiers_survive_a_clone() {
    let id = Uuid::new_v4();
    let result = JudgeResult::accepted(1, 2, id, id, id);
    let copy = result.clone();
    assert_eq!(copy, result);
    assert_eq!(copy.submission_id, id);
}

#[test]
fn command_lines_follow_the_language() {
    let mut compiled = JudgeTask::new(sample_submission(ProgrammingLanguage::Cpp17), vec![]);
    let compile = compiled.compile_command();
    assert_eq!(compile.program, "g++");
    assert_eq!(compile.args, vec!["-O2", "-Wall", "-std=c++17", "main.cpp"]);
    let run = compiled.runtime_command();
    assert_eq!(run.program, "./a.out");
    assert!(run.args.is_empty());
    compiled.runtime_args = Some(vec!["--fast".to_string(), "1".to_string()]);
    assert_eq!(compiled.runtime_command().args, vec!["--fast", "1"]);
    compiled.compile_flags = None;
    assert_eq!(compiled.compile_command().args, vec!["main.cpp"]);

    let mut interpreted = JudgeTask::new(sample_submission(ProgrammingLanguage::Python3), vec![]);
    let run = interpreted.runtime_command();
    assert_eq!(run.program, "python3");
    assert_eq!(run.args, vec!["main.py"]);
    interpreted.runtime_args = Some(vec!["-v".to_string()]);
    assert_eq!(interpreted.runtime_command().args, vec!["main.py", "-v"]);
    assert_eq!(interpreted.compile_command().program, "python3");
    assert_eq!(interpreted.compile_command().args, vec!["main.py"]);
}
