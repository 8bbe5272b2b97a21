//! A submission: the source text to judge, with its identity and limits.

use vstd::prelude::*;
use vstd::string::*;
use crate::identity::{fresh_uuid, utc_now, Timestamp};
use crate::language::ProgrammingLanguage;
use crate::texts::text_views;

verus! {

/// The priority of a submission made outside a contest.
pub const PRIORITY_NORMAL: i32 = 0;

/// The priority of a submission made in a contest.
pub const PRIORITY_CONTEST: i32 = 10;

/// Submission information for judging. Whether it is compiled, and with
/// which flags and runtime, is always read from the language.
#[derive(Debug, Clone, PartialEq, Eq)]
pub struct Submission {
    /// Unique identifier for the submission
    pub id: uuid::Uuid,
    /// Problem identifier
    pub problem_id: uuid::Uuid,
    /// User identifier who submitted the code
    pub user_id: uuid::Uuid,
    /// Programming language of the submission
    pub language: ProgrammingLanguage,
    /// Source code to be judged
    pub source_code: String,
    /// Time when the submission was created
    pub created_at: Timestamp,
    /// Time limit in milliseconds
    pub time_limit: u64,
    /// Memory limit in kilobytes
    pub memory_limit: u64,
    /// Judge priority (higher numbers get processed first)
    pub priority: i32,
    /// Contest identifier if this is a contest submission
    pub contest_id: Option<uuid::Uuid>,
}

impl Submission {
    /// What a submission holds besides its own identifier and the time of
    /// its creation.
    pub open spec fn carries(
        &self,
        problem_id: uuid::Uuid,
        user_id: uuid::Uuid,
        contest_id: Option<uuid::Uuid>,
        language: ProgrammingLanguage,
        source_code: String,
        time_limit: u64,
        memory_limit: u64,
    ) -> bool {
        &&& self.problem_id == problem_id
        &&& self.user_id == user_id
        &&& self.contest_id == contest_id
        &&& self.language == language
        &&& self.source_code == source_code
        &&& self.time_limit == time_limit
        &&& self.memory_limit == memory_limit
        &&& self.priority == if contest_id is Some {
            PRIORITY_CONTEST
        } else {
            PRIORITY_NORMAL
        }
    }

    /// The name of the file that holds the source text.
    pub open spec fn spec_filename(&self) -> Seq<char> {
        "main."@ + self.language.spec_file_extension()
    }

    /// Builds a submission from an identifier and a creation time that the
    /// caller supplies. A contest submission gets the contest priority.
    pub fn with_identity(
        id: uuid::Uuid,
        created_at: Timestamp,
        problem_id: uuid::Uuid,
        user_id: uuid::Uuid,
        contest_id: Option<uuid::Uuid>,
        language: ProgrammingLanguage,
        source_code: String,
        time_limit: u64,
        memory_limit: u64,
    ) -> (submission: Submission)
        ensures
            submission.id == id,
            submission.created_at == created_at,
            submission.carries(
                problem_id,
                user_id,
                contest_id,
                language,
                source_code,
                time_limit,
                memory_limit,
            ),
    {
        let priority = if contest_id.is_some() {
            PRIORITY_CONTEST
        } else {
            PRIORITY_NORMAL
        };
        Submission {
            id,
            problem_id,
            user_id,
            language,
            source_code,
            created_at,
            time_limit,
            memory_limit,
            priority,
            contest_id,
        }
    }

    /// Creates a submission outside any contest, with a fresh random
    /// identifier and the current time.
    pub fn new(
        problem_id: uuid::Uuid,
        user_id: uuid::Uuid,
        language: ProgrammingLanguage,
        source_code: String,
        time_limit: u64,
        memory_limit: u64,
    ) -> (submission: Submission)
        ensures
            submission.carries(
                problem_id,
                user_id,
                None,
                language,
                source_code,
                time_limit,
                memory_limit,
            ),
    {
        Submission::with_identity(
            fresh_uuid(),
            utc_now(),
            problem_id,
            user_id,
            None,
            language,
            source_code,
            time_limit,
            memory_limit,
        )
    }

    /// Creates a contest submission, with a fresh random identifier and the
    /// current time.
    pub fn for_contest(
        problem_id: uuid::Uuid,
        user_id: uuid::Uuid,
        contest_id: uuid::Uuid,
        language: ProgrammingLanguage,
        source_code: String,
        time_limit: u64,
        memory_limit: u64,
    ) -> (submission: Submission)
        ensures
            submission.carries(
                problem_id,
                user_id,
                Some(contest_id),
                language,
                source_code,
                time_limit,
                memory_limit,
            ),
    {
        Submission::with_identity(
            fresh_uuid(),
            utc_now(),
            problem_id,
            user_id,
            Some(contest_id),
            language,
            source_code,
            time_limit,
            memory_limit,
        )
    }

    /// Returns the name of the source file: `main`, a dot and the
    /// language's extension.
    pub fn filename(&self) -> (name: String)
        ensures
            name@ == self.spec_filename(),
    {
        let mut name = "main.".to_string();
        name.append(self.language.file_extension());
        name
    }

    /// Returns whether this submission is compiled before it runs.
    pub fn needs_compilation(&self) -> (needed: bool)
        ensures
            needed == self.language.spec_needs_compilation(),
    {
        self.language.needs_compilation()
    }

    /// Returns the default compilation flags of this submission's language.
    pub fn default_compile_flags(&self) -> (flags: Vec<String>)
        ensures
            text_views(flags@) == self.language.spec_default_compile_flags(),
    {
        self.language.default_compile_flags()
    }

    /// Returns the default runtime command of this submission's language.
    pub fn default_runtime(&self) -> (cmd: &'static str)
        ensures
            cmd@ == self.language.spec_default_runtime(),
    {
        self.language.default_runtime()
    }
}

} // verus!
