//! Which workspace's tests to run, and with which command.

use vstd::prelude::*;
use crate::bootstrap::Outcome;
use crate::error::KataError;
use crate::languages::{csharp, rust, typescript};
use crate::scaffold::ToolCommand;
use crate::session::{get_test_input_from_session, Session, SessionView};
use crate::stack::{KataInput, Language};
use crate::text::texts_of;
use crate::workspace::{find_most_recent_day_folder, join, joined, most_recent_name};

verus! {

/// A test run: the day folder to run in, and the command to run there.
#[derive(Clone, Debug, PartialEq, Eq)]
pub struct TestRun {
    pub workspace: String,
    pub command: ToolCommand,
}

/// A `TestRun` as contracts speak of it.
pub ghost struct TestRunView {
    pub workspace: Seq<char>,
    pub command: (Seq<char>, Seq<Seq<char>>),
}

impl View for TestRun {
    type V = TestRunView;

    open spec fn view(&self) -> TestRunView {
        TestRunView { workspace: self.workspace@, command: self.command@ }
    }
}

/// The outcome of looking for a test run, as contracts speak of it.
pub open spec fn outcome_view(r: Result<TestRun, KataError>) -> Result<TestRunView, KataError> {
    match r {
        Ok(run) => Ok(run@),
        Err(e) => Err(e),
    }
}

/// The command that runs the tests of a stack's workspace.
pub open spec fn test_command_of(language: Language) -> (Seq<char>, Seq<Seq<char>>) {
    match language {
        Language::Rust => rust::test_command(),
        Language::TS => typescript::test_command(),
        Language::CSharp => csharp::test_command(),
    }
}

/// The directory that holds the day folders of a stack and a kind of exercise.
pub open spec fn kata_dir_of(current_dir: Seq<char>, input: KataInput) -> Seq<char> {
    joined(joined(current_dir, input.language.name()), input.kata.name())
}

/// The test run for a stack and a kind of exercise that were named: in the
/// most recent day folder among `folders`, the names of the directories in
/// the kata's directory.
pub open spec fn named_run(current_dir: Seq<char>, input: KataInput, folders: Seq<Seq<char>>)
    -> Result<TestRunView, KataError> {
    match most_recent_name(folders) {
        Some(name) => Ok(
            TestRunView {
                workspace: joined(kata_dir_of(current_dir, input), name),
                command: test_command_of(input.language),
            },
        ),
        None => Err(KataError::NoWorkspaceFound),
    }
}

/// The test run that a session stands for: in the very day folder that it
/// recorded, whatever has been generated since.
pub open spec fn session_run(session: SessionView) -> Result<TestRunView, KataError> {
    match session.input() {
        Some(input) => Ok(
            TestRunView { workspace: session.day, command: test_command_of(input.language) },
        ),
        None => Err(KataError::SessionCorrupt),
    }
}

/// The test run to make: the named one where a stack and a kind were named,
/// else the session's, and `SessionNotFound` where there is neither.
pub open spec fn resolved_run(
    explicit: Option<KataInput>,
    session: Option<SessionView>,
    current_dir: Seq<char>,
    folders: Seq<Seq<char>>,
) -> Result<TestRunView, KataError> {
    match explicit {
        Some(input) => named_run(current_dir, input, folders),
        None => match session {
            Some(session) => session_run(session),
            None => Err(KataError::SessionNotFound),
        },
    }
}

/// The directory that holds the day folders of a stack and a kind of exercise.
pub fn kata_dir(current_dir: &str, input: KataInput) -> (r: String)
    ensures
        r@ == kata_dir_of(current_dir@, input),
{
    let language_dir = join(current_dir, input.language.as_str());
    join(language_dir.as_str(), input.kata.as_str())
}

/// The command that runs the tests of a stack's workspace.
pub fn test_command(language: Language) -> (r: ToolCommand)
    ensures
        r@ == test_command_of(language),
{
    match language {
        Language::Rust => rust::rust_test_command(),
        Language::TS => typescript::typescript_test_command(),
        Language::CSharp => csharp::csharp_test_command(),
    }
}

/// What a test run comes to, given how its command ended: it has failed
/// only where the command could not be started. Whether the tests themselves
/// passed is for the tool to tell the user.
pub open spec fn result_of_run(outcome: Outcome) -> Result<(), KataError> {
    match outcome {
        Outcome::NotStarted => Err(KataError::ExternalToolLaunch),
        _ => Ok(()),
    }
}

/// What a test run comes to, given how its command ended.
pub fn test_result(outcome: Outcome) -> (r: Result<(), KataError>)
    ensures
        r == result_of_run(outcome),
{
    match outcome {
        Outcome::NotStarted => Err(KataError::ExternalToolLaunch),
        _ => Ok(()),
    }
}

/// The test run for a stack and a kind of exercise: in the most recent day
/// folder among `folders`, the names of the directories that the kata's
/// directory below `current_dir` holds.
///
/// Fails with `NoWorkspaceFound` where none of them is a day folder.
pub fn run_tests(kata_input: KataInput, current_dir: &str, folders: &Vec<String>) -> (r: Result<
    TestRun,
    KataError,
>)
    ensures
        outcome_view(r) == named_run(current_dir@, kata_input, texts_of(folders@)),
{
    let kata_dir = kata_dir(current_dir, kata_input);
    match find_most_recent_day_folder(kata_dir.as_str(), folders) {
        Some(day_folder_path) => Ok(
            TestRun { workspace: day_folder_path, command: test_command(kata_input.language) },
        ),
        None => Err(KataError::NoWorkspaceFound),
    }
}

/// The test run that a session stands for.
///
/// Fails with `SessionCorrupt` where the session names a stack or a kind
/// that is not known.
pub fn run_session_tests(session: &Session) -> (r: Result<TestRun, KataError>)
    ensures
        outcome_view(r) == session_run(session@),
{
    match get_test_input_from_session(session) {
        Ok((language, _)) => Ok(
            TestRun { workspace: session.day.clone(), command: test_command(language) },
        ),
        Err(e) => Err(e),
    }
}

/// The test run to make. `explicit` is what the user named, if anything;
/// `session` is the recorded session, `None` where there is no session file;
/// `folders` are the names of the directories in the named kata's directory
/// and are looked at only where `explicit` is given.
pub fn resolve(
    explicit: Option<KataInput>,
    session: Option<&Session>,
    current_dir: &str,
    folders: &Vec<String>,
) -> (r: Result<TestRun, KataError>)
    ensures
        outcome_view(r) == resolved_run(
            explicit,
            match session {
                Some(s) => Some(s@),
                None => None,
            },
            current_dir@,
            texts_of(folders@),
        ),
{
    match explicit {
        Some(input) => run_tests(input, current_dir, folders),
        None => match session {
            Some(session) => run_session_tests(session),
            None => Err(KataError::SessionNotFound),
        },
    }
}

/// Without a named stack and kind and without a session, there is no test
/// run: the outcome is `SessionNotFound`.
pub proof fn lemma_no_session_no_run(current_dir: Seq<char>, folders: Seq<Seq<char>>)
    ensures
        resolved_run(None, None, current_dir, folders) == Err::<TestRunView, KataError>(
            KataError::SessionNotFound,
        ),
{
}

/// The session's test run is in the day folder of the generation that left
/// the session, with the command of that generation's stack.
pub proof fn lemma_session_run_targets_last_workspace(
    input: KataInput,
    day: Seq<char>,
    current_dir: Seq<char>,
    folders: Seq<Seq<char>>,
)
    ensures
        resolved_run(None, Some(SessionView::of(input, day)), current_dir, folders) == Ok::<
            TestRunView,
            KataError,
        >(TestRunView { workspace: day, command: test_command_of(input.language) }),
{
    crate::session::lemma_session_round_trip(input, day);
}

} // verus!
