//! The session: which workspace was generated last, so that its tests can be
//! run without naming it again.

use vstd::prelude::*;
use crate::error::KataError;
use crate::stack::{Kata, KataInput, Language};
use crate::workspace::{join, joined};

verus! {

/// What is remembered of the last generation: the names of the stack and of
/// the kind of exercise, and the path of the day folder.
#[derive(Clone, Debug, PartialEq, Eq)]
pub struct Session {
    pub language: String,
    pub kata: String,
    pub day: String,
}

/// A `Session` as contracts speak of it.
pub ghost struct SessionView {
    pub language: Seq<char>,
    pub kata: Seq<char>,
    pub day: Seq<char>,
}

impl View for Session {
    type V = SessionView;

    open spec fn view(&self) -> SessionView {
        SessionView { language: self.language@, kata: self.kata@, day: self.day@ }
    }
}

impl SessionView {
    /// The session that a generation for `input` in the day folder `day` leaves.
    pub open spec fn of(input: KataInput, day: Seq<char>) -> SessionView {
        SessionView { language: input.language.name(), kata: input.kata.name(), day }
    }

    /// The stack and the kind of exercise that the session names, or `None`
    /// where one of the two names is not known.
    pub open spec fn input(self) -> Option<KataInput> {
        match (Language::named(self.language), Kata::named(self.kata)) {
            (Some(language), Some(kata)) => Some(KataInput { language, kata }),
            _ => None,
        }
    }
}

/// The path of the session file of a working directory.
pub open spec fn session_file_of(current_dir: Seq<char>) -> Seq<char> {
    joined(current_dir, "session.json"@)
}

/// The path of the session file of a working directory.
pub fn session_file_path(current_dir: &str) -> (r: String)
    ensures
        r@ == session_file_of(current_dir@),
{
    join(current_dir, "session.json")
}

/// The session that a generation for `input` in `day_folder_path` leaves.
pub fn record_session(input: KataInput, day_folder_path: &str) -> (r: Session)
    ensures
        r@ == SessionView::of(input, day_folder_path@),
{
    Session {
        language: input.language.as_str().to_owned(),
        kata: input.kata.as_str().to_owned(),
        day: day_folder_path.to_owned(),
    }
}

/// The stack and the kind of exercise of the last generation.
///
/// Fails with `SessionCorrupt` where the session names a stack or a kind
/// that is not known.
pub fn get_test_input_from_session(session: &Session) -> (r: Result<(Language, Kata), KataError>)
    ensures
        match session@.input() {
            Some(input) => r == Ok::<(Language, Kata), KataError>((input.language, input.kata)),
            None => r == Err::<(Language, Kata), KataError>(KataError::SessionCorrupt),
        },
{
    let language = Language::from_str(session.language.as_str());
    let kata = Kata::from_str(session.kata.as_str());
    match (language, kata) {
        (Some(l), Some(k)) => Ok((l, k)),
        _ => Err(KataError::SessionCorrupt),
    }
}

/// A session that a generation has left is read back as what was generated:
/// the same stack, the same kind of exercise, the same day folder.
pub proof fn lemma_session_round_trip(input: KataInput, day: Seq<char>)
    ensures
        SessionView::of(input, day).input() == Some(input),
        SessionView::of(input, day).day == day,
{
    crate::stack::lemma_language_name_round_trip(input.language);
    crate::stack::lemma_kata_name_round_trip(input.kata);
}

} // verus!
