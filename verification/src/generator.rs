//! A generation: the next day folder of a kata, what goes into it, and what
//! is recorded of it.

use vstd::prelude::*;
use crate::languages::{csharp, rust, typescript};
use crate::runner::{kata_dir_of, resolved_run, test_command_of, TestRunView};
use crate::error::KataError;
use crate::scaffold::{file_views, SourceFile};
use crate::settings::manifest_path;
use crate::session::{
    record_session, session_file_of, session_file_path, Session, SessionView,
};
use crate::stack::{Kata, KataInput, Language};
use crate::text::texts_of;
use crate::workspace::{
    day_folder_name, day_name, is_taken, join, joined, lemma_generations_count_up, next_day,
    next_day_number,
};

verus! {

/// Where the editor keeps its settings.
#[derive(Clone, Debug, PartialEq, Eq)]
pub struct EditorLink {
    /// The directory of the settings, to be made where it is missing.
    pub dir: String,
    /// The settings file.
    pub file: String,
}

/// All that a generation does, in the order of the fields.
#[derive(Clone, Debug, PartialEq, Eq)]
pub struct Generation {
    /// The stack's directory, to be made where it is missing.
    pub language_dir: String,
    /// The kata's directory, to be made where it is missing.
    pub kata_dir: String,
    /// The day folder, to be made.
    pub day_folder: String,
    /// The files to write into the day folder.
    pub files: Vec<SourceFile>,
    /// The editor's settings, in which the workspace is to be linked; `None`
    /// for a stack of which the editor is not told.
    pub editor: Option<EditorLink>,
    /// The session file, to be written anew.
    pub session_file: String,
    /// What the session file is to hold.
    pub session: Session,
}

/// A `Generation` as contracts speak of it.
pub ghost struct GenerationView {
    pub language_dir: Seq<char>,
    pub kata_dir: Seq<char>,
    pub day_folder: Seq<char>,
    pub files: Seq<(Seq<char>, Seq<char>)>,
    pub editor: Option<(Seq<char>, Seq<char>)>,
    pub session_file: Seq<char>,
    pub session: SessionView,
}

impl View for Generation {
    type V = GenerationView;

    open spec fn view(&self) -> GenerationView {
        GenerationView {
            language_dir: self.language_dir@,
            kata_dir: self.kata_dir@,
            day_folder: self.day_folder@,
            files: file_views(self.files@),
            editor: match self.editor {
                Some(link) => Some((link.dir@, link.file@)),
                None => None,
            },
            session_file: self.session_file@,
            session: self.session@,
        }
    }
}

/// The files of a stack's workspace in the day folder named `day`.
pub open spec fn source_files_of(day: Seq<char>, language: Language, kata: Kata) -> Seq<
    (Seq<char>, Seq<char>),
> {
    match language {
        Language::TS => typescript::typescript_files(kata),
        Language::Rust => rust::rust_files(day, kata),
        Language::CSharp => csharp::csharp_files(kata),
    }
}

/// The directory of the editor's settings and the settings file.
pub open spec fn editor_link_of(current_dir: Seq<char>) -> (Seq<char>, Seq<char>) {
    (joined(current_dir, ".vscode"@), joined(joined(current_dir, ".vscode"@), "settings.json"@))
}

/// The generation for `input` in `current_dir`, where `names` are the names
/// of what the kata's directory holds.
pub open spec fn generation_of(input: KataInput, current_dir: Seq<char>, names: Seq<Seq<char>>)
    -> GenerationView {
    let day = day_name(next_day(names));
    let day_folder = joined(kata_dir_of(current_dir, input), day);
    GenerationView {
        language_dir: joined(current_dir, input.language.name()),
        kata_dir: kata_dir_of(current_dir, input),
        day_folder,
        files: source_files_of(day, input.language, input.kata),
        editor: if input.language.is_linked_to_editor() {
            Some(editor_link_of(current_dir))
        } else {
            None
        },
        session_file: session_file_of(current_dir),
        session: SessionView::of(input, day_folder),
    }
}

/// Whether one of the files, written into `day_folder`, is the manifest that
/// the editor is pointed to.
pub open spec fn holds_manifest(files: Seq<(Seq<char>, Seq<char>)>, day_folder: Seq<char>) -> bool {
    exists|i: int|
        0 <= i < files.len() && joined(day_folder, (#[trigger] files[i]).0) == manifest_path(
            day_folder,
        )
}

/// The workspace of a stack of which the editor is told holds the manifest
/// that the editor is pointed to: what is linked is what is generated.
pub proof fn lemma_linked_workspace_holds_its_manifest(
    input: KataInput,
    current_dir: Seq<char>,
    names: Seq<Seq<char>>,
)
    requires
        input.language.is_linked_to_editor(),
    ensures
        generation_of(input, current_dir, names).editor is Some,
        holds_manifest(
            generation_of(input, current_dir, names).files,
            generation_of(input, current_dir, names).day_folder,
        ),
{
    let generation = generation_of(input, current_dir, names);
    assert(generation.files[2].0 == rust::manifest_name());
}

/// The files of a stack's workspace in the day folder named `day`, in the
/// order in which they are written.
pub fn generate_source_files(day: &str, language: Language, kata: Kata) -> (r: Vec<SourceFile>)
    ensures
        file_views(r@) == source_files_of(day@, language, kata),
{
    match language {
        Language::TS => typescript::generate_typescript_files(kata),
        Language::Rust => rust::generate_rust_files(day, kata),
        Language::CSharp => csharp::generate_csharp_files(kata),
    }
}

/// The generation for `input` in `current_dir`. `existing` are the names of
/// what the kata's directory holds, none where there is no such directory
/// yet. The day folder gets the lowest number that is free among them.
pub fn generate_kata(input: KataInput, current_dir: &str, existing: &Vec<String>) -> (r:
    Generation)
    requires
        existing@.len() < u64::MAX,
    ensures
        r@ == generation_of(input, current_dir@, texts_of(existing@)),
        r@.editor is Some ==> holds_manifest(r@.files, r@.day_folder),
{
    proof {
        if input.language.is_linked_to_editor() {
            lemma_linked_workspace_holds_its_manifest(input, current_dir@, texts_of(existing@));
        }
    }
    let language_dir = join(current_dir, input.language.as_str());
    let kata_dir = join(language_dir.as_str(), input.kata.as_str());
    let day = day_folder_name(next_day_number(existing));
    let day_folder = join(kata_dir.as_str(), day.as_str());
    let files = generate_source_files(day.as_str(), input.language, input.kata);
    let editor = if input.language.supports_editor_link() {
        let dir = join(current_dir, ".vscode");
        let file = join(dir.as_str(), "settings.json");
        Some(EditorLink { dir, file })
    } else {
        None
    };
    let session = record_session(input, day_folder.as_str());
    Generation {
        language_dir,
        kata_dir,
        day_folder,
        files,
        editor,
        session_file: session_file_path(current_dir),
        session,
    }
}

/// In a kata's directory without day folders, the first generation makes
/// day 1 and the second makes day 2; the session then names day 2, and a test
/// run that names nothing is made there.
pub proof fn lemma_second_generation_is_tested(
    input: KataInput,
    current_dir: Seq<char>,
    names: Seq<Seq<char>>,
    folders: Seq<Seq<char>>,
)
    requires
        forall|k: nat| k >= 1 ==> !#[trigger] is_taken(names, k),
    ensures
        ({
            let first = generation_of(input, current_dir, names);
            let second = generation_of(input, current_dir, names.push(day_name(1)));
            &&& first.day_folder == joined(kata_dir_of(current_dir, input), day_name(1))
            &&& second.day_folder == joined(kata_dir_of(current_dir, input), day_name(2))
            &&& second.session.day == second.day_folder
            &&& resolved_run(None, Some(second.session), current_dir, folders) == Ok::<
                TestRunView,
                KataError,
            >(
                TestRunView {
                    workspace: second.day_folder,
                    command: test_command_of(input.language),
                },
            )
        }),
{
    lemma_generations_count_up(names, 0);
    lemma_generations_count_up(names, 1);
    let second = generation_of(input, current_dir, names.push(day_name(1)));
    crate::session::lemma_session_round_trip(input, second.day_folder);
}

} // verus!
