//! What a stack asks to be put into a new workspace: folders, files, and a
//! command that fetches what the workspace depends on.

use vstd::prelude::*;
use crate::text::texts_of;

verus! {

/// A file of a workspace: its path below the day folder, and its content.
#[derive(Clone, Debug, PartialEq, Eq)]
pub struct SourceFile {
    pub path: String,
    pub content: String,
}

impl View for SourceFile {
    type V = (Seq<char>, Seq<char>);

    open spec fn view(&self) -> (Seq<char>, Seq<char>) {
        (self.path@, self.content@)
    }
}

/// The files in `files`, each as its path and its content.
pub open spec fn file_views(files: Seq<SourceFile>) -> Seq<(Seq<char>, Seq<char>)> {
    files.map_values(|f: SourceFile| f@)
}

/// A file with the given path and content.
pub fn source_file(path: &str, content: String) -> (r: SourceFile)
    ensures
        r@ == (path@, content@),
{
    SourceFile { path: path.to_owned(), content }
}

/// A tool to run in a workspace: the program, and what it is told.
#[derive(Clone, Debug, PartialEq, Eq)]
pub struct ToolCommand {
    pub program: String,
    pub args: Vec<String>,
}

impl View for ToolCommand {
    type V = (Seq<char>, Seq<Seq<char>>);

    open spec fn view(&self) -> (Seq<char>, Seq<Seq<char>>) {
        (self.program@, texts_of(self.args@))
    }
}

/// The command that runs `program` with one argument.
pub fn tool_command(program: &str, arg: &str) -> (r: ToolCommand)
    ensures
        r@ == (program@, seq![arg@]),
{
    let mut args: Vec<String> = Vec::new();
    args.push(arg.to_owned());
    ToolCommand { program: program.to_owned(), args }
}

/// All that a stack puts into a new workspace.
#[derive(Clone, Debug, PartialEq, Eq)]
pub struct Scaffold {
    /// The folders to make below the day folder, before any file is written.
    pub folders: Vec<String>,
    /// The files to write, in this order.
    pub files: Vec<SourceFile>,
    /// The command to run in the day folder once the files are there.
    pub setup: Option<ToolCommand>,
}

/// A `Scaffold` as contracts speak of it.
pub ghost struct ScaffoldView {
    pub folders: Seq<Seq<char>>,
    pub files: Seq<(Seq<char>, Seq<char>)>,
    pub setup: Option<(Seq<char>, Seq<Seq<char>>)>,
}

impl View for Scaffold {
    type V = ScaffoldView;

    open spec fn view(&self) -> ScaffoldView {
        ScaffoldView {
            folders: texts_of(self.folders@),
            files: file_views(self.files@),
            setup: match self.setup {
                Some(command) => Some(command@),
                None => None,
            },
        }
    }
}

} // verus!
