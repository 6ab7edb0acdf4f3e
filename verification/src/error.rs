//! The ways in which a command of the kata machine can fail.

use vstd::prelude::*;

verus! {

/// Why a command failed.
#[derive(Clone, Copy, Debug, PartialEq, Eq, Structural)]
pub enum KataError {
    /// A directory of the workspace could not be created.
    DirectoryCreation,
    /// A file of the workspace could not be written.
    Generation,
    /// The editor's settings are no JSON object, or their linked projects are no array.
    ConfigFormat,
    /// No session has been recorded yet.
    SessionNotFound,
    /// The recorded session does not name a stack and a kind of exercise.
    SessionCorrupt,
    /// No workspace has been generated for the stack and kind asked for.
    NoWorkspaceFound,
    /// A tool could not be started.
    ExternalToolLaunch,
    /// A tool could not be installed.
    ToolInstall,
}

impl KataError {
    /// What the user is told.
    pub open spec fn text(self) -> Seq<char> {
        match self {
            KataError::DirectoryCreation => "Failed to create directory"@,
            KataError::Generation => "Failed to write the workspace's files"@,
            KataError::ConfigFormat => "Invalid settings file format"@,
            KataError::SessionNotFound => "No session found. Generate a kata first."@,
            KataError::SessionCorrupt => "The session file does not name a language and a kata."@,
            KataError::NoWorkspaceFound => "No day folders found."@,
            KataError::ExternalToolLaunch => "Failed to execute command"@,
            KataError::ToolInstall => "Failed to install the tool"@,
        }
    }

    /// What the user is told.
    pub fn message(&self) -> (r: String)
        ensures
            r@ == self.text(),
    {
        match self {
            KataError::DirectoryCreation => "Failed to create directory".to_owned(),
            KataError::Generation => "Failed to write the workspace's files".to_owned(),
            KataError::ConfigFormat => "Invalid settings file format".to_owned(),
            KataError::SessionNotFound => "No session found. Generate a kata first.".to_owned(),
            KataError::SessionCorrupt => "The session file does not name a language and a kata.".to_owned(),
            KataError::NoWorkspaceFound => "No day folders found.".to_owned(),
            KataError::ExternalToolLaunch => "Failed to execute command".to_owned(),
            KataError::ToolInstall => "Failed to install the tool".to_owned(),
        }
    }
}

} // verus!
