//! A C# workspace together with the command that restores its packages.

use vstd::prelude::*;
use crate::scaffold::{tool_command, Scaffold, ScaffoldView};
use crate::stack::Kata;

verus! {

/// A C# workspace: its files, no folder of its own, and `dotnet restore` to
/// fetch the test framework.
pub open spec fn csharp_scaffold(kata: Kata) -> ScaffoldView {
    ScaffoldView {
        folders: Seq::empty(),
        files: super::csharp_files(kata),
        setup: Some(("dotnet"@, seq!["restore"@])),
    }
}

/// All that goes into a new C# workspace.
pub fn generate_csharp_files(kata: Kata) -> (r: Scaffold)
    ensures
        r@ == csharp_scaffold(kata),
{
    let files = super::generate_csharp_files(kata);
    let r = Scaffold { folders: Vec::new(), files, setup: Some(tool_command("dotnet", "restore")) };
    assert(r@.folders =~= Seq::empty());
    r
}

} // verus!
