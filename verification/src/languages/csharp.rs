//! The C# stack: the files a workspace starts from and the command that
//! runs its tests.

pub mod commands;
pub mod generation;

use vstd::prelude::*;
use crate::scaffold::{file_views, source_file, tool_command, SourceFile, ToolCommand};
use crate::stack::Kata;
use generation::{
    generate_csharp_calculator_files, generate_csharp_dsa_files, generate_project_file,
};

verus! {

/// The program file of a kata.
pub open spec fn program_text(kata: Kata) -> Seq<char> {
    match kata {
        Kata::Calculator => generation::calculator_program(),
        Kata::Dsa => generation::placeholder(),
    }
}

/// The test file of a kata.
pub open spec fn tests_text(kata: Kata) -> Seq<char> {
    match kata {
        Kata::Calculator => generation::calculator_tests(),
        Kata::Dsa => generation::placeholder(),
    }
}

/// The files of a C# workspace, each with its path below the day folder.
pub open spec fn csharp_files(kata: Kata) -> Seq<(Seq<char>, Seq<char>)> {
    seq![
        ("Program.cs"@, program_text(kata)),
        ("Test.cs"@, tests_text(kata)),
        ("Kata.csproj"@, generation::project_file()),
    ]
}

/// The files of a C# workspace, in the order in which they are written.
pub fn generate_csharp_files(kata: Kata) -> (r: Vec<SourceFile>)
    ensures
        file_views(r@) == csharp_files(kata),
{
    let (program_file_content, test_file_content) = match kata {
        Kata::Calculator => generate_csharp_calculator_files(),
        Kata::Dsa => generate_csharp_dsa_files(),
    };
    let project_file_content = generate_project_file();
    let mut files: Vec<SourceFile> = Vec::new();
    files.push(source_file("Program.cs", program_file_content));
    files.push(source_file("Test.cs", test_file_content));
    files.push(source_file("Kata.csproj", project_file_content));
    files
}

/// The command that runs a C# workspace's tests: `dotnet test`.
pub open spec fn test_command() -> (Seq<char>, Seq<Seq<char>>) {
    ("dotnet"@, seq!["test"@])
}

/// The command that runs a C# workspace's tests, to be started in the day folder.
pub fn csharp_test_command() -> (r: ToolCommand)
    ensures
        r@ == test_command(),
{
    tool_command("dotnet", "test")
}

} // verus!
