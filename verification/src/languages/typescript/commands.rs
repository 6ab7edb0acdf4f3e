//! A TypeScript workspace that keeps its sources in a folder of their own
//! and is tested with jest.

use vstd::prelude::*;
use crate::scaffold::{
    file_views, source_file, tool_command, Scaffold, ScaffoldView, SourceFile,
};
use crate::stack::Kata;
use super::generation::{
    calculator_program, calculator_tests, generate_typescript_calculator_files,
    generate_typescript_config_files, generate_typescript_dsa_files, jest_config, package_json,
    placeholder, ts_config,
};

verus! {

/// The two source files of a kata, each with its path below the day folder.
pub open spec fn kata_files(kata: Kata) -> Seq<(Seq<char>, Seq<char>)> {
    match kata {
        Kata::Calculator => seq![
            ("src/calculator.ts"@, calculator_program()),
            ("src/calculator.spec.ts"@, calculator_tests()),
        ],
        Kata::Dsa => seq![("src/dsa.ts"@, placeholder()), ("src/dsa.spec.ts"@, placeholder())],
    }
}

/// The three configuration files, each with its path below the day folder.
pub open spec fn config_files() -> Seq<(Seq<char>, Seq<char>)> {
    seq![
        ("package.json"@, package_json()),
        ("jest.config.js"@, jest_config()),
        ("tsconfig.json"@, ts_config()),
    ]
}

/// A TypeScript workspace: the folder `src`, the kata's files in it, the
/// configuration beside it, and `npm i` to fetch jest and the compiler.
pub open spec fn typescript_scaffold(kata: Kata) -> ScaffoldView {
    ScaffoldView {
        folders: seq!["src"@],
        files: kata_files(kata) + config_files(),
        setup: Some(("npm"@, seq!["i"@])),
    }
}

/// The source files of a calculator kata.
pub fn generate_typescript_calculator() -> (r: Vec<SourceFile>)
    ensures
        file_views(r@) == kata_files(Kata::Calculator),
{
    let (program_file_content, test_file_content) = generate_typescript_calculator_files();
    let mut files: Vec<SourceFile> = Vec::new();
    files.push(source_file("src/calculator.ts", program_file_content));
    files.push(source_file("src/calculator.spec.ts", test_file_content));
    files
}

/// The source files of a data-structures kata.
pub fn generate_typescript_dsa() -> (r: Vec<SourceFile>)
    ensures
        file_views(r@) == kata_files(Kata::Dsa),
{
    let (program_file_content, test_file_content) = generate_typescript_dsa_files();
    let mut files: Vec<SourceFile> = Vec::new();
    files.push(source_file("src/dsa.ts", program_file_content));
    files.push(source_file("src/dsa.spec.ts", test_file_content));
    files
}

/// All that goes into a new TypeScript workspace.
pub fn generate_typescript_files(kata: Kata) -> (r: Scaffold)
    ensures
        r@ == typescript_scaffold(kata),
{
    let mut folders: Vec<String> = Vec::new();
    folders.push("src".to_owned());
    let mut files = match kata {
        Kata::Calculator => generate_typescript_calculator(),
        Kata::Dsa => generate_typescript_dsa(),
    };
    let (package_json, jest_config, ts_config) = generate_typescript_config_files();
    files.push(source_file("package.json", package_json));
    files.push(source_file("jest.config.js", jest_config));
    files.push(source_file("tsconfig.json", ts_config));
    let r = Scaffold { folders, files, setup: Some(tool_command("npm", "i")) };
    assert(r@.folders =~= seq!["src"@]);
    assert(r@.files =~= kata_files(kata) + config_files());
    r
}

} // verus!
