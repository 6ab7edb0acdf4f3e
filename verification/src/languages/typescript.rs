//! The TypeScript stack: the files a workspace starts from and the command
//! that runs its tests.

pub mod commands;
pub mod generation;

use vstd::prelude::*;
use crate::scaffold::{file_views, source_file, tool_command, SourceFile, ToolCommand};
use crate::stack::Kata;

verus! {

/// The function that a calculator kata asks the user to complete.
pub open spec fn calculator_program() -> Seq<char> {
    r#"export function addNumbers(num1: string, num2: string): number {
    // Implement the addition logic here
    // ...
}"#@
}

/// The tests that a completed calculator has to pass.
pub open spec fn calculator_tests() -> Seq<char> {
    r#"import { addNumbers } from './index';

describe('Calculator', () => {
    it('should add numbers correctly', () => {
        expect(addNumbers("2", "3")).toEqual(5);
        expect(addNumbers("-5", "10")).toEqual(5);
        expect(addNumbers("0", "0")).toEqual(0);
        // Add more test cases here
    });
});"#@
}

/// What stands in both files of a kata that brings no exercise of its own.
pub open spec fn placeholder() -> Seq<char> {
    r#"
        // TODO
    "#@
}

/// The files of a TypeScript workspace, each with its path below the day folder.
pub open spec fn typescript_files(kata: Kata) -> Seq<(Seq<char>, Seq<char>)> {
    seq![
        (
            "index.ts"@,
            match kata {
                Kata::Calculator => calculator_program(),
                Kata::Dsa => placeholder(),
            },
        ),
        (
            "test.ts"@,
            match kata {
                Kata::Calculator => calculator_tests(),
                Kata::Dsa => placeholder(),
            },
        ),
    ]
}

/// The program file and the test file of a calculator kata.
pub fn generate_typescript_calculator_files() -> (r: (String, String))
    ensures
        r.0@ == calculator_program(),
        r.1@ == calculator_tests(),
{
    let program_file_content = r#"export function addNumbers(num1: string, num2: string): number {
    // Implement the addition logic here
    // ...
}"#.to_owned();
    let test_file_content = r#"import { addNumbers } from './index';

describe('Calculator', () => {
    it('should add numbers correctly', () => {
        expect(addNumbers("2", "3")).toEqual(5);
        expect(addNumbers("-5", "10")).toEqual(5);
        expect(addNumbers("0", "0")).toEqual(0);
        // Add more test cases here
    });
});"#.to_owned();
    (program_file_content, test_file_content)
}

/// The program file and the test file of a data-structures kata.
pub fn generate_typescript_dsa_files() -> (r: (String, String))
    ensures
        r.0@ == placeholder(),
        r.1@ == placeholder(),
{
    let program_file_content = r#"
        // TODO
    "#.to_owned();
    let test_file_content = r#"
        // TODO
    "#.to_owned();
    (program_file_content, test_file_content)
}

/// The files of a TypeScript workspace, in the order in which they are written.
pub fn generate_typescript_files(kata: Kata) -> (r: Vec<SourceFile>)
    ensures
        file_views(r@) == typescript_files(kata),
{
    let (index_file_content, test_file_content) = match kata {
        Kata::Calculator => generate_typescript_calculator_files(),
        Kata::Dsa => generate_typescript_dsa_files(),
    };
    let mut files: Vec<SourceFile> = Vec::new();
    files.push(source_file("index.ts", index_file_content));
    files.push(source_file("test.ts", test_file_content));
    files
}

/// The command that runs a TypeScript workspace's tests: `npm test`.
pub open spec fn test_command() -> (Seq<char>, Seq<Seq<char>>) {
    ("npm"@, seq!["test"@])
}

/// The command that runs a TypeScript workspace's tests, to be started in the
/// day folder.
pub fn typescript_test_command() -> (r: ToolCommand)
    ensures
        r@ == test_command(),
{
    tool_command("npm", "test")
}

} // verus!
