//! The Rust stack: the files a workspace starts from and the command that
//! runs its tests.

pub mod commands;
pub mod generation;

use vstd::prelude::*;
use crate::scaffold::{file_views, source_file, tool_command, SourceFile, ToolCommand};
use crate::stack::Kata;

verus! {

/// The function that a calculator kata asks the user to complete.
pub open spec fn calculator_program() -> Seq<char> {
    r#"pub fn add_numbers(num1: &str, num2: &str) -> i32 {
    // Implement the addition logic here
    // ...
}"#@
}

/// The tests that a completed calculator has to pass.
pub open spec fn calculator_tests() -> Seq<char> {
    r#"#[cfg(test)]
mod tests {
    use super::*;

    #[test]
    fn test_add_numbers() {
        assert_eq!(add_numbers("2", "3"), 5);
        assert_eq!(add_numbers("-5", "10"), 5);
        assert_eq!(add_numbers("0", "0"), 0);
        // Add more test cases here
    }
}"#@
}

/// What stands in both files of a kata that brings no exercise of its own.
pub open spec fn placeholder() -> Seq<char> {
    r#"
        // TODO
    "#@
}

/// The manifest of the workspace in the day folder named `day`: a package
/// with one binary, built from `main.rs`.
pub open spec fn cargo_file(day: Seq<char>) -> Seq<char> {
    r#"[package]
name = "kata_machine_rust_calculator_"#@ + day + r#""
version = "0.1.0"
edition = "2021"

[dependencies]

[[bin]]
name = "kata_machine_rust_calculator_day"#@ + day + r#""
path = "main.rs"
"#@
}

/// The name of a workspace's manifest. The build tool and the editor look for
/// the manifest under this name, in these very letters.
pub open spec fn manifest_name() -> Seq<char> {
    "Cargo.toml"@
}

/// The name of a workspace's manifest.
pub fn rust_manifest_name() -> (r: &'static str)
    ensures
        r@ == manifest_name(),
{
    "Cargo.toml"
}

/// The program file of a kata.
pub open spec fn program_text(kata: Kata) -> Seq<char> {
    match kata {
        Kata::Calculator => calculator_program(),
        Kata::Dsa => placeholder(),
    }
}

/// The test file of a kata.
pub open spec fn tests_text(kata: Kata) -> Seq<char> {
    match kata {
        Kata::Calculator => calculator_tests(),
        Kata::Dsa => placeholder(),
    }
}

/// The files of a Rust workspace, each with its path below the day folder.
pub open spec fn rust_files(day: Seq<char>, kata: Kata) -> Seq<(Seq<char>, Seq<char>)> {
    seq![
        ("main.rs"@, program_text(kata)),
        ("test.rs"@, tests_text(kata)),
        (manifest_name(), cargo_file(day)),
    ]
}

/// The program file and the test file of a calculator kata.
pub fn generate_rust_calculator_files() -> (r: (String, String))
    ensures
        r.0@ == calculator_program(),
        r.1@ == calculator_tests(),
{
    let program_file_content = r#"pub fn add_numbers(num1: &str, num2: &str) -> i32 {
    // Implement the addition logic here
    // ...
}"#.to_owned();
    let test_file_content = r#"#[cfg(test)]
mod tests {
    use super::*;

    #[test]
    fn test_add_numbers() {
        assert_eq!(add_numbers("2", "3"), 5);
        assert_eq!(add_numbers("-5", "10"), 5);
        assert_eq!(add_numbers("0", "0"), 0);
        // Add more test cases here
    }
}"#.to_owned();
    (program_file_content, test_file_content)
}

/// The program file and the test file of a data-structures kata.
pub fn generate_rust_dsa_files() -> (r: (String, String))
    ensures
        r.0@ == placeholder(),
        r.1@ == placeholder(),
{
    let program_file_content = r#"
        // TODO
    "#.to_owned();
    let test_file_content = r#"
        // TODO
    "#.to_owned();
    (program_file_content, test_file_content)
}

/// The files of the Rust workspace in the day folder named `day`, in the
/// order in which they are written.
pub fn generate_rust_files(day: &str, kata: Kata) -> (r: Vec<SourceFile>)
    ensures
        file_views(r@) == rust_files(day@, kata),
{
    let (main_file_content, test_file_content) = match kata {
        Kata::Calculator => generate_rust_calculator_files(),
        Kata::Dsa => generate_rust_dsa_files(),
    };
    let mut cargo_file_content = r#"[package]
name = "kata_machine_rust_calculator_"#.to_owned();
    cargo_file_content.append(day);
    cargo_file_content.append(r#""
version = "0.1.0"
edition = "2021"

[dependencies]

[[bin]]
name = "kata_machine_rust_calculator_day"#);
    cargo_file_content.append(day);
    cargo_file_content.append(r#""
path = "main.rs"
"#);
    let mut files: Vec<SourceFile> = Vec::new();
    files.push(source_file("main.rs", main_file_content));
    files.push(source_file("test.rs", test_file_content));
    files.push(source_file(rust_manifest_name(), cargo_file_content));
    files
}

/// The command that runs a Rust workspace's tests: `cargo test`.
pub open spec fn test_command() -> (Seq<char>, Seq<Seq<char>>) {
    ("cargo"@, seq!["test"@])
}

/// The command that runs a Rust workspace's tests, to be started in the day folder.
pub fn rust_test_command() -> (r: ToolCommand)
    ensures
        r@ == test_command(),
{
    tool_command("cargo", "test")
}

} // verus!
