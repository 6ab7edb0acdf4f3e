//! The text of the files of a Rust workspace that is built as a library.

use vstd::prelude::*;

verus! {

/// The function that a calculator kata asks the user to complete.
pub open spec fn calculator_program() -> Seq<char> {
    r#"mod test;

pub fn add_numbers(num1: &str, num2: &str) -> i32 {
    // Implement the addition logic here
    // ...
}"#@
}

/// The tests that a completed calculator has to pass.
pub open spec fn calculator_tests() -> Seq<char> {
    r#"#[cfg(test)]
mod tests {
    use crate::add_numbers;

    #[test]
    fn test_add_numbers() {
        assert_eq!(add_numbers("2", "3"), 5);
        assert_eq!(add_numbers("-5", "10"), 5);
        assert_eq!(add_numbers("0", "0"), 0);
        // Add more test cases here
    }
}"#@
}

/// What stands in both files of a kata that brings no exercise of its own.
pub open spec fn placeholder() -> Seq<char> {
    r#"
        // TODO
    "#@
}

/// The manifest of the workspace in the day folder named `day`: a package
/// with a library, built from `lib.rs`.
pub open spec fn cargo_file(day: Seq<char>) -> Seq<char> {
    r#"[package]
name = "kata_machine_rust_calculator_"#@ + day + r#""
version = "0.1.0"
edition = "2021"

[dependencies]

[lib]
path = "lib.rs"
"#@
}

/// The program file and the test file of a calculator kata.
pub fn generate_rust_calculator_files() -> (r: (String, String))
    ensures
        r.0@ == calculator_program(),
        r.1@ == calculator_tests(),
{
    let program_file_content = r#"mod test;

pub fn add_numbers(num1: &str, num2: &str) -> i32 {
    // Implement the addition logic here
    // ...
}"#.to_owned();
    let test_file_content = r#"#[cfg(test)]
mod tests {
    use crate::add_numbers;

    #[test]
    fn test_add_numbers() {
        assert_eq!(add_numbers("2", "3"), 5);
        assert_eq!(add_numbers("-5", "10"), 5);
        assert_eq!(add_numbers("0", "0"), 0);
        // Add more test cases here
    }
}"#.to_owned();
    (program_file_content, test_file_content)
}

/// The program file and the test file of a data-structures kata.
pub fn generate_rust_dsa_files() -> (r: (String, String))
    ensures
        r.0@ == placeholder(),
        r.1@ == placeholder(),
{
    let program_file_content = r#"
        // TODO
    "#.to_owned();
    let test_file_content = r#"
        // TODO
    "#.to_owned();
    (program_file_content, test_file_content)
}

/// The manifest of the workspace in the day folder named `day`.
pub fn generate_rust_cargo_file(day: &str) -> (r: String)
    ensures
        r@ == cargo_file(day@),
{
    let mut r = r#"[package]
name = "kata_machine_rust_calculator_"#.to_owned();
    r.append(day);
    r.append(r#""
version = "0.1.0"
edition = "2021"

[dependencies]

[lib]
path = "lib.rs"
"#);
    r
}

} // verus!
