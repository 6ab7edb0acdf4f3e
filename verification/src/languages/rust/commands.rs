//! A Rust workspace that is built as a library, which the editor can link.

use vstd::prelude::*;
use crate::scaffold::{source_file, Scaffold, ScaffoldView, SourceFile};
use crate::stack::Kata;
use super::{manifest_name, rust_manifest_name};
use super::generation::{
    calculator_program, calculator_tests, cargo_file, generate_rust_calculator_files,
    generate_rust_cargo_file, generate_rust_dsa_files, placeholder,
};

verus! {

/// A Rust workspace: the library, its tests and its manifest, with no folder
/// of its own and nothing to fetch.
pub open spec fn rust_scaffold(day: Seq<char>, kata: Kata) -> ScaffoldView {
    ScaffoldView {
        folders: Seq::empty(),
        files: seq![
            (
                "lib.rs"@,
                match kata {
                    Kata::Calculator => calculator_program(),
                    Kata::Dsa => placeholder(),
                },
            ),
            (
                "test.rs"@,
                match kata {
                    Kata::Calculator => calculator_tests(),
                    Kata::Dsa => placeholder(),
                },
            ),
            (manifest_name(), cargo_file(day)),
        ],
        setup: None,
    }
}

/// All that goes into the new Rust workspace in the day folder named `day`.
pub fn generate_rust_files(day: &str, kata: Kata) -> (r: Scaffold)
    ensures
        r@ == rust_scaffold(day@, kata),
{
    let (main_file_content, test_file_content) = match kata {
        Kata::Calculator => generate_rust_calculator_files(),
        Kata::Dsa => generate_rust_dsa_files(),
    };
    let cargo_file_content = generate_rust_cargo_file(day);
    let mut files: Vec<SourceFile> = Vec::new();
    files.push(source_file("lib.rs", main_file_content));
    files.push(source_file("test.rs", test_file_content));
    files.push(source_file(rust_manifest_name(), cargo_file_content));
    let r = Scaffold { folders: Vec::new(), files, setup: None };
    assert(r@.folders =~= Seq::empty());
    assert(r@.files =~= rust_scaffold(day@, kata).files);
    r
}

} // verus!
