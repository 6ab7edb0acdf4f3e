use kata_machine::languages::csharp::commands::generate_csharp_files as csharp_scaffold;
use kata_machine::languages::csharp::generate_csharp_files;
use kata_machine::languages::csharp::generation::{
    generate_csharp_calculator_files, generate_csharp_dsa_files, generate_project_file,
};
use kata_machine::languages::rust::commands::generate_rust_files as rust_scaffold;
use kata_machine::languages::rust::generate_rust_files;
use kata_machine::languages::rust::generation::{
    generate_rust_calculator_files, generate_rust_cargo_file, generate_rust_dsa_files,
};
use kata_machine::languages::typescript::commands::{
    generate_typescript_calculator, generate_typescript_dsa,
    generate_typescript_files as typescript_scaffold,
};
use kata_machine::languages::typescript::generate_typescript_files;
use kata_machine::languages::typescript::generation::{
    generate_typescript_calculator_files, generate_typescript_config_files,
    generate_typescript_dsa_files,
};
use kata_machine::scaffold::{tool_command, SourceFile};
use kata_machine::Kata;

const PLACEHOLDER: &str = "\n        // TODO\n    ";

fn paths(files: &[SourceFile]) -> Vec<&str> {
    files.iter().map(|f| f.path.as_str()).collect()
}

#[test]
fn csharp_calculator_texts() {
    let (program, tests) = generate_csharp_calculator_files();
    assert_eq!(
        program,
        "public static class Calculator {\n    public static int AddNumbers(string num1, string num2) {\n        // Implement the addition logic here\n        // ...\n    }\n}"
    );
    assert!(tests.starts_with("using NUnit.Framework;\n\n[TestFixture]\npublic class CalculatorTests {\n"));
    assert!(tests.contains("        Assert.AreEqual(5, Calculator.AddNumbers(\"-5\", \"10\"));\n"));
    assert!(tests.ends_with("        // Add more test cases here\n    }\n}"));
}

#[test]
fn csharp_dsa_texts() {
    assert_eq!(
        generate_csharp_dsa_files(),
        (PLACEHOLDER.to_string(), PLACEHOLDER.to_string())
    );
}

#[test]
fn csharp_project_file() {
    let project = generate_project_file();
    assert!(project.starts_with("<?xml version=\"1.0\" encoding=\"utf-8\"?>\n<Project Sdk=\"Microsoft.NET.Sdk\">\n"));
    assert!(project.contains("        <TargetFramework>net6.0</TargetFramework>\n"));
    assert!(project.contains("        <PackageReference Include=\"NUnit\" Version=\"3.13.0\" />\n"));
    assert!(project.ends_with("  </ItemGroup>\n\n</Project>"));
}

#[test]
fn csharp_files_in_order() {
    let files = generate_csharp_files(Kata::Calculator);
    assert_eq!(paths(&files), vec!["Program.cs", "Test.cs", "Kata.csproj"]);
    let (program, tests) = generate_csharp_calculator_files();
    assert_eq!(files[0].content, program);
    assert_eq!(files[1].content, tests);
    assert_eq!(files[2].content, generate_project_file());
    let files = generate_csharp_files(Kata::Dsa);
    assert_eq!(files[0].content, PLACEHOLDER);
    assert_eq!(files[1].content, PLACEHOLDER);
    assert_eq!(files[2].content, generate_project_file());
}

#[test]
fn csharp_scaffold_restores_packages() {
    let scaffold = csharp_scaffold(Kata::Dsa);
    assert!(scaffold.folders.is_empty());
    assert_eq!(scaffold.files, generate_csharp_files(Kata::Dsa));
    assert_eq!(scaffold.setup, Some(tool_command("dotnet", "restore")));
}

#[test]
fn rust_binary_workspace() {
    let files = generate_rust_files("day3", Kata::Calculator);
    assert_eq!(paths(&files), vec!["main.rs", "test.rs", "Cargo.toml"]);
    assert_eq!(kata_machine::languages::rust::rust_manifest_name(), "Cargo.toml");
    assert_eq!(
        files[0].content,
        "pub fn add_numbers(num1: &str, num2: &str) -> i32 {\n    // Implement the addition logic here\n    // ...\n}"
    );
    assert!(files[1].content.contains("    use super::*;\n"));
    assert_eq!(
        files[2].content,
        "[package]\nname = \"kata_machine_rust_calculator_day3\"\nversion = \"0.1.0\"\nedition = \"2021\"\n\n[dependencies]\n\n[[bin]]\nname = \"kata_machine_rust_calculator_dayday3\"\npath = \"main.rs\"\n"
    );
    let files = generate_rust_files("day3", Kata::Dsa);
    assert_eq!(files[0].content, PLACEHOLDER);
    assert_eq!(files[1].content, PLACEHOLDER);
    let (program, tests) = kata_machine::languages::rust::generate_rust_calculator_files();
    assert!(program.starts_with("pub fn add_numbers"));
    assert!(tests.starts_with("#[cfg(test)]\nmod tests {\n"));
    assert_eq!(
        kata_machine::languages::rust::generate_rust_dsa_files(),
        (PLACEHOLDER.to_string(), PLACEHOLDER.to_string())
    );
}

#[test]
fn rust_library_texts() {
    let (program, tests) = generate_rust_calculator_files();
    assert_eq!(
        program,
        "mod test;\n\npub fn add_numbers(num1: &str, num2: &str) -> i32 {\n    // Implement the addition logic here\n    // ...\n}"
    );
    assert!(tests.starts_with("#[cfg(test)]\nmod tests {\n    use crate::add_numbers;\n"));
    assert!(tests.ends_with("        // Add more test cases here\n    }\n}"));
    assert_eq!(
        generate_rust_dsa_files(),
        (PLACEHOLDER.to_string(), PLACEHOLDER.to_string())
    );
}

#[test]
fn rust_library_manifest() {
    assert_eq!(
        generate_rust_cargo_file("day12"),
        "[package]\nname = \"kata_machine_rust_calculator_day12\"\nversion = \"0.1.0\"\nedition = \"2021\"\n\n[dependencies]\n\n[lib]\npath = \"lib.rs\"\n"
    );
    assert_eq!(
        generate_rust_cargo_file(""),
        "[package]\nname = \"kata_machine_rust_calculator_\"\nversion = \"0.1.0\"\nedition = \"2021\"\n\n[dependencies]\n\n[lib]\npath = \"lib.rs\"\n"
    );
}

#[test]
fn rust_library_scaffold() {
    let scaffold = rust_scaffold("day2", Kata::Calculator);
    assert!(scaffold.folders.is_empty());
    assert_eq!(scaffold.setup, None);
    assert_eq!(paths(&scaffold.files), vec!["lib.rs", "test.rs", "Cargo.toml"]);
    let (program, tests) = generate_rust_calculator_files();
    assert_eq!(scaffold.files[0].content, program);
    assert_eq!(scaffold.files[1].content, tests);
    assert_eq!(scaffold.files[2].content, generate_rust_cargo_file("day2"));
    let scaffold = rust_scaffold("day2", Kata::Dsa);
    assert_eq!(scaffold.files[0].content, PLACEHOLDER);
    assert_eq!(scaffold.files[1].content, PLACEHOLDER);
}

#[test]
fn typescript_flat_workspace() {
    let files = generate_typescript_files(Kata::Calculator);
    assert_eq!(paths(&files), vec!["index.ts", "test.ts"]);
    assert_eq!(
        files[0].content,
        "export function addNumbers(num1: string, num2: string): number {\n    // Implement the addition logic here\n    // ...\n}"
    );
    assert!(files[1].content.starts_with("import { addNumbers } from './index';\n\ndescribe('Calculator', () => {\n"));
    assert!(files[1].content.ends_with("    });\n});"));
    let files = generate_typescript_files(Kata::Dsa);
    assert_eq!(files[0].content, PLACEHOLDER);
    assert_eq!(files[1].content, PLACEHOLDER);
    let (program, tests) = kata_machine::languages::typescript::generate_typescript_calculator_files();
    assert!(program.starts_with("export function addNumbers"));
    assert!(tests.contains("expect(addNumbers(\"-5\", \"10\")).toEqual(5);"));
    assert_eq!(
        kata_machine::languages::typescript::generate_typescript_dsa_files(),
        (PLACEHOLDER.to_string(), PLACEHOLDER.to_string())
    );
}

#[test]
fn typescript_jest_texts() {
    let (program, tests) = generate_typescript_calculator_files();
    assert!(program.starts_with("export function addNumbers(num1: string, num2: string): number {\n"));
    assert_eq!(
        tests,
        "import { addNumbers } from './calculator';\nimport { describe, it, expect } from '@jest/globals';\n\ndescribe('Calculator', () => {\n    it('should add numbers correctly', () => {\n        expect(addNumbers(\"1\", \"2\")).toEqual(3);\n        // Add more test cases here\n    });\n});"
    );
    assert_eq!(
        generate_typescript_dsa_files(),
        (PLACEHOLDER.to_string(), PLACEHOLDER.to_string())
    );
}

#[test]
fn typescript_config_texts() {
    let (package, jest, compiler) = generate_typescript_config_files();
    let package: serde_json::Value = serde_json::from_str(&package).unwrap();
    assert_eq!(package["name"], "kata");
    assert_eq!(package["scripts"]["test"], "jest");
    assert_eq!(package["devDependencies"]["typescript"], "^5.0.4");
    assert_eq!(
        jest,
        "module.exports = {\n    transform: { '^.+\\\\.ts?$': 'ts-jest' },\n    testEnvironment: 'node',\n    testRegex: '[a-z]+.spec.ts',\n    moduleFileExtensions: ['ts', 'tsx', 'js', 'jsx', 'json', 'node']\n};"
    );
    let compiler: serde_json::Value = serde_json::from_str(&compiler).unwrap();
    assert_eq!(compiler["compilerOptions"]["target"], "es2016");
    assert_eq!(compiler["compilerOptions"]["strict"], true);
}

#[test]
fn typescript_jest_scaffold() {
    let scaffold = typescript_scaffold(Kata::Calculator);
    assert_eq!(scaffold.folders, vec!["src".to_string()]);
    assert_eq!(
        paths(&scaffold.files),
        vec![
            "src/calculator.ts",
            "src/calculator.spec.ts",
            "package.json",
            "jest.config.js",
            "tsconfig.json"
        ]
    );
    assert_eq!(scaffold.setup, Some(tool_command("npm", "i")));
    let (package, jest, compiler) = generate_typescript_config_files();
    assert_eq!(scaffold.files[2].content, package);
    assert_eq!(scaffold.files[3].content, jest);
    assert_eq!(scaffold.files[4].content, compiler);
    assert_eq!(scaffold.files[..2].to_vec(), generate_typescript_calculator());
    let scaffold = typescript_scaffold(Kata::Dsa);
    assert_eq!(
        paths(&scaffold.files),
        vec!["src/dsa.ts", "src/dsa.spec.ts", "package.json", "jest.config.js", "tsconfig.json"]
    );
    assert_eq!(scaffold.files[..2].to_vec(), generate_typescript_dsa());
    assert_eq!(scaffold.files[0].content, PLACEHOLDER);
}
