//! The text of the files of a TypeScript workspace that is tested with jest.

use vstd::prelude::*;

verus! {

/// The package's manifest, which names jest and the compiler.
pub open spec fn package_json() -> Seq<char> {
    r#"{
    "name": "kata",
    "version": "1.0.0",
    "scripts": {
        "test": "jest"
    },
    "devDependencies": {
        "@jest/globals": "^29.5.0",
        "jest": "^29.5.0",
        "ts-jest": "^29.1.0",
        "typescript": "^5.0.4"
    }
}"#@
}

/// jest's configuration.
pub open spec fn jest_config() -> Seq<char> {
    r#"module.exports = {
    transform: { '^.+\\.ts?$': 'ts-jest' },
    testEnvironment: 'node',
    testRegex: '[a-z]+.spec.ts',
    moduleFileExtensions: ['ts', 'tsx', 'js', 'jsx', 'json', 'node']
};"#@
}

/// The compiler's configuration.
pub open spec fn ts_config() -> Seq<char> {
    r#"{
    "compilerOptions": {
      "target": "es2016",
      "module": "commonjs",
      "esModuleInterop": true,
      "forceConsistentCasingInFileNames": true,
      "strict": true,
      "skipLibCheck": true
    }
}"#@
}

/// The function that a calculator kata asks the user to complete.
pub open spec fn calculator_program() -> Seq<char> {
    r#"export function addNumbers(num1: string, num2: string): number {
    // Implement the addition logic here
    // ...
}"#@
}

/// The tests that a completed calculator has to pass.
pub open spec fn calculator_tests() -> Seq<char> {
    r#"import { addNumbers } from './calculator';
import { describe, it, expect } from '@jest/globals';

describe('Calculator', () => {
    it('should add numbers correctly', () => {
        expect(addNumbers("1", "2")).toEqual(3);
        // Add more test cases here
    });
});"#@
}

/// What stands in both files of a kata that brings no exercise of its own.
pub open spec fn placeholder() -> Seq<char> {
    r#"
        // TODO
    "#@
}

/// The manifest, jest's configuration and the compiler's configuration.
pub fn generate_typescript_config_files() -> (r: (String, String, String))
    ensures
        r.0@ == package_json(),
        r.1@ == jest_config(),
        r.2@ == ts_config(),
{
    let package_json = r#"{
    "name": "kata",
    "version": "1.0.0",
    "scripts": {
        "test": "jest"
    },
    "devDependencies": {
        "@jest/globals": "^29.5.0",
        "jest": "^29.5.0",
        "ts-jest": "^29.1.0",
        "typescript": "^5.0.4"
    }
}"#.to_owned();
    let jest_config = r#"module.exports = {
    transform: { '^.+\\.ts?$': 'ts-jest' },
    testEnvironment: 'node',
    testRegex: '[a-z]+.spec.ts',
    moduleFileExtensions: ['ts', 'tsx', 'js', 'jsx', 'json', 'node']
};"#.to_owned();
    let ts_config = r#"{
    "compilerOptions": {
      "target": "es2016",
      "module": "commonjs",
      "esModuleInterop": true,
      "forceConsistentCasingInFileNames": true,
      "strict": true,
      "skipLibCheck": true
    }
}"#.to_owned();
    (package_json, jest_config, ts_config)
}

/// The program file and the test file of a calculator kata.
pub fn generate_typescript_calculator_files() -> (r: (String, String))
    ensures
        r.0@ == calculator_program(),
        r.1@ == calculator_tests(),
{
    let program_file_content = r#"export function addNumbers(num1: string, num2: string): number {
    // Implement the addition logic here
    // ...
}"#.to_owned();
    let test_file_content = r#"import { addNumbers } from './calculator';
import { describe, it, expect } from '@jest/globals';

describe('Calculator', () => {
    it('should add numbers correctly', () => {
        expect(addNumbers("1", "2")).toEqual(3);
        // Add more test cases here
    });
});"#.to_owned();
    (program_file_content, test_file_content)
}

/// The program file and the test file of a data-structures kata.
pub fn generate_typescript_dsa_files() -> (r: (String, String))
    ensures
        r.0@ == placeholder(),
        r.1@ == placeholder(),
{
    let program_file_content = r#"
        // TODO
    "#.to_owned();
    let test_file_content = r#"
        // TODO
    "#.to_owned();
    (program_file_content, test_file_content)
}

} // verus!
