use kata_machine::languages::{csharp, rust, typescript};
use kata_machine::bootstrap::Outcome;
use kata_machine::runner::{kata_dir, run_session_tests, test_command, test_result};
use kata_machine::scaffold::ToolCommand;
use kata_machine::session::{get_test_input_from_session, record_session, session_file_path};
use kata_machine::{resolve, run_tests, Kata, KataError, KataInput, Language, Session, TestRun};

fn names(list: &[&str]) -> Vec<String> {
    list.iter().map(|s| s.to_string()).collect()
}

fn command(program: &str, args: &[&str]) -> ToolCommand {
    ToolCommand { program: program.to_string(), args: names(args) }
}

#[test]
fn a_session_records_names_and_day_folder() {
    let session = record_session(
        KataInput { language: Language::TS, kata: Kata::Calculator },
        "/w/typescript/calculator/day4",
    );
    assert_eq!(
        session,
        Session {
            language: "typescript".to_string(),
            kata: "calculator".to_string(),
            day: "/w/typescript/calculator/day4".to_string(),
        }
    );
}

#[test]
fn a_recorded_session_is_read_back() {
    for language in [Language::Rust, Language::TS, Language::CSharp] {
        for kata in [Kata::Calculator, Kata::Dsa] {
            let session = record_session(KataInput { language, kata }, "/w/x/day1");
            assert_eq!(get_test_input_from_session(&session), Ok((language, kata)));
            assert_eq!(session.day, "/w/x/day1");
        }
    }
}

#[test]
fn a_session_may_use_abbreviations() {
    let session = Session {
        language: "cs".to_string(),
        kata: "dsa".to_string(),
        day: "d".to_string(),
    };
    assert_eq!(get_test_input_from_session(&session), Ok((Language::CSharp, Kata::Dsa)));
}

#[test]
fn a_session_with_unknown_names_is_corrupt() {
    let unknown_language = Session {
        language: "java".to_string(),
        kata: "dsa".to_string(),
        day: "d".to_string(),
    };
    assert_eq!(get_test_input_from_session(&unknown_language), Err(KataError::SessionCorrupt));
    let unknown_kata = Session {
        language: "rust".to_string(),
        kata: "".to_string(),
        day: "d".to_string(),
    };
    assert_eq!(get_test_input_from_session(&unknown_kata), Err(KataError::SessionCorrupt));
    assert_eq!(run_session_tests(&unknown_kata), Err(KataError::SessionCorrupt));
    assert_eq!(resolve(None, Some(&unknown_kata), "/w", &names(&[])), Err(KataError::SessionCorrupt));
}

#[test]
fn test_commands_of_the_stacks() {
    assert_eq!(test_command(Language::Rust), command("cargo", &["test"]));
    assert_eq!(test_command(Language::TS), command("npm", &["test"]));
    assert_eq!(test_command(Language::CSharp), command("dotnet", &["test"]));
    assert_eq!(rust::rust_test_command(), command("cargo", &["test"]));
    assert_eq!(typescript::typescript_test_command(), command("npm", &["test"]));
    assert_eq!(csharp::csharp_test_command(), command("dotnet", &["test"]));
}

#[test]
fn named_tests_run_in_the_most_recent_day_folder() {
    let input = KataInput { language: Language::CSharp, kata: Kata::Dsa };
    assert_eq!(
        run_tests(input, "/w", &names(&["day1", "day2", "bin"])),
        Ok(TestRun {
            workspace: "/w/csharp/dsa/day2".to_string(),
            command: command("dotnet", &["test"]),
        })
    );
}

#[test]
fn named_tests_without_a_day_folder() {
    let input = KataInput { language: Language::Rust, kata: Kata::Calculator };
    assert_eq!(run_tests(input, "/w", &names(&[])), Err(KataError::NoWorkspaceFound));
    assert_eq!(run_tests(input, "/w", &names(&["target"])), Err(KataError::NoWorkspaceFound));
    assert_eq!(
        resolve(Some(input), None, "/w", &names(&[])),
        Err(KataError::NoWorkspaceFound)
    );
}

#[test]
fn no_names_and_no_session() {
    assert_eq!(resolve(None, None, "/w", &names(&[])), Err(KataError::SessionNotFound));
    assert_eq!(
        resolve(None, None, "/w", &names(&["day1", "day2"])),
        Err(KataError::SessionNotFound)
    );
}

#[test]
fn the_session_decides_where_nothing_is_named() {
    let session = Session {
        language: "rust".to_string(),
        kata: "calculator".to_string(),
        day: "/w/rust/calculator/day2".to_string(),
    };
    assert_eq!(
        resolve(None, Some(&session), "/elsewhere", &names(&["day7"])),
        Ok(TestRun {
            workspace: "/w/rust/calculator/day2".to_string(),
            command: command("cargo", &["test"]),
        })
    );
}

#[test]
fn names_go_before_the_session() {
    let session = Session {
        language: "rust".to_string(),
        kata: "calculator".to_string(),
        day: "/w/rust/calculator/day2".to_string(),
    };
    let input = KataInput { language: Language::TS, kata: Kata::Dsa };
    assert_eq!(
        resolve(Some(input), Some(&session), "/w", &names(&["day1", "day5"])),
        Ok(TestRun {
            workspace: "/w/typescript/dsa/day5".to_string(),
            command: command("npm", &["test"]),
        })
    );
}

#[test]
fn where_katas_and_sessions_are_kept() {
    assert_eq!(
        kata_dir("/w", KataInput { language: Language::TS, kata: Kata::Calculator }),
        "/w/typescript/calculator"
    );
    assert_eq!(
        kata_dir("rel", KataInput { language: Language::CSharp, kata: Kata::Dsa }),
        "rel/csharp/dsa"
    );
    assert_eq!(session_file_path("/w"), "/w/session.json");
}

#[test]
fn named_tests_need_a_numbered_day_folder() {
    let input = KataInput { language: Language::TS, kata: Kata::Dsa };
    assert_eq!(run_tests(input, "/w", &names(&["dayold"])), Err(KataError::NoWorkspaceFound));
    assert_eq!(
        run_tests(input, "/w", &names(&["day0", "day01", "day"])),
        Err(KataError::NoWorkspaceFound)
    );
    assert_eq!(
        run_tests(input, "/w", &names(&["day1", "dayold"])),
        Ok(TestRun {
            workspace: "/w/typescript/dsa/day1".to_string(),
            command: command("npm", &["test"]),
        })
    );
}

#[test]
fn a_test_run_fails_only_where_it_cannot_start() {
    assert_eq!(test_result(Outcome::NotStarted), Err(KataError::ExternalToolLaunch));
    assert_eq!(test_result(Outcome::Failed), Ok(()));
    assert_eq!(test_result(Outcome::Succeeded), Ok(()));
}
