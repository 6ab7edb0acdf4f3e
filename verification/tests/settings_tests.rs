use kata_machine::settings::{
    default_settings, document_from_settings, has_project, link_project, link_rust_analyzer,
    parse_settings, render_settings, settings_from_document, Entry, Settings,
};
use kata_machine::KataError;
use serde_json::Value;

fn json(text: &str) -> Value {
    serde_json::from_str(text).unwrap()
}

#[test]
fn settings_for_a_directory_without_any() {
    let text = link_rust_analyzer(None, "/w/rust/calculator/day1").unwrap();
    assert_eq!(
        text,
        "{\n  \"rust-analyzer.linkedProjects\": [\n    \"/w/rust/calculator/day1/Cargo.toml\"\n  ]\n}"
    );
}

#[test]
fn default_settings_hold_one_entry_and_nothing_else() {
    let settings = default_settings("/w/day1/Cargo.toml");
    assert!(settings.before.is_empty());
    assert!(settings.after.is_empty());
    assert_eq!(settings.linked.len(), 1);
    assert!(matches!(&settings.linked[0], Entry::Path(p) if p == "/w/day1/Cargo.toml"));
}

#[test]
fn a_second_project_is_added_after_the_first() {
    let first = link_rust_analyzer(None, "/w/rust/dsa/day1").unwrap();
    let second = link_rust_analyzer(Some(&first), "/w/rust/dsa/day2").unwrap();
    assert_eq!(
        json(&second),
        json(
            r#"{"rust-analyzer.linkedProjects": ["/w/rust/dsa/day1/Cargo.toml", "/w/rust/dsa/day2/Cargo.toml"]}"#
        )
    );
}

#[test]
fn linking_twice_adds_once() {
    let first = link_rust_analyzer(None, "/w/rust/dsa/day1").unwrap();
    let second = link_rust_analyzer(Some(&first), "/w/rust/dsa/day1").unwrap();
    let third = link_rust_analyzer(Some(&second), "/w/rust/dsa/day1").unwrap();
    assert_eq!(first, second);
    assert_eq!(second, third);
    let document = json(&third);
    let linked = document["rust-analyzer.linkedProjects"].as_array().unwrap();
    assert_eq!(linked.len(), 1);
    assert_eq!(linked[0], Value::String("/w/rust/dsa/day1/Cargo.toml".to_string()));
}

#[test]
fn a_path_spelled_differently_is_the_same_project() {
    let existing = r#"{"rust-analyzer.linkedProjects": ["/w//rust/./dsa/day1/Cargo.toml/"]}"#;
    let text = link_rust_analyzer(Some(existing), "/w/rust/dsa/day1").unwrap();
    assert_eq!(json(&text), json(existing));
}

#[test]
fn other_members_are_kept_as_they_were() {
    let existing = r#"{
        "editor.fontSize": 14,
        "files.exclude": {"**/target": true, "nested": [1, 2.5, null, {"a": "b"}]},
        "rust-analyzer.linkedProjects": ["/old/Cargo.toml"],
        "window.zoomLevel": -1.25,
        "zeta": "\u00e9 \"quoted\""
    }"#;
    let text = link_rust_analyzer(Some(existing), "/w/rust/dsa/day3").unwrap();
    let before = json(existing);
    let after = json(&text);
    let before = before.as_object().unwrap();
    let after = after.as_object().unwrap();
    assert_eq!(
        before.keys().collect::<Vec<_>>(),
        after.keys().collect::<Vec<_>>()
    );
    for (key, value) in before {
        if key != "rust-analyzer.linkedProjects" {
            assert_eq!(&after[key], value);
            assert_eq!(
                serde_json::to_string(&after[key]).unwrap(),
                serde_json::to_string(value).unwrap()
            );
        }
    }
    assert_eq!(
        after["rust-analyzer.linkedProjects"],
        json(r#"["/old/Cargo.toml", "/w/rust/dsa/day3/Cargo.toml"]"#)
    );
}

#[test]
fn entries_that_are_no_paths_are_kept() {
    let existing =
        r#"{"rust-analyzer.linkedProjects": [{"sysroot": "/x"}, 7, "a/Cargo.toml", null]}"#;
    let text = link_rust_analyzer(Some(existing), "b").unwrap();
    assert_eq!(
        json(&text),
        json(
            r#"{"rust-analyzer.linkedProjects": [{"sysroot": "/x"}, 7, "a/Cargo.toml", null, "b/Cargo.toml"]}"#
        )
    );
}

#[test]
fn entries_already_doubled_are_not_removed() {
    let existing = r#"{"rust-analyzer.linkedProjects": ["a/Cargo.toml", "a/Cargo.toml"]}"#;
    let text = link_rust_analyzer(Some(existing), "a").unwrap();
    assert_eq!(json(&text), json(existing));
}

#[test]
fn the_written_text_is_pretty_printed() {
    let existing = r#"{"a":1,"rust-analyzer.linkedProjects":[]}"#;
    let text = link_rust_analyzer(Some(existing), "d").unwrap();
    assert_eq!(
        text,
        "{\n  \"a\": 1,\n  \"rust-analyzer.linkedProjects\": [\n    \"d/Cargo.toml\"\n  ]\n}"
    );
}

#[test]
fn a_path_with_quotes_is_written_as_a_json_string() {
    let text = link_rust_analyzer(None, "/w/\"odd\"\\dir").unwrap();
    let document = json(&text);
    assert_eq!(
        document["rust-analyzer.linkedProjects"][0],
        Value::String("/w/\"odd\"\\dir/Cargo.toml".to_string())
    );
}

#[test]
fn text_that_is_no_json_is_refused() {
    assert_eq!(link_rust_analyzer(Some("{not json"), "d"), Err(KataError::ConfigFormat));
    assert_eq!(link_rust_analyzer(Some(""), "d"), Err(KataError::ConfigFormat));
    assert!(matches!(parse_settings("{\"a\": }"), Err(KataError::ConfigFormat)));
}

#[test]
fn a_document_that_is_no_object_is_refused() {
    assert_eq!(link_rust_analyzer(Some("[1, 2]"), "d"), Err(KataError::ConfigFormat));
    assert_eq!(link_rust_analyzer(Some("\"text\""), "d"), Err(KataError::ConfigFormat));
    assert_eq!(link_rust_analyzer(Some("null"), "d"), Err(KataError::ConfigFormat));
}

#[test]
fn linked_projects_that_are_no_array_are_refused() {
    assert_eq!(
        link_rust_analyzer(Some(r#"{"rust-analyzer.linkedProjects": "a/Cargo.toml"}"#), "d"),
        Err(KataError::ConfigFormat)
    );
    assert_eq!(
        link_rust_analyzer(Some(r#"{"rust-analyzer.linkedProjects": {"0": "a"}}"#), "d"),
        Err(KataError::ConfigFormat)
    );
}

#[test]
fn settings_without_linked_projects_get_them() {
    let text = link_rust_analyzer(Some("{}"), "d").unwrap();
    assert_eq!(json(&text), json(r#"{"rust-analyzer.linkedProjects": ["d/Cargo.toml"]}"#));
    let text = link_rust_analyzer(Some(r#"{"editor.fontSize": 14, "z": null}"#), "d").unwrap();
    assert_eq!(
        json(&text),
        json(r#"{"editor.fontSize": 14, "rust-analyzer.linkedProjects": ["d/Cargo.toml"], "z": null}"#)
    );
    let settings = parse_settings(r#"{"editor.fontSize": 14}"#).unwrap();
    assert_eq!(settings.before.len(), 1);
    assert!(settings.linked.is_empty());
    assert!(settings.after.is_empty());
}

#[test]
fn parse_settings_takes_the_document_apart() {
    let settings = parse_settings(
        r#"{"a": 1, "rust-analyzer.linkedProjects": ["p", 5], "z": [true]}"#,
    )
    .unwrap();
    assert_eq!(settings.before.len(), 1);
    assert_eq!(settings.before[0].0, "a");
    assert_eq!(settings.before[0].1, json("1"));
    assert_eq!(settings.after.len(), 1);
    assert_eq!(settings.after[0].0, "z");
    assert_eq!(settings.after[0].1, json("[true]"));
    assert_eq!(settings.linked.len(), 2);
    assert!(matches!(&settings.linked[0], Entry::Path(p) if p == "p"));
    assert!(matches!(&settings.linked[1], Entry::Other(v) if *v == json("5")));
}

#[test]
fn render_settings_puts_the_document_together() {
    let text = r#"{"a": 1, "rust-analyzer.linkedProjects": ["p", 5], "z": [true]}"#;
    let settings = parse_settings(text).unwrap();
    let written = render_settings(settings).unwrap();
    assert_eq!(json(&written), json(text));
}

#[test]
fn link_project_adds_at_the_end_or_not_at_all() {
    let settings = parse_settings(r#"{"rust-analyzer.linkedProjects": ["p", 5]}"#).unwrap();
    assert!(has_project(&settings.linked, "./p"));
    assert!(!has_project(&settings.linked, "q"));
    assert!(!has_project(&settings.linked, "5"));
    let same = link_project(settings, "p/");
    assert_eq!(same.linked.len(), 2);
    let more = link_project(same, "q");
    assert_eq!(more.linked.len(), 3);
    assert!(matches!(&more.linked[0], Entry::Path(p) if p == "p"));
    assert!(matches!(&more.linked[2], Entry::Path(p) if p == "q"));
    let again = link_project(more, "q");
    assert_eq!(again.linked.len(), 3);
}

#[test]
fn a_document_is_taken_apart_around_the_linked_projects() {
    let settings = settings_from_document(json(
        r#"{"b": {"x": 1}, "rust-analyzer.linkedProjects": ["p", ["q"], "r"], "s": "t"}"#,
    ))
    .unwrap();
    assert_eq!(settings.before, vec![("b".to_string(), json(r#"{"x": 1}"#))]);
    assert_eq!(settings.after, vec![("s".to_string(), json(r#""t""#))]);
    assert_eq!(settings.linked.len(), 3);
    assert!(matches!(&settings.linked[0], Entry::Path(p) if p == "p"));
    assert!(matches!(&settings.linked[1], Entry::Other(v) if *v == json(r#"["q"]"#)));
    assert!(matches!(&settings.linked[2], Entry::Path(p) if p == "r"));
}

#[test]
fn a_document_that_holds_no_settings() {
    assert!(matches!(settings_from_document(json("[]")), Err(KataError::ConfigFormat)));
    assert!(matches!(settings_from_document(json("3")), Err(KataError::ConfigFormat)));
    assert!(matches!(
        settings_from_document(json(r#"{"rust-analyzer.linkedProjects": 3}"#)),
        Err(KataError::ConfigFormat)
    ));
    assert!(matches!(
        settings_from_document(json(r#"{"rust-analyzer.linkedProjects": null}"#)),
        Err(KataError::ConfigFormat)
    ));
}

#[test]
fn settings_are_put_together_as_one_object() {
    let settings = Settings {
        before: vec![("a".to_string(), json("1"))],
        linked: vec![Entry::Path("p".to_string()), Entry::Other(json("{}"))],
        after: vec![("z".to_string(), json("[2]"))],
    };
    assert_eq!(
        document_from_settings(settings),
        json(r#"{"a": 1, "rust-analyzer.linkedProjects": ["p", {}], "z": [2]}"#)
    );
    let empty = Settings { before: vec![], linked: vec![], after: vec![] };
    assert_eq!(
        document_from_settings(empty),
        json(r#"{"rust-analyzer.linkedProjects": []}"#)
    );
}

#[test]
fn settings_are_compared_by_what_they_hold() {
    assert_eq!(
        default_settings("/w/day1/Cargo.toml"),
        Settings {
            before: vec![],
            linked: vec![Entry::Path("/w/day1/Cargo.toml".to_string())],
            after: vec![],
        }
    );
    assert_eq!(
        parse_settings(r#"{"a": 1, "rust-analyzer.linkedProjects": ["p", 5], "z": [true]}"#),
        Ok(Settings {
            before: vec![("a".to_string(), json("1"))],
            linked: vec![Entry::Path("p".to_string()), Entry::Other(json("5"))],
            after: vec![("z".to_string(), json("[true]"))],
        })
    );
}
