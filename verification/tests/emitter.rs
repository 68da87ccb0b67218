//! Tests of record assembly, JSON-line rendering and format-list parsing.

use git_structured_log::commit::CommitInfo;
use git_structured_log::emit::{build_record, format_record_line, needs_ref_index, parse_formats,
    record_to_line};
use git_structured_log::hex::bytes_to_hex;
use git_structured_log::refindex::RefIndex;

fn commit_with(id: Vec<u8>, parents: Vec<Vec<u8>>, summary: &str) -> CommitInfo {
    let parent_short_ids = parents.iter().map(|_| Some("0000".to_string())).collect();
    CommitInfo {
        id,
        tree_id: vec![0x55; 20],
        parent_ids: parents,
        short_id: Some("abcd".to_string()),
        tree_short_id: Some("5555".to_string()),
        parent_short_ids,
        author_name: Some("Ada".to_string()),
        author_email: Some("ada@example.org".to_string()),
        author_seconds: 1700000000,
        author_offset_minutes: 120,
        commit_seconds: 1700000100,
        commit_offset_minutes: 0,
        summary: Some(summary.to_string()),
        message: Some(summary.to_string()),
    }
}

#[test]
fn splitting_is_literal_and_keeps_empty_pieces() {
    assert_eq!(parse_formats("H,P,s"), vec!["H", "P", "s"]);
    assert_eq!(parse_formats("a,,b"), vec!["a", "", "b"]);
    assert_eq!(parse_formats(""), vec![""]);
    assert_eq!(parse_formats(" H ,s"), vec![" H ", "s"]);
}

#[test]
fn ref_index_is_needed_exactly_for_the_d_code() {
    assert!(needs_ref_index(&parse_formats("H,D,s")));
    assert!(!needs_ref_index(&parse_formats("H,d,s")));
    assert!(!needs_ref_index(&parse_formats("H,s")));
}

#[test]
fn record_keys_follow_request_order() {
    let c = commit_with(vec![0x01; 20], vec![], "subject");
    let mut refs = RefIndex::new();
    let formats = parse_formats("s,H,at");
    let line = format_record_line(&formats, &c, &mut refs).unwrap();
    let expected = format!(
        "{{\"s\":\"subject\",\"H\":\"{}\",\"at\":1700000000}}",
        "01".repeat(20)
    );
    assert_eq!(line, expected);
}

#[test]
fn duplicate_codes_keep_first_position_and_last_value() {
    let x = commit_with(vec![0x02; 20], vec![], "s");
    let mut refs = RefIndex::new();
    refs.insert(x.id.clone(), "main".to_string());
    let formats = parse_formats("D,at,D");
    let line = format_record_line(&formats, &x, &mut refs).unwrap();
    assert_eq!(line, "{\"D\":[],\"at\":1700000000}");
}

#[test]
fn first_error_aborts_the_record() {
    let c = commit_with(vec![0x03; 20], vec![], "s");
    let mut refs = RefIndex::new();
    let formats = parse_formats("H,aN,zz");
    let err = format_record_line(&formats, &c, &mut refs).unwrap_err();
    assert!(err.message().starts_with("Invalid format `aN`:"));
}

#[test]
fn strings_are_escaped_as_serde_json_escapes_them() {
    let tricky = "quote \" backslash \\ newline \n tab \t cr \r bell \u{7} page \u{c} high \u{1f} umlaut ü";
    let c = commit_with(vec![0x04; 20], vec![], tricky);
    let mut refs = RefIndex::new();
    let formats = parse_formats("s");
    let line = format_record_line(&formats, &c, &mut refs).unwrap();
    let expected = format!(
        "{{\"s\":{}}}",
        serde_json::to_string(&serde_json::Value::String(tricky.to_string())).unwrap()
    );
    assert_eq!(line, expected);
}

#[test]
fn empty_record_for_an_empty_code_is_an_error() {
    let c = commit_with(vec![0x05; 20], vec![], "s");
    let mut refs = RefIndex::new();
    let formats = parse_formats("");
    let err = format_record_line(&formats, &c, &mut refs).unwrap_err();
    assert_eq!(err.message(), "Invalid format ``: Not found");
}

#[test]
fn record_lines_parse_as_json_with_the_requested_values() {
    let c = commit_with(vec![0x06; 20], vec![vec![0x07; 20]], "subject");
    let mut refs = RefIndex::new();
    let formats = parse_formats("H,P,s,at,aI,B");
    let rec = build_record(&formats, &c, &mut refs).unwrap();
    let line = record_to_line(&rec);
    let parsed: serde_json::Value = serde_json::from_str(&line).unwrap();
    assert_eq!(parsed["H"], serde_json::Value::String("06".repeat(20)));
    assert_eq!(parsed["P"][0], serde_json::Value::String("07".repeat(20)));
    assert_eq!(parsed["s"], serde_json::Value::String("subject".to_string()));
    assert_eq!(parsed["at"], serde_json::Value::from(1700000000i64));
    assert_eq!(
        parsed["aI"],
        serde_json::Value::String("2023-11-15T00:13:20+02:00".to_string())
    );
    assert_eq!(parsed.as_object().unwrap().len(), 6);
}

#[test]
fn walk_of_three_commits_emits_two_lines_with_parent_links() {
    // History: a (root) -> b -> c (head); the range excludes a.
    let a = commit_with(vec![0xaa; 20], vec![], "a");
    let b = commit_with(vec![0xbb; 20], vec![vec![0xaa; 20]], "b");
    let c = commit_with(vec![0xcc; 20], vec![vec![0xbb; 20]], "c");
    let formats = parse_formats("H,P,s");
    let mut refs = RefIndex::new();
    let mut lines = Vec::new();
    for commit in [&b, &c] {
        lines.push(format_record_line(&formats, commit, &mut refs).unwrap());
    }
    assert_eq!(lines.len(), 2);
    for line in &lines {
        let parsed: serde_json::Value = serde_json::from_str(line).unwrap();
        let keys: Vec<&String> = parsed.as_object().unwrap().keys().collect();
        assert_eq!(keys, vec!["H", "P", "s"]);
    }
    let first: serde_json::Value = serde_json::from_str(&lines[0]).unwrap();
    let parents = first["P"].as_array().unwrap();
    assert_eq!(parents.len(), 1);
    assert_eq!(parents[0], serde_json::Value::String(bytes_to_hex(&a.id)));
    assert!(lines[0].starts_with("{\"H\":"));
}
