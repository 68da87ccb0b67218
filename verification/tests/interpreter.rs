//! Tests of the format-code interpreter and the laws it obeys.

use git_structured_log::codes::FormatError;
use git_structured_log::commit::CommitInfo;
use git_structured_log::hex::bytes_to_hex;
use git_structured_log::interp::interpret;
use git_structured_log::json::JsonValue;
use git_structured_log::refindex::RefIndex;

fn commit(id: u8) -> CommitInfo {
    CommitInfo {
        id: vec![id; 20],
        tree_id: vec![0x30 + id; 20],
        parent_ids: vec![],
        short_id: Some(format!("{:02x}{:02x}", id, id)),
        tree_short_id: Some(format!("{:02x}", 0x30 + id)),
        parent_short_ids: vec![],
        author_name: Some("Ada".to_string()),
        author_email: Some("ada@example.org".to_string()),
        author_seconds: 1700000000,
        author_offset_minutes: 120,
        commit_seconds: 1700000100,
        commit_offset_minutes: -330,
        summary: Some("first line".to_string()),
        message: Some("first line\n\nbody".to_string()),
    }
}

fn value_of(code: &str, c: &CommitInfo) -> JsonValue {
    let mut refs = RefIndex::new();
    interpret(code, c, &mut refs).expect("code should succeed")
}

fn error_of(code: &str, c: &CommitInfo) -> FormatError {
    let mut refs = RefIndex::new();
    interpret(code, c, &mut refs).err().expect("code should fail")
}

fn as_str(v: JsonValue) -> String {
    match v {
        JsonValue::Str(s) => s,
        _ => panic!("expected a string value"),
    }
}

fn as_arr(v: JsonValue) -> Vec<String> {
    match v {
        JsonValue::Arr(a) => a,
        _ => panic!("expected an array value"),
    }
}

fn as_num(v: JsonValue) -> i64 {
    match v {
        JsonValue::Num(n) => n,
        _ => panic!("expected a number value"),
    }
}

#[test]
fn hex_encodes_each_byte_in_order() {
    assert_eq!(bytes_to_hex(&vec![0x00, 0x0a, 0xff]), "000aff");
    assert_eq!(bytes_to_hex(&vec![]), "");
}

#[test]
fn hex_round_trip_recovers_the_bytes() {
    let bytes: Vec<u8> = (0u16..=255).map(|b| b as u8).collect();
    let hexed = bytes_to_hex(&bytes);
    assert_eq!(hexed.len(), 2 * bytes.len());
    let decoded: Vec<u8> = (0..hexed.len() / 2)
        .map(|i| u8::from_str_radix(&hexed[2 * i..2 * i + 2], 16).unwrap())
        .collect();
    assert_eq!(decoded, bytes);
}

#[test]
fn full_hash_is_lowercase_hex_of_the_id() {
    let c = commit(0xab);
    assert_eq!(as_str(value_of("H", &c)), "ab".repeat(20));
    assert_eq!(as_str(value_of("T", &c)), "db".repeat(20));
}

#[test]
fn abbreviated_hashes_come_from_the_collaborator() {
    let c = commit(0x01);
    assert_eq!(as_str(value_of("h", &c)), "0101");
    assert_eq!(as_str(value_of("t", &c)), "31");
    let mut bad = commit(0x01);
    bad.short_id = None;
    let e = error_of("h", &bad);
    assert_eq!(e.message(), "libgit returned a bad shorthash");
}

#[test]
fn root_commit_has_empty_parent_arrays() {
    let c = commit(0x02);
    assert_eq!(as_arr(value_of("P", &c)), Vec::<String>::new());
    assert_eq!(as_arr(value_of("p", &c)), Vec::<String>::new());
}

#[test]
fn parent_arrays_have_one_entry_per_parent_in_order() {
    let mut c = commit(0x03);
    c.parent_ids = vec![vec![0x11; 20], vec![0x22; 20]];
    c.parent_short_ids = vec![Some("1111".to_string()), Some("2222".to_string())];
    assert_eq!(
        as_arr(value_of("P", &c)),
        vec!["11".repeat(20), "22".repeat(20)]
    );
    assert_eq!(as_arr(value_of("p", &c)), vec!["1111", "2222"]);
    c.parent_short_ids = vec![Some("1111".to_string()), None];
    let e = error_of("p", &c);
    assert_eq!(e.message(), "libgit returned a bad shorthash");
}

#[test]
fn author_and_committer_fields() {
    let c = commit(0x04);
    assert_eq!(as_str(value_of("an", &c)), "Ada");
    assert_eq!(as_str(value_of("ae", &c)), "ada@example.org");
    assert_eq!(as_num(value_of("at", &c)), 1700000000);
    assert_eq!(as_num(value_of("ct", &c)), 1700000100);
    assert_eq!(as_str(value_of("s", &c)), "first line");
    assert_eq!(as_str(value_of("B", &c)), "first line\n\nbody");
}

#[test]
fn author_iso_keeps_the_stored_offset() {
    let c = commit(0x05);
    let rendered = as_str(value_of("aI", &c));
    assert_eq!(rendered, "2023-11-15T00:13:20+02:00");
    assert!(rendered.ends_with("+02:00"));
    assert!(!rendered.ends_with("Z"));
}

#[test]
fn committer_iso_applies_a_negative_offset() {
    let c = commit(0x06);
    assert_eq!(as_str(value_of("cI", &c)), "2023-11-14T16:45:00-05:30");
}

#[test]
fn zero_offset_renders_as_explicit_zero() {
    let mut c = commit(0x07);
    c.author_offset_minutes = 0;
    assert!(as_str(value_of("aI", &c)).ends_with("+00:00"));
}

#[test]
fn negative_timestamps_are_numbers() {
    let mut c = commit(0x08);
    c.author_seconds = -5;
    assert_eq!(as_num(value_of("at", &c)), -5);
}

#[test]
fn out_of_range_offset_is_an_error() {
    let mut c = commit(0x09);
    c.author_offset_minutes = 100000;
    let e = error_of("aI", &c);
    assert_eq!(
        e.message(),
        "timestamp or offset out of range for ISO-8601 formatting"
    );
}

#[test]
fn invalid_text_fields_fail_with_the_field_message() {
    let mut c = commit(0x0a);
    c.author_name = None;
    assert_eq!(
        error_of("an", &c).message(),
        "Author name contains invalid UTF8"
    );
    let mut c = commit(0x0a);
    c.author_email = None;
    assert_eq!(
        error_of("ae", &c).message(),
        "Author email contains invalid UTF8"
    );
    let mut c = commit(0x0a);
    c.summary = None;
    assert_eq!(
        error_of("s", &c).message(),
        "Commit header contains invalid UTF8"
    );
    let mut c = commit(0x0a);
    c.message = None;
    assert_eq!(
        error_of("B", &c).message(),
        "Commit message contains invalid UTF8"
    );
}

#[test]
fn mailmap_codes_fail_and_name_the_code() {
    let c = commit(0x0b);
    let msg = error_of("aN", &c).message();
    assert!(msg.contains("aN"));
    assert!(msg.contains("Mailmaps"));
    assert_eq!(
        msg,
        "Invalid format `aN`: Mailmaps not currently supported, consider using `an`/`ae` instead of `aN`/`aE`"
    );
    let msg = error_of("aE", &c).message();
    assert!(msg.contains("aE"));
    assert!(msg.contains("Mailmaps"));
}

#[test]
fn rejected_codes_carry_their_remediation() {
    let c = commit(0x0c);
    assert_eq!(
        error_of("ad", &c).message(),
        "Invalid format `ad`: Formatted dates not supported, use `aI` and format the date yourself"
    );
    assert_eq!(
        error_of("cr", &c).message(),
        "Invalid format `cr`: Formatted dates not supported, use `cI` and format the date yourself"
    );
    assert_eq!(
        error_of("d", &c).message(),
        "Invalid format `d`: Formatted ref names not supported, use `D` and format the names yourself"
    );
    assert_eq!(
        error_of("b", &c).message(),
        "Invalid format `b`: Body not supported, use `B` and extract the body yourself"
    );
    assert_eq!(
        error_of("N", &c).message(),
        "Invalid format `N`: Notes not currently supported"
    );
    assert_eq!(
        error_of("GG", &c).message(),
        "Invalid format `GG`: Signatures not currently supported"
    );
    assert_eq!(
        error_of("G?", &c).message(),
        "Invalid format `G?`: Signatures not currently supported"
    );
    assert_eq!(
        error_of("zz", &c).message(),
        "Invalid format `zz`: Not found"
    );
}

#[test]
fn ref_names_are_consumed_with_their_commit() {
    let x = commit(0x10);
    let y = commit(0x20);
    let mut refs = RefIndex::new();
    refs.insert(x.id.clone(), "main".to_string());
    refs.insert(x.id.clone(), "v1.0".to_string());
    let first = as_arr(interpret("D", &x, &mut refs).unwrap());
    assert_eq!(first, vec!["main", "v1.0"]);
    let other = as_arr(interpret("D", &y, &mut refs).unwrap());
    assert_eq!(other, Vec::<String>::new());
    let again = as_arr(interpret("D", &x, &mut refs).unwrap());
    assert_eq!(again, Vec::<String>::new());
}
