use hanabi_bot::command::payload::{read_payload, Payload};
use hanabi_bot::json::Json;

fn text(s: &str) -> Json {
    Json::Text(s.to_string())
}

fn document(payload: &str) -> Json {
    match read_payload(payload) {
        Ok(Payload::Document(json)) => json,
        other => panic!("no document in {payload:?}: {other:?}"),
    }
}

#[test]
fn empty_text_is_the_empty_payload() {
    assert_eq!(read_payload(""), Ok(Payload::Empty));
}

#[test]
fn scalars_are_read() {
    assert_eq!(document("null"), Json::Null);
    assert_eq!(document("true"), Json::Bool(true));
    assert_eq!(document("false"), Json::Bool(false));
    assert_eq!(document("7"), Json::Number(Some(7)));
    assert_eq!(document("-7"), Json::Number(Some(-7)));
    assert_eq!(document("0"), Json::Number(Some(0)));
    assert_eq!(document("\"a\\\"b\\n\\u00e9\""), text("a\"b\né"));
}

#[test]
fn integers_are_held_from_i64_min_to_u64_max() {
    assert_eq!(document("18446744073709551615"), Json::Number(Some(u64::MAX as i128)));
    assert_eq!(document("-9223372036854775808"), Json::Number(Some(i64::MIN as i128)));
    // Beyond that range a number is no integer that the reader holds.
    assert_eq!(document("18446744073709551616"), Json::Number(None));
    assert_eq!(document("-9223372036854775809"), Json::Number(None));
}

#[test]
fn other_numbers_hold_no_integer() {
    assert_eq!(document("7.0"), Json::Number(None));
    assert_eq!(document("7.5"), Json::Number(None));
    assert_eq!(document("7e0"), Json::Number(None));
    assert_eq!(document("-0"), Json::Number(None));
}

#[test]
fn arrays_and_objects_are_read_in_order() {
    assert_eq!(
        document("[1, \"a\", [], {}]"),
        Json::Array(vec![
            Json::Number(Some(1)),
            text("a"),
            Json::Array(vec![]),
            Json::Object(vec![]),
        ])
    );
    assert_eq!(
        document("{\"b\": 1, \"a\": {\"c\": null}}"),
        Json::Object(vec![
            ("b".to_string(), Json::Number(Some(1))),
            ("a".to_string(), Json::Object(vec![("c".to_string(), Json::Null)])),
        ])
    );
}

#[test]
fn a_repeated_member_keeps_its_last_value() {
    let json = document("{\"a\": 1, \"b\": 2, \"a\": 3}");
    assert_eq!(json.member("a"), Some(&Json::Number(Some(3))));
    assert_eq!(json.member("b"), Some(&Json::Number(Some(2))));
}

#[test]
fn whitespace_around_a_document_is_allowed() {
    assert_eq!(document(" \t\n7 \n"), Json::Number(Some(7)));
}

#[test]
fn text_that_is_no_document_is_refused() {
    assert!(read_payload("{").is_err());
    assert!(read_payload("{\"a\":}").is_err());
    assert!(read_payload("7 8").is_err());
    assert!(read_payload("tru").is_err());
    assert!(read_payload("'a'").is_err());
    assert!(read_payload(" ").is_err());
    assert!(read_payload("{\"a\": 1,}").is_err());
}

#[test]
fn member_finds_the_last_of_a_name() {
    let json = Json::Object(vec![
        ("a".to_string(), Json::Number(Some(1))),
        ("b".to_string(), Json::Number(Some(2))),
        ("a".to_string(), Json::Number(Some(3))),
    ]);
    assert_eq!(json.member("a"), Some(&Json::Number(Some(3))));
    assert_eq!(json.member("b"), Some(&Json::Number(Some(2))));
    assert_eq!(json.member("c"), None);
    assert_eq!(json.member(""), None);
}

#[test]
fn member_of_what_is_no_object_is_nothing() {
    assert_eq!(Json::Null.member("a"), None);
    assert_eq!(Json::Array(vec![text("a")]).member("a"), None);
    assert_eq!(text("a").member("a"), None);
    assert_eq!(Json::Object(vec![]).member("a"), None);
}

#[test]
fn as_u64_takes_what_fits() {
    assert_eq!(Json::Number(Some(0)).as_u64(), Some(0));
    assert_eq!(Json::Number(Some(u64::MAX as i128)).as_u64(), Some(u64::MAX));
    assert_eq!(Json::Number(Some(u64::MAX as i128 + 1)).as_u64(), None);
    assert_eq!(Json::Number(Some(-1)).as_u64(), None);
    assert_eq!(Json::Number(None).as_u64(), None);
    assert_eq!(text("7").as_u64(), None);
    assert_eq!(Json::Null.as_u64(), None);
}

#[test]
fn as_i32_takes_what_fits() {
    assert_eq!(Json::Number(Some(i32::MAX as i128)).as_i32(), Some(i32::MAX));
    assert_eq!(Json::Number(Some(i32::MIN as i128)).as_i32(), Some(i32::MIN));
    assert_eq!(Json::Number(Some(i32::MAX as i128 + 1)).as_i32(), None);
    assert_eq!(Json::Number(Some(i32::MIN as i128 - 1)).as_i32(), None);
    assert_eq!(Json::Number(None).as_i32(), None);
    assert_eq!(Json::Bool(true).as_i32(), None);
}

#[test]
fn as_text_and_as_items_tell_the_kinds_apart() {
    assert_eq!(text("a").as_text(), Some("a"));
    assert_eq!(Json::Null.as_text(), None);
    let items = vec![Json::Null];
    assert_eq!(Json::Array(vec![Json::Null]).as_items(), Some(&items));
    assert_eq!(Json::Object(vec![]).as_items(), None);
    assert!(Json::Object(vec![]).is_object());
    assert!(!Json::Array(vec![]).is_object());
}

#[test]
fn typed_members_are_read() {
    let json = document("{\"n\": 7, \"s\": \"x\", \"z\": null, \"neg\": -1}");
    assert_eq!(json.u64_member("n"), Some(7));
    assert_eq!(json.u64_member("neg"), None);
    assert_eq!(json.u64_member("s"), None);
    assert_eq!(json.u64_member("missing"), None);
    assert_eq!(json.i32_member("neg"), Some(-1));
    assert_eq!(json.i32_member("z"), None);
    assert_eq!(json.text_member("s"), Some("x".to_string()));
    assert_eq!(json.text_member("n"), None);
}

#[test]
fn members_that_may_be_left_out() {
    let json = document("{\"n\": 7, \"s\": \"x\", \"z\": null}");
    assert_eq!(json.optional_u64_member("n"), Some(Some(7)));
    assert_eq!(json.optional_u64_member("z"), Some(None));
    assert_eq!(json.optional_u64_member("missing"), Some(None));
    assert_eq!(json.optional_u64_member("s"), None);
    assert_eq!(json.optional_text_member("s"), Some(Some("x".to_string())));
    assert_eq!(json.optional_text_member("z"), Some(None));
    assert_eq!(json.optional_text_member("missing"), Some(None));
    assert_eq!(json.optional_text_member("n"), None);
}

#[test]
fn builders_make_the_documents_they_name() {
    assert_eq!(Json::from_u64(u64::MAX), Json::Number(Some(u64::MAX as i128)));
    assert_eq!(Json::from_i32(i32::MIN), Json::Number(Some(i32::MIN as i128)));
    assert_eq!(Json::from_text("a"), text("a"));
    assert_eq!(Json::entry("k", Json::Null), ("k".to_string(), Json::Null));
    assert_eq!(Json::object(vec![]), Json::Object(vec![]));
    assert_eq!(Json::array(vec![Json::Null]), Json::Array(vec![Json::Null]));
}
