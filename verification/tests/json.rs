use omp::json::{parse_json, print_json, Json};

fn parsed(text: &str) -> Json {
    parse_json(text).expect("valid JSON")
}

#[test]
fn reading_keeps_the_order_of_fields() {
    let json = parsed(r#"{"b":1,"a":[true,null,"x"],"c":{"d":-2.5}}"#);
    assert_eq!(print_json(&json), r#"{"b":1,"a":[true,null,"x"],"c":{"d":-2.5}}"#);
}

#[test]
fn what_is_not_json_is_refused() {
    for text in ["", "{", "[1,]", "nope", "{\"a\":1} x"] {
        assert!(parse_json(text).is_none());
    }
}

#[test]
fn the_last_of_equal_names_is_read() {
    let json = parsed(r#"{"a":"first","a":"second"}"#);
    assert_eq!(json.text_field("a"), Some("second"));
}

#[test]
fn printing_escapes_line_feeds() {
    let json = Json::string("two\nlines \"quoted\" \\");
    let text = print_json(&json);
    assert!(!text.contains('\n'));
    assert_eq!(text, r#""two\nlines \"quoted\" \\""#);
}

#[test]
fn plain_entries_print_without_white_space() {
    let json = Json::Object(vec![("query".to_string(), Json::string("a b {c}"))]);
    assert_eq!(print_json(&json), r#"{"query":"a b {c}"}"#);
}

#[test]
fn fields_are_read_by_their_kind() {
    let json = parsed(r#"{"text":"t","empty":"","yes":true,"null":null,"second":"s"}"#);
    assert_eq!(json.text_field("text"), Some("t"));
    assert_eq!(json.text_field("yes"), None);
    assert_eq!(json.text_field("missing"), None);
    assert_eq!(json.filled_text_field("empty"), None);
    assert_eq!(json.filled_text_field("text"), Some("t"));
    assert_eq!(json.bool_field("yes"), Some(true));
    assert_eq!(json.bool_field("text"), None);
    assert_eq!(json.either_text_field("missing", "second"), Some("s"));
    // A field that is there shadows the other one, whatever it holds.
    assert_eq!(json.either_text_field("null", "second"), None);
    assert_eq!(Json::Null.get("text"), None);
    assert_eq!(json.get("null"), Some(&Json::Null));
}

#[test]
fn setting_a_field_touches_no_other() {
    let mut json = parsed(r#"{"type":"get_state","id":"old","x":1}"#);
    json.set("id", Json::string("new"));
    assert_eq!(print_json(&json), r#"{"type":"get_state","id":"new","x":1}"#);
    json.set("y", Json::Bool(false));
    assert_eq!(print_json(&json), r#"{"type":"get_state","id":"new","x":1,"y":false}"#);
    let mut null = Json::Null;
    null.set("id", Json::string("a"));
    assert_eq!(print_json(&null), r#"{"id":"a"}"#);
}

#[test]
fn copies_are_equal() {
    let json = parsed(r#"[1,"a",{"b":[false,null]},2.5]"#);
    assert_eq!(json.copy(), json);
}
