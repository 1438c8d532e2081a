use package_json::JsonValue;

fn sample() -> JsonValue {
    JsonValue::Object(vec![
        ("b".to_owned(), JsonValue::Array(vec![JsonValue::Null, JsonValue::Bool(true)])),
        ("a".to_owned(), JsonValue::Text("x".to_owned())),
        ("n".to_owned(), JsonValue::Number(serde_json::Number::from(12))),
        ("o".to_owned(), JsonValue::Object(vec![])),
    ])
}

#[test]
fn parse_reads_every_kind_of_value_in_document_order() {
    let parsed = JsonValue::parse(r#" {"b": [null, true], "a": "x", "n": 12, "o": {}} "#).unwrap();
    assert_eq!(parsed, sample());
}

#[test]
fn parse_refuses_what_is_not_json() {
    assert!(JsonValue::parse("{").is_err());
    assert!(JsonValue::parse("").is_err());
    assert!(JsonValue::parse("[1,]").is_err());
    assert!(JsonValue::parse("{} {}").is_err());
}

#[test]
fn render_writes_compact_or_indented_text() {
    assert_eq!(sample().render(false).unwrap(), r#"{"b":[null,true],"a":"x","n":12,"o":{}}"#);
    assert_eq!(
        sample().render(true).unwrap(),
        "{\n  \"b\": [\n    null,\n    true\n  ],\n  \"a\": \"x\",\n  \"n\": 12,\n  \"o\": {}\n}"
    );
    assert_eq!(JsonValue::Text("a\"b".to_owned()).render(false).unwrap(), r#""a\"b""#);
}

#[test]
fn rendered_text_parses_back() {
    let value = sample();
    assert_eq!(JsonValue::parse(&value.render(false).unwrap()).unwrap(), value);
    assert_eq!(JsonValue::parse(&value.render(true).unwrap()).unwrap(), value);
}

#[test]
fn get_finds_members_of_objects_only() {
    let value = sample();
    assert_eq!(value.get("a"), Some(&JsonValue::Text("x".to_owned())));
    assert_eq!(value.get("o"), Some(&JsonValue::Object(vec![])));
    assert_eq!(value.get("missing"), None);
    assert_eq!(value.get(""), None);
    assert_eq!(JsonValue::Text("a".to_owned()).get("a"), None);
    assert_eq!(JsonValue::Array(vec![JsonValue::Null]).get("0"), None);
}

#[test]
fn get_answers_with_the_first_member_of_a_name() {
    let value = JsonValue::Object(vec![
        ("k".to_owned(), JsonValue::Bool(true)),
        ("k".to_owned(), JsonValue::Bool(false)),
    ]);
    assert_eq!(value.get("k"), Some(&JsonValue::Bool(true)));
}

#[test]
fn is_null_holds_of_null_alone() {
    assert!(JsonValue::Null.is_null());
    assert!(!JsonValue::Bool(false).is_null());
    assert!(!JsonValue::Text(String::new()).is_null());
    assert!(!JsonValue::Array(vec![]).is_null());
}

#[test]
fn duplicate_and_clone_copy_the_whole_document() {
    let value = sample();
    assert_eq!(value.duplicate(), value);
    assert_eq!(value.clone(), value);
    assert_eq!(JsonValue::Null.duplicate(), JsonValue::Null);
}

#[test]
fn a_name_that_comes_twice_is_written_once_with_its_last_value() {
    let value = JsonValue::Object(vec![
        ("k".to_owned(), JsonValue::Bool(true)),
        ("j".to_owned(), JsonValue::Null),
        ("k".to_owned(), JsonValue::Bool(false)),
        (
            "inner".to_owned(),
            JsonValue::Array(vec![JsonValue::Object(vec![
                ("a".to_owned(), JsonValue::Text("first".to_owned())),
                ("a".to_owned(), JsonValue::Text("second".to_owned())),
            ])]),
        ),
    ]);
    assert_eq!(value.render(false).unwrap(), r#"{"k":false,"j":null,"inner":[{"a":"second"}]}"#);
    let parsed = JsonValue::parse(r#"{"k":true,"j":null,"k":false}"#).unwrap();
    assert_eq!(
        parsed,
        JsonValue::Object(vec![
            ("k".to_owned(), JsonValue::Bool(false)),
            ("j".to_owned(), JsonValue::Null),
        ])
    );
}

#[test]
fn nested_documents_are_read_and_written_level_by_level() {
    let mut text = String::new();
    let mut value = JsonValue::Text("core".to_owned());
    for _ in 0..50 {
        value = JsonValue::Object(vec![("in".to_owned(), JsonValue::Array(vec![value]))]);
    }
    for _ in 0..50 {
        text.push_str(r#"{"in":["#);
    }
    text.push_str(r#""core""#);
    for _ in 0..50 {
        text.push_str("]}");
    }
    assert_eq!(JsonValue::parse(&text).unwrap(), value);
    assert_eq!(value.render(false).unwrap(), text);
}
