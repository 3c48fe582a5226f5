use exchange_client::error::ExchangeError;
use exchange_client::json::{parse_json, JsonValue};
use exchange_client::value::DataValue;

fn text(s: &str) -> JsonValue {
    JsonValue::Text(s.to_string())
}

fn string(s: &str) -> DataValue {
    DataValue::ValueString(s.to_string())
}

#[test]
fn parse_json_reads_every_kind_of_value() {
    let parsed = parse_json(r#"{"a":"x","b":[1,2.5,"y"],"c":{"d":null,"e":true}}"#).unwrap();
    assert_eq!(
        parsed,
        JsonValue::Object(vec![
            ("a".to_string(), text("x")),
            (
                "b".to_string(),
                JsonValue::Array(vec![
                    JsonValue::Number("1".to_string()),
                    JsonValue::Number("2.5".to_string()),
                    text("y"),
                ])
            ),
            (
                "c".to_string(),
                JsonValue::Object(vec![
                    ("d".to_string(), JsonValue::Null),
                    ("e".to_string(), JsonValue::Bool(true)),
                ])
            ),
        ])
    );
}

#[test]
fn parse_json_reports_what_the_parser_says() {
    let error = parse_json("not json").unwrap_err();
    assert!(!error.is_empty());
    assert!(parse_json("").is_err());
    assert!(parse_json("{").is_err());
    assert!(parse_json("{} x").is_err());
}

#[test]
fn parse_json_does_not_hand_its_argument_back() {
    assert_eq!(parse_json("\"a\""), Ok(text("a")));
    assert_eq!(parse_json(" 12 "), Ok(JsonValue::Number("12".to_string())));
    assert_eq!(parse_json("[]"), Ok(JsonValue::Array(vec![])));
}

#[test]
fn a_key_that_comes_twice_is_held_once() {
    let parsed = parse_json(r#"{"a":"1","a":"2"}"#).unwrap();
    assert_eq!(parsed, JsonValue::Object(vec![("a".to_string(), text("2"))]));
}

#[test]
fn field_and_text_of_a_document() {
    let parsed = parse_json(r#"{"code":"0","n":5,"list":[]}"#).unwrap();
    assert_eq!(parsed.field("code").and_then(|v| v.text()), Some(&"0".to_string()));
    assert_eq!(parsed.field("n").and_then(|v| v.text()), Some(&"5".to_string()));
    assert_eq!(parsed.field("list").and_then(|v| v.text()), None);
    assert_eq!(parsed.field("missing"), None);
    assert_eq!(text("x").field("code"), None);
}

#[test]
fn from_json_turns_strings_and_numbers_into_text() {
    assert_eq!(DataValue::from_json(&text("abc")), Ok(string("abc")));
    assert_eq!(
        DataValue::from_json(&JsonValue::Number("100.5".to_string())),
        Ok(string("100.5"))
    );
}

#[test]
fn from_json_turns_objects_into_maps_and_arrays_into_lists() {
    let json = JsonValue::Object(vec![
        ("name".to_string(), text("x")),
        (
            "items".to_string(),
            JsonValue::Array(vec![JsonValue::Number("1".to_string()), text("two")]),
        ),
    ]);
    assert_eq!(
        DataValue::from_json(&json),
        Ok(DataValue::ValueMap(vec![
            ("name".to_string(), string("x")),
            (
                "items".to_string(),
                DataValue::ValueVector(vec![string("1"), string("two")])
            ),
        ]))
    );
}

#[test]
fn from_json_refuses_null_and_booleans_at_any_depth() {
    assert_eq!(DataValue::from_json(&JsonValue::Null), Err(ExchangeError::UnsupportedValue));
    assert_eq!(
        DataValue::from_json(&JsonValue::Bool(false)),
        Err(ExchangeError::UnsupportedValue)
    );
    let deep = JsonValue::Array(vec![
        text("ok"),
        JsonValue::Object(vec![("flag".to_string(), JsonValue::Bool(true))]),
    ]);
    assert_eq!(DataValue::from_json(&deep), Err(ExchangeError::UnsupportedValue));
    let deep = JsonValue::Object(vec![(
        "a".to_string(),
        JsonValue::Array(vec![JsonValue::Null]),
    )]);
    assert_eq!(DataValue::from_json(&deep), Err(ExchangeError::UnsupportedValue));
}

#[test]
fn empty_containers_convert() {
    assert_eq!(
        DataValue::from_json(&JsonValue::Array(vec![])),
        Ok(DataValue::ValueVector(vec![]))
    );
    assert_eq!(
        DataValue::from_json(&JsonValue::Object(vec![])),
        Ok(DataValue::ValueMap(vec![]))
    );
}

#[test]
fn writing_a_value_and_converting_it_gives_the_value_back() {
    let value = DataValue::ValueMap(vec![
        ("a".to_string(), string("1")),
        (
            "b".to_string(),
            DataValue::ValueVector(vec![
                string("x"),
                DataValue::ValueMap(vec![("c".to_string(), string(""))]),
                DataValue::ValueVector(vec![]),
            ]),
        ),
    ]);
    let json = value.to_json();
    assert_eq!(DataValue::from_json(&json), Ok(value));
}

#[test]
fn converting_a_document_and_writing_it_keeps_its_shape() {
    let json = parse_json(r#"{"data":[{"totalEq":"100.5","n":3,"details":[]}],"msg":""}"#).unwrap();
    let back = DataValue::from_json(&json).unwrap().to_json();
    let expected = parse_json(r#"{"data":[{"totalEq":"100.5","n":"3","details":[]}],"msg":""}"#)
        .unwrap();
    assert_eq!(back, expected);
}

#[test]
fn accessors_report_the_wrong_shape() {
    let list = DataValue::ValueVector(vec![string("x")]);
    let map = DataValue::ValueMap(vec![("k".to_string(), string("v"))]);
    assert_eq!(string("t").as_text(), Ok(&"t".to_string()));
    assert_eq!(list.as_text(), Err(ExchangeError::TypeMismatch));
    assert_eq!(map.as_list(), Err(ExchangeError::TypeMismatch));
    assert_eq!(list.as_list().map(|items| items.len()), Ok(1));
    assert_eq!(list.get("k"), Err(ExchangeError::TypeMismatch));
    assert_eq!(map.get("k"), Ok(&string("v")));
    assert_eq!(
        map.get("other"),
        Err(ExchangeError::FieldNotFound { field: "other".to_string() })
    );
    assert_eq!(list.string_fields().err(), Some(ExchangeError::TypeMismatch));
    assert_eq!(string("t").all_string_fields().err(), Some(ExchangeError::TypeMismatch));
}

#[test]
fn string_fields_leaves_out_what_is_no_text() {
    let map = DataValue::ValueMap(vec![
        ("a".to_string(), string("1")),
        ("b".to_string(), DataValue::ValueVector(vec![])),
        ("c".to_string(), string("3")),
    ]);
    let record = map.string_fields().unwrap();
    assert_eq!(record.len(), 2);
    assert_eq!(record.get("a"), Some(&"1".to_string()));
    assert_eq!(record.get("b"), None);
    assert_eq!(record.get("c"), Some(&"3".to_string()));
    assert_eq!(map.all_string_fields().err(), Some(ExchangeError::TypeMismatch));
}

#[test]
fn all_string_fields_takes_a_map_of_texts() {
    let map = DataValue::ValueMap(vec![
        ("a".to_string(), string("1")),
        ("b".to_string(), string("2")),
    ]);
    let record = map.all_string_fields().unwrap();
    assert_eq!(record.len(), 2);
    assert_eq!(record.get("b"), Some(&"2".to_string()));
}

#[test]
fn of_fields_with_the_same_name_only_the_first_counts() {
    let map = DataValue::ValueMap(vec![
        ("a".to_string(), string("1")),
        ("b".to_string(), DataValue::ValueVector(vec![])),
        ("a".to_string(), string("2")),
        ("b".to_string(), string("3")),
        ("c".to_string(), string("4")),
    ]);
    assert_eq!(map.get("a"), Ok(&string("1")));
    assert_eq!(map.get("b"), Ok(&DataValue::ValueVector(vec![])));
    let record = map.string_fields().unwrap();
    assert_eq!(record.len(), 2);
    assert_eq!(record.get("a"), Some(&"1".to_string()));
    assert_eq!(record.get("b"), None);
    assert_eq!(record.get("c"), Some(&"4".to_string()));
    let texts = DataValue::ValueMap(vec![
        ("a".to_string(), string("1")),
        ("a".to_string(), string("2")),
    ]);
    let record = texts.all_string_fields().unwrap();
    assert_eq!(record.len(), 1);
    assert_eq!(record.get("a"), Some(&"1".to_string()));
}

#[test]
fn a_parsed_document_holds_each_name_once_at_every_depth() {
    let parsed = parse_json(r#"{"a":{"b":1,"b":2},"a":{"c":[{"d":1,"d":2,"e":3}]}}"#).unwrap();
    assert_eq!(
        parsed,
        JsonValue::Object(vec![(
            "a".to_string(),
            JsonValue::Object(vec![(
                "c".to_string(),
                JsonValue::Array(vec![JsonValue::Object(vec![
                    ("d".to_string(), JsonValue::Number("2".to_string())),
                    ("e".to_string(), JsonValue::Number("3".to_string())),
                ])])
            )])
        )])
    );
}
