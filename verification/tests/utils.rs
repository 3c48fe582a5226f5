use exchange_client::error::ExchangeError;
use exchange_client::json::{parse_json, JsonValue};
use exchange_client::utils::{read_configs, select_account};

const CONFIG: &str = r#"[
    {"name": "okx_account", "key": "k1", "secret": "s1", "passphrase": "p1", "is_demo": "true", "limit": 5},
    {"name": "binance_account", "key": "k2", "secret": "s2", "tags": ["a"]},
    {"name": "okx_account", "key": "later"},
    "stray",
    {"key": "nameless"}
]"#;

#[test]
fn settings_of_the_named_account_are_its_string_fields() {
    let settings = read_configs(CONFIG, "okx_account").unwrap();
    assert_eq!(settings.len(), 5);
    assert_eq!(settings.get("name"), Some(&"okx_account".to_string()));
    assert_eq!(settings.get("key"), Some(&"k1".to_string()));
    assert_eq!(settings.get("secret"), Some(&"s1".to_string()));
    assert_eq!(settings.get("passphrase"), Some(&"p1".to_string()));
    assert_eq!(settings.get("is_demo"), Some(&"true".to_string()));
    assert_eq!(settings.get("limit"), None);
}

#[test]
fn the_first_account_of_a_name_is_taken() {
    let settings = read_configs(CONFIG, "binance_account").unwrap();
    assert_eq!(settings.len(), 3);
    assert_eq!(settings.get("key"), Some(&"k2".to_string()));
    assert_eq!(settings.get("tags"), None);
    let settings = read_configs(CONFIG, "okx_account").unwrap();
    assert_eq!(settings.get("key"), Some(&"k1".to_string()));
}

#[test]
fn an_unknown_account_is_not_found() {
    assert_eq!(
        read_configs(CONFIG, "kraken").err(),
        Some(ExchangeError::FieldNotFound { field: "kraken".to_string() })
    );
    assert_eq!(
        read_configs("[]", "okx_account").err(),
        Some(ExchangeError::FieldNotFound { field: "okx_account".to_string() })
    );
    assert_eq!(
        read_configs(r#"[{"name": 5}, {"name": ["okx_account"]}]"#, "5").err(),
        Some(ExchangeError::FieldNotFound { field: "5".to_string() })
    );
}

#[test]
fn a_configuration_that_is_no_array_is_refused() {
    assert_eq!(
        read_configs(r#"{"name": "okx_account"}"#, "okx_account").err(),
        Some(ExchangeError::TypeMismatch)
    );
    assert_eq!(read_configs("\"x\"", "x").err(), Some(ExchangeError::TypeMismatch));
}

#[test]
fn a_configuration_that_is_no_json_carries_its_text() {
    match read_configs("name = okx", "okx") {
        Err(ExchangeError::MalformedResponse { body, message }) => {
            assert_eq!(body, "name = okx");
            assert!(!message.is_empty());
        }
        other => panic!("{:?}", other.map(|m| m.len())),
    }
}

#[test]
fn select_account_takes_what_the_parser_made() {
    let text = r#"[{"name": "a", "key": "k"}]"#;
    let settings = select_account(parse_json(text), text, "a").unwrap();
    assert_eq!(settings.get("key"), Some(&"k".to_string()));
    assert_eq!(
        select_account(Err("boom".to_string()), "raw", "a").err(),
        Some(ExchangeError::MalformedResponse {
            body: "raw".to_string(),
            message: "boom".to_string()
        })
    );
}

#[test]
fn an_account_that_writes_a_name_twice_is_read_by_its_first() {
    let account = JsonValue::Object(vec![
        ("name".to_string(), JsonValue::Text("a".to_string())),
        ("name".to_string(), JsonValue::Text("b".to_string())),
        ("key".to_string(), JsonValue::Number("1".to_string())),
        ("key".to_string(), JsonValue::Text("k".to_string())),
    ]);
    let settings = select_account(Ok(JsonValue::Array(vec![account])), "", "a").unwrap();
    assert_eq!(settings.len(), 1);
    assert_eq!(settings.get("name"), Some(&"a".to_string()));
    assert_eq!(settings.get("key"), None);
}
