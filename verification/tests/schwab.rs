use exchange_client::broker::charles_schwab::{CharlesSchwab, Payload};
use exchange_client::error::ExchangeError;
use exchange_client::string_map::StringMap;

fn map_of(pairs: &[(&str, &str)]) -> StringMap {
    let mut map = StringMap::new();
    for (key, value) in pairs {
        map.insert(key.to_string(), value.to_string());
    }
    map
}

fn client() -> CharlesSchwab {
    CharlesSchwab::new(map_of(&[("app_key", "app"), ("secret", "shh")]))
}

fn not_found() -> ExchangeError {
    ExchangeError::FieldNotFound { field: "code".to_string() }
}

#[test]
fn new_builds_the_authorize_url() {
    let c = client();
    assert_eq!(
        c.authorization_url(),
        "https://api.schwabapi.com/v1/oauth/authorize?client_id=app&redirect_uri=https://127.0.0.1"
    );
    assert_eq!(c.trading_url(), "https://api.schwabapi.com/trader/v1");
    assert!(!c.sandbox());
}

#[test]
fn sandbox_is_read_from_the_settings() {
    let c = CharlesSchwab::new(map_of(&[("app_key", "a"), ("secret", "s"), ("is_sandbox", "true")]));
    assert!(c.sandbox());
    for flag in ["false", "True", "1", ""] {
        let c = CharlesSchwab::new(map_of(&[("app_key", "a"), ("secret", "s"), ("is_sandbox", flag)]));
        assert!(!c.sandbox(), "{:?}", flag);
    }
}

#[test]
fn authorization_is_basic_and_the_encoded_credentials() {
    assert_eq!(client().authorization(), "Basic YXBwOnNoaA==");
}

#[test]
fn token_request_carries_the_code_of_the_callback() {
    let (headers, payload) = client()
        .construct_headers_and_payload("https://127.0.0.1/?code=C0.abc%40&session=xyz")
        .unwrap();
    assert_eq!(
        headers,
        vec![("Authorization".to_string(), "Basic YXBwOnNoaA==".to_string())]
    );
    assert_eq!(
        payload,
        Payload {
            grant_type: "authorization_code".to_string(),
            code: "C0.abc@".to_string(),
            redirect_uri: "https://127.0.0.1".to_string(),
        }
    );
}

#[test]
fn the_first_code_of_the_callback_counts() {
    let (_, payload) = client()
        .construct_headers_and_payload("https://127.0.0.1/?state=1&code=first&code=second")
        .unwrap();
    assert_eq!(payload.code, "first");
    let (_, payload) = client()
        .construct_headers_and_payload("https://127.0.0.1/?code=")
        .unwrap();
    assert_eq!(payload.code, "");
}

#[test]
fn a_callback_without_a_code_is_reported() {
    let c = client();
    assert_eq!(
        c.construct_headers_and_payload("https://127.0.0.1/?session=xyz").err(),
        Some(not_found())
    );
    assert_eq!(c.construct_headers_and_payload("https://127.0.0.1").err(), Some(not_found()));
    assert_eq!(c.construct_headers_and_payload("not a url").err(), Some(not_found()));
    assert_eq!(c.construct_headers_and_payload("").err(), Some(not_found()));
    assert_eq!(
        c.construct_headers_and_payload("https://127.0.0.1/?Code=x").err(),
        Some(not_found())
    );
}

#[test]
fn token_request_from_pairs() {
    let c = client();
    assert_eq!(c.token_request_from(None).err(), Some(not_found()));
    assert_eq!(c.token_request_from(Some(vec![])).err(), Some(not_found()));
    let pairs = vec![
        ("session".to_string(), "s".to_string()),
        ("code".to_string(), "abc".to_string()),
    ];
    let (_, payload) = c.token_request_from(Some(pairs)).unwrap();
    assert_eq!(payload.code, "abc");
}
