use exchange_client::error::ExchangeError;
use exchange_client::request::Method;

#[test]
fn the_three_methods_are_read() {
    assert_eq!(Method::parse("GET"), Ok(Method::Get));
    assert_eq!(Method::parse("POST"), Ok(Method::Post));
    assert_eq!(Method::parse("DELETE"), Ok(Method::Delete));
}

#[test]
fn any_other_method_is_invalid() {
    for text in ["", "get", "PUT", "PATCH", "HEAD", "GET ", "DELETE\n"] {
        assert_eq!(Method::parse(text), Err(ExchangeError::InvalidMethod), "{:?}", text);
    }
}

#[test]
fn a_method_is_written_as_it_is_read() {
    for method in [Method::Get, Method::Post, Method::Delete] {
        assert_eq!(Method::parse(method.as_str()), Ok(method));
    }
    assert!(!Method::Get.carries_body());
    assert!(Method::Post.carries_body());
    assert!(Method::Delete.carries_body());
}

#[test]
fn every_failure_has_a_description() {
    assert_eq!(ExchangeError::InvalidMethod.describe(), "Invalid method.");
    assert_eq!(
        ExchangeError::TransportError { cause: "timed out".to_string() }.describe(),
        "Request error: timed out"
    );
    assert_eq!(
        ExchangeError::MalformedResponse { body: "<html>".to_string(), message: "bad".to_string() }
            .describe(),
        "Failed to parse string to json: <html>. Error: bad."
    );
    assert_eq!(
        ExchangeError::ApiError { code: "1".to_string(), message: "bad key".to_string() }.describe(),
        "API error: 1 - bad key"
    );
    assert_eq!(
        ExchangeError::FieldNotFound { field: "totalEq".to_string() }.describe(),
        "Field not found: totalEq"
    );
    assert_eq!(
        ExchangeError::TypeMismatch.describe(),
        "A value has another shape than expected."
    );
    assert_eq!(ExchangeError::UnsupportedValue.describe(), "Unsupported JSON type!");
}

#[test]
fn only_a_transport_failure_is_one() {
    assert!(ExchangeError::TransportError { cause: String::new() }.is_transport());
    assert!(!ExchangeError::InvalidMethod.is_transport());
    assert!(!ExchangeError::TypeMismatch.is_transport());
}
