use exchange_client::error::ExchangeError;
use exchange_client::constants::Side;
use exchange_client::exchange::base::BaseExchange;
use exchange_client::exchange::binance::BinanceExchange;
use exchange_client::json::parse_json;
use exchange_client::request::Method;
use exchange_client::string_map::StringMap;
use exchange_client::value::DataValue;

fn map_of(pairs: &[(&str, &str)]) -> StringMap {
    let mut map = StringMap::new();
    for (key, value) in pairs {
        map.insert(key.to_string(), value.to_string());
    }
    map
}

fn client() -> BinanceExchange {
    BinanceExchange::new(&map_of(&[("key", "the-key"), ("secret", "sec")]))
}

fn pair(name: &str, value: &str) -> (String, String) {
    (name.to_string(), value.to_string())
}

#[test]
fn generate_signature_of_the_pinned_query() {
    let client = BinanceExchange::new(&map_of(&[("key", "k"), ("secret", "s")]));
    assert_eq!(
        client.generate_signature("symbol=BTC&timestamp=1000"),
        "5c5f421b9a221151cab429a10e2bf2e8c4611d33d35e97e003920df5b6a231b3"
    );
}

#[test]
fn headers_carry_the_content_type_and_the_key() {
    assert_eq!(
        client().get_headers(),
        vec![
            pair("Content-Type", "application/json;charset=utf-8"),
            pair("X-MBX-APIKEY", "the-key"),
        ]
    );
}

#[test]
fn request_without_parameters_signs_the_timestamp_alone() {
    let request = client()
        .build_request("GET", "/papi/v1/account", None, 1700000000000)
        .unwrap();
    assert_eq!(request.method, Method::Get);
    assert_eq!(
        request.url,
        "https://papi.binance.com/papi/v1/account?timestamp=1700000000000&signature=d54ae89989be83bbf026cf4d1758899399bb97f4b395cab3f82753ee7c093e45"
    );
    assert_eq!(request.headers, client().get_headers());
    assert_eq!(request.body, None);
}

#[test]
fn request_with_parameters_puts_them_before_the_timestamp() {
    let params = map_of(&[("symbol", "BTCUSDT"), ("side", "BUY")]);
    let request = client()
        .build_request("GET", "/papi/v1/um/order", Some(&params), 1700000000000)
        .unwrap();
    assert_eq!(
        request.url,
        "https://papi.binance.com/papi/v1/um/order?symbol=BTCUSDT&side=BUY&timestamp=1700000000000&signature=913cca2cab3ddde2cef78606b985bad613e5f7e6bd201908f5d78f6fcc018657"
    );
    assert_eq!(request.body, None);
}

#[test]
fn post_and_delete_carry_the_parameters_as_a_body_too() {
    let params = map_of(&[("symbol", "BTCUSDT"), ("side", "BUY")]);
    for (name, method) in [("POST", Method::Post), ("DELETE", Method::Delete)] {
        let request = client()
            .build_request(name, "/papi/v1/um/order", Some(&params), 1700000000000)
            .unwrap();
        assert_eq!(request.method, method);
        assert!(request.url.ends_with(
            "?symbol=BTCUSDT&side=BUY&timestamp=1700000000000&signature=913cca2cab3ddde2cef78606b985bad613e5f7e6bd201908f5d78f6fcc018657"
        ));
        assert_eq!(
            request.body,
            Some(r#"{"side":"BUY","symbol":"BTCUSDT"}"#.to_string())
        );
    }
    let request = client().build_request("POST", "/x", None, 5).unwrap();
    assert_eq!(request.body, None);
}

#[test]
fn empty_parameters_still_stand_before_the_timestamp() {
    let params = StringMap::new();
    let request = client().build_request("GET", "/e", Some(&params), 5).unwrap();
    assert_eq!(
        request.url,
        "https://papi.binance.com/e?&timestamp=5&signature=4f7762f380d950ef9b1a661d24f3c60ea321ac0f8450514264c26256532699af"
    );
}

#[test]
fn binance_invalid_method_is_refused() {
    assert_eq!(
        client().build_request("PUT", "/papi/v1/account", None, 1).err(),
        Some(ExchangeError::InvalidMethod)
    );
}

#[test]
fn binance_building_the_same_request_twice_gives_the_same_bytes() {
    let params = map_of(&[("a b", "c&d"), ("x", "y")]);
    let first = client().build_request("POST", "/p", Some(&params), 42).unwrap();
    let again = client().build_request("POST", "/p", Some(&params), 42).unwrap();
    assert_eq!(first, again);
    let later = client().build_request("POST", "/p", Some(&params), 43).unwrap();
    assert_ne!(first.url, later.url);
}

#[test]
fn account_info_request_is_a_get_of_the_account_endpoint() {
    assert_eq!(
        client().account_info_request(1700000000000),
        client()
            .build_request("GET", "/papi/v1/account", None, 1700000000000)
            .unwrap()
    );
}

#[test]
fn success_is_a_2xx_status_and_the_body_is_the_payload() {
    let value = BinanceExchange::parse_response(200, r#"{"uniMMR":"5.1","n":1}"#).unwrap();
    assert_eq!(
        value,
        DataValue::ValueMap(vec![
            ("n".to_string(), DataValue::ValueString("1".to_string())),
            ("uniMMR".to_string(), DataValue::ValueString("5.1".to_string())),
        ])
    );
}

#[test]
fn binance_malformed_body_carries_the_raw_body() {
    for status in [200, 400, 502] {
        match BinanceExchange::parse_response(status, "<html>bad gateway</html>") {
            Err(ExchangeError::MalformedResponse { body, message }) => {
                assert_eq!(body, "<html>bad gateway</html>");
                assert!(!message.is_empty());
            }
            other => panic!("{:?}", other),
        }
    }
}

#[test]
fn status_outside_2xx_is_an_api_error_with_the_status_and_the_body() {
    let body = r#"{"code":-2015,"msg":"Invalid API-key, IP, or permissions for action."}"#;
    assert_eq!(
        BinanceExchange::parse_response(401, body),
        Err(ExchangeError::ApiError { code: "401".to_string(), message: body.to_string() })
    );
    assert_eq!(
        BinanceExchange::parse_response(199, "{}"),
        Err(ExchangeError::ApiError { code: "199".to_string(), message: "{}".to_string() })
    );
    assert_eq!(
        BinanceExchange::parse_response(300, "null"),
        Err(ExchangeError::ApiError { code: "300".to_string(), message: "null".to_string() })
    );
}

#[test]
fn null_and_booleans_in_a_payload_are_unsupported() {
    assert_eq!(
        BinanceExchange::parse_response(200, r#"{"a":null}"#),
        Err(ExchangeError::UnsupportedValue)
    );
    assert_eq!(
        BinanceExchange::parse_response(200, "true"),
        Err(ExchangeError::UnsupportedValue)
    );
}

#[test]
fn binance_normalize_takes_what_the_parser_made() {
    assert_eq!(
        BinanceExchange::normalize(Err("boom".to_string()), 200, "raw"),
        Err(ExchangeError::MalformedResponse {
            body: "raw".to_string(),
            message: "boom".to_string()
        })
    );
    assert_eq!(
        BinanceExchange::normalize(parse_json("\"x\""), 204, "\"x\""),
        Ok(DataValue::ValueString("x".to_string()))
    );
}

#[test]
fn test_get_account_info() {
    let info = client()
        .get_account_info(200, r#"{"uniMMR":"5.1","accountEquity":"100.25","updateTime":1700000000000}"#)
        .unwrap();
    assert_eq!(info.len(), 3);
    assert_eq!(info.get("uniMMR"), Some(&"5.1".to_string()));
    assert_eq!(info.get("accountEquity"), Some(&"100.25".to_string()));
    assert_eq!(info.get("updateTime"), Some(&"1700000000000".to_string()));
}

#[test]
fn account_info_must_be_a_map_of_texts() {
    assert_eq!(
        client().get_account_info(200, r#"{"a":"1","b":["x"]}"#).err(),
        Some(ExchangeError::TypeMismatch)
    );
    assert_eq!(
        client().get_account_info(200, r#"["a"]"#).err(),
        Some(ExchangeError::TypeMismatch)
    );
    assert_eq!(
        client().get_account_info(500, "oops").err(),
        Some(ExchangeError::MalformedResponse {
            body: "oops".to_string(),
            message: "expected value at line 1 column 1".to_string()
        })
    );
}

#[test]
fn binance_capability_requests() {
    let c = client();
    let ticker = c.request_ticker("BTCUSDT", 7).unwrap();
    assert_eq!(ticker.method, Method::Get);
    assert_eq!(
        ticker.url,
        "https://fapi.binance.com/fapi/v1/ticker/bookTicker?symbol=BTCUSDT&timestamp=7&signature=3575b280ecd4e413a719eac7647e539d8c7de7776db5ab9e68435c4f7dc542df"
    );
    let balances = c.request_balances(1700000000000).unwrap();
    assert_eq!(
        balances,
        c.build_request("GET", "/papi/v1/balance", None, 1700000000000).unwrap()
    );
    let all = c.request_positions(None, 9).unwrap();
    assert_eq!(all, c.build_request("GET", "/papi/v1/um/positionRisk", None, 9).unwrap());
    let one = c.request_positions(Some("ETHUSDT"), 9).unwrap();
    let params = map_of(&[("symbol", "ETHUSDT")]);
    assert_eq!(
        one,
        c.build_request("GET", "/papi/v1/um/positionRisk", Some(&params), 9).unwrap()
    );
}

#[test]
fn binance_capability_responses() {
    let c = client();
    let ticker = r#"{"symbol":"BTCUSDT","bidPrice":"4.0","bidQty":"431","askPrice":"4.2","askQty":"9","time":1589437530011}"#;
    let record = c.get_ticker(200, ticker).unwrap();
    assert_eq!(record.get("bidPrice"), Some(&"4.0".to_string()));
    assert_eq!(c.get_bbo_price(Side::Buy, 200, ticker), Ok("4.2".to_string()));
    assert_eq!(c.get_bbo_price(Side::Sell, 200, ticker), Ok("4.0".to_string()));
    assert_eq!(
        c.get_bbo_price(Side::Sell, 200, r#"{"symbol":"BTCUSDT"}"#),
        Err(ExchangeError::FieldNotFound { field: "bidPrice".to_string() })
    );
    let balances = c
        .fetch_balances(200, r#"[{"asset":"USDT","totalWalletBalance":"12.5"},{"asset":"BTC"}]"#)
        .unwrap();
    assert_eq!(balances.len(), 2);
    assert_eq!(balances[0].get("totalWalletBalance"), Some(&"12.5".to_string()));
    assert_eq!(balances[1].get("asset"), Some(&"BTC".to_string()));
    assert_eq!(c.fetch_positions(200, "[]").map(|p| p.len()), Ok(0));
    assert_eq!(
        c.fetch_positions(200, r#"{"a":"b"}"#).err(),
        Some(ExchangeError::TypeMismatch)
    );
    assert_eq!(
        c.fetch_positions(200, r#"["x"]"#).err(),
        Some(ExchangeError::TypeMismatch)
    );
}

#[test]
fn query_is_encoded_in_the_order_of_the_parameters() {
    let c = client();
    let one = c
        .build_request("GET", "/p", Some(&map_of(&[("symbol", "BTCUSDT"), ("side", "BUY")])), 1)
        .unwrap();
    assert!(one.url.starts_with("https://papi.binance.com/p?symbol=BTCUSDT&side=BUY&timestamp=1&signature="));
    let other = c
        .build_request("GET", "/p", Some(&map_of(&[("side", "BUY"), ("symbol", "BTCUSDT")])), 1)
        .unwrap();
    assert!(other.url.starts_with("https://papi.binance.com/p?side=BUY&symbol=BTCUSDT&timestamp=1&signature="));
}

#[test]
fn query_escapes_what_is_not_plain() {
    let params = map_of(&[("a b", "c&d"), ("e", "f=g/h"), ("k", "é*-._")]);
    let request = client().build_request("GET", "/p", Some(&params), 1).unwrap();
    assert!(request
        .url
        .starts_with("https://papi.binance.com/p?a+b=c%26d&e=f%3Dg%2Fh&k=%C3%A9*-._&timestamp=1&signature="));
    let params = map_of(&[("a b", "c&d")]);
    let request = client().build_request("GET", "/p", Some(&params), 1).unwrap();
    assert_eq!(
        request.url,
        "https://papi.binance.com/p?a+b=c%26d&timestamp=1&signature=76fbdc6710cbd11a2f7564e3439c0b7888752d1e4ee120e0543b9825c0ad601e"
    );
}

#[test]
fn body_escapes_quotes_and_backslashes() {
    let params = map_of(&[("q", "a\"b\\c")]);
    let request = client().build_request("POST", "/p", Some(&params), 1).unwrap();
    assert_eq!(request.body, Some(r#"{"q":"a\"b\\c"}"#.to_string()));
    let request = client().build_request("POST", "/p", Some(&StringMap::new()), 1).unwrap();
    assert_eq!(request.body, Some("{}".to_string()));
}
