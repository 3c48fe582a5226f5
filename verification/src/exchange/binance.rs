//! The client of the Binance portfolio-margin interface.
//!
//! A request is authenticated by a signature over its query string, which
//! ends with the time of the request. A response is a success just when its
//! HTTP status is one of the 2xx codes, and its body is then the payload.

use crate::constants::Side;
use crate::error::{outcome, ErrorView, ExchangeError};
use crate::exchange::base::{flatten_all, number_field, records_outcome, BaseExchange};
use crate::json::{json_document, json_names_distinct, parse_json, JsonModel, JsonValue};
use crate::request::{
    encode_body, encode_query, form_urlencoded, json_object_text, optional_pairs, Method,
    RequestView, SignedRequest,
};
use crate::signing::{hex_signature, sign_hex};
use crate::string_map::{distinct_keys, lookup, StringMap};
use crate::text::{decimal, decimal_string, status_is_success};
use crate::value::{
    all_text, convertible, converted, lemma_converted_names, names_distinct, record_of,
    records_of, text_fields, DataModel, DataValue,
};
use vstd::prelude::*;

verus! {

/// The query string that is signed: the encoded parameters, where there are
/// any, and then the time in milliseconds since the epoch.
pub open spec fn signed_query(params: Option<Seq<(Seq<char>, Seq<char>)>>, timestamp: nat) -> Seq<
    char,
> {
    match params {
        Some(pairs) => form_urlencoded(pairs) + "&timestamp="@ + decimal(timestamp),
        None => "timestamp="@ + decimal(timestamp),
    }
}

/// The two headers of every request: the content type and the API key.
pub open spec fn request_headers(key: Seq<char>) -> Seq<(Seq<char>, Seq<char>)> {
    seq![("Content-Type"@, "application/json;charset=utf-8"@), ("X-MBX-APIKEY"@, key)]
}

/// No header name occurs twice in a request.
pub proof fn lemma_headers_distinct(key: Seq<char>)
    ensures
        distinct_keys(request_headers(key)),
{
    reveal_strlit("Content-Type");
    reveal_strlit("X-MBX-APIKEY");
    assert("Content-Type"@[0] == 'C');
    assert("X-MBX-APIKEY"@[0] == 'X');
}

/// The body of a request: the parameters as a JSON object, where the method
/// carries a body and there are parameters.
pub open spec fn request_body(
    method: Method,
    params: Option<Seq<(Seq<char>, Seq<char>)>>,
) -> Option<Seq<char>> {
    match params {
        Some(pairs) => if method.has_body() {
            Some(json_object_text(pairs))
        } else {
            None
        },
        None => None,
    }
}

/// What a response comes to, given what the parser made of its body.
///
/// A body that is no JSON is a `MalformedResponse` that carries the body. A
/// status outside 2xx is an `ApiError` whose code is the status and whose
/// message is the body. Otherwise the document is the payload, and it is
/// converted.
pub open spec fn response_outcome(
    parsed: Result<JsonModel, Seq<char>>,
    status: u16,
    body: Seq<char>,
) -> Result<DataModel, ErrorView> {
    match parsed {
        Err(message) => Err(ErrorView::MalformedResponse { body, message }),
        Ok(json) => if !(200 <= status < 300) {
            Err(ErrorView::ApiError { code: decimal(status as nat), message: body })
        } else if !convertible(json) {
            Err(ErrorView::UnsupportedValue)
        } else {
            Ok(converted(json))
        },
    }
}

/// A body that is no JSON comes to a `MalformedResponse` that carries the
/// body as it was received, whatever the status.
pub proof fn lemma_malformed_body(message: Seq<char>, status: u16, body: Seq<char>)
    ensures
        response_outcome(Err(message), status, body) == Err::<DataModel, ErrorView>(
            ErrorView::MalformedResponse { body, message },
        ),
{
}

/// A body that is JSON comes to its payload just when the status is one of
/// the 2xx codes and the document can be converted.
pub proof fn lemma_success(json: JsonModel, status: u16, body: Seq<char>)
    ensures
        response_outcome(Ok(json), status, body) is Ok <==> 200 <= status < 300 && convertible(
            json,
        ),
        response_outcome(Ok(json), status, body) is Ok ==> response_outcome(
            Ok(json),
            status,
            body,
        ) == Ok::<DataModel, ErrorView>(converted(json)),
{
}

/// The payload of a response whose document holds no name twice in any
/// object holds no name twice in any map.
pub proof fn lemma_response_names(json: JsonModel, status: u16, body: Seq<char>)
    requires
        json_names_distinct(json),
        response_outcome(Ok(json), status, body) is Ok,
    ensures
        names_distinct(response_outcome(Ok(json), status, body)->Ok_0),
{
    lemma_converted_names(json);
}

/// The account information in a response: the payload must be a map whose
/// fields all hold text.
pub open spec fn account_info_outcome(response: Result<DataModel, ErrorView>) -> Result<
    Seq<(Seq<char>, Seq<char>)>,
    ErrorView,
> {
    match response {
        Err(error) => Err(error),
        Ok(value) => if value is Record && all_text(value->Record_0) {
            Ok(text_fields(value->Record_0))
        } else {
            Err(ErrorView::TypeMismatch)
        },
    }
}

/// The client of one Binance account.
pub struct BinanceExchange {
    key: String,
    secret: String,
    pm_base_url: String,
}

impl BinanceExchange {
    /// The API key.
    pub closed spec fn key(&self) -> Seq<char> {
        self.key@
    }

    /// The secret that signs the requests.
    pub closed spec fn secret(&self) -> Seq<char> {
        self.secret@
    }

    /// The address that every endpoint is appended to.
    pub closed spec fn base_url(&self) -> Seq<char> {
        self.pm_base_url@
    }

    /// The request that the client makes to the interface at `base` for a
    /// method, an endpoint, parameters and a time.
    pub open spec fn signed_request_at(
        &self,
        base: Seq<char>,
        method: Method,
        endpoint: Seq<char>,
        params: Option<Seq<(Seq<char>, Seq<char>)>>,
        timestamp: nat,
    ) -> RequestView {
        let query = signed_query(params, timestamp);
        RequestView {
            method,
            url: base + endpoint + "?"@ + query + "&signature="@ + hex_signature(
                self.secret(),
                query,
            ),
            headers: request_headers(self.key()),
            body: request_body(method, params),
        }
    }

    /// The request that the client makes to the portfolio-margin interface.
    pub open spec fn signed_request(
        &self,
        method: Method,
        endpoint: Seq<char>,
        params: Option<Seq<(Seq<char>, Seq<char>)>>,
        timestamp: nat,
    ) -> RequestView {
        self.signed_request_at(self.base_url(), method, endpoint, params, timestamp)
    }

    /// What building a request comes to when the method is given by name:
    /// the signed request, or `InvalidMethod` for a name that names none.
    pub open spec fn request_outcome(
        &self,
        method: Seq<char>,
        endpoint: Seq<char>,
        params: Option<Seq<(Seq<char>, Seq<char>)>>,
        timestamp: nat,
    ) -> Result<RequestView, ErrorView> {
        match Method::named(method) {
            Some(m) => Ok(self.signed_request(m, endpoint, params, timestamp)),
            None => Err(ErrorView::InvalidMethod),
        }
    }

    /// A request is determined by the credentials and by what it is built
    /// from: two clients of the same account, given the same method,
    /// endpoint, parameters and time, come to the same outcome, so building
    /// a request again yields the same request.
    pub proof fn lemma_request_determined(
        self,
        other: BinanceExchange,
        method: Seq<char>,
        endpoint: Seq<char>,
        params: Option<Seq<(Seq<char>, Seq<char>)>>,
        timestamp: nat,
        first: Result<SignedRequest, ExchangeError>,
        second: Result<SignedRequest, ExchangeError>,
    )
        requires
            self.key() == other.key(),
            self.secret() == other.secret(),
            self.base_url() == other.base_url(),
            outcome(first) == self.request_outcome(method, endpoint, params, timestamp),
            outcome(second) == other.request_outcome(method, endpoint, params, timestamp),
        ensures
            outcome(first) == outcome(second),
    {
    }

    /// A client for the account that `configs` describes under `key` and
    /// `secret`.
    pub fn new(configs: &StringMap) -> (client: BinanceExchange)
        requires
            lookup(configs@, "key"@) is Some,
            lookup(configs@, "secret"@) is Some,
        ensures
            Some(client.key()) == lookup(configs@, "key"@),
            Some(client.secret()) == lookup(configs@, "secret"@),
            client.base_url() == "https://papi.binance.com"@,
    {
        let key = configs.get("key").unwrap().clone();
        let secret = configs.get("secret").unwrap().clone();
        let pm_base_url = "https://papi.binance.com".to_owned();
        BinanceExchange { key, secret, pm_base_url }
    }

    /// The signature of a query string: its authentication code under the
    /// secret, in hexadecimal.
    pub fn generate_signature(&self, query_string: &str) -> (signature: String)
        ensures
            signature@ == hex_signature(self.secret(), query_string@),
            signature@.len() == 64,
    {
        sign_hex(self.secret.as_str(), query_string)
    }

    /// The headers of a request.
    pub fn get_headers(&self) -> (headers: Vec<(String, String)>)
        ensures
            crate::string_map::pair_views(headers@) == request_headers(self.key()),
    {
        let mut headers: Vec<(String, String)> = Vec::new();
        headers.push(("Content-Type".to_owned(), "application/json;charset=utf-8".to_owned()));
        headers.push(("X-MBX-APIKEY".to_owned(), self.key.clone()));
        assert(crate::string_map::pair_views(headers@) =~= request_headers(self.key()));
        headers
    }

    /// Builds and signs the request for `endpoint` of the portfolio-margin
    /// interface, as of the time `timestamp`, in milliseconds since the
    /// epoch.
    pub fn request_for(
        &self,
        method: Method,
        endpoint: &str,
        params: Option<&StringMap>,
        timestamp: u64,
    ) -> (request: SignedRequest)
        ensures
            request@ == self.signed_request(
                method,
                endpoint@,
                optional_pairs(params),
                timestamp as nat,
            ),
    {
        self.request_at(self.pm_base_url.as_str(), method, endpoint, params, timestamp)
    }

    /// Builds and signs the request for `endpoint` of the interface at
    /// `base`.
    pub fn request_at(
        &self,
        base: &str,
        method: Method,
        endpoint: &str,
        params: Option<&StringMap>,
        timestamp: u64,
    ) -> (request: SignedRequest)
        ensures
            request@ == self.signed_request_at(
                base@,
                method,
                endpoint@,
                optional_pairs(params),
                timestamp as nat,
            ),
    {
        let mut query = match params {
            Some(map) => {
                let mut text = encode_query(map.pairs());
                text.append("&timestamp=");
                text
            },
            None => "timestamp=".to_owned(),
        };
        query.append(decimal_string(timestamp).as_str());
        let signature = self.generate_signature(query.as_str());
        let mut url = base.to_owned();
        url.append(endpoint);
        url.append("?");
        url.append(query.as_str());
        url.append("&signature=");
        url.append(signature.as_str());
        let body = match params {
            Some(map) => if method.carries_body() {
                Some(encode_body(map.pairs()))
            } else {
                None
            },
            None => None,
        };
        SignedRequest { method, url, headers: self.get_headers(), body }
    }

    /// Builds and signs the request for `endpoint`, with the method given by
    /// name. A method other than `GET`, `POST` and `DELETE` is an
    /// `InvalidMethod`.
    pub fn build_request(
        &self,
        method: &str,
        endpoint: &str,
        params: Option<&StringMap>,
        timestamp: u64,
    ) -> (result: Result<SignedRequest, ExchangeError>)
        ensures
            outcome(result) == self.request_outcome(
                method@,
                endpoint@,
                optional_pairs(params),
                timestamp as nat,
            ),
    {
        match Method::parse(method) {
            Ok(method) => Ok(self.request_for(method, endpoint, params, timestamp)),
            Err(error) => Err(error),
        }
    }

    /// The request for the account information, as of the time `timestamp`.
    pub fn account_info_request(&self, timestamp: u64) -> (request: SignedRequest)
        ensures
            request@ == self.signed_request(
                Method::Get,
                "/papi/v1/account"@,
                None,
                timestamp as nat,
            ),
    {
        self.request_for(Method::Get, "/papi/v1/account", None, timestamp)
    }

    /// Decides what a response comes to, once its body has been parsed.
    pub fn normalize(parsed: Result<JsonValue, String>, status: u16, body: &str) -> (result: Result<
        DataValue,
        ExchangeError,
    >)
        ensures
            outcome(result) == response_outcome(
                match parsed {
                    Ok(json) => Ok(json@),
                    Err(message) => Err(message@),
                },
                status,
                body@,
            ),
    {
        match parsed {
            Err(message) => Err(
                ExchangeError::MalformedResponse { body: body.to_owned(), message },
            ),
            Ok(json) => {
                if !status_is_success(status) {
                    Err(
                        ExchangeError::ApiError {
                            code: decimal_string(status as u64),
                            message: body.to_owned(),
                        },
                    )
                } else {
                    DataValue::from_json(&json)
                }
            },
        }
    }

    /// Turns the status and the body of a response into its payload. No map
    /// in it holds a name twice.
    pub fn parse_response(status: u16, body: &str) -> (result: Result<DataValue, ExchangeError>)
        ensures
            outcome(result) == response_outcome(json_document(body@), status, body@),
            result matches Ok(value) ==> value.wf(),
    {
        let parsed = parse_json(body);
        let ghost document = parsed;
        let result = BinanceExchange::normalize(parsed, status, body);
        proof {
            if result is Ok {
                lemma_response_names(document->Ok_0@, status, body@);
            }
        }
        result
    }

    /// The account information in the response to the request of
    /// `account_info_request`: a mapping from field names to texts.
    pub fn get_account_info(&self, status: u16, body: &str) -> (result: Result<
        StringMap,
        ExchangeError,
    >)
        ensures
            outcome(result) == account_info_outcome(
                response_outcome(json_document(body@), status, body@),
            ),
            result matches Ok(record) ==> record.wf(),
    {
        let value = match BinanceExchange::parse_response(status, body) {
            Ok(value) => value,
            Err(error) => {
                return Err(error);
            },
        };
        value.all_string_fields()
    }
}

/// The parameters that select one symbol.
pub open spec fn symbol_params(symbol: Seq<char>) -> Seq<(Seq<char>, Seq<char>)> {
    seq![("symbol"@, symbol)]
}

/// The parameters that select one symbol, or none.
pub open spec fn optional_symbol_params(symbol: Option<Seq<char>>) -> Option<
    Seq<(Seq<char>, Seq<char>)>,
> {
    match symbol {
        Some(s) => Some(symbol_params(s)),
        None => None,
    }
}

/// The address of the interface that serves the market data of the futures
/// in which a portfolio-margin account trades.
pub open spec fn market_base_url() -> Seq<char> {
    "https://fapi.binance.com"@
}

/// The record in a response whose payload is one map.
pub open spec fn record_outcome_of(response: Result<DataModel, ErrorView>) -> Result<
    Seq<(Seq<char>, Seq<char>)>,
    ErrorView,
> {
    match response {
        Err(error) => Err(error),
        Ok(value) => record_of(value),
    }
}

/// The records in a response whose payload is a list of maps.
pub open spec fn records_outcome_of(response: Result<DataModel, ErrorView>) -> Result<
    Seq<Seq<(Seq<char>, Seq<char>)>>,
    ErrorView,
> {
    match response {
        Err(error) => Err(error),
        Ok(DataModel::List(items)) => records_of(items),
        Ok(_) => Err(ErrorView::TypeMismatch),
    }
}

impl BinanceExchange {
    /// The parameters that select `symbol`.
    fn symbol_map(symbol: &str) -> (params: StringMap)
        ensures
            params@ == symbol_params(symbol@),
    {
        let mut params = StringMap::new();
        params.insert("symbol".to_owned(), symbol.to_owned());
        assert(params@ =~= symbol_params(symbol@));
        params
    }

    /// Reads a response whose payload is a list of maps.
    fn records(status: u16, body: &str) -> (result: Result<Vec<StringMap>, ExchangeError>)
        ensures
            records_outcome(result) == records_outcome_of(
                response_outcome(json_document(body@), status, body@),
            ),
    {
        let value = match BinanceExchange::parse_response(status, body) {
            Ok(value) => value,
            Err(error) => {
                return Err(error);
            },
        };
        match value.as_list() {
            Ok(items) => flatten_all(items),
            Err(error) => Err(error),
        }
    }
}

impl BaseExchange for BinanceExchange {
    /// The book ticker of the futures interface, for one symbol.
    open spec fn ticker_request_view(&self, symbol: Seq<char>, timestamp: nat) -> Option<
        RequestView,
    > {
        Some(
            self.signed_request_at(
                market_base_url(),
                Method::Get,
                "/fapi/v1/ticker/bookTicker"@,
                Some(symbol_params(symbol)),
                timestamp,
            ),
        )
    }

    /// The position risk of the futures of the account.
    open spec fn positions_request_view(&self, symbol: Option<Seq<char>>, timestamp: nat) -> Option<
        RequestView,
    > {
        Some(
            self.signed_request(
                Method::Get,
                "/papi/v1/um/positionRisk"@,
                optional_symbol_params(symbol),
                timestamp,
            ),
        )
    }

    /// The balances of the account.
    open spec fn balances_request_view(&self, timestamp: nat) -> Option<RequestView> {
        Some(self.signed_request(Method::Get, "/papi/v1/balance"@, None, timestamp))
    }

    /// The payload is the ticker: a map, taken by its text fields.
    open spec fn ticker_view(&self, status: u16, body: Seq<char>) -> Result<
        Seq<(Seq<char>, Seq<char>)>,
        ErrorView,
    > {
        record_outcome_of(response_outcome(json_document(body), status, body))
    }

    /// The payload is the list of the positions.
    open spec fn positions_view(&self, status: u16, body: Seq<char>) -> Result<
        Seq<Seq<(Seq<char>, Seq<char>)>>,
        ErrorView,
    > {
        records_outcome_of(response_outcome(json_document(body), status, body))
    }

    /// The payload is the list of the balances, one for each asset.
    open spec fn balances_view(&self, status: u16, body: Seq<char>) -> Result<
        Seq<Seq<(Seq<char>, Seq<char>)>>,
        ErrorView,
    > {
        records_outcome_of(response_outcome(json_document(body), status, body))
    }

    open spec fn best_price_field(&self, side: Side) -> Seq<char> {
        match side {
            Side::Buy => "askPrice"@,
            Side::Sell => "bidPrice"@,
        }
    }

    fn request_ticker(&self, symbol: &str, timestamp: u64) -> (request: Option<SignedRequest>) {
        let params = BinanceExchange::symbol_map(symbol);
        Some(
            self.request_at(
                "https://fapi.binance.com",
                Method::Get,
                "/fapi/v1/ticker/bookTicker",
                Some(&params),
                timestamp,
            ),
        )
    }

    fn get_ticker(&self, status: u16, body: &str) -> (result: Result<StringMap, ExchangeError>) {
        match BinanceExchange::parse_response(status, body) {
            Ok(value) => value.string_fields(),
            Err(error) => Err(error),
        }
    }

    fn request_positions(&self, symbol: Option<&str>, timestamp: u64) -> (request: Option<
        SignedRequest,
    >) {
        match symbol {
            Some(name) => {
                let params = BinanceExchange::symbol_map(name);
                Some(
                    self.request_for(
                        Method::Get,
                        "/papi/v1/um/positionRisk",
                        Some(&params),
                        timestamp,
                    ),
                )
            },
            None => Some(
                self.request_for(Method::Get, "/papi/v1/um/positionRisk", None, timestamp),
            ),
        }
    }

    fn fetch_positions(&self, status: u16, body: &str) -> (result: Result<
        Vec<StringMap>,
        ExchangeError,
    >) {
        BinanceExchange::records(status, body)
    }

    fn request_balances(&self, timestamp: u64) -> (request: Option<SignedRequest>) {
        Some(self.request_for(Method::Get, "/papi/v1/balance", None, timestamp))
    }

    fn fetch_balances(&self, status: u16, body: &str) -> (result: Result<
        Vec<StringMap>,
        ExchangeError,
    >) {
        BinanceExchange::records(status, body)
    }

    fn get_bbo_price(&self, side: Side, status: u16, body: &str) -> (result: Result<
        String,
        ExchangeError,
    >) {
        let field = match side {
            Side::Buy => "askPrice",
            Side::Sell => "bidPrice",
        };
        number_field(self.get_ticker(status, body), field)
    }
}

} // verus!
