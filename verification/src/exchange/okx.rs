//! The client of the OKX interface.
//!
//! A request is authenticated by a signature over its pre-hash string: the
//! timestamp, the method, the path, the query string and the body, in that
//! order. A response is an envelope of `code`, `msg` and `data`; it is a
//! success just when its code is `0`.

use crate::constants::Side;
use crate::error::{outcome, ErrorView, ExchangeError};
use crate::exchange::base::{
    flatten_all, list_outcome, number_field, number_outcome, optional_request, records_outcome,
    BaseExchange,
};
use crate::json::{
    json_document, json_field, json_names_distinct, json_text, lemma_field_names_distinct,
    parse_json, JsonModel, JsonValue,
};
use crate::request::{
    encode_body, encode_query, form_urlencoded, json_object_text, optional_pairs, Method,
    RequestView, SignedRequest,
};
use crate::signing::{base64_signature, sign_base64};
use crate::string_map::{distinct_keys, lookup, pair_views, StringMap};
use crate::text::{decimal, decimal_string, status_is_success, str_eq};
use crate::timestamp::{iso_timestamp, optional_text, rfc3339_millis};
use crate::value::{
    all_convertible, all_records, converted_items, lemma_all_convertible, lemma_converted_items,
    lemma_converted_items_names, lemma_list_models, lemma_list_names_distinct, list_models,
    list_names_distinct, record_of, records_of, DataModel, DataValue,
};
use vstd::prelude::*;

verus! {

/// The string that is signed: the five parts of a request, one after the
/// other and with nothing between them.
pub open spec fn pre_hash_text(
    timestamp: Seq<char>,
    method: Seq<char>,
    path: Seq<char>,
    query: Seq<char>,
    body: Seq<char>,
) -> Seq<char> {
    timestamp + method + path + query + body
}

/// The query string of a request, with its leading `?`: the encoded
/// parameters of a `GET`, and nothing for the other methods or where there
/// are no parameters.
pub open spec fn query_text(method: Method, params: Option<Seq<(Seq<char>, Seq<char>)>>) -> Seq<
    char,
> {
    match params {
        Some(pairs) => if method.has_body() {
            Seq::empty()
        } else {
            "?"@ + form_urlencoded(pairs)
        },
        None => Seq::empty(),
    }
}

/// The body of a request: the parameters of a `POST` or `DELETE` as a JSON
/// object, and no body for a `GET` or where there are no parameters.
pub open spec fn body_of(method: Method, params: Option<Seq<(Seq<char>, Seq<char>)>>) -> Option<
    Seq<char>,
> {
    match params {
        Some(pairs) => if method.has_body() {
            Some(json_object_text(pairs))
        } else {
            None
        },
        None => None,
    }
}

/// The body as it enters the pre-hash string: the empty text where the
/// request has no body.
pub open spec fn body_text(body: Option<Seq<char>>) -> Seq<char> {
    match body {
        Some(text) => text,
        None => Seq::empty(),
    }
}

/// The headers of a request: the content type, the key, the signature, the
/// timestamp and the passphrase, and for a demo account the header that
/// asks for simulated trading.
pub open spec fn request_headers(
    key: Seq<char>,
    passphrase: Seq<char>,
    is_demo: bool,
    signature: Seq<char>,
    timestamp: Seq<char>,
) -> Seq<(Seq<char>, Seq<char>)> {
    let headers = seq![
        ("Content-Type"@, "application/json"@),
        ("OK-ACCESS-KEY"@, key),
        ("OK-ACCESS-SIGN"@, signature),
        ("OK-ACCESS-TIMESTAMP"@, timestamp),
        ("OK-ACCESS-PASSPHRASE"@, passphrase),
    ];
    if is_demo {
        headers.push(("x-simulated-trading"@, "1"@))
    } else {
        headers
    }
}

/// No header name occurs twice in a request.
pub proof fn lemma_headers_distinct(
    key: Seq<char>,
    passphrase: Seq<char>,
    is_demo: bool,
    signature: Seq<char>,
    timestamp: Seq<char>,
)
    ensures
        distinct_keys(request_headers(key, passphrase, is_demo, signature, timestamp)),
{
    reveal_strlit("Content-Type");
    reveal_strlit("OK-ACCESS-KEY");
    reveal_strlit("OK-ACCESS-SIGN");
    reveal_strlit("OK-ACCESS-TIMESTAMP");
    reveal_strlit("OK-ACCESS-PASSPHRASE");
    reveal_strlit("x-simulated-trading");
    assert("Content-Type"@.len() == 12);
    assert("OK-ACCESS-KEY"@.len() == 13);
    assert("OK-ACCESS-SIGN"@.len() == 14);
    assert("OK-ACCESS-TIMESTAMP"@.len() == 19);
    assert("OK-ACCESS-PASSPHRASE"@.len() == 20);
    assert("x-simulated-trading"@.len() == 19);
    assert("OK-ACCESS-TIMESTAMP"@[0] == 'O');
    assert("x-simulated-trading"@[0] == 'x');
}

/// What the `data` of a successful envelope comes to: it must be there, be
/// an array, hold no `null` or boolean, and hold nothing but objects.
pub open spec fn data_outcome(data: Option<JsonModel>) -> Result<Seq<DataModel>, ErrorView> {
    match data {
        None => Err(ErrorView::FieldNotFound { field: "data"@ }),
        Some(JsonModel::Array(items)) => if !all_convertible(items) {
            Err(ErrorView::UnsupportedValue)
        } else if !all_records(converted_items(items)) {
            Err(ErrorView::TypeMismatch)
        } else {
            Ok(converted_items(items))
        },
        Some(_) => Err(ErrorView::TypeMismatch),
    }
}

/// What an envelope comes to, once its `code` is known: the envelope must
/// have a `msg`; a code other than `0` is an `ApiError` with that code and
/// message; with the code `0` the outcome is that of the `data`.
pub open spec fn coded_outcome(json: JsonModel, code: Seq<char>) -> Result<
    Seq<DataModel>,
    ErrorView,
> {
    match json_field(json, "msg"@) {
        None => Err(ErrorView::FieldNotFound { field: "msg"@ }),
        Some(msg) => match json_text(msg) {
            None => Err(ErrorView::TypeMismatch),
            Some(message) => if code != "0"@ {
                Err(ErrorView::ApiError { code, message })
            } else {
                data_outcome(json_field(json, "data"@))
            },
        },
    }
}

/// What a response comes to, given what the parser made of its body.
///
/// A body that is no JSON is a `MalformedResponse` that carries the body.
/// Where the document has a `code`, the code decides, whatever the HTTP
/// status is. The status counts only where the document has no `code`: then
/// a status outside 2xx is an `ApiError` whose code is the status and whose
/// message is the body, and with a 2xx status the missing field is reported
/// (or the wrong shape, where the document is no object).
pub open spec fn response_outcome(
    parsed: Result<JsonModel, Seq<char>>,
    status: u16,
    body: Seq<char>,
) -> Result<Seq<DataModel>, ErrorView> {
    match parsed {
        Err(message) => Err(ErrorView::MalformedResponse { body, message }),
        Ok(json) => match json_field(json, "code"@) {
            None => if !(200 <= status < 300) {
                Err(ErrorView::ApiError { code: decimal(status as nat), message: body })
            } else if json is Object {
                Err(ErrorView::FieldNotFound { field: "code"@ })
            } else {
                Err(ErrorView::TypeMismatch)
            },
            Some(code) => match json_text(code) {
                None => Err(ErrorView::TypeMismatch),
                Some(code) => coded_outcome(json, code),
            },
        },
    }
}

/// A body that is no JSON comes to a `MalformedResponse` that carries the
/// body as it was received, whatever the status.
pub proof fn lemma_malformed_body(message: Seq<char>, status: u16, body: Seq<char>)
    ensures
        response_outcome(Err(message), status, body) == Err::<Seq<DataModel>, ErrorView>(
            ErrorView::MalformedResponse { body, message },
        ),
{
}

/// An envelope with a code other than `0` comes to an `ApiError` with that
/// code and the envelope's message, whatever the status.
pub proof fn lemma_code_is_reported(
    json: JsonModel,
    code: JsonModel,
    msg: JsonModel,
    status: u16,
    body: Seq<char>,
)
    requires
        json_field(json, "code"@) == Some(code),
        json_field(json, "msg"@) == Some(msg),
        json_text(code) is Some,
        json_text(msg) is Some,
        json_text(code) != Some("0"@),
    ensures
        response_outcome(Ok(json), status, body) == Err::<Seq<DataModel>, ErrorView>(
            ErrorView::ApiError {
                code: json_text(code).unwrap(),
                message: json_text(msg).unwrap(),
            },
        ),
{
}

/// Where the document has a `code`, the status has no say: the response
/// comes to the same under any two statuses.
pub proof fn lemma_status_is_secondary(json: JsonModel, first: u16, second: u16, body: Seq<char>)
    requires
        json_field(json, "code"@) is Some,
    ensures
        response_outcome(Ok(json), first, body) == response_outcome(Ok(json), second, body),
{
}

/// The values of a response whose document holds no name twice in any
/// object hold no name twice in any map.
pub proof fn lemma_response_names(json: JsonModel, status: u16, body: Seq<char>)
    requires
        json_names_distinct(json),
        response_outcome(Ok(json), status, body) is Ok,
    ensures
        list_names_distinct(response_outcome(Ok(json), status, body)->Ok_0),
{
    lemma_field_names_distinct(json, "data"@);
    let items = json_field(json, "data"@).unwrap()->Array_0;
    lemma_converted_items_names(items);
}

/// The account information in a response: the text fields of the first
/// entry of `data`. A response without entries reports `data` as not found.
pub open spec fn account_info_outcome(response: Result<Seq<DataModel>, ErrorView>) -> Result<
    Seq<(Seq<char>, Seq<char>)>,
    ErrorView,
> {
    match response {
        Err(error) => Err(error),
        Ok(data) => if data.len() == 0 {
            Err(ErrorView::FieldNotFound { field: "data"@ })
        } else {
            record_of(data[0])
        },
    }
}

/// The balances in a response: the entries of the list `details` of the
/// first entry of `data`, each as a record.
///
/// A response without entries reports `data` as not found, and a first
/// entry without `details` reports `details` as not found: a missing field
/// is never taken for an empty list. A `details` that is no list, or that
/// holds anything but maps, is a `TypeMismatch`.
pub open spec fn balances_outcome(response: Result<Seq<DataModel>, ErrorView>) -> Result<
    Seq<Seq<(Seq<char>, Seq<char>)>>,
    ErrorView,
> {
    match response {
        Err(error) => Err(error),
        Ok(data) => if data.len() == 0 {
            Err(ErrorView::FieldNotFound { field: "data"@ })
        } else {
            match data[0] {
                DataModel::Record(fields) => match lookup(fields, "details"@) {
                    Some(DataModel::List(items)) => records_of(items),
                    Some(_) => Err(ErrorView::TypeMismatch),
                    None => Err(ErrorView::FieldNotFound { field: "details"@ }),
                },
                _ => Err(ErrorView::TypeMismatch),
            }
        },
    }
}

/// The positions in a response: every entry of `data` as a record.
pub open spec fn positions_outcome(response: Result<Seq<DataModel>, ErrorView>) -> Result<
    Seq<Seq<(Seq<char>, Seq<char>)>>,
    ErrorView,
> {
    match response {
        Err(error) => Err(error),
        Ok(data) => records_of(data),
    }
}

/// The position in a response: the first entry of `data` as a record, and
/// the empty record where `data` has no entry.
pub open spec fn position_outcome(response: Result<Seq<DataModel>, ErrorView>) -> Result<
    Seq<(Seq<char>, Seq<char>)>,
    ErrorView,
> {
    match response {
        Err(error) => Err(error),
        Ok(data) => if data.len() == 0 {
            Ok(Seq::empty())
        } else {
            record_of(data[0])
        },
    }
}

/// The parameters that select one instrument.
pub open spec fn instrument_params(instrument_id: Seq<char>) -> Seq<(Seq<char>, Seq<char>)> {
    seq![("instId"@, instrument_id)]
}

/// The client of one OKX account.
pub struct OkxExchange {
    key: String,
    secret: String,
    passphrase: String,
    base_url: String,
    is_demo: bool,
}

impl OkxExchange {
    /// The API key.
    pub closed spec fn key(&self) -> Seq<char> {
        self.key@
    }

    /// The secret that signs the requests.
    pub closed spec fn secret(&self) -> Seq<char> {
        self.secret@
    }

    /// The passphrase of the key.
    pub closed spec fn passphrase(&self) -> Seq<char> {
        self.passphrase@
    }

    /// The address that every endpoint is appended to.
    pub closed spec fn base_url(&self) -> Seq<char> {
        self.base_url@
    }

    /// Whether the account is a demo account.
    pub closed spec fn is_demo(&self) -> bool {
        self.is_demo
    }

    /// The signature of a request.
    pub open spec fn signature(
        &self,
        timestamp: Seq<char>,
        method: Seq<char>,
        path: Seq<char>,
        query: Seq<char>,
        body: Seq<char>,
    ) -> Seq<char> {
        base64_signature(self.secret(), pre_hash_text(timestamp, method, path, query, body))
    }

    /// The request that the client makes for a method, an endpoint,
    /// parameters and a timestamp.
    pub open spec fn signed_request(
        &self,
        method: Method,
        endpoint: Seq<char>,
        params: Option<Seq<(Seq<char>, Seq<char>)>>,
        timestamp: Seq<char>,
    ) -> RequestView {
        let query = query_text(method, params);
        let body = body_of(method, params);
        RequestView {
            method,
            url: self.base_url() + endpoint + query,
            headers: request_headers(
                self.key(),
                self.passphrase(),
                self.is_demo(),
                self.signature(timestamp, method.name(), endpoint, query, body_text(body)),
                timestamp,
            ),
            body,
        }
    }

    /// What building a request comes to when the method is given by name:
    /// the signed request, or `InvalidMethod` for a name that names none.
    pub open spec fn request_outcome(
        &self,
        method: Seq<char>,
        endpoint: Seq<char>,
        params: Option<Seq<(Seq<char>, Seq<char>)>>,
        timestamp: Seq<char>,
    ) -> Result<RequestView, ErrorView> {
        match Method::named(method) {
            Some(m) => Ok(self.signed_request(m, endpoint, params, timestamp)),
            None => Err(ErrorView::InvalidMethod),
        }
    }

    /// A request is determined by the credentials and by what it is built
    /// from: two clients of the same account, given the same method,
    /// endpoint, parameters and timestamp, come to the same outcome, so
    /// building a request again yields the same request.
    pub proof fn lemma_request_determined(
        self,
        other: OkxExchange,
        method: Seq<char>,
        endpoint: Seq<char>,
        params: Option<Seq<(Seq<char>, Seq<char>)>>,
        timestamp: Seq<char>,
        first: Result<SignedRequest, ExchangeError>,
        second: Result<SignedRequest, ExchangeError>,
    )
        requires
            self.key() == other.key(),
            self.secret() == other.secret(),
            self.passphrase() == other.passphrase(),
            self.base_url() == other.base_url(),
            self.is_demo() == other.is_demo(),
            outcome(first) == self.request_outcome(method, endpoint, params, timestamp),
            outcome(second) == other.request_outcome(method, endpoint, params, timestamp),
        ensures
            outcome(first) == outcome(second),
    {
    }

    /// A client for the account that `configs` describes under `key`,
    /// `secret` and `passphrase`. The account is a demo account just when
    /// `is_demo` is `true`.
    pub fn new(configs: &StringMap) -> (client: OkxExchange)
        requires
            lookup(configs@, "key"@) is Some,
            lookup(configs@, "secret"@) is Some,
            lookup(configs@, "passphrase"@) is Some,
        ensures
            Some(client.key()) == lookup(configs@, "key"@),
            Some(client.secret()) == lookup(configs@, "secret"@),
            Some(client.passphrase()) == lookup(configs@, "passphrase"@),
            client.base_url() == "https://www.okx.com"@,
            client.is_demo() == (lookup(configs@, "is_demo"@) == Some("true"@)),
    {
        let key = configs.get("key").unwrap().clone();
        let secret = configs.get("secret").unwrap().clone();
        let passphrase = configs.get("passphrase").unwrap().clone();
        let base_url = "https://www.okx.com".to_owned();
        let is_demo = match configs.get("is_demo") {
            Some(flag) => str_eq(flag.as_str(), "true"),
            None => false,
        };
        OkxExchange { key, secret, passphrase, base_url, is_demo }
    }

    /// The pre-hash string of a request.
    pub fn pre_hash(timestamp: &str, method: &str, path: &str, query: &str, body: &str) -> (text:
        String)
        ensures
            text@ == pre_hash_text(timestamp@, method@, path@, query@, body@),
    {
        let mut text = timestamp.to_owned();
        text.append(method);
        text.append(path);
        text.append(query);
        text.append(body);
        text
    }

    /// The signature of a request: the authentication code of its pre-hash
    /// string under the secret, in base64.
    pub fn generate_signature(
        &self,
        timestamp: &str,
        method: &str,
        end_point: &str,
        query_string: &str,
        body: &str,
    ) -> (signature: String)
        ensures
            signature@ == self.signature(timestamp@, method@, end_point@, query_string@, body@),
            signature@.len() == 44,
    {
        let pre_hash = OkxExchange::pre_hash(timestamp, method, end_point, query_string, body);
        sign_base64(self.secret.as_str(), pre_hash.as_str())
    }

    /// The headers of a request with the given signature and timestamp.
    pub fn get_headers(&self, signature: &str, timestamp: &str) -> (headers: Vec<(String, String)>)
        ensures
            pair_views(headers@) == request_headers(
                self.key(),
                self.passphrase(),
                self.is_demo(),
                signature@,
                timestamp@,
            ),
    {
        let mut headers: Vec<(String, String)> = Vec::new();
        headers.push(("Content-Type".to_owned(), "application/json".to_owned()));
        headers.push(("OK-ACCESS-KEY".to_owned(), self.key.clone()));
        headers.push(("OK-ACCESS-SIGN".to_owned(), signature.to_owned()));
        headers.push(("OK-ACCESS-TIMESTAMP".to_owned(), timestamp.to_owned()));
        headers.push(("OK-ACCESS-PASSPHRASE".to_owned(), self.passphrase.clone()));
        if self.is_demo {
            headers.push(("x-simulated-trading".to_owned(), "1".to_owned()));
        }
        assert(pair_views(headers@) =~= request_headers(
            self.key(),
            self.passphrase(),
            self.is_demo(),
            signature@,
            timestamp@,
        ));
        headers
    }

    /// Builds and signs the request for `endpoint` with the timestamp
    /// `timestamp`.
    pub fn request_for(
        &self,
        method: Method,
        endpoint: &str,
        params: Option<&StringMap>,
        timestamp: &str,
    ) -> (request: SignedRequest)
        ensures
            request@ == self.signed_request(method, endpoint@, optional_pairs(params), timestamp@),
    {
        let carries_body = method.carries_body();
        let query = match params {
            Some(map) => if carries_body {
                String::new()
            } else {
                let mut text = "?".to_owned();
                text.append(encode_query(map.pairs()).as_str());
                text
            },
            None => String::new(),
        };
        let body = match params {
            Some(map) => if carries_body {
                Some(encode_body(map.pairs()))
            } else {
                None
            },
            None => None,
        };
        let signature = match &body {
            Some(text) => self.generate_signature(
                timestamp,
                method.as_str(),
                endpoint,
                query.as_str(),
                text.as_str(),
            ),
            None => self.generate_signature(
                timestamp,
                method.as_str(),
                endpoint,
                query.as_str(),
                "",
            ),
        };
        proof {
            reveal_strlit("");
            assert(""@ =~= Seq::<char>::empty());
        }
        let headers = self.get_headers(signature.as_str(), timestamp);
        let mut url = self.base_url.clone();
        url.append(endpoint);
        url.append(query.as_str());
        SignedRequest { method, url, headers, body }
    }

    /// Builds and signs the request for `endpoint`, with the method given by
    /// name. A method other than `GET`, `POST` and `DELETE` is an
    /// `InvalidMethod`.
    pub fn build_request(
        &self,
        method: &str,
        endpoint: &str,
        params: Option<&StringMap>,
        timestamp: &str,
    ) -> (result: Result<SignedRequest, ExchangeError>)
        ensures
            outcome(result) == self.request_outcome(
                method@,
                endpoint@,
                optional_pairs(params),
                timestamp@,
            ),
    {
        match Method::parse(method) {
            Ok(method) => Ok(self.request_for(method, endpoint, params, timestamp)),
            Err(error) => Err(error),
        }
    }

    /// Converts the items of the `data` array.
    fn convert_data(items: &Vec<JsonValue>) -> (result: Result<Vec<DataValue>, ExchangeError>)
        ensures
            list_outcome(result) == data_outcome(
                Some(JsonModel::Array(crate::json::json_models(items@))),
            ),
    {
        let ghost models = crate::json::json_models(items@);
        proof {
            crate::json::lemma_json_models(items@);
            lemma_all_convertible(models);
            lemma_converted_items(models);
        }
        let mut data: Vec<DataValue> = Vec::new();
        let mut i: usize = 0;
        while i < items.len()
            invariant
                i <= items.len(),
                models == crate::json::json_models(items@),
                models.len() == items@.len(),
                forall|k: int| 0 <= k < items@.len() ==> models[k] == items@[k]@,
                all_convertible(models) <==> forall|k: int|
                    0 <= k < models.len() ==> crate::value::convertible(#[trigger] models[k]),
                data@.len() == i,
                forall|k: int|
                    0 <= k < i ==> crate::value::convertible(#[trigger] models[k]) && data@[k]@
                        == crate::value::converted(models[k]),
            decreases items.len() - i,
        {
            match DataValue::from_json(&items[i]) {
                Ok(value) => {
                    data.push(value);
                },
                Err(error) => {
                    assert(!crate::value::convertible(models[i as int]));
                    return Err(error);
                },
            }
            i += 1;
        }
        proof {
            lemma_list_models(data@);
            assert(list_models(data@) =~= converted_items(models));
        }
        let mut j: usize = 0;
        while j < data.len()
            invariant
                j <= data.len(),
                models == crate::json::json_models(items@),
                all_convertible(models),
                list_models(data@) == converted_items(models),
                list_models(data@).len() == data@.len(),
                forall|k: int| 0 <= k < data@.len() ==> list_models(data@)[k] == data@[k]@,
                forall|k: int| 0 <= k < j ==> (#[trigger] list_models(data@)[k]) is Record,
            decreases data.len() - j,
        {
            match &data[j] {
                DataValue::ValueMap(_) => {},
                _ => {
                    assert(!(converted_items(models)[j as int] is Record));
                    return Err(ExchangeError::TypeMismatch);
                },
            }
            j += 1;
        }
        Ok(data)
    }

    /// Decides what a response comes to, once its body has been parsed.
    pub fn normalize(parsed: Result<JsonValue, String>, status: u16, body: &str) -> (result: Result<
        Vec<DataValue>,
        ExchangeError,
    >)
        ensures
            list_outcome(result) == response_outcome(
                match parsed {
                    Ok(json) => Ok(json@),
                    Err(message) => Err(message@),
                },
                status,
                body@,
            ),
    {
        let json = match parsed {
            Ok(json) => json,
            Err(message) => {
                return Err(ExchangeError::MalformedResponse { body: body.to_owned(), message });
            },
        };
        let code = match json.field("code") {
            Some(code) => match code.text() {
                Some(text) => text,
                None => {
                    return Err(ExchangeError::TypeMismatch);
                },
            },
            None => {
                if !status_is_success(status) {
                    return Err(
                        ExchangeError::ApiError {
                            code: decimal_string(status as u64),
                            message: body.to_owned(),
                        },
                    );
                }
                return match &json {
                    JsonValue::Object(_) => Err(
                        ExchangeError::FieldNotFound { field: "code".to_owned() },
                    ),
                    _ => Err(ExchangeError::TypeMismatch),
                };
            },
        };
        let message = match json.field("msg") {
            Some(msg) => match msg.text() {
                Some(text) => text,
                None => {
                    return Err(ExchangeError::TypeMismatch);
                },
            },
            None => {
                return Err(ExchangeError::FieldNotFound { field: "msg".to_owned() });
            },
        };
        if !str_eq(code.as_str(), "0") {
            return Err(ExchangeError::ApiError { code: code.clone(), message: message.clone() });
        }
        match json.field("data") {
            Some(JsonValue::Array(items)) => OkxExchange::convert_data(items),
            Some(_) => Err(ExchangeError::TypeMismatch),
            None => Err(ExchangeError::FieldNotFound { field: "data".to_owned() }),
        }
    }

    /// Turns the status and the body of a response into the values of its
    /// `data`. No map in them holds a name twice.
    pub fn parse_response(status: u16, body: &str) -> (result: Result<
        Vec<DataValue>,
        ExchangeError,
    >)
        ensures
            list_outcome(result) == response_outcome(json_document(body@), status, body@),
            result matches Ok(data) ==> forall|i: int|
                0 <= i < data@.len() ==> (#[trigger] data@[i]).wf(),
    {
        let parsed = parse_json(body);
        let ghost document = parsed;
        let result = OkxExchange::normalize(parsed, status, body);
        proof {
            if result is Ok {
                lemma_response_names(document->Ok_0@, status, body@);
                let data = result->Ok_0@;
                lemma_list_models(data);
                lemma_list_names_distinct(list_models(data));
                assert forall|i: int| 0 <= i < data.len() implies (#[trigger] data[i]).wf() by {
                    assert(list_models(data)[i] == data[i]@);
                }
            }
        }
        result
    }

    /// The request for the account information.
    pub fn account_info_request(&self, timestamp: &str) -> (request: SignedRequest)
        ensures
            request@ == self.signed_request(
                Method::Get,
                "/api/v5/account/balance"@,
                None,
                timestamp@,
            ),
    {
        self.request_for(Method::Get, "/api/v5/account/balance", None, timestamp)
    }

    /// The request for the positions of the account.
    pub fn positions_request(&self, timestamp: &str) -> (request: SignedRequest)
        ensures
            request@ == self.signed_request(
                Method::Get,
                "/api/v5/account/positions"@,
                None,
                timestamp@,
            ),
    {
        self.request_for(Method::Get, "/api/v5/account/positions", None, timestamp)
    }

    /// The request for the position in one instrument.
    pub fn position_request(&self, instrument_id: &str, timestamp: &str) -> (request: SignedRequest)
        ensures
            request@ == self.signed_request(
                Method::Get,
                "/api/v5/account/positions"@,
                Some(instrument_params(instrument_id@)),
                timestamp@,
            ),
    {
        let params = OkxExchange::instrument_map(instrument_id);
        self.request_for(Method::Get, "/api/v5/account/positions", Some(&params), timestamp)
    }

    /// The account information in the response to the request of
    /// `account_info_request`.
    pub fn get_account_info(&self, status: u16, body: &str) -> (result: Result<
        StringMap,
        ExchangeError,
    >)
        ensures
            outcome(result) == account_info_outcome(
                response_outcome(json_document(body@), status, body@),
            ),
    {
        let data = match OkxExchange::parse_response(status, body) {
            Ok(data) => data,
            Err(error) => {
                return Err(error);
            },
        };
        proof {
            lemma_list_models(data@);
        }
        if data.len() == 0 {
            return Err(ExchangeError::FieldNotFound { field: "data".to_owned() });
        }
        data[0].string_fields()
    }

    /// The total equity of the account, as the text that writes it: the
    /// field `totalEq` of the account information.
    pub fn get_total_equity(&self, status: u16, body: &str) -> (result: Result<
        String,
        ExchangeError,
    >)
        ensures
            outcome(result) == number_outcome(
                account_info_outcome(response_outcome(json_document(body@), status, body@)),
                "totalEq"@,
            ),
    {
        number_field(self.get_account_info(status, body), "totalEq")
    }

    /// The maintenance margin ratio of the account, as the text that writes
    /// it: the field `mmr` of the account information.
    pub fn get_maintenance_margin_ratio(&self, status: u16, body: &str) -> (result: Result<
        String,
        ExchangeError,
    >)
        ensures
            outcome(result) == number_outcome(
                account_info_outcome(response_outcome(json_document(body@), status, body@)),
                "mmr"@,
            ),
    {
        number_field(self.get_account_info(status, body), "mmr")
    }

    /// The balances in the response to the request of
    /// `account_info_request`, one record for each currency. The first entry
    /// of `data` must hold them as a list under `details`.
    pub fn get_balances(&self, status: u16, body: &str) -> (result: Result<
        Vec<StringMap>,
        ExchangeError,
    >)
        ensures
            records_outcome(result) == balances_outcome(
                response_outcome(json_document(body@), status, body@),
            ),
    {
        let data = match OkxExchange::parse_response(status, body) {
            Ok(data) => data,
            Err(error) => {
                return Err(error);
            },
        };
        proof {
            lemma_list_models(data@);
        }
        if data.len() == 0 {
            return Err(ExchangeError::FieldNotFound { field: "data".to_owned() });
        }
        let details = match data[0].get("details") {
            Ok(details) => details,
            Err(error) => {
                return Err(error);
            },
        };
        match details.as_list() {
            Ok(items) => flatten_all(items),
            Err(error) => Err(error),
        }
    }

    /// The positions in the response to the request of `positions_request`.
    pub fn get_positions_info(&self, status: u16, body: &str) -> (result: Result<
        Vec<StringMap>,
        ExchangeError,
    >)
        ensures
            records_outcome(result) == positions_outcome(
                response_outcome(json_document(body@), status, body@),
            ),
    {
        match OkxExchange::parse_response(status, body) {
            Ok(data) => flatten_all(&data),
            Err(error) => Err(error),
        }
    }

    /// The position in the response to the request of `position_request`;
    /// the empty record where the account has no such position.
    pub fn get_position_info(&self, status: u16, body: &str) -> (result: Result<
        StringMap,
        ExchangeError,
    >)
        ensures
            outcome(result) == position_outcome(
                response_outcome(json_document(body@), status, body@),
            ),
    {
        let data = match OkxExchange::parse_response(status, body) {
            Ok(data) => data,
            Err(error) => {
                return Err(error);
            },
        };
        proof {
            lemma_list_models(data@);
        }
        if data.len() == 0 {
            return Ok(StringMap::new());
        }
        data[0].string_fields()
    }
}

/// The timestamp of a request that is made `timestamp` milliseconds after
/// the epoch, where it can be written.
pub open spec fn timestamp_text(timestamp: nat) -> Option<Seq<char>> {
    if timestamp <= i64::MAX {
        rfc3339_millis(timestamp as int)
    } else {
        None
    }
}

/// The parameters that select one instrument, or none.
pub open spec fn optional_instrument_params(symbol: Option<Seq<char>>) -> Option<
    Seq<(Seq<char>, Seq<char>)>,
> {
    match symbol {
        Some(s) => Some(instrument_params(s)),
        None => None,
    }
}

impl OkxExchange {
    /// The request for `endpoint` as of a time in milliseconds since the
    /// epoch, where that time can be written.
    pub open spec fn request_at(
        &self,
        endpoint: Seq<char>,
        params: Option<Seq<(Seq<char>, Seq<char>)>>,
        timestamp: nat,
    ) -> Option<RequestView> {
        match timestamp_text(timestamp) {
            Some(text) => Some(self.signed_request(Method::Get, endpoint, params, text)),
            None => None,
        }
    }

    /// Writes the timestamp of a request that is made `millis` milliseconds
    /// after the epoch.
    pub fn timestamp(millis: u64) -> (text: Option<String>)
        ensures
            optional_text(text) == timestamp_text(millis as nat),
    {
        if millis <= i64::MAX as u64 {
            iso_timestamp(millis as i64)
        } else {
            None
        }
    }

    /// The parameters that select `instrument_id`.
    fn instrument_map(instrument_id: &str) -> (params: StringMap)
        ensures
            params@ == instrument_params(instrument_id@),
    {
        let mut params = StringMap::new();
        params.insert("instId".to_owned(), instrument_id.to_owned());
        assert(params@ =~= instrument_params(instrument_id@));
        params
    }

    /// Builds a `GET` request as of a time in milliseconds since the epoch.
    fn get_at(&self, endpoint: &str, params: Option<&StringMap>, timestamp: u64) -> (request:
        Option<SignedRequest>)
        ensures
            optional_request(request) == self.request_at(
                endpoint@,
                optional_pairs(params),
                timestamp as nat,
            ),
    {
        match OkxExchange::timestamp(timestamp) {
            Some(text) => Some(self.request_for(Method::Get, endpoint, params, text.as_str())),
            None => None,
        }
    }
}

impl BaseExchange for OkxExchange {
    /// The ticker of one instrument.
    open spec fn ticker_request_view(&self, symbol: Seq<char>, timestamp: nat) -> Option<
        RequestView,
    > {
        self.request_at("/api/v5/market/ticker"@, Some(instrument_params(symbol)), timestamp)
    }

    /// The positions of the account, of one instrument or of all.
    open spec fn positions_request_view(&self, symbol: Option<Seq<char>>, timestamp: nat) -> Option<
        RequestView,
    > {
        self.request_at("/api/v5/account/positions"@, optional_instrument_params(symbol), timestamp)
    }

    /// The balance of the account.
    open spec fn balances_request_view(&self, timestamp: nat) -> Option<RequestView> {
        self.request_at("/api/v5/account/balance"@, None, timestamp)
    }

    /// The first entry of `data` is the ticker.
    open spec fn ticker_view(&self, status: u16, body: Seq<char>) -> Result<
        Seq<(Seq<char>, Seq<char>)>,
        ErrorView,
    > {
        account_info_outcome(response_outcome(json_document(body), status, body))
    }

    /// Every entry of `data` is a position.
    open spec fn positions_view(&self, status: u16, body: Seq<char>) -> Result<
        Seq<Seq<(Seq<char>, Seq<char>)>>,
        ErrorView,
    > {
        positions_outcome(response_outcome(json_document(body), status, body))
    }

    /// Every entry of `data` is a balance record; the totals of the account,
    /// such as `totalEq` and `mmr`, are text fields of the first.
    open spec fn balances_view(&self, status: u16, body: Seq<char>) -> Result<
        Seq<Seq<(Seq<char>, Seq<char>)>>,
        ErrorView,
    > {
        positions_outcome(response_outcome(json_document(body), status, body))
    }

    open spec fn best_price_field(&self, side: Side) -> Seq<char> {
        match side {
            Side::Buy => "askPx"@,
            Side::Sell => "bidPx"@,
        }
    }

    fn request_ticker(&self, symbol: &str, timestamp: u64) -> (request: Option<SignedRequest>) {
        let params = OkxExchange::instrument_map(symbol);
        self.get_at("/api/v5/market/ticker", Some(&params), timestamp)
    }

    fn get_ticker(&self, status: u16, body: &str) -> (result: Result<StringMap, ExchangeError>) {
        self.get_account_info(status, body)
    }

    fn request_positions(&self, symbol: Option<&str>, timestamp: u64) -> (request: Option<
        SignedRequest,
    >) {
        match symbol {
            Some(name) => {
                let params = OkxExchange::instrument_map(name);
                self.get_at("/api/v5/account/positions", Some(&params), timestamp)
            },
            None => self.get_at("/api/v5/account/positions", None, timestamp),
        }
    }

    fn fetch_positions(&self, status: u16, body: &str) -> (result: Result<
        Vec<StringMap>,
        ExchangeError,
    >) {
        self.get_positions_info(status, body)
    }

    fn request_balances(&self, timestamp: u64) -> (request: Option<SignedRequest>) {
        self.get_at("/api/v5/account/balance", None, timestamp)
    }

    fn fetch_balances(&self, status: u16, body: &str) -> (result: Result<
        Vec<StringMap>,
        ExchangeError,
    >) {
        self.get_positions_info(status, body)
    }

    fn get_bbo_price(&self, side: Side, status: u16, body: &str) -> (result: Result<
        String,
        ExchangeError,
    >) {
        let field = match side {
            Side::Buy => "askPx",
            Side::Sell => "bidPx",
        };
        number_field(self.get_account_info(status, body), field)
    }
}

} // verus!
