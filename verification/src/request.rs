//! The parts of a request that every exchange shares: the method, the encoded
//! parameters and the signed request that is handed to the transport.

use crate::error::{ErrorView, ExchangeError};
use crate::string_map::{pair_views, StringMap};
use crate::text::str_eq;
use vstd::prelude::*;

verus! {

/// The HTTP methods that the exchanges accept.
#[derive(Clone, Copy, Debug, PartialEq, Eq, Structural)]
pub enum Method {
    Get,
    Post,
    Delete,
}

impl Method {
    /// The method as it is written in a request.
    pub open spec fn name(self) -> Seq<char> {
        match self {
            Method::Get => "GET"@,
            Method::Post => "POST"@,
            Method::Delete => "DELETE"@,
        }
    }

    /// The method that a text names, if it names one.
    pub open spec fn named(text: Seq<char>) -> Option<Method> {
        if text == "GET"@ {
            Some(Method::Get)
        } else if text == "POST"@ {
            Some(Method::Post)
        } else if text == "DELETE"@ {
            Some(Method::Delete)
        } else {
            None
        }
    }

    /// Whether the parameters of a request with this method travel in its
    /// body rather than in its query string.
    pub open spec fn has_body(self) -> bool {
        self != Method::Get
    }

    /// Reads a method. Anything but `GET`, `POST` and `DELETE` is an
    /// `InvalidMethod`.
    pub fn parse(text: &str) -> (result: Result<Method, ExchangeError>)
        ensures
            match result {
                Ok(method) => Method::named(text@) == Some(method),
                Err(error) => Method::named(text@) is None && error@ == ErrorView::InvalidMethod,
            },
    {
        if str_eq(text, "GET") {
            Ok(Method::Get)
        } else if str_eq(text, "POST") {
            Ok(Method::Post)
        } else if str_eq(text, "DELETE") {
            Ok(Method::Delete)
        } else {
            Err(ExchangeError::InvalidMethod)
        }
    }

    /// The method as it is written in a request.
    pub fn as_str(&self) -> (text: &'static str)
        ensures
            text@ == self.name(),
    {
        match self {
            Method::Get => "GET",
            Method::Post => "POST",
            Method::Delete => "DELETE",
        }
    }

    /// Whether the parameters of a request with this method travel in its
    /// body.
    pub fn carries_body(&self) -> (body: bool)
        ensures
            body == self.has_body(),
    {
        match self {
            Method::Get => false,
            _ => true,
        }
    }
}

/// The three method names differ, so a text names at most one method and
/// every method is named by its own name.
pub proof fn lemma_method_names(method: Method)
    ensures
        Method::named(method.name()) == Some(method),
{
    reveal_strlit("GET");
    reveal_strlit("POST");
    reveal_strlit("DELETE");
    assert("GET"@.len() == 3);
    assert("POST"@.len() == 4);
    assert("DELETE"@.len() == 6);
}

/// A request that is ready to be sent: nothing in it is changed after it has
/// been signed.
#[derive(Clone, Debug, PartialEq, Eq)]
pub struct SignedRequest {
    pub method: Method,
    /// The absolute URL, query string included.
    pub url: String,
    /// The header lines, each a name and a value.
    pub headers: Vec<(String, String)>,
    /// The body exactly as it was signed, where the request has one.
    pub body: Option<String>,
}

/// A [`SignedRequest`] as a mathematical value.
pub struct RequestView {
    pub method: Method,
    pub url: Seq<char>,
    pub headers: Seq<(Seq<char>, Seq<char>)>,
    pub body: Option<Seq<char>>,
}

impl View for SignedRequest {
    type V = RequestView;

    open spec fn view(&self) -> RequestView {
        RequestView {
            method: self.method,
            url: self.url@,
            headers: pair_views(self.headers@),
            body: match self.body {
                Some(text) => Some(text@),
                None => None,
            },
        }
    }
}

/// The pairs of an optional mapping.
pub open spec fn optional_pairs(params: Option<&StringMap>) -> Option<
    Seq<(Seq<char>, Seq<char>)>,
> {
    match params {
        Some(map) => Some(map@),
        None => None,
    }
}

/// The `application/x-www-form-urlencoded` serialisation of the pairs, in the
/// order in which they stand.
pub uninterp spec fn form_urlencoded(pairs: Seq<(Seq<char>, Seq<char>)>) -> Seq<char>;

/// The text of the JSON object that has one string field for each pair.
pub uninterp spec fn json_object_text(pairs: Seq<(Seq<char>, Seq<char>)>) -> Seq<char>;

/// The pairs as a query string, without a leading `?`.
///
/// Calls `extend_pairs` and `finish` on a `url::form_urlencoded::Serializer`
/// that starts from the empty string. The contract names the text that comes
/// out: it depends on the pairs and their order alone.
#[verifier::external_body]
pub(crate) fn encode_query(pairs: &Vec<(String, String)>) -> (text: String)
    ensures
        text@ == form_urlencoded(pair_views(pairs@)),
{
    let mut serializer = url::form_urlencoded::Serializer::new(String::new());
    serializer.extend_pairs(pairs.iter()).finish()
}

/// The pairs as the text of a JSON object.
///
/// Calls `serde_json::to_string` on a `serde_json::Map` that holds each pair
/// as a string field. The contract names the text that comes out; the map
/// has string keys, so the call does not fail.
#[verifier::external_body]
pub(crate) fn encode_body(pairs: &Vec<(String, String)>) -> (text: String)
    ensures
        text@ == json_object_text(pair_views(pairs@)),
{
    let object: serde_json::Map<String, serde_json::Value> = pairs.iter().map(
        |pair| (pair.0.clone(), serde_json::Value::String(pair.1.clone())),
    ).collect();
    serde_json::to_string(&object).unwrap_or_default()
}

} // verus!
