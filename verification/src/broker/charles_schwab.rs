//! The first step of a session with Charles Schwab: the exchange of an
//! authorization code for a token.
//!
//! The user opens the authorize URL and is sent back to a callback URL that
//! carries a code. The code goes into the payload of the token request, which
//! is authenticated by the application's key and secret.

use crate::error::{ErrorView, ExchangeError};
use crate::signing::{base64_of_text, base64_standard};
use crate::string_map::{lemma_position_is, lookup, pair_views, StringMap};
use crate::text::str_eq;
use vstd::prelude::*;
use vstd::utf8::encode_utf8;

verus! {

/// The address that the user is sent back to.
pub open spec fn redirect_uri() -> Seq<char> {
    "https://127.0.0.1"@
}

/// The URL at which the user authorizes the application `app_key`.
pub open spec fn authorize_url(app_key: Seq<char>) -> Seq<char> {
    "https://api.schwabapi.com/v1/oauth/authorize?client_id="@ + app_key + "&redirect_uri="@
        + redirect_uri()
}

/// The value of the `Authorization` header of the token request: `Basic` and
/// the base64 encoding of the key, a colon and the secret.
pub open spec fn basic_authorization(app_key: Seq<char>, secret: Seq<char>) -> Seq<char> {
    "Basic "@ + base64_standard(encode_utf8(app_key + ":"@ + secret))
}

/// The pairs of the query string of a URL, percent-decoded and in order, as
/// the `url` crate reads them; none where the text is no absolute URL.
pub uninterp spec fn url_query_pairs(url: Seq<char>) -> Option<Seq<(Seq<char>, Seq<char>)>>;

/// The pairs of an optional list of pairs.
pub open spec fn optional_pair_views(pairs: Option<Vec<(String, String)>>) -> Option<
    Seq<(Seq<char>, Seq<char>)>,
> {
    match pairs {
        Some(list) => Some(pair_views(list@)),
        None => None,
    }
}

/// The authorization code that a callback URL carries: the value of its
/// first `code` parameter.
pub open spec fn callback_code(pairs: Option<Seq<(Seq<char>, Seq<char>)>>) -> Option<Seq<char>> {
    match pairs {
        Some(list) => lookup(list, "code"@),
        None => None,
    }
}

/// The payload of the token request.
#[derive(Clone, Debug, PartialEq, Eq)]
pub struct Payload {
    pub grant_type: String,
    pub code: String,
    pub redirect_uri: String,
}

/// A [`Payload`] as a mathematical value.
pub struct PayloadView {
    pub grant_type: Seq<char>,
    pub code: Seq<char>,
    pub redirect_uri: Seq<char>,
}

impl View for Payload {
    type V = PayloadView;

    open spec fn view(&self) -> PayloadView {
        PayloadView {
            grant_type: self.grant_type@,
            code: self.code@,
            redirect_uri: self.redirect_uri@,
        }
    }
}

/// The payload that exchanges `code` for a token.
pub open spec fn token_payload(code: Seq<char>) -> PayloadView {
    PayloadView { grant_type: "authorization_code"@, code, redirect_uri: redirect_uri() }
}

/// What the token request comes to, given the pairs of the callback URL: its
/// headers and its payload, or `code` reported as not found.
pub open spec fn token_request(
    app_key: Seq<char>,
    secret: Seq<char>,
    pairs: Option<Seq<(Seq<char>, Seq<char>)>>,
) -> Result<(Seq<(Seq<char>, Seq<char>)>, PayloadView), ErrorView> {
    match callback_code(pairs) {
        Some(code) => Ok(
            (seq![("Authorization"@, basic_authorization(app_key, secret))], token_payload(code)),
        ),
        None => Err(ErrorView::FieldNotFound { field: "code"@ }),
    }
}

/// The outcome of a call that returns headers and a payload.
pub open spec fn token_outcome(
    result: Result<(Vec<(String, String)>, Payload), ExchangeError>,
) -> Result<(Seq<(Seq<char>, Seq<char>)>, PayloadView), ErrorView> {
    match result {
        Ok(parts) => Ok((pair_views(parts.0@), parts.1@)),
        Err(error) => Err(error@),
    }
}

/// Calls `url::Url::parse` and collects what `query_pairs` hands out. The
/// contract names the result: the decoded pairs in order, or nothing for a
/// text that the crate does not accept as an absolute URL.
#[verifier::external_body]
fn query_pairs(url: &str) -> (pairs: Option<Vec<(String, String)>>)
    ensures
        optional_pair_views(pairs) == url_query_pairs(url@),
{
    match url::Url::parse(url) {
        Ok(parsed) => Some(
            parsed.query_pairs().map(|pair| (pair.0.into_owned(), pair.1.into_owned())).collect(),
        ),
        Err(_) => None,
    }
}

/// The client of one Charles Schwab application.
pub struct CharlesSchwab {
    app_key: String,
    secret: String,
    base_url: String,
    auth_url: String,
    is_sandbox: bool,
}

impl CharlesSchwab {
    /// The key of the application.
    pub closed spec fn app_key(&self) -> Seq<char> {
        self.app_key@
    }

    /// The secret of the application.
    pub closed spec fn secret(&self) -> Seq<char> {
        self.secret@
    }

    /// The address that every endpoint of the trading interface is appended
    /// to.
    pub closed spec fn base_url(&self) -> Seq<char> {
        self.base_url@
    }

    /// The URL at which the user authorizes the application.
    pub closed spec fn auth_url(&self) -> Seq<char> {
        self.auth_url@
    }

    /// Whether the application runs against the sandbox.
    pub closed spec fn is_sandbox(&self) -> bool {
        self.is_sandbox
    }

    /// A client for the application that `configs` describes under `app_key`
    /// and `secret`. It runs against the sandbox just when `is_sandbox` is
    /// `true`.
    pub fn new(configs: StringMap) -> (client: CharlesSchwab)
        requires
            lookup(configs@, "app_key"@) is Some,
            lookup(configs@, "secret"@) is Some,
        ensures
            Some(client.app_key()) == lookup(configs@, "app_key"@),
            Some(client.secret()) == lookup(configs@, "secret"@),
            client.base_url() == "https://api.schwabapi.com/trader/v1"@,
            client.auth_url() == authorize_url(client.app_key()),
            client.is_sandbox() == (lookup(configs@, "is_sandbox"@) == Some("true"@)),
    {
        let app_key = configs.get("app_key").unwrap().clone();
        let secret = configs.get("secret").unwrap().clone();
        let base_url = "https://api.schwabapi.com/trader/v1".to_owned();
        let is_sandbox = match configs.get("is_sandbox") {
            Some(flag) => str_eq(flag.as_str(), "true"),
            None => false,
        };
        let mut auth_url = "https://api.schwabapi.com/v1/oauth/authorize?client_id=".to_owned();
        auth_url.append(app_key.as_str());
        auth_url.append("&redirect_uri=");
        auth_url.append("https://127.0.0.1");
        CharlesSchwab { app_key, secret, base_url, auth_url, is_sandbox }
    }

    /// The URL at which the user authorizes the application.
    pub fn authorization_url(&self) -> (url: &String)
        ensures
            url@ == self.auth_url(),
    {
        &self.auth_url
    }

    /// The address of the trading interface.
    pub fn trading_url(&self) -> (url: &String)
        ensures
            url@ == self.base_url(),
    {
        &self.base_url
    }

    /// Whether the application runs against the sandbox.
    pub fn sandbox(&self) -> (flag: bool)
        ensures
            flag == self.is_sandbox(),
    {
        self.is_sandbox
    }

    /// The value of the `Authorization` header of the token request.
    pub fn authorization(&self) -> (value: String)
        ensures
            value@ == basic_authorization(self.app_key(), self.secret()),
    {
        let mut credentials = self.app_key.clone();
        credentials.append(":");
        credentials.append(self.secret.as_str());
        let mut value = "Basic ".to_owned();
        value.append(base64_of_text(credentials.as_str()).as_str());
        value
    }

    /// The headers and the payload of the token request, given the pairs of
    /// the callback URL's query string.
    pub fn token_request_from(&self, pairs: Option<Vec<(String, String)>>) -> (result: Result<
        (Vec<(String, String)>, Payload),
        ExchangeError,
    >)
        ensures
            token_outcome(result) == token_request(
                self.app_key(),
                self.secret(),
                optional_pair_views(pairs),
            ),
    {
        let list = match pairs {
            Some(list) => list,
            None => {
                return Err(ExchangeError::FieldNotFound { field: "code".to_owned() });
            },
        };
        let ghost views = pair_views(list@);
        let mut i: usize = 0;
        while i < list.len()
            invariant
                i <= list.len(),
                views == pair_views(list@),
                optional_pair_views(pairs) == Some(views),
                forall|k: int| 0 <= k < i ==> views[k].0 != "code"@,
            decreases list.len() - i,
        {
            if str_eq(list[i].0.as_str(), "code") {
                proof {
                    lemma_position_is(views, "code"@, i as int);
                }
                let mut headers: Vec<(String, String)> = Vec::new();
                headers.push(("Authorization".to_owned(), self.authorization()));
                let payload = Payload {
                    grant_type: "authorization_code".to_owned(),
                    code: list[i].1.clone(),
                    redirect_uri: "https://127.0.0.1".to_owned(),
                };
                assert(pair_views(headers@) =~= seq![
                    ("Authorization"@, basic_authorization(self.app_key(), self.secret())),
                ]);
                return Ok((headers, payload));
            }
            i += 1;
        }
        proof {
            lemma_position_is(views, "code"@, i as int);
        }
        Err(ExchangeError::FieldNotFound { field: "code".to_owned() })
    }

    /// The headers and the payload of the token request that follows the
    /// callback to `returned_url`. A text that is no URL, or a URL without a
    /// `code`, reports `code` as not found.
    pub fn construct_headers_and_payload(&self, returned_url: &str) -> (result: Result<
        (Vec<(String, String)>, Payload),
        ExchangeError,
    >)
        ensures
            token_outcome(result) == token_request(
                self.app_key(),
                self.secret(),
                url_query_pairs(returned_url@),
            ),
    {
        self.token_request_from(query_pairs(returned_url))
    }
}

} // verus!
