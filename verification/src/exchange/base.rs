//! What every exchange client offers, whatever the exchange.
//!
//! A capability comes in two halves: one builds the signed request, the other
//! reads the response to it. The caller sends the request in between.

use crate::constants::Side;
use crate::error::{outcome, ErrorView, ExchangeError};
use crate::number::{is_number, writes_number};
use crate::request::{RequestView, SignedRequest};
use crate::string_map::{lookup, StringMap};
use crate::value::{
    flattened, lemma_list_models, list_models, record_views, records_of, text_fields, DataModel,
    DataValue,
};
use vstd::prelude::*;

verus! {

/// The outcome of a call that returns a list of response values.
pub open spec fn list_outcome(result: Result<Vec<DataValue>, ExchangeError>) -> Result<
    Seq<DataModel>,
    ErrorView,
> {
    match result {
        Ok(items) => Ok(list_models(items@)),
        Err(error) => Err(error@),
    }
}

/// The outcome of a call that returns a list of records.
pub open spec fn records_outcome(result: Result<Vec<StringMap>, ExchangeError>) -> Result<
    Seq<Seq<(Seq<char>, Seq<char>)>>,
    ErrorView,
> {
    match result {
        Ok(records) => Ok(record_views(records@)),
        Err(error) => Err(error@),
    }
}

/// The view of an optional request.
pub open spec fn optional_request(request: Option<SignedRequest>) -> Option<RequestView> {
    match request {
        Some(r) => Some(r@),
        None => None,
    }
}

/// The text of an optional string slice.
pub open spec fn optional_str(text: Option<&str>) -> Option<Seq<char>> {
    match text {
        Some(t) => Some(t@),
        None => None,
    }
}

/// The number that a record holds under `field`, as the text that writes
/// it. A record without the field, or with a text there that writes no
/// number, reports the field as not found.
pub open spec fn number_outcome(
    info: Result<Seq<(Seq<char>, Seq<char>)>, ErrorView>,
    field: Seq<char>,
) -> Result<Seq<char>, ErrorView> {
    match info {
        Err(error) => Err(error),
        Ok(record) => match lookup(record, field) {
            Some(text) => if writes_number(text) {
                Ok(text)
            } else {
                Err(ErrorView::FieldNotFound { field })
            },
            None => Err(ErrorView::FieldNotFound { field }),
        },
    }
}

/// Flattens each map of a list to a record.
pub fn flatten_all(items: &Vec<DataValue>) -> (result: Result<Vec<StringMap>, ExchangeError>)
    ensures
        records_outcome(result) == records_of(list_models(items@)),
{
    let ghost models = list_models(items@);
    proof {
        lemma_list_models(items@);
    }
    let mut records: Vec<StringMap> = Vec::new();
    let mut i: usize = 0;
    while i < items.len()
        invariant
            i <= items.len(),
            models == list_models(items@),
            models.len() == items@.len(),
            forall|k: int| 0 <= k < items@.len() ==> models[k] == items@[k]@,
            records@.len() == i,
            forall|k: int|
                0 <= k < i ==> (#[trigger] models[k]) is Record && records@[k]@
                    == text_fields(models[k]->Record_0),
        decreases items.len() - i,
    {
        match items[i].string_fields() {
            Ok(record) => {
                records.push(record);
            },
            Err(error) => {
                assert(!(models[i as int] is Record));
                return Err(error);
            },
        }
        i += 1;
    }
    assert(record_views(records@) =~= flattened(models));
    Ok(records)
}


/// Reads the number of the field `field` from a record that a call has
/// returned.
pub fn number_field(info: Result<StringMap, ExchangeError>, field: &str) -> (result: Result<
    String,
    ExchangeError,
>)
    ensures
        outcome(result) == number_outcome(outcome(info), field@),
{
    let info = match info {
        Ok(info) => info,
        Err(error) => {
            return Err(error);
        },
    };
    match info.get(field) {
        Some(text) => if is_number(text.as_str()) {
            Ok(text.clone())
        } else {
            Err(ExchangeError::FieldNotFound { field: field.to_owned() })
        },
        None => Err(ExchangeError::FieldNotFound { field: field.to_owned() }),
    }
}

/// The capabilities of an exchange client.
///
/// Times are given in milliseconds since the epoch. A request is `None`
/// where the exchange cannot write the time.
pub trait BaseExchange {
    /// The request for the ticker of `symbol`.
    spec fn ticker_request_view(&self, symbol: Seq<char>, timestamp: nat) -> Option<RequestView>;

    /// The request for the positions, of one symbol or of all.
    spec fn positions_request_view(&self, symbol: Option<Seq<char>>, timestamp: nat) -> Option<
        RequestView,
    >;

    /// The request for the balances.
    spec fn balances_request_view(&self, timestamp: nat) -> Option<RequestView>;

    /// The ticker in a response.
    spec fn ticker_view(&self, status: u16, body: Seq<char>) -> Result<
        Seq<(Seq<char>, Seq<char>)>,
        ErrorView,
    >;

    /// The positions in a response.
    spec fn positions_view(&self, status: u16, body: Seq<char>) -> Result<
        Seq<Seq<(Seq<char>, Seq<char>)>>,
        ErrorView,
    >;

    /// The balances in a response.
    spec fn balances_view(&self, status: u16, body: Seq<char>) -> Result<
        Seq<Seq<(Seq<char>, Seq<char>)>>,
        ErrorView,
    >;

    /// The field of a ticker that holds the best price for an order on
    /// `side`: the best ask for a buy, the best bid for a sell.
    spec fn best_price_field(&self, side: Side) -> Seq<char>;

    /// Builds the request for the ticker of `symbol`.
    fn request_ticker(&self, symbol: &str, timestamp: u64) -> (request: Option<SignedRequest>)
        ensures
            optional_request(request) == self.ticker_request_view(symbol@, timestamp as nat),
    ;

    /// Reads the ticker from the response to `request_ticker`.
    fn get_ticker(&self, status: u16, body: &str) -> (result: Result<StringMap, ExchangeError>)
        ensures
            outcome(result) == self.ticker_view(status, body@),
    ;

    /// Builds the request for the positions, of `symbol` or of all.
    fn request_positions(&self, symbol: Option<&str>, timestamp: u64) -> (request: Option<
        SignedRequest,
    >)
        ensures
            optional_request(request) == self.positions_request_view(
                optional_str(symbol),
                timestamp as nat,
            ),
    ;

    /// Reads the positions from the response to `request_positions`.
    fn fetch_positions(&self, status: u16, body: &str) -> (result: Result<
        Vec<StringMap>,
        ExchangeError,
    >)
        ensures
            records_outcome(result) == self.positions_view(status, body@),
    ;

    /// Builds the request for the balances.
    fn request_balances(&self, timestamp: u64) -> (request: Option<SignedRequest>)
        ensures
            optional_request(request) == self.balances_request_view(timestamp as nat),
    ;

    /// Reads the balances from the response to `request_balances`.
    fn fetch_balances(&self, status: u16, body: &str) -> (result: Result<
        Vec<StringMap>,
        ExchangeError,
    >)
        ensures
            records_outcome(result) == self.balances_view(status, body@),
    ;

    /// Reads the best price for an order on `side` from the response to
    /// `request_ticker`, as the text that writes it.
    fn get_bbo_price(&self, side: Side, status: u16, body: &str) -> (result: Result<
        String,
        ExchangeError,
    >)
        ensures
            outcome(result) == number_outcome(
                self.ticker_view(status, body@),
                self.best_price_field(side),
            ),
    ;
}

} // verus!
