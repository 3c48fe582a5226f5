//! The time of a request as the text that the pre-hash style signs.

use vstd::prelude::*;

verus! {

/// The RFC 3339 text, in UTC with three digits of milliseconds and a closing
/// `Z`, of the instant that lies `millis` milliseconds after the epoch; none
/// where the calendar of `chrono` does not reach that instant.
pub uninterp spec fn rfc3339_millis(millis: int) -> Option<Seq<char>>;

/// The text of an optional string.
pub open spec fn optional_text(text: Option<String>) -> Option<Seq<char>> {
    match text {
        Some(t) => Some(t@),
        None => None,
    }
}

/// The timestamp of a request that is made `millis` milliseconds after the
/// epoch, or nothing where that instant cannot be written.
///
/// Calls `chrono::DateTime::from_timestamp_millis`, which returns nothing for
/// an instant out of its range, and `to_rfc3339_opts` with
/// `SecondsFormat::Millis` and `Z` for UTC. The contract names the result.
#[verifier::external_body]
pub(crate) fn iso_timestamp(millis: i64) -> (text: Option<String>)
    ensures
        optional_text(text) == rfc3339_millis(millis as int),
{
    chrono::DateTime::from_timestamp_millis(millis).map(
        |instant| instant.to_rfc3339_opts(chrono::SecondsFormat::Millis, true),
    )
}

} // verus!
