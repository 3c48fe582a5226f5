//! The failures that the library reports to its callers.

use vstd::prelude::*;

verus! {

/// A failure of one call. Every failure is handed back to the caller as a
/// value: nothing is retried or swallowed here.
#[derive(Clone, Debug, PartialEq, Eq)]
pub enum ExchangeError {
    /// The HTTP method is none of `GET`, `POST`, `DELETE`.
    InvalidMethod,
    /// The transport could not complete the exchange; `cause` is its report.
    TransportError { cause: String },
    /// The response body is not JSON; `body` is the body as it was received.
    MalformedResponse { body: String, message: String },
    /// The exchange answered, and the answer reports a failure.
    ApiError { code: String, message: String },
    /// An expected field is missing, or holds no number where one is expected.
    FieldNotFound { field: String },
    /// A value is present but has another shape than the one expected.
    TypeMismatch,
    /// The response holds a JSON `null` or boolean.
    UnsupportedValue,
}

/// What an [`ExchangeError`] holds, as mathematical values.
pub enum ErrorView {
    InvalidMethod,
    TransportError { cause: Seq<char> },
    MalformedResponse { body: Seq<char>, message: Seq<char> },
    ApiError { code: Seq<char>, message: Seq<char> },
    FieldNotFound { field: Seq<char> },
    TypeMismatch,
    UnsupportedValue,
}

impl View for ExchangeError {
    type V = ErrorView;

    open spec fn view(&self) -> ErrorView {
        match self {
            ExchangeError::InvalidMethod => ErrorView::InvalidMethod,
            ExchangeError::TransportError { cause } => ErrorView::TransportError { cause: cause@ },
            ExchangeError::MalformedResponse { body, message } => ErrorView::MalformedResponse {
                body: body@,
                message: message@,
            },
            ExchangeError::ApiError { code, message } => ErrorView::ApiError {
                code: code@,
                message: message@,
            },
            ExchangeError::FieldNotFound { field } => ErrorView::FieldNotFound { field: field@ },
            ExchangeError::TypeMismatch => ErrorView::TypeMismatch,
            ExchangeError::UnsupportedValue => ErrorView::UnsupportedValue,
        }
    }
}

/// The outcome of a call as mathematical values: the view of what it
/// returned, or the view of its failure.
pub open spec fn outcome<T: View>(result: Result<T, ExchangeError>) -> Result<T::V, ErrorView> {
    match result {
        Ok(value) => Ok(value@),
        Err(error) => Err(error@),
    }
}

/// The text that describes a failure.
pub open spec fn description(error: ErrorView) -> Seq<char> {
    match error {
        ErrorView::InvalidMethod => "Invalid method."@,
        ErrorView::TransportError { cause } => "Request error: "@ + cause,
        ErrorView::MalformedResponse { body, message } => "Failed to parse string to json: "@
            + body + ". Error: "@ + message + "."@,
        ErrorView::ApiError { code, message } => "API error: "@ + code + " - "@ + message,
        ErrorView::FieldNotFound { field } => "Field not found: "@ + field,
        ErrorView::TypeMismatch => "A value has another shape than expected."@,
        ErrorView::UnsupportedValue => "Unsupported JSON type!"@,
    }
}

impl ExchangeError {
    /// Describes the failure in one line.
    pub fn describe(&self) -> (text: String)
        ensures
            text@ == description(self@),
    {
        match self {
            ExchangeError::InvalidMethod => "Invalid method.".to_owned(),
            ExchangeError::TransportError { cause } => {
                let mut text = "Request error: ".to_owned();
                text.append(cause.as_str());
                text
            },
            ExchangeError::MalformedResponse { body, message } => {
                let mut text = "Failed to parse string to json: ".to_owned();
                text.append(body.as_str());
                text.append(". Error: ");
                text.append(message.as_str());
                text.append(".");
                text
            },
            ExchangeError::ApiError { code, message } => {
                let mut text = "API error: ".to_owned();
                text.append(code.as_str());
                text.append(" - ");
                text.append(message.as_str());
                text
            },
            ExchangeError::FieldNotFound { field } => {
                let mut text = "Field not found: ".to_owned();
                text.append(field.as_str());
                text
            },
            ExchangeError::TypeMismatch => "A value has another shape than expected.".to_owned(),
            ExchangeError::UnsupportedValue => "Unsupported JSON type!".to_owned(),
        }
    }


    /// Whether a caller may reasonably repeat the call: only a transport
    /// failure says nothing about the request itself.
    pub fn is_transport(&self) -> (b: bool)
        ensures
            b == (self@ is TransportError),
    {
        match self {
            ExchangeError::TransportError { .. } => true,
            _ => false,
        }
    }
}

} // verus!
