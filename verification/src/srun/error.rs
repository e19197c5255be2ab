//! The error that every step of an attempt can end in.

use vstd::prelude::*;
use vstd::string::*;
use crate::srun::text::{decimal_text, push_decimal};

verus! {

/// What went wrong.
#[derive(Debug, PartialEq, Eq)]
pub enum ErrorKind {
    /// The transport could not complete the request; the message is the
    /// transport's own.
    Transport,
    /// The reply came with another status code than the step requires.
    UnexpectedStatus { expected: u16, actual: u16 },
    /// The reply body is not of the form `token(payload)`.
    EnvelopeFormat,
    /// The payload is not JSON, or holds a number too long to be parsed; the
    /// message says which.
    MalformedJson,
    /// A mandatory field of the reply is missing or of the wrong JSON type.
    Decode { field: String },
    /// The redirect reply carries no `Location` header.
    MissingLocationHeader,
    /// The `Location` header names no `ac_id`.
    AcIdPatternNotFound,
    /// The step needs credentials and the client has none.
    MissingCredentials,
}

/// The mathematical value of an `ErrorKind`.
pub enum KindView {
    Transport,
    UnexpectedStatus { expected: u16, actual: u16 },
    EnvelopeFormat,
    MalformedJson,
    Decode { field: Seq<char> },
    MissingLocationHeader,
    AcIdPatternNotFound,
    MissingCredentials,
}

impl View for ErrorKind {
    type V = KindView;

    open spec fn view(&self) -> KindView {
        match self {
            ErrorKind::Transport => KindView::Transport,
            ErrorKind::UnexpectedStatus { expected, actual } => KindView::UnexpectedStatus {
                expected: *expected,
                actual: *actual,
            },
            ErrorKind::EnvelopeFormat => KindView::EnvelopeFormat,
            ErrorKind::MalformedJson => KindView::MalformedJson,
            ErrorKind::Decode { field } => KindView::Decode { field: field@ },
            ErrorKind::MissingLocationHeader => KindView::MissingLocationHeader,
            ErrorKind::AcIdPatternNotFound => KindView::AcIdPatternNotFound,
            ErrorKind::MissingCredentials => KindView::MissingCredentials,
        }
    }
}

#[derive(Debug, PartialEq, Eq)]
pub struct SRUNClientError {
    pub kind: ErrorKind,
    pub message: String,
}

/// The mathematical value of an error: its kind and the text of its message.
pub struct ErrorView {
    pub kind: KindView,
    pub message: Seq<char>,
}

impl View for SRUNClientError {
    type V = ErrorView;

    open spec fn view(&self) -> ErrorView {
        ErrorView { kind: self.kind@, message: self.message@ }
    }
}

/// The error for a transport failure with the given message.
pub open spec fn transport_error(message: Seq<char>) -> ErrorView {
    ErrorView { kind: KindView::Transport, message }
}

/// The error for a reply with status `actual` where `expected` is required.
pub open spec fn unexpected_status_error(expected: u16, actual: u16) -> ErrorView {
    ErrorView {
        kind: KindView::UnexpectedStatus { expected, actual },
        message: "Server responded with code "@ + decimal_text(actual as nat),
    }
}

/// The error for a body that is no envelope.
pub open spec fn envelope_error(body: Seq<char>) -> ErrorView {
    ErrorView { kind: KindView::EnvelopeFormat, message: "Invalid json format "@ + body }
}

/// The error for a payload that is refused as JSON with `message`.
pub open spec fn malformed_json_error(message: Seq<char>) -> ErrorView {
    ErrorView { kind: KindView::MalformedJson, message }
}

/// The error for a mandatory field that is missing or mistyped.
pub open spec fn decode_error(field: Seq<char>) -> ErrorView {
    ErrorView {
        kind: KindView::Decode { field },
        message: "Missing or mistyped field "@ + field,
    }
}

/// The error for a redirect reply without a `Location` header.
pub open spec fn missing_location_error() -> ErrorView {
    ErrorView {
        kind: KindView::MissingLocationHeader,
        message: "Redirect reply has no Location header"@,
    }
}

/// The error for a `Location` header that names no `ac_id`.
pub open spec fn ac_id_error() -> ErrorView {
    ErrorView { kind: KindView::AcIdPatternNotFound, message: "Redirect location names no ac_id"@ }
}

/// The error for a step that needs credentials where there are none.
pub open spec fn missing_credentials_error() -> ErrorView {
    ErrorView {
        kind: KindView::MissingCredentials,
        message: "Username and password must be provided"@,
    }
}

/// The view of a result: both sides by their views.
pub open spec fn result_view<T: View, E: View>(res: Result<T, E>) -> Result<T::V, E::V> {
    match res {
        Ok(value) => Ok(value@),
        Err(error) => Err(error@),
    }
}

impl SRUNClientError {
    pub fn transport(message: String) -> (e: SRUNClientError)
        ensures
            e@ == transport_error(message@),
    {
        SRUNClientError { kind: ErrorKind::Transport, message }
    }

    pub fn unexpected_status(expected: u16, actual: u16) -> (e: SRUNClientError)
        ensures
            e@ == unexpected_status_error(expected, actual),
    {
        let mut message = String::from_str("Server responded with code ");
        push_decimal(&mut message, actual as u64);
        SRUNClientError { kind: ErrorKind::UnexpectedStatus { expected, actual }, message }
    }

    pub fn envelope_format(body: &str) -> (e: SRUNClientError)
        ensures
            e@ == envelope_error(body@),
    {
        let mut message = String::from_str("Invalid json format ");
        message.append(body);
        SRUNClientError { kind: ErrorKind::EnvelopeFormat, message }
    }

    pub fn malformed_json(message: String) -> (e: SRUNClientError)
        ensures
            e@ == malformed_json_error(message@),
    {
        SRUNClientError { kind: ErrorKind::MalformedJson, message }
    }

    pub fn decode(field: &str) -> (e: SRUNClientError)
        ensures
            e@ == decode_error(field@),
    {
        let mut message = String::from_str("Missing or mistyped field ");
        message.append(field);
        SRUNClientError { kind: ErrorKind::Decode { field: String::from_str(field) }, message }
    }

    pub fn missing_location_header() -> (e: SRUNClientError)
        ensures
            e@ == missing_location_error(),
    {
        SRUNClientError {
            kind: ErrorKind::MissingLocationHeader,
            message: String::from_str("Redirect reply has no Location header"),
        }
    }

    pub fn ac_id_pattern_not_found() -> (e: SRUNClientError)
        ensures
            e@ == ac_id_error(),
    {
        SRUNClientError {
            kind: ErrorKind::AcIdPatternNotFound,
            message: String::from_str("Redirect location names no ac_id"),
        }
    }

    pub fn missing_credentials() -> (e: SRUNClientError)
        ensures
            e@ == missing_credentials_error(),
    {
        SRUNClientError {
            kind: ErrorKind::MissingCredentials,
            message: String::from_str("Username and password must be provided"),
        }
    }

    /// The text that the error is shown as: its message behind the type's
    /// name.
    pub fn to_text(&self) -> (text: String)
        ensures
            text@ == "SRUNClientError: "@ + self.message@,
    {
        let mut text = String::from_str("SRUNClientError: ");
        text.append(self.message.as_str());
        text
    }
}

} // verus!
