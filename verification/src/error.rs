//! The failures that a call of the client can end in.

use vstd::prelude::*;
use crate::api_error::{YooKassaApiError, YooKassaApiErrorView};

verus! {

/// Why a call failed.
#[derive(Debug, Clone)]
pub enum YooKassaError {
    /// The transport could not complete the exchange; holds its message.
    Reqwest(String),
    /// A body that should have been well-formed JSON of the expected shape
    /// was not; holds the parser's message, or the name of the member whose
    /// value has the wrong kind.
    Serde(String),
    /// The gateway answered with a status outside 200..=299.
    ApiError { status: u16, message: String, error_details: Option<YooKassaApiError> },
    /// An address could not be formed; holds the message.
    UrlParse(String),
    /// A header value cannot be transmitted; holds the value.
    InvalidHeaderValue(String),
    /// A decoded payload lacks a required member; holds its name.
    MissingField(String),
}

/// What a [`YooKassaError`] holds, as mathematical values.
pub enum YooKassaErrorView {
    Reqwest(Seq<char>),
    Serde(Seq<char>),
    ApiError { status: u16, message: Seq<char>, error_details: Option<YooKassaApiErrorView> },
    UrlParse(Seq<char>),
    InvalidHeaderValue(Seq<char>),
    MissingField(Seq<char>),
}

impl View for YooKassaError {
    type V = YooKassaErrorView;

    open spec fn view(&self) -> YooKassaErrorView {
        match *self {
            YooKassaError::Reqwest(m) => YooKassaErrorView::Reqwest(m@),
            YooKassaError::Serde(m) => YooKassaErrorView::Serde(m@),
            YooKassaError::ApiError { status, message, error_details } => YooKassaErrorView::ApiError {
                status,
                message: message@,
                error_details: match error_details {
                    Some(d) => Some(d@),
                    None => None,
                },
            },
            YooKassaError::UrlParse(m) => YooKassaErrorView::UrlParse(m@),
            YooKassaError::InvalidHeaderValue(m) => YooKassaErrorView::InvalidHeaderValue(m@),
            YooKassaError::MissingField(m) => YooKassaErrorView::MissingField(m@),
        }
    }
}

} // verus!
