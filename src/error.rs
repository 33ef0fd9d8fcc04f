//! The closed set of failures and how each one is rendered for a caller.

use vstd::prelude::*;

use crate::json::{detail_spec, extract_detail, json_doc};

verus! {

/// Every failure the gateway can report.
#[derive(Debug, PartialEq, Eq)]
pub enum AppError {
    /// The upstream could not be reached; holds the transport's message.
    TflApiError(String),
    /// Caller-supplied input failed local validation.
    ParseError(String),
    /// The upstream answered with a failure status, or another internal fault.
    InternalError(String),
    /// The requested resource is absent.
    NotFound(String),
    /// The upstream body did not have the expected shape.
    DeserializationError { path: String, message: String, raw_data: Option<String> },
}

/// A failure as the caller sees it: an HTTP status, a message, and for
/// deserialization failures a rendering of the offending sub-document.
#[derive(Debug, PartialEq, Eq)]
pub struct ErrorBody {
    pub status: u16,
    pub error: String,
    pub detail: Option<String>,
}

pub open spec fn status_spec(e: AppError) -> u16 {
    match e {
        AppError::TflApiError(_) => 502,
        AppError::NotFound(_) => 404,
        _ => 500,
    }
}

pub open spec fn deserialization_message(path: Seq<char>, message: Seq<char>) -> Seq<char> {
    "JSON deserialization failed at '"@ + path + "': "@ + message
}

pub open spec fn error_text_spec(e: AppError) -> Seq<char> {
    match e {
        AppError::TflApiError(m) => m@,
        AppError::ParseError(m) => m@,
        AppError::InternalError(m) => m@,
        AppError::NotFound(m) => m@,
        AppError::DeserializationError { path, message, .. } => deserialization_message(
            path@,
            message@,
        ),
    }
}

impl AppError {
    /// The HTTP status this failure is reported with.
    pub fn status_code(&self) -> (r: u16)
        ensures
            r == status_spec(*self),
    {
        match self {
            AppError::TflApiError(_) => 502,
            AppError::NotFound(_) => 404,
            _ => 500,
        }
    }

    /// Renders the failure. A deserialization failure with a raw body gets a
    /// detail: the compact JSON at its path, or a fixed fallback text.
    pub fn into_body(self) -> (r: ErrorBody)
        ensures
            r.status == status_spec(self),
            r.error@ == error_text_spec(self),
            match self {
                AppError::DeserializationError { path, raw_data, .. } => match raw_data {
                    Some(raw) => r.detail.is_some() && r.detail.unwrap()@ == detail_spec(
                        json_doc(raw@),
                        path@,
                    ),
                    None => r.detail.is_none(),
                },
                _ => r.detail.is_none(),
            },
    {
        let status = self.status_code();
        match self {
            AppError::TflApiError(m) => ErrorBody { status, error: m, detail: None },
            AppError::ParseError(m) => ErrorBody { status, error: m, detail: None },
            AppError::InternalError(m) => ErrorBody { status, error: m, detail: None },
            AppError::NotFound(m) => ErrorBody { status, error: m, detail: None },
            AppError::DeserializationError { path, message, raw_data } => {
                let detail = match &raw_data {
                    Some(raw) => Some(extract_detail(raw.as_str(), path.as_str())),
                    None => None,
                };
                let error = String::from_str("JSON deserialization failed at '").concat(
                    path.as_str(),
                ).concat("': ").concat(message.as_str());
                ErrorBody { status, error, detail }
            },
        }
    }
}

} // verus!
