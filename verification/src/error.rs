//! The library's error type and its human-readable messages.
use vstd::prelude::*;
use crate::text::{decimal, push_decimal};

verus! {

/// Everything that can go wrong while reading or driving a page.
#[derive(Debug)]
pub enum HtmlError {
    FetchError(String),
    InvalidUrl(String),
    HttpError(u16),
    BrowserError(String),
    FieldNotFound(String),
    InvalidFieldValue { field: String, reason: String },
    SubmitFailed(String),
    ButtonNotFound(String),
    NoActions,
    TooManyActions { count: usize, max: usize },
    CookieExtractionError(String),
    SessionUnavailable(String),
    /// The remote debugging port is not between 1 and 65535.
    InvalidDebugPort,
}

/// The message text of an error.
pub open spec fn error_message(e: HtmlError) -> Seq<char> {
    match e {
        HtmlError::FetchError(m) => "Failed to fetch URL: "@ + m@,
        HtmlError::InvalidUrl(m) => "Invalid URL: "@ + m@,
        HtmlError::HttpError(status) => "HTTP error: "@ + decimal(status as nat),
        HtmlError::BrowserError(m) => "Browser error: "@ + m@,
        HtmlError::FieldNotFound(n) => "Field not found: "@ + n@,
        HtmlError::InvalidFieldValue { field, reason } => "Invalid value for field '"@ + field@
            + "': "@ + reason@,
        HtmlError::SubmitFailed(m) => "Form submission failed: "@ + m@,
        HtmlError::ButtonNotFound(l) => "Button not found: '"@ + l@ + "'"@,
        HtmlError::NoActions => "No actions provided"@,
        HtmlError::TooManyActions { count, max } => "Too many actions: "@ + decimal(count as nat)
            + " (max "@ + decimal(max as nat) + ")"@,
        HtmlError::CookieExtractionError(m) => m@,
        HtmlError::SessionUnavailable(m) => "Session unavailable: "@ + m@,
        HtmlError::InvalidDebugPort => "Invalid debug_port: must be between 1 and 65535"@,
    }
}

impl HtmlError {
    /// The human-readable message of this error.
    pub fn message(&self) -> (r: String)
        ensures
            r@ == error_message(*self),
    {
        match self {
            HtmlError::FetchError(m) => "Failed to fetch URL: ".to_owned().concat(m.as_str()),
            HtmlError::InvalidUrl(m) => "Invalid URL: ".to_owned().concat(m.as_str()),
            HtmlError::HttpError(status) => {
                let mut r = "HTTP error: ".to_owned();
                push_decimal(&mut r, *status as u64);
                r
            },
            HtmlError::BrowserError(m) => "Browser error: ".to_owned().concat(m.as_str()),
            HtmlError::FieldNotFound(n) => "Field not found: ".to_owned().concat(n.as_str()),
            HtmlError::InvalidFieldValue { field, reason } => "Invalid value for field '".to_owned().concat(
                field.as_str(),
            ).concat("': ").concat(reason.as_str()),
            HtmlError::SubmitFailed(m) => "Form submission failed: ".to_owned().concat(m.as_str()),
            HtmlError::ButtonNotFound(l) => "Button not found: '".to_owned().concat(l.as_str()).concat(
                "'",
            ),
            HtmlError::NoActions => "No actions provided".to_owned(),
            HtmlError::TooManyActions { count, max } => {
                let mut r = "Too many actions: ".to_owned();
                push_decimal(&mut r, *count as u64);
                r.append(" (max ");
                push_decimal(&mut r, *max as u64);
                r.append(")");
                r
            },
            HtmlError::CookieExtractionError(m) => m.clone(),
            HtmlError::SessionUnavailable(m) => "Session unavailable: ".to_owned().concat(m.as_str()),
            HtmlError::InvalidDebugPort => "Invalid debug_port: must be between 1 and 65535".to_owned(),
        }
    }
}

} // verus!
