//! Error classification for the definition pipeline.

use vstd::prelude::*;
use vstd::string::*;

verus! {

/// The stage at which a definition lookup failed.
#[derive(Debug, Clone, Copy, PartialEq, Eq, Structural)]
pub enum FailureKind {
    /// The transport failed, or the provider answered with a non-success status.
    Request,
    /// The response body was not valid JSON.
    Json,
    /// The expected text path was absent from the response JSON.
    Extraction,
    /// The extracted text did not match the definition schema.
    Deserialization,
}

/// A classified pipeline error, carrying a human-readable cause.
#[derive(Debug, Clone, PartialEq, Eq)]
pub enum DictError {
    /// Network failure or non-success status; carries the cause or status code.
    RequestError(String),
    /// Response body not parseable as JSON; carries the parser's message.
    JsonError(String),
    /// The text path was missing from an otherwise valid JSON response.
    ExtractionError,
    /// The extracted text did not deserialize into a definition; carries the cause.
    DeserializationError(String),
}

impl DictError {
    /// The stage this error classifies.
    pub open spec fn kind(&self) -> FailureKind {
        match self {
            DictError::RequestError(_) => FailureKind::Request,
            DictError::JsonError(_) => FailureKind::Json,
            DictError::ExtractionError => FailureKind::Extraction,
            DictError::DeserializationError(_) => FailureKind::Deserialization,
        }
    }

    /// The single descriptive string surfaced to the caller.
    pub open spec fn message_spec(&self) -> Seq<char> {
        match self {
            DictError::RequestError(s) => "request error: "@ + s@,
            DictError::JsonError(s) => "json error: "@ + s@,
            DictError::ExtractionError => "json error: dictionary not found"@,
            DictError::DeserializationError(s) => "serde error: "@ + s@,
        }
    }

    /// Render the error as the single descriptive string surfaced to the caller.
    pub fn message(&self) -> (r: String)
        ensures
            r@ == self.message_spec(),
    {
        match self {
            DictError::RequestError(s) => {
                let mut m = String::from_str("request error: ");
                m.append(s.as_str());
                m
            },
            DictError::JsonError(s) => {
                let mut m = String::from_str("json error: ");
                m.append(s.as_str());
                m
            },
            DictError::ExtractionError => String::from_str("json error: dictionary not found"),
            DictError::DeserializationError(s) => {
                let mut m = String::from_str("serde error: ");
                m.append(s.as_str());
                m
            },
        }
    }
}

} // verus!
