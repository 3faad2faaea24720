//! The errors that the cache operations report.

use vstd::prelude::*;
use vstd::std_specs::convert::FromSpecImpl;
use vstd::string::{to_string_from_display_ensures, StringExecFns};

verus! {

/// `reqwest::Error`, the error of the HTTP transport. Nothing is claimed of
/// what it holds: a value of it is only carried through.
#[verifier::external_type_specification]
#[verifier::external_body]
pub struct ExTransportError(reqwest::Error);

/// `serde_json::Error`, the error of the JSON codec. Nothing is claimed of
/// what it holds: a value of it is only carried through.
#[verifier::external_type_specification]
#[verifier::external_body]
pub struct ExCodecError(serde_json::Error);

/// What can go wrong in a cache operation.
#[derive(Debug)]
pub enum CacheError {
    /// The transport could not reach the service or read its reply.
    Network(reqwest::Error),
    /// A value could not be converted to or from its wire form.
    Serialization(serde_json::Error),
    /// An inconsistency found on this side of the wire.
    Cache(String),
    /// The service reported a failure, with its message.
    Worker(String),
}

impl From<reqwest::Error> for CacheError {
    fn from(e: reqwest::Error) -> (r: CacheError) {
        CacheError::Network(e)
    }
}

impl FromSpecImpl<reqwest::Error> for CacheError {
    open spec fn obeys_from_spec() -> bool {
        true
    }

    open spec fn from_spec(e: reqwest::Error) -> CacheError {
        CacheError::Network(e)
    }
}

impl From<serde_json::Error> for CacheError {
    fn from(e: serde_json::Error) -> (r: CacheError) {
        CacheError::Serialization(e)
    }
}

impl FromSpecImpl<serde_json::Error> for CacheError {
    open spec fn obeys_from_spec() -> bool {
        true
    }

    open spec fn from_spec(e: serde_json::Error) -> CacheError {
        CacheError::Serialization(e)
    }
}

impl CacheError {
    /// The error as a line of text: what kind it is, then the message, or
    /// what the outside error says of itself.
    pub fn to_text(&self) -> (text: String)
        ensures
            match *self {
                CacheError::Network(e) => exists|detail: String|
                    to_string_from_display_ensures::<reqwest::Error>(&e, detail) && text@
                        == "Network error: "@ + detail@,
                CacheError::Serialization(e) => exists|detail: String|
                    to_string_from_display_ensures::<serde_json::Error>(&e, detail) && text@
                        == "Serialization error: "@ + detail@,
                CacheError::Cache(message) => text@ == "Cache error: "@ + message@,
                CacheError::Worker(message) => text@ == "Worker returned error: "@ + message@,
            },
    {
        match self {
            CacheError::Network(e) => {
                let detail = e.to_string();
                String::from_str("Network error: ").concat(detail.as_str())
            },
            CacheError::Serialization(e) => {
                let detail = e.to_string();
                String::from_str("Serialization error: ").concat(detail.as_str())
            },
            CacheError::Cache(message) => String::from_str("Cache error: ").concat(
                message.as_str(),
            ),
            CacheError::Worker(message) => String::from_str("Worker returned error: ").concat(
                message.as_str(),
            ),
        }
    }
}

} // verus!
