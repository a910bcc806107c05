//! The failures this crate reports.

use vstd::prelude::*;
use vstd::std_specs::convert::FromSpecImpl;

verus! {

/// Why a request could not be built, checked, sent or read.
#[derive(Debug)]
pub enum ClientError {
    /// The request was assembled without something it needs.
    InvalidRequest(String),
    /// The request's URL is not a well-formed absolute URL.
    Url(url::ParseError),
    /// The transport failed while carrying the request or its answer.
    Transport(reqwest::Error),
    /// JSON could not be written or read.
    Serialization(serde_json::Error),
}

pub type Result<T> = core::result::Result<T, ClientError>;

impl From<url::ParseError> for ClientError {
    fn from(e: url::ParseError) -> (r: ClientError) {
        ClientError::Url(e)
    }
}

impl FromSpecImpl<url::ParseError> for ClientError {
    open spec fn obeys_from_spec() -> bool {
        true
    }

    open spec fn from_spec(e: url::ParseError) -> ClientError {
        ClientError::Url(e)
    }
}

impl From<reqwest::Error> for ClientError {
    fn from(e: reqwest::Error) -> (r: ClientError) {
        ClientError::Transport(e)
    }
}

impl FromSpecImpl<reqwest::Error> for ClientError {
    open spec fn obeys_from_spec() -> bool {
        true
    }

    open spec fn from_spec(e: reqwest::Error) -> ClientError {
        ClientError::Transport(e)
    }
}

impl From<serde_json::Error> for ClientError {
    fn from(e: serde_json::Error) -> (r: ClientError) {
        ClientError::Serialization(e)
    }
}

impl FromSpecImpl<serde_json::Error> for ClientError {
    open spec fn obeys_from_spec() -> bool {
        true
    }

    open spec fn from_spec(e: serde_json::Error) -> ClientError {
        ClientError::Serialization(e)
    }
}

} // verus!
