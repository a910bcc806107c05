//! Responses and their read-only views.

mod body;

pub use body::{json_outcome, json_result, utf8_text, ResponseBody};

use crate::error::ClientError;
use crate::foreign::{byte_seq, json_document};
use crate::types::Headers;
use bytes::Bytes;
use vstd::prelude::*;
use vstd::utf8::*;

verus! {

/// The answer to a request.
#[derive(Debug)]
pub struct Response {
    pub status: u16,
    pub headers: Headers,
    pub body: ResponseBody,
    pub elapsed_ms: u64,
}

/// Whether a status code reports success: the codes from 200 up to 299.
pub open spec fn success_status(status: u16) -> bool {
    200 <= status < 300
}

impl Response {
    /// Whether the status reports success.
    pub fn is_success(&self) -> (r: bool)
        ensures
            r == success_status(self.status),
    {
        200 <= self.status && self.status < 300
    }

    /// The payload as text, when it is well-formed UTF-8.
    pub fn text(&self) -> (r: Option<&str>)
        ensures
            r is Some <==> valid_utf8(self.body@),
            r is Some ==> r->0@ == decode_utf8(self.body@),
    {
        self.body.as_text()
    }

    /// The payload read as one JSON document.
    pub fn json(&self) -> (r: core::result::Result<serde_json::Value, ClientError>)
        ensures
            r == json_outcome(json_document(self.body@)),
    {
        self.body.json()
    }

    /// The raw bytes of the payload.
    pub fn bytes(&self) -> (r: &Bytes)
        ensures
            r == self.body.as_bytes(),
            byte_seq(*r) == self.body@,
    {
        self.body.as_bytes()
    }
}

} // verus!
