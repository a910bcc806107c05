//! What a request carries as its payload.

use crate::error::ClientError;
use crate::foreign::{byte_seq, clone_bytes};
use crate::string_map::{clone_pairs, pair_views};
use bytes::Bytes;
use vstd::prelude::*;

verus! {

/// The payload of a request.
#[derive(Debug)]
pub enum Body {
    /// No payload.
    Empty,
    /// Text, sent as it is.
    Text(String),
    /// A JSON value.
    Json(serde_json::Value),
    /// Raw bytes.
    Binary(Bytes),
    /// Form fields, in order.
    Form(Vec<(String, String)>),
}

/// A payload with its strings and bytes as sequences.
pub enum BodyView {
    Empty,
    Text(Seq<char>),
    Json(serde_json::Value),
    Binary(Seq<u8>),
    Form(Seq<(Seq<char>, Seq<char>)>),
}

impl View for Body {
    type V = BodyView;

    open spec fn view(&self) -> BodyView {
        match *self {
            Body::Empty => BodyView::Empty,
            Body::Text(text) => BodyView::Text(text@),
            Body::Json(value) => BodyView::Json(value),
            Body::Binary(data) => BodyView::Binary(byte_seq(data)),
            Body::Form(fields) => BodyView::Form(pair_views(fields@)),
        }
    }
}

/// The view of a payload that may be absent.
pub open spec fn body_view(body: Option<Body>) -> Option<BodyView> {
    match body {
        Some(b) => Some(b@),
        None => None,
    }
}

impl Clone for Body {
    fn clone(&self) -> (r: Body)
        ensures
            r@ == self@,
    {
        match self {
            Body::Empty => Body::Empty,
            Body::Text(text) => Body::Text(text.clone()),
            Body::Json(value) => Body::Json(value.clone()),
            Body::Binary(data) => Body::Binary(clone_bytes(data)),
            Body::Form(fields) => Body::Form(clone_pairs(fields)),
        }
    }
}

/// A copy of a payload that may be absent.
pub fn clone_body(body: &Option<Body>) -> (r: Option<Body>)
    ensures
        body_view(r) == body_view(*body),
{
    match body {
        Some(b) => Some(b.clone()),
        None => None,
    }
}

impl Body {
    /// A JSON payload from the outcome of encoding a value: the encoded value
    /// becomes the payload, and an encoding failure is reported as a
    /// serialization error.
    pub fn json(encoded: core::result::Result<serde_json::Value, serde_json::Error>) -> (r:
        core::result::Result<Body, ClientError>)
        ensures
            match encoded {
                Ok(value) => r == Ok::<Body, ClientError>(Body::Json(value)),
                Err(e) => r == Err::<Body, ClientError>(ClientError::Serialization(e)),
            },
    {
        match encoded {
            Ok(value) => Ok(Body::Json(value)),
            Err(e) => Err(ClientError::from(e)),
        }
    }

    /// A text payload.
    pub fn text(text: &str) -> (r: Body)
        ensures
            r@ == BodyView::Text(text@),
    {
        Body::Text(text.to_owned())
    }

    /// A payload of raw bytes.
    pub fn binary(data: Bytes) -> (r: Body)
        ensures
            r == Body::Binary(data),
    {
        Body::Binary(data)
    }

    /// A payload of form fields.
    pub fn form(fields: Vec<(String, String)>) -> (r: Body)
        ensures
            r == Body::Form(fields),
    {
        Body::Form(fields)
    }
}

} // verus!
