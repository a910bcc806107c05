//! The payload of a response: raw bytes with a text view and a JSON view.

use crate::error::ClientError;
use crate::foreign::{
    byte_seq, bytes_as_slice, clone_bytes, json_document, parse_json, string_from_utf8,
};
use crate::text::{clone_text, text_view};
use bytes::Bytes;
use vstd::prelude::*;
use vstd::slice::slice_to_vec;
use vstd::utf8::*;

verus! {

/// The text that a byte string stands for: its decoding when it is
/// well-formed UTF-8, and nothing otherwise.
pub open spec fn utf8_text(bytes: Seq<u8>) -> Option<Seq<char>> {
    if valid_utf8(bytes) {
        Some(decode_utf8(bytes))
    } else {
        None
    }
}

/// The bytes of a string have that string as their text.
pub proof fn lemma_text_of_encoding(text: Seq<char>)
    ensures
        utf8_text(encode_utf8(text)) == Some(text),
{
    encode_utf8_valid_utf8(text);
    encode_utf8_decode_utf8(text);
}

/// Well-formed UTF-8 has a text, and that text is written as exactly these
/// bytes; anything else has no text.
pub proof fn lemma_text_iff_utf8(bytes: Seq<u8>)
    ensures
        valid_utf8(bytes) ==> utf8_text(bytes) == Some(decode_utf8(bytes)) && encode_utf8(
            utf8_text(bytes)->0,
        ) == bytes,
        !valid_utf8(bytes) ==> utf8_text(bytes) is None,
{
    if valid_utf8(bytes) {
        decode_utf8_encode_utf8(bytes);
    }
}

/// What reading a payload as JSON yields, given what the parser made of it:
/// the parsed value, or the parser's error as a serialization error.
pub open spec fn json_outcome(
    parsed: core::result::Result<serde_json::Value, serde_json::Error>,
) -> core::result::Result<serde_json::Value, ClientError> {
    match parsed {
        Ok(value) => Ok(value),
        Err(e) => Err(ClientError::Serialization(e)),
    }
}

/// Turns the parser's outcome into the outcome of a JSON read.
pub fn json_result(parsed: core::result::Result<serde_json::Value, serde_json::Error>) -> (r:
    core::result::Result<serde_json::Value, ClientError>)
    ensures
        r == json_outcome(parsed),
{
    match parsed {
        Ok(value) => Ok(value),
        Err(e) => Err(ClientError::from(e)),
    }
}

/// The payload of a response.  The bytes are decoded as UTF-8 once, when the
/// payload is made; bytes that are not UTF-8 simply have no text.
#[derive(Debug)]
pub struct ResponseBody {
    bytes: Bytes,
    text: Option<String>,
}

impl View for ResponseBody {
    type V = Seq<u8>;

    open spec fn view(&self) -> Seq<u8> {
        byte_seq(*self.spec_as_bytes())
    }
}

impl ResponseBody {
    #[verifier::type_invariant]
    spec fn text_is_decoding(self) -> bool {
        text_view(self.text) == utf8_text(byte_seq(self.bytes))
    }

    /// The buffer this payload was made from.
    pub closed spec fn spec_as_bytes(&self) -> &Bytes {
        &self.bytes
    }

    /// Wraps a buffer.  Reading the bytes back gives the same buffer.
    pub fn new(bytes: Bytes) -> (r: ResponseBody)
        ensures
            *r.as_bytes() == bytes,
            r@ == byte_seq(bytes),
    {
        let text = string_from_utf8(slice_to_vec(bytes_as_slice(&bytes)));
        ResponseBody { bytes, text }
    }

    /// The payload as text: present exactly when the bytes are well-formed
    /// UTF-8, and then their decoding.
    pub fn as_text(&self) -> (r: Option<&str>)
        ensures
            r is Some <==> valid_utf8(self@),
            r is Some ==> r->0@ == decode_utf8(self@),
            match r {
                Some(s) => utf8_text(self@) == Some(s@),
                None => utf8_text(self@) is None,
            },
    {
        proof {
            use_type_invariant(self);
        }
        match &self.text {
            Some(s) => Some(s.as_str()),
            None => None,
        }
    }

    /// The raw bytes.
    #[verifier::when_used_as_spec(spec_as_bytes)]
    pub fn as_bytes(&self) -> (r: &Bytes)
        ensures
            r == self.spec_as_bytes(),
            byte_seq(*r) == self@,
    {
        &self.bytes
    }

    /// The payload read as one JSON document.  Text that is not JSON gives a
    /// serialization error.
    pub fn json(&self) -> (r: core::result::Result<serde_json::Value, ClientError>)
        ensures
            r == json_outcome(json_document(self@)),
    {
        json_result(parse_json(bytes_as_slice(&self.bytes)))
    }
}

impl Clone for ResponseBody {
    fn clone(&self) -> (r: ResponseBody)
        ensures
            r@ == self@,
    {
        proof {
            use_type_invariant(self);
        }
        ResponseBody { bytes: clone_bytes(&self.bytes), text: clone_text(&self.text) }
    }
}

} // verus!
