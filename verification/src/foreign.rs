//! Everything this crate takes on trust from other crates and from `std`.
//!
//! The contracts in this module are believed, not proved.  Each one restates
//! what the named function is documented to do; the rest of the crate is
//! verified against them.

use vstd::prelude::*;
use vstd::utf8::*;

verus! {

/// `bytes::Bytes`, a shared byte buffer.  Its content is `byte_seq`.
#[verifier::external_type_specification]
#[verifier::external_body]
pub struct ExBytes(bytes::Bytes);

/// `serde_json::Value`, a JSON value.  It is carried, never looked into.
#[verifier::external_type_specification]
#[verifier::external_body]
pub struct ExJsonValue(serde_json::Value);

/// `serde_json::Error`, carried as it comes.
#[verifier::external_type_specification]
#[verifier::external_body]
pub struct ExJsonError(serde_json::Error);

/// `url::ParseError`, carried as it comes.
#[verifier::external_type_specification]
#[verifier::external_body]
pub struct ExUrlParseError(url::ParseError);

/// `reqwest::Error`, carried as it comes.
#[verifier::external_type_specification]
#[verifier::external_body]
pub struct ExTransportError(reqwest::Error);

/// The bytes held by a `bytes::Bytes`, in order.
pub uninterp spec fn byte_seq(b: bytes::Bytes) -> Seq<u8>;

/// What `serde_json::from_slice` makes of a byte string read as one JSON
/// document: the value, or the error that rejects the text.
pub uninterp spec fn json_document(text: Seq<u8>) -> Result<serde_json::Value, serde_json::Error>;

/// The error with which `url::Url::parse` rejects a string, if it rejects it.
pub uninterp spec fn url_parse_failure(input: Seq<char>) -> Option<url::ParseError>;

/// `Clone` for `bytes::Bytes`: the copy shares the buffer and holds the same
/// bytes.
#[verifier::external_body]
pub(crate) fn clone_bytes(b: &bytes::Bytes) -> (r: bytes::Bytes)
    ensures
        byte_seq(r) == byte_seq(*b),
{
    b.clone()
}

/// `Clone` for `serde_json::Value`: the copy is the same JSON value.
pub assume_specification[ <serde_json::Value as Clone>::clone ](v: &serde_json::Value) -> (r:
    serde_json::Value)
    ensures
        r == *v,
;

/// `<bytes::Bytes as AsRef<[u8]>>::as_ref`: the slice handed out is the
/// content of the buffer.
#[verifier::external_body]
pub(crate) fn bytes_as_slice(b: &bytes::Bytes) -> (r: &[u8])
    ensures
        r@ == byte_seq(*b),
{
    b.as_ref()
}

/// `String::from_utf8`: succeeds exactly on well-formed UTF-8, and the string
/// it gives is the decoding of the bytes.
#[verifier::external_body]
pub(crate) fn string_from_utf8(bytes: Vec<u8>) -> (r: Option<String>)
    ensures
        r is Some <==> valid_utf8(bytes@),
        r is Some ==> r->0@ == decode_utf8(bytes@),
{
    String::from_utf8(bytes).ok()
}

/// `serde_json::from_slice` at `serde_json::Value`: the outcome depends on the
/// text alone.
#[verifier::external_body]
pub(crate) fn parse_json(text: &[u8]) -> (r: Result<serde_json::Value, serde_json::Error>)
    ensures
        r == json_document(text@),
{
    serde_json::from_slice(text)
}

/// `url::Url::parse`, keeping only the error: the outcome depends on the
/// string alone.
#[verifier::external_body]
pub(crate) fn url_parse_error(input: &str) -> (r: Option<url::ParseError>)
    ensures
        r == url_parse_failure(input@),
{
    url::Url::parse(input).err()
}

} // verus!
