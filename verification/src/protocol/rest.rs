//! The REST protocol: plain HTTP calls.

use super::{Dispatch, DispatchView, Protocol};
use crate::error::ClientError;
use crate::foreign::{byte_seq, url_parse_error, url_parse_failure};
use crate::request::{Body, BodyView, Request};
use crate::response::{Response, ResponseBody};
use crate::string_map::{distinct_keys, lemma_map_of_push, map_of};
use crate::types::Headers;
use bytes::Bytes;
use vstd::prelude::*;

verus! {

/// The REST protocol.
#[derive(Debug, Clone, Copy)]
pub struct RestProtocol {}

/// What the URL check answers, given the parser's complaint, if any.
pub open spec fn url_verdict(failure: Option<url::ParseError>) -> core::result::Result<
    (),
    ClientError,
> {
    match failure {
        Some(e) => Err(ClientError::Url(e)),
        None => Ok(()),
    }
}

/// Turns the URL parser's complaint, if any, into the answer of the check.
pub fn check_url(failure: Option<url::ParseError>) -> (r: core::result::Result<(), ClientError>)
    ensures
        r == url_verdict(failure),
{
    match failure {
        Some(e) => Err(ClientError::from(e)),
        None => Ok(()),
    }
}

/// What is sent for a request over REST: the method and URL as written, every
/// header once, the query parameters if there are any, the request's own time
/// limit, and the payload, where an absent payload and an empty one are the
/// same.
pub open spec fn rest_dispatch(request: Request) -> DispatchView {
    DispatchView {
        method: request.method,
        url: request.url@,
        headers: request.headers.pairs(),
        query: if request.query_params.pairs().len() == 0 {
            None
        } else {
            Some(request.query_params.pairs())
        },
        timeout_ms: request.timeout_ms,
        body: match request.body {
            Some(b) => b@,
            None => BodyView::Empty,
        },
    }
}

/// The header list that the transport hands over, as pairs of characters: a
/// value that could not be read as text counts as the empty string.
pub open spec fn received_headers(raw: Seq<(String, Option<String>)>) -> Seq<
    (Seq<char>, Seq<char>),
> {
    Seq::new(
        raw.len(),
        |i: int|
            (
                raw[i].0@,
                match raw[i].1 {
                    Some(v) => v@,
                    None => Seq::<char>::empty(),
                },
            ),
    )
}

/// The milliseconds kept of a measured time: its low 64 bits.
pub open spec fn kept_millis(elapsed_millis: u128) -> int {
    elapsed_millis as int % 0x1_0000_0000_0000_0000
}

impl RestProtocol {
    /// The REST protocol.
    pub fn new() -> (r: RestProtocol) {
        RestProtocol {  }
    }

    /// Gathers what the transport brought back into a response.  Of two
    /// headers with the same name the later one is kept; a header value that
    /// is not text becomes the empty string.
    pub fn respond(
        &self,
        status: u16,
        raw_headers: Vec<(String, Option<String>)>,
        body: Bytes,
        elapsed_millis: u128,
    ) -> (r: Response)
        ensures
            r.status == status,
            r.headers@ == map_of(received_headers(raw_headers@)),
            *r.body.as_bytes() == body,
            r.body@ == byte_seq(body),
            r.elapsed_ms == kept_millis(elapsed_millis),
    {
        let ghost received = received_headers(raw_headers@);
        let n = raw_headers.len();
        let mut headers = Headers::new();
        let mut i: usize = 0;
        proof {
            assert(received.take(0) =~= Seq::empty());
        }
        while i < n
            invariant
                n == raw_headers@.len(),
                i <= n,
                received == received_headers(raw_headers@),
                headers@ == map_of(received.take(i as int)),
            decreases n - i,
        {
            let name = raw_headers[i].0.clone();
            let value = match &raw_headers[i].1 {
                Some(v) => v.clone(),
                None => String::new(),
            };
            proof {
                assert(received.take(i + 1) =~= received.take(i as int).push((name@, value@)));
                lemma_map_of_push(received.take(i as int), (name@, value@));
            }
            headers.insert(name, value);
            i = i + 1;
        }
        proof {
            assert(received.take(n as int) =~= received);
        }
        let elapsed_ms: u64 = (elapsed_millis % 0x1_0000_0000_0000_0000) as u64;
        Response { status, headers, body: ResponseBody::new(body), elapsed_ms }
    }
}

impl Default for RestProtocol {
    fn default() -> (r: RestProtocol) {
        RestProtocol::new()
    }
}

impl Protocol for RestProtocol {
    /// REST admits the requests whose URL parses as an absolute URL.
    open spec fn admits(&self, request: Request) -> bool {
        url_parse_failure(request.url@) is None
    }

    fn name(&self) -> (r: &'static str)
        ensures
            r@ == "REST"@,
    {
        "REST"
    }

    fn validate(&self, request: &Request) -> (r: core::result::Result<(), ClientError>)
        ensures
            r == url_verdict(url_parse_failure(request.url@)),
    {
        check_url(url_parse_error(request.url.as_str()))
    }

    fn plan(&self, request: Request) -> (r: core::result::Result<Dispatch, ClientError>)
        ensures
            match url_parse_failure(request.url@) {
                Some(e) => r == Err::<Dispatch, ClientError>(ClientError::Url(e)),
                None => r is Ok && r->Ok_0@ == rest_dispatch(request),
            },
            r is Ok ==> {
                &&& distinct_keys(r->Ok_0@.headers)
                &&& map_of(r->Ok_0@.headers) == request.headers@
                &&& r->Ok_0@.query is Some ==> distinct_keys(r->Ok_0@.query->0)
                &&& r->Ok_0@.query is Some ==> map_of(r->Ok_0@.query->0) == request.query_params@
                &&& r->Ok_0@.query is None ==> request.query_params@
                    == Map::<Seq<char>, Seq<char>>::empty()
            },
    {
        match self.validate(&request) {
            Err(e) => Err(e),
            Ok(()) => {
                let query = if request.query_params.is_empty() {
                    None
                } else {
                    Some(request.query_params.into_pairs())
                };
                let body = match request.body {
                    Some(b) => b,
                    None => Body::Empty,
                };
                Ok(
                    Dispatch {
                        method: request.method,
                        url: request.url,
                        headers: request.headers.into_pairs(),
                        query,
                        timeout_ms: request.timeout_ms,
                        body,
                    },
                )
            },
        }
    }
}

} // verus!
