//! The interface between a client and the way its requests travel.
//!
//! A protocol checks a request, lays out what the transport is to send, and
//! later gathers what the transport brought back.  The sending itself is the
//! caller's business.

pub mod rest;

use crate::error::ClientError;
use crate::request::{Body, BodyView, Request};
use crate::string_map::pair_views;
use crate::types::Method;
use vstd::prelude::*;

verus! {

/// The protocols a client can be configured for.  Only `Rest` can be used so
/// far.
#[derive(Debug, Clone, Copy, PartialEq, Eq, Structural)]
pub enum ProtocolType {
    Rest,
    Soap,
    Grpc,
}

impl ProtocolType {
    /// Whether a client can be built for this protocol.
    pub open spec fn implemented(self) -> bool {
        self is Rest
    }

    /// Whether a client can be built for this protocol.
    #[verifier::when_used_as_spec(implemented)]
    pub fn is_implemented(self) -> (r: bool)
        ensures
            r == self.implemented(),
    {
        match self {
            ProtocolType::Rest => true,
            ProtocolType::Soap => false,
            ProtocolType::Grpc => false,
        }
    }
}

impl Default for ProtocolType {
    fn default() -> (r: ProtocolType)
        ensures
            r is Rest,
    {
        ProtocolType::Rest
    }
}

/// What the transport is to send for one request.
#[derive(Debug)]
pub struct Dispatch {
    pub method: Method,
    pub url: String,
    /// The headers to attach, each name once, as the request wrote them.
    pub headers: Vec<(String, String)>,
    /// The query parameters to attach; absent when the request has none.
    pub query: Option<Vec<(String, String)>>,
    /// The time allowed for the call in milliseconds; absent when unlimited.
    pub timeout_ms: Option<u64>,
    /// The payload; `Empty` when nothing is to be sent.
    pub body: Body,
}

/// A dispatch with its strings and bytes as sequences.
pub struct DispatchView {
    pub method: Method,
    pub url: Seq<char>,
    pub headers: Seq<(Seq<char>, Seq<char>)>,
    pub query: Option<Seq<(Seq<char>, Seq<char>)>>,
    pub timeout_ms: Option<u64>,
    pub body: BodyView,
}

impl View for Dispatch {
    type V = DispatchView;

    open spec fn view(&self) -> DispatchView {
        DispatchView {
            method: self.method,
            url: self.url@,
            headers: pair_views(self.headers@),
            query: match self.query {
                Some(q) => Some(pair_views(q@)),
                None => None,
            },
            timeout_ms: self.timeout_ms,
            body: self.body@,
        }
    }
}

/// A way for requests to travel.
pub trait Protocol {
    /// Whether the protocol lets the request through its pre-flight check.
    spec fn admits(&self, request: Request) -> bool;

    /// The protocol's name, for diagnostics.
    fn name(&self) -> (r: &'static str);

    /// The pre-flight check: succeeds exactly on the requests the protocol
    /// admits.
    fn validate(&self, request: &Request) -> (r: core::result::Result<(), ClientError>)
        ensures
            r is Ok <==> self.admits(*request),
    ;

    /// Lays out what the transport is to send.  Nothing is laid out for a
    /// request that the pre-flight check rejects.
    fn plan(&self, request: Request) -> (r: core::result::Result<Dispatch, ClientError>)
        ensures
            r is Ok ==> self.admits(request),
    ;
}

} // verus!
