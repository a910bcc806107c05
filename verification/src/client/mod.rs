//! The client: one protocol and one set of settings.

mod builder;
mod config;

pub use builder::ClientBuilder;
pub use config::{default_config, effective_timeout, ClientConfig, ClientConfigView};

use crate::error::ClientError;
use crate::foreign::{byte_seq, url_parse_failure};
use crate::protocol::rest::{kept_millis, received_headers, rest_dispatch, RestProtocol};
use crate::protocol::{Dispatch, DispatchView, Protocol};
use crate::request::Request;
use crate::response::Response;
use crate::string_map::{distinct_keys, map_of};
use bytes::Bytes;
use vstd::prelude::*;

verus! {

/// A client.  It hands every request to its protocol and adds one thing of
/// its own: a request without a time limit gets the client's default.
#[derive(Debug)]
pub struct Client {
    protocol: RestProtocol,
    config: ClientConfig,
}

impl Client {
    #[verifier::type_invariant]
    spec fn protocol_is_implemented(self) -> bool {
        self.config.protocol.is_implemented()
    }

    /// The settings the client was built with.
    pub closed spec fn spec_config(&self) -> &ClientConfig {
        &self.config
    }

    pub(crate) fn assemble(protocol: RestProtocol, config: ClientConfig) -> (r: Client)
        requires
            config.protocol.is_implemented(),
        ensures
            *r.config() == config,
    {
        Client { protocol, config }
    }

    /// A client with the default settings.
    pub fn new() -> (r: Client)
        ensures
            r.config()@ == default_config(),
    {
        Client::builder().build()
    }

    /// A builder that holds the default settings.
    pub fn builder() -> (r: ClientBuilder)
        ensures
            r@ == default_config(),
    {
        ClientBuilder::new()
    }

    /// The settings the client was built with.
    #[verifier::when_used_as_spec(spec_config)]
    pub fn config(&self) -> (r: &ClientConfig)
        ensures
            r == self.spec_config(),
            r.protocol.is_implemented(),
    {
        proof {
            use_type_invariant(self);
        }
        &self.config
    }

    /// The name of the protocol in use.
    pub fn protocol_name(&self) -> (r: &'static str)
        ensures
            r@ == "REST"@,
    {
        self.protocol.name()
    }

    /// Checks the request as the protocol does, without laying anything out.
    pub fn validate(&self, request: &Request) -> (r: core::result::Result<(), ClientError>)
        ensures
            r is Ok <==> url_parse_failure(request.url@) is None,
            r is Err ==> r->Err_0 == ClientError::Url(url_parse_failure(request.url@)->0),
    {
        self.protocol.validate(request)
    }

    /// Lays out what the transport is to send for a request: what the
    /// protocol lays out, with the client's default time limit where the
    /// request has none.  A request that the protocol rejects is not laid out.
    pub fn plan(&self, request: Request) -> (r: core::result::Result<Dispatch, ClientError>)
        ensures
            match url_parse_failure(request.url@) {
                Some(e) => r == Err::<Dispatch, ClientError>(ClientError::Url(e)),
                None => r is Ok && r->Ok_0@ == (DispatchView {
                    timeout_ms: effective_timeout(
                        request.timeout_ms,
                        self.config().default_timeout_ms,
                    ),
                    ..rest_dispatch(request)
                }),
            },
            r is Ok ==> {
                &&& distinct_keys(r->Ok_0@.headers)
                &&& map_of(r->Ok_0@.headers) == request.headers@
                &&& r->Ok_0@.query is Some ==> distinct_keys(r->Ok_0@.query->0)
                &&& r->Ok_0@.query is Some ==> map_of(r->Ok_0@.query->0) == request.query_params@
                &&& r->Ok_0@.query is None ==> request.query_params@
                    == Map::<Seq<char>, Seq<char>>::empty()
            },
    {
        let mut request = request;
        request.timeout_ms = self.config.timeout_for(request.timeout_ms);
        self.protocol.plan(request)
    }

    /// Gathers what the transport brought back into a response, as the
    /// protocol does.
    pub fn respond(
        &self,
        status: u16,
        raw_headers: Vec<(String, Option<String>)>,
        body: Bytes,
        elapsed_millis: u128,
    ) -> (r: Response)
        ensures
            r.status == status,
            r.headers@ == map_of(received_headers(raw_headers@)),
            *r.body.as_bytes() == body,
            r.body@ == byte_seq(body),
            r.elapsed_ms == kept_millis(elapsed_millis),
    {
        self.protocol.respond(status, raw_headers, body, elapsed_millis)
    }
}

impl Default for Client {
    fn default() -> (r: Client)
        ensures
            r.config()@ == default_config(),
    {
        Client::new()
    }
}

} // verus!
