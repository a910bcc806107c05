//! Step-by-step construction of a client.

use super::config::{default_config, ClientConfig, ClientConfigView};
use super::Client;
use crate::protocol::rest::RestProtocol;
use crate::protocol::ProtocolType;
use vstd::prelude::*;

verus! {

/// A client under construction.
#[derive(Debug)]
pub struct ClientBuilder {
    config: ClientConfig,
}

impl View for ClientBuilder {
    type V = ClientConfigView;

    closed spec fn view(&self) -> ClientConfigView {
        self.config@
    }
}

impl ClientBuilder {
    /// A builder that holds the default settings.
    pub fn new() -> (r: ClientBuilder)
        ensures
            r@ == default_config(),
    {
        ClientBuilder { config: ClientConfig::default() }
    }

    /// Chooses the protocol.
    pub fn protocol(self, protocol: ProtocolType) -> (r: ClientBuilder)
        ensures
            r@ == (ClientConfigView { protocol: protocol, ..self@ }),
    {
        let mut b = self;
        b.config.protocol = protocol;
        b
    }

    /// Sets the default time limit of a call, in milliseconds.
    pub fn timeout(self, ms: u64) -> (r: ClientBuilder)
        ensures
            r@ == (ClientConfigView { default_timeout_ms: Some(ms), ..self@ }),
    {
        let mut b = self;
        b.config.default_timeout_ms = Some(ms);
        b
    }

    /// Sets the base URL.
    pub fn base_url(self, url: &str) -> (r: ClientBuilder)
        ensures
            r@ == (ClientConfigView { base_url: Some(url@), ..self@ }),
    {
        let mut b = self;
        b.config.base_url = Some(url.to_owned());
        b
    }

    /// The client with the settings chosen so far.  A client exists only for
    /// a protocol that is implemented.
    pub fn build(self) -> (r: Client)
        requires
            self@.protocol.is_implemented(),
        ensures
            r.config()@ == self@,
    {
        Client::assemble(RestProtocol::new(), self.config)
    }
}

impl Default for ClientBuilder {
    fn default() -> (r: ClientBuilder)
        ensures
            r@ == default_config(),
    {
        ClientBuilder::new()
    }
}

} // verus!
