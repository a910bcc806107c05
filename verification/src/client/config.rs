//! What a client is configured with.

use crate::protocol::ProtocolType;
use crate::text::{clone_text, text_view};
use vstd::prelude::*;

verus! {

/// The settings of a client.  They are fixed when the client is built.
#[derive(Debug)]
pub struct ClientConfig {
    pub protocol: ProtocolType,
    pub default_timeout_ms: Option<u64>,
    pub base_url: Option<String>,
    pub user_agent: Option<String>,
}

/// Settings with their strings as sequences.
pub struct ClientConfigView {
    pub protocol: ProtocolType,
    pub default_timeout_ms: Option<u64>,
    pub base_url: Option<Seq<char>>,
    pub user_agent: Option<Seq<char>>,
}

impl View for ClientConfig {
    type V = ClientConfigView;

    open spec fn view(&self) -> ClientConfigView {
        ClientConfigView {
            protocol: self.protocol,
            default_timeout_ms: self.default_timeout_ms,
            base_url: text_view(self.base_url),
            user_agent: text_view(self.user_agent),
        }
    }
}

/// The settings of a client for which nothing was chosen: REST, thirty
/// seconds per call, no base URL, and this crate's own user agent.
pub open spec fn default_config() -> ClientConfigView {
    ClientConfigView {
        protocol: ProtocolType::Rest,
        default_timeout_ms: Some(30_000u64),
        base_url: None,
        user_agent: Some("reqoxidize/0.1.0"@),
    }
}

/// The time limit that holds for a call: the request's own if it has one,
/// and the client's default otherwise.
pub open spec fn effective_timeout(own: Option<u64>, default: Option<u64>) -> Option<u64> {
    match own {
        Some(ms) => Some(ms),
        None => default,
    }
}

impl ClientConfig {
    /// The time limit for a call whose request asks for `own`.
    pub fn timeout_for(&self, own: Option<u64>) -> (r: Option<u64>)
        ensures
            r == effective_timeout(own, self.default_timeout_ms),
    {
        match own {
            Some(ms) => Some(ms),
            None => self.default_timeout_ms,
        }
    }
}

impl Default for ClientConfig {
    fn default() -> (r: ClientConfig)
        ensures
            r@ == default_config(),
    {
        ClientConfig {
            protocol: ProtocolType::Rest,
            default_timeout_ms: Some(30_000),
            base_url: None,
            user_agent: Some("reqoxidize/0.1.0".to_owned()),
        }
    }
}

impl Clone for ClientConfig {
    fn clone(&self) -> (r: ClientConfig)
        ensures
            r@ == self@,
    {
        ClientConfig {
            protocol: self.protocol,
            default_timeout_ms: self.default_timeout_ms,
            base_url: clone_text(&self.base_url),
            user_agent: clone_text(&self.user_agent),
        }
    }
}

} // verus!
