//! Requests and the builder that makes them.

mod body;
mod builder;

pub use body::{body_view, clone_body, Body, BodyView};
pub use builder::{built_request, missing_url_message, RequestBuilder, RequestBuilderView};

use crate::types::{Headers, Method, QueryParams};
use vstd::prelude::*;

verus! {

/// A request ready for dispatch.  Its URL is kept as written: whether it is
/// well formed is decided by the protocol that dispatches it.
#[derive(Debug)]
pub struct Request {
    pub method: Method,
    pub url: String,
    pub headers: Headers,
    pub query_params: QueryParams,
    pub body: Option<Body>,
    pub timeout_ms: Option<u64>,
}

/// A request with its strings as sequences and its maps as maps.
pub struct RequestView {
    pub method: Method,
    pub url: Seq<char>,
    pub headers: Map<Seq<char>, Seq<char>>,
    pub query_params: Map<Seq<char>, Seq<char>>,
    pub body: Option<BodyView>,
    pub timeout_ms: Option<u64>,
}

impl View for Request {
    type V = RequestView;

    open spec fn view(&self) -> RequestView {
        RequestView {
            method: self.method,
            url: self.url@,
            headers: self.headers@,
            query_params: self.query_params@,
            body: body_view(self.body),
            timeout_ms: self.timeout_ms,
        }
    }
}

impl Clone for Request {
    fn clone(&self) -> (r: Request)
        ensures
            r@ == self@,
            r.headers.pairs() == self.headers.pairs(),
            r.query_params.pairs() == self.query_params.pairs(),
    {
        Request {
            method: self.method,
            url: self.url.clone(),
            headers: self.headers.clone(),
            query_params: self.query_params.clone(),
            body: clone_body(&self.body),
            timeout_ms: self.timeout_ms,
        }
    }
}

/// What a builder holds when only its method and URL have been set.
pub open spec fn started(method: Method, url: Seq<char>) -> RequestBuilderView {
    RequestBuilderView {
        method: Some(method),
        url: Some(url),
        headers: Map::empty(),
        query_params: Map::empty(),
        body: None,
        timeout_ms: None,
    }
}

impl Request {
    /// A builder in which nothing has been set.
    pub fn builder() -> (r: RequestBuilder)
        ensures
            r@ == (RequestBuilderView {
                method: None,
                url: None,
                headers: Map::empty(),
                query_params: Map::empty(),
                body: None,
                timeout_ms: None,
            }),
    {
        RequestBuilder::new()
    }

    /// A builder for a `Get` request to the URL.
    pub fn get(url: &str) -> (r: RequestBuilder)
        ensures
            r@ == started(Method::Get, url@),
    {
        RequestBuilder::new().method(Method::Get).url(url)
    }

    /// A builder for a `Post` request to the URL.
    pub fn post(url: &str) -> (r: RequestBuilder)
        ensures
            r@ == started(Method::Post, url@),
    {
        RequestBuilder::new().method(Method::Post).url(url)
    }

    /// A builder for a `Put` request to the URL.
    pub fn put(url: &str) -> (r: RequestBuilder)
        ensures
            r@ == started(Method::Put, url@),
    {
        RequestBuilder::new().method(Method::Put).url(url)
    }

    /// A builder for a `Delete` request to the URL.
    pub fn delete(url: &str) -> (r: RequestBuilder)
        ensures
            r@ == started(Method::Delete, url@),
    {
        RequestBuilder::new().method(Method::Delete).url(url)
    }
}

} // verus!
