//! Step-by-step assembly of a request.

use super::body::{body_view, clone_body, Body, BodyView};
use super::{Request, RequestView};
use crate::error::ClientError;
use crate::types::{Headers, Method, QueryParams};
use vstd::prelude::*;

verus! {

/// A request under construction.  Each setter replaces what an earlier call
/// of the same setter wrote; headers and query parameters are kept by key.
#[derive(Debug)]
pub struct RequestBuilder {
    method: Option<Method>,
    url: Option<String>,
    headers: Headers,
    query_params: QueryParams,
    body: Option<Body>,
    timeout_ms: Option<u64>,
}

/// What has been written into a builder so far.
pub struct RequestBuilderView {
    pub method: Option<Method>,
    pub url: Option<Seq<char>>,
    pub headers: Map<Seq<char>, Seq<char>>,
    pub query_params: Map<Seq<char>, Seq<char>>,
    pub body: Option<BodyView>,
    pub timeout_ms: Option<u64>,
}

/// The message of the error that a build without a URL reports.
pub open spec fn missing_url_message() -> Seq<char> {
    "URL is required"@
}

/// The request that a builder yields once it has a URL.
pub open spec fn built_request(b: RequestBuilderView) -> RequestView
    recommends
        b.url is Some,
{
    RequestView {
        method: match b.method {
            Some(m) => m,
            None => Method::Get,
        },
        url: b.url->0,
        headers: b.headers,
        query_params: b.query_params,
        body: b.body,
        timeout_ms: b.timeout_ms,
    }
}

impl View for RequestBuilder {
    type V = RequestBuilderView;

    closed spec fn view(&self) -> RequestBuilderView {
        RequestBuilderView {
            method: self.method,
            url: match self.url {
                Some(u) => Some(u@),
                None => None,
            },
            headers: self.headers@,
            query_params: self.query_params@,
            body: body_view(self.body),
            timeout_ms: self.timeout_ms,
        }
    }
}

impl RequestBuilder {
    /// A builder in which nothing has been set.
    pub fn new() -> (r: RequestBuilder)
        ensures
            r@ == (RequestBuilderView {
                method: None,
                url: None,
                headers: Map::empty(),
                query_params: Map::empty(),
                body: None,
                timeout_ms: None,
            }),
    {
        RequestBuilder {
            method: None,
            url: None,
            headers: Headers::new(),
            query_params: QueryParams::new(),
            body: None,
            timeout_ms: None,
        }
    }

    /// Sets the method.
    pub fn method(self, method: Method) -> (r: RequestBuilder)
        ensures
            r@ == (RequestBuilderView { method: Some(method), ..self@ }),
    {
        let mut b = self;
        b.method = Some(method);
        b
    }

    /// Sets the URL.  It is taken as written and checked only at dispatch.
    pub fn url(self, url: &str) -> (r: RequestBuilder)
        ensures
            r@ == (RequestBuilderView { url: Some(url@), ..self@ }),
    {
        let mut b = self;
        b.url = Some(url.to_owned());
        b
    }

    /// Writes one header; a header of the same name is replaced.
    pub fn header(self, key: &str, value: &str) -> (r: RequestBuilder)
        ensures
            r@ == (RequestBuilderView { headers: self@.headers.insert(key@, value@), ..self@ }),
    {
        let mut b = self;
        b.headers.insert(key.to_owned(), value.to_owned());
        b
    }

    /// Writes every given header; headers of the same names are replaced.
    pub fn headers(self, headers: Headers) -> (r: RequestBuilder)
        ensures
            r@ == (RequestBuilderView {
                headers: self@.headers.union_prefer_right(headers@),
                ..self@
            }),
    {
        let mut b = self;
        b.headers.extend(headers);
        b
    }

    /// Writes one query parameter; a parameter of the same name is replaced.
    pub fn query(self, key: &str, value: &str) -> (r: RequestBuilder)
        ensures
            r@ == (RequestBuilderView {
                query_params: self@.query_params.insert(key@, value@),
                ..self@
            }),
    {
        let mut b = self;
        b.query_params.insert(key.to_owned(), value.to_owned());
        b
    }

    /// Sets the payload.
    pub fn body(self, body: Body) -> (r: RequestBuilder)
        ensures
            r@ == (RequestBuilderView { body: Some(body@), ..self@ }),
    {
        let mut b = self;
        b.body = Some(body);
        b
    }

    /// Sets a JSON payload from the outcome of encoding a value.  An encoding
    /// failure is reported as a serialization error and the builder is lost.
    pub fn json(
        self,
        encoded: core::result::Result<serde_json::Value, serde_json::Error>,
    ) -> (r: core::result::Result<RequestBuilder, ClientError>)
        ensures
            match encoded {
                Ok(value) => r is Ok && r->Ok_0@ == (RequestBuilderView {
                    body: Some(BodyView::Json(value)),
                    ..self@
                }),
                Err(e) => r == Err::<RequestBuilder, ClientError>(ClientError::Serialization(e)),
            },
    {
        match Body::json(encoded) {
            Ok(body) => Ok(self.body(body)),
            Err(e) => Err(e),
        }
    }

    /// Sets the time allowed for the call, in milliseconds.
    pub fn timeout(self, ms: u64) -> (r: RequestBuilder)
        ensures
            r@ == (RequestBuilderView { timeout_ms: Some(ms), ..self@ }),
    {
        let mut b = self;
        b.timeout_ms = Some(ms);
        b
    }

    /// The finished request.  It exists exactly when a URL was set, whatever
    /// else was; the method is `Get` when none was set.
    pub fn build(self) -> (r: core::result::Result<Request, ClientError>)
        ensures
            r is Ok <==> self@.url is Some,
            r is Ok ==> r->Ok_0@ == built_request(self@),
            r is Err ==> r->Err_0 is InvalidRequest && r->Err_0->InvalidRequest_0@
                == missing_url_message(),
    {
        match self.url {
            Some(url) => Ok(
                Request {
                    method: match self.method {
                        Some(m) => m,
                        None => Method::Get,
                    },
                    url,
                    headers: self.headers,
                    query_params: self.query_params,
                    body: self.body,
                    timeout_ms: self.timeout_ms,
                },
            ),
            None => Err(ClientError::InvalidRequest("URL is required".to_owned())),
        }
    }
}

impl Clone for RequestBuilder {
    fn clone(&self) -> (r: RequestBuilder)
        ensures
            r@ == self@,
    {
        RequestBuilder {
            method: self.method,
            url: match &self.url {
                Some(u) => Some(u.clone()),
                None => None,
            },
            headers: self.headers.clone(),
            query_params: self.query_params.clone(),
            body: clone_body(&self.body),
            timeout_ms: self.timeout_ms,
        }
    }
}

impl Default for RequestBuilder {
    fn default() -> (r: RequestBuilder)
        ensures
            r@ == (RequestBuilderView {
                method: None,
                url: None,
                headers: Map::empty(),
                query_params: Map::empty(),
                body: None,
                timeout_ms: None,
            }),
    {
        RequestBuilder::new()
    }
}

} // verus!
