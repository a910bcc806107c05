use bytes::Bytes;
use reqoxidize_core::client::{ClientBuilder, ClientConfig};
use reqoxidize_core::protocol::ProtocolType;
use reqoxidize_core::request::Body;
use reqoxidize_core::types::Method;
use reqoxidize_core::{Client, ClientError, Request};

#[test]
fn the_default_settings() {
    let config = ClientConfig::default();
    assert_eq!(config.protocol, ProtocolType::Rest);
    assert_eq!(config.default_timeout_ms, Some(30_000));
    assert_eq!(config.base_url, None);
    assert_eq!(config.user_agent, Some("reqoxidize/0.1.0".to_string()));
}

#[test]
fn a_new_client_has_the_default_settings() {
    let client = Client::new();
    assert_eq!(client.protocol_name(), "REST");
    assert_eq!(client.config().protocol, ProtocolType::Rest);
    assert_eq!(client.config().default_timeout_ms, Some(30_000));
    assert_eq!(client.config().base_url, None);
    assert_eq!(client.config().user_agent, Some("reqoxidize/0.1.0".to_string()));
    assert_eq!(Client::default().config().default_timeout_ms, Some(30_000));
}

#[test]
fn the_builder_sets_what_it_is_told() {
    let client = Client::builder()
        .protocol(ProtocolType::Rest)
        .timeout(5)
        .timeout(250)
        .base_url("https://first.example")
        .base_url("https://api.example.com")
        .build();
    assert_eq!(client.config().protocol, ProtocolType::Rest);
    assert_eq!(client.config().default_timeout_ms, Some(250));
    assert_eq!(client.config().base_url, Some("https://api.example.com".to_string()));
    assert_eq!(client.config().user_agent, Some("reqoxidize/0.1.0".to_string()));
    assert_eq!(ClientBuilder::default().build().protocol_name(), "REST");
}

#[test]
fn the_time_limit_of_the_request_comes_first() {
    let config = ClientConfig::default();
    assert_eq!(config.timeout_for(Some(7)), Some(7));
    assert_eq!(config.timeout_for(Some(0)), Some(0));
    assert_eq!(config.timeout_for(None), Some(30_000));
    let unlimited = ClientConfig { default_timeout_ms: None, ..ClientConfig::default() };
    assert_eq!(unlimited.timeout_for(None), None);
    assert_eq!(unlimited.timeout_for(Some(9)), Some(9));
}

#[test]
fn a_client_falls_back_to_its_default_time_limit() {
    let client = Client::builder().timeout(900).build();
    let without = Request::get("https://example.com/").build().unwrap();
    assert_eq!(client.plan(without).unwrap().timeout_ms, Some(900));
    let with = Request::get("https://example.com/").timeout(50).build().unwrap();
    assert_eq!(client.plan(with).unwrap().timeout_ms, Some(50));
}

#[test]
fn a_client_lays_out_the_rest_as_its_protocol_does() {
    let request = Request::put("https://example.com/a")
        .header("H", "v")
        .query("q", "1")
        .body(Body::text("t"))
        .build()
        .unwrap();
    let dispatch = Client::new().plan(request).unwrap();
    assert_eq!(dispatch.method, Method::Put);
    assert_eq!(dispatch.url, "https://example.com/a");
    assert_eq!(dispatch.headers, vec![("H".to_string(), "v".to_string())]);
    assert_eq!(dispatch.query, Some(vec![("q".to_string(), "1".to_string())]));
    assert_eq!(dispatch.timeout_ms, Some(30_000));
    assert!(matches!(dispatch.body, Body::Text(ref t) if t == "t"));
}

#[test]
fn a_client_rejects_an_unparseable_url_before_anything_is_sent() {
    let client = Client::new();
    let request = Request::get("not a url").build().unwrap();
    assert!(matches!(client.validate(&request), Err(ClientError::Url(_))));
    assert!(matches!(
        client.plan(request),
        Err(ClientError::Url(url::ParseError::RelativeUrlWithoutBase))
    ));
}

#[test]
fn a_client_gathers_a_response() {
    let raw = vec![("a".to_string(), None), ("b".to_string(), Some("c".to_string()))];
    let response = Client::new().respond(404, raw, Bytes::from(vec![0xFFu8]), 1 << 70);
    assert_eq!(response.status, 404);
    assert!(!response.is_success());
    assert_eq!(response.headers.get("a"), Some(&String::new()));
    assert_eq!(response.headers.get("b"), Some(&"c".to_string()));
    assert_eq!(response.text(), None);
    assert_eq!(response.elapsed_ms, 0);
}

#[test]
fn a_transport_failure_becomes_a_transport_error() {
    let failure = reqwest::Client::new().get("not a url").build().unwrap_err();
    assert!(matches!(ClientError::from(failure), ClientError::Transport(_)));
}

#[test]
fn outside_errors_become_their_own_kind() {
    assert!(matches!(
        ClientError::from(url::ParseError::EmptyHost),
        ClientError::Url(url::ParseError::EmptyHost)
    ));
    let failure = serde_json::from_str::<serde_json::Value>("").unwrap_err();
    assert!(matches!(ClientError::from(failure), ClientError::Serialization(_)));
}
