use bytes::Bytes;
use reqoxidize_core::response::ResponseBody;
use reqoxidize_core::types::Headers;
use reqoxidize_core::Response;
use serde_json::Value;

fn create_response(status: u16, body_data: &str) -> Response {
    Response {
        status,
        headers: Headers::new(),
        body: ResponseBody::new(Bytes::from(body_data.to_string())),
        elapsed_ms: 100,
    }
}

fn payload(id: u32, message: &str) -> Value {
    let mut fields = serde_json::Map::new();
    fields.insert("id".to_string(), Value::from(id));
    fields.insert("message".to_string(), Value::from(message));
    Value::Object(fields)
}

#[test]
fn test_is_success_with_200() {
    let response = create_response(200, "OK");
    assert!(response.is_success());
}

#[test]
fn test_is_success_with_201() {
    let response = create_response(201, "Created");
    assert!(response.is_success());
}

#[test]
fn test_is_success_with_299() {
    let response = create_response(299, "");
    assert!(response.is_success());
}

#[test]
fn test_is_success_returns_false_for_300() {
    let response = create_response(300, "");
    assert!(!response.is_success());
}

#[test]
fn test_is_success_returns_false_for_404() {
    let response = create_response(404, "Not Found");
    assert!(!response.is_success());
}

#[test]
fn test_is_success_returns_false_for_500() {
    let response = create_response(500, "Internal Server Error");
    assert!(!response.is_success());
}

#[test]
fn test_is_success_returns_false_for_199() {
    let response = create_response(199, "");
    assert!(!response.is_success());
}

#[test]
fn test_text_returns_body_content() {
    let response = create_response(200, "Hello, World!");
    assert_eq!(response.text(), Some("Hello, World!"));
}

#[test]
fn test_text_returns_empty_string_for_empty_body() {
    let response = create_response(204, "");
    assert_eq!(response.text(), Some(""));
}

#[test]
fn test_bytes_returns_body_bytes() {
    let data = "Test bytes";
    let response = create_response(200, data);
    assert_eq!(response.bytes(), &Bytes::from(data));
}

#[test]
fn mod_test_json_deserialize_success() {
    let payload = payload(1, "Success");
    let json_str = serde_json::to_string(&payload).unwrap();
    let response = create_response(200, &json_str);

    let result: Value = response.json().unwrap();
    assert_eq!(result, payload);
}

#[test]
fn mod_test_json_deserialize_failure() {
    let response = create_response(200, "invalid json");
    let result: Result<Value, _> = response.json();
    assert!(result.is_err());
}

#[test]
fn test_response_with_headers() {
    let mut headers = Headers::new();
    headers.insert("Content-Type".to_string(), "application/json".to_string());

    let response = Response {
        status: 200,
        headers,
        body: ResponseBody::new(Bytes::from("{}")),
        elapsed_ms: 50,
    };

    assert_eq!(response.headers.get("Content-Type"), Some(&"application/json".to_string()));
}

#[test]
fn test_elapsed_ms_is_stored() {
    let response = Response {
        status: 200,
        headers: Headers::new(),
        body: ResponseBody::new(Bytes::new()),
        elapsed_ms: 250,
    };

    assert_eq!(response.elapsed_ms, 250);
}

#[test]
fn success_is_exactly_the_two_hundreds() {
    let mut status: u16 = 0;
    loop {
        let response = create_response(status, "");
        assert_eq!(response.is_success(), (200..300).contains(&status));
        if status == u16::MAX {
            break;
        }
        status += 1;
    }
}

#[test]
fn text_of_a_response_without_utf8_is_absent() {
    let response = Response {
        status: 200,
        headers: Headers::new(),
        body: ResponseBody::new(Bytes::from(vec![0x80u8])),
        elapsed_ms: 0,
    };
    assert_eq!(response.text(), None);
    assert_eq!(response.bytes().as_ref(), &[0x80u8]);
}
