use bytes::Bytes;
use reqoxidize_core::response::ResponseBody;
use reqoxidize_core::ClientError;
use serde_json::Value;

fn person(name: &str, age: u32) -> Value {
    let mut fields = serde_json::Map::new();
    fields.insert("name".to_string(), Value::from(name));
    fields.insert("age".to_string(), Value::from(age));
    Value::Object(fields)
}

#[test]
fn test_new_with_valid_utf8() {
    let data = "Hello, World!";
    let bytes = Bytes::from(data);
    let body = ResponseBody::new(bytes.clone());

    assert_eq!(body.as_bytes(), &bytes);
    assert_eq!(body.as_text(), Some(data));
}

#[test]
fn test_new_with_invalid_utf8() {
    let invalid_bytes = vec![0xFF, 0xFE, 0xFD];
    let bytes = Bytes::from(invalid_bytes);
    let body = ResponseBody::new(bytes.clone());

    assert_eq!(body.as_bytes(), &bytes);
    assert_eq!(body.as_text(), None);
}

#[test]
fn test_as_text_returns_string() {
    let data = "Test data";
    let bytes = Bytes::from(data);
    let body = ResponseBody::new(bytes);

    assert_eq!(body.as_text(), Some(data));
}

#[test]
fn test_as_bytes_returns_original_bytes() {
    let data = vec![1, 2, 3, 4, 5];
    let bytes = Bytes::from(data.clone());
    let body = ResponseBody::new(bytes.clone());

    assert_eq!(body.as_bytes(), &bytes);
}

#[test]
fn body_test_json_deserialize_success() {
    let test_data = person("John", 30);
    let json_str = serde_json::to_string(&test_data).unwrap();
    let bytes = Bytes::from(json_str);
    let body = ResponseBody::new(bytes);

    let result: Value = body.json().unwrap();
    assert_eq!(result, test_data);
}

#[test]
fn body_test_json_deserialize_failure() {
    let invalid_json = "{ invalid json }";
    let bytes = Bytes::from(invalid_json);
    let body = ResponseBody::new(bytes);

    let result: Result<Value, _> = body.json();
    assert!(result.is_err());
}

#[test]
fn test_clone() {
    let data = "Clone test";
    let bytes = Bytes::from(data);
    let body = ResponseBody::new(bytes);
    let cloned = body.clone();

    assert_eq!(body.as_text(), cloned.as_text());
    assert_eq!(body.as_bytes(), cloned.as_bytes());
}

#[test]
fn test_empty_body() {
    let bytes = Bytes::new();
    let body = ResponseBody::new(bytes);

    assert_eq!(body.as_text(), Some(""));
    assert!(body.as_bytes().is_empty());
}

#[test]
fn clone_keeps_the_bytes_it_was_given() {
    let body = ResponseBody::new(Bytes::from(vec![9u8, 8, 7]));
    let cloned = body.clone();
    assert_eq!(cloned.as_bytes().as_ref(), &[9u8, 8, 7]);
    assert_eq!(cloned.as_text(), Some("\t\u{8}\u{7}"));
}

#[test]
fn text_is_the_decoding_of_multibyte_utf8() {
    let body = ResponseBody::new(Bytes::from(vec![0x68, 0xC3, 0xA9, 0xE2, 0x82, 0xAC]));
    assert_eq!(body.as_text(), Some("h\u{e9}\u{20ac}"));
}

#[test]
fn truncated_utf8_has_no_text() {
    let body = ResponseBody::new(Bytes::from(vec![0x68, 0xC3]));
    assert_eq!(body.as_text(), None);
    assert_eq!(body.as_bytes().as_ref(), &[0x68u8, 0xC3]);
}

#[test]
fn surrogate_and_overlong_encodings_have_no_text() {
    assert_eq!(ResponseBody::new(Bytes::from(vec![0xED, 0xA0, 0x80])).as_text(), None);
    assert_eq!(ResponseBody::new(Bytes::from(vec![0xC0, 0x80])).as_text(), None);
}

#[test]
fn malformed_json_is_a_serialization_error() {
    let body = ResponseBody::new(Bytes::from("{\"name\": "));
    assert!(matches!(body.json(), Err(ClientError::Serialization(_))));
    let empty = ResponseBody::new(Bytes::new());
    assert!(matches!(empty.json(), Err(ClientError::Serialization(_))));
    let not_utf8 = ResponseBody::new(Bytes::from(vec![0xFFu8, 0xFE]));
    assert!(matches!(not_utf8.json(), Err(ClientError::Serialization(_))));
}

#[test]
fn json_reads_the_document_in_the_bytes() {
    let body = ResponseBody::new(Bytes::from("[1, \"two\", null, true]"));
    let expected = Value::Array(vec![
        Value::from(1),
        Value::from("two"),
        Value::Null,
        Value::Bool(true),
    ]);
    assert_eq!(body.json().unwrap(), expected);
}

#[test]
fn json_result_maps_each_outcome() {
    let ok = reqoxidize_core::response::json_result(Ok(Value::from(7)));
    assert_eq!(ok.unwrap(), Value::from(7));
    let failure = serde_json::from_str::<Value>("nope").unwrap_err();
    let line = failure.line();
    match reqoxidize_core::response::json_result(Err(failure)) {
        Err(ClientError::Serialization(e)) => assert_eq!(e.line(), line),
        _ => panic!("expected a serialization error"),
    }
}
