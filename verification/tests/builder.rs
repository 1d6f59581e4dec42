use fcm::{build_request, build_request_parts, FcmError, Message};

fn value(text: &str) -> serde_json::Value {
    serde_json::from_str(text).expect("test payload is valid JSON")
}

#[test]
fn content_length_equals_serialized_body_length() {
    let body = value("{\"to\": \"device-token\", \"data\": {\"k\": 1}}");
    let expected = serde_json::to_vec(&body).unwrap();
    let msg = Message::new("apikey".to_string(), body);
    let req = build_request(&msg).expect("a plain key builds a request");
    assert_eq!(req.content_length, req.body.len());
    assert_eq!(req.body, expected);
}

#[test]
fn request_shape() {
    let msg = Message::new("secret".to_string(), value("{}"));
    let req = build_request(&msg).unwrap();
    assert_eq!(req.method, "POST");
    assert_eq!(req.uri, "https://fcm.googleapis.com/fcm/send");
    assert_eq!(req.content_type, "application/json; encoding=utf-8");
    assert_eq!(req.authorization, "key=secret");
}

#[test]
fn illegal_api_key_is_rejected() {
    let msg = Message::new("bad\nkey".to_string(), value("{}"));
    let r = build_request(&msg);
    assert_eq!(
        r.err(),
        Some(FcmError::InvalidMessage(
            "Can't build HTTP request".to_string()
        ))
    );
}

#[test]
fn tab_is_legal_in_api_key() {
    let msg = Message::new("a\tb".to_string(), value("{}"));
    assert!(build_request(&msg).is_ok());
}

#[test]
fn parts_builder_carries_payload_through() {
    let req = build_request_parts("k", vec![1, 2, 3]).unwrap();
    assert_eq!(req.content_length, 3);
    assert_eq!(req.body, vec![1, 2, 3]);
    assert_eq!(req.authorization, "key=k");
}
