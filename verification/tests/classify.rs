use fcm::{classify, classify_response, parse_body, transport_error, ErrorReason, FcmError,
    FcmResponse, RetryAfter};

#[test]
fn ok_response_with_fields() {
    let r = classify_response(200, None, Some("{\"error\": null, \"message_id\": 1}"));
    let resp = r.expect("a 200 body without a significant error is a success");
    assert_eq!(resp.message_id, Some(1));
    assert_eq!(resp.error, None);
    assert_eq!(resp.raw_body, "{\"error\": null, \"message_id\": 1}");
}

#[test]
fn provider_metadata_passes_through() {
    let body = "{\"message_id\": 5, \"results\": [{\"registration_id\": \"abc\"}]}";
    let resp = classify_response(200, None, Some(body)).expect("a clean 200 is a success");
    assert_eq!(resp.raw_body, body);
}

#[test]
fn unavailable_with_retry_after() {
    let r = classify_response(200, Some("120"), Some("{\"error\": \"Unavailable\"}"));
    assert_eq!(
        r,
        Err(FcmError::ServerError(Some(RetryAfter::Seconds(120))))
    );
}

#[test]
fn internal_server_error_without_retry_after() {
    let r = classify_response(200, None, Some("{\"error\": \"InternalServerError\"}"));
    assert_eq!(r, Err(FcmError::ServerError(None)));
}

#[test]
fn insignificant_error_reason_is_success() {
    let r = classify_response(200, None, Some("{\"error\": \"NotRegistered\"}"));
    let resp = r.expect("other error reasons mean a genuine success");
    assert_eq!(
        resp.error,
        Some(ErrorReason::Other("NotRegistered".to_string()))
    );
}

#[test]
fn unauthorized() {
    let r = classify_response(401, None, Some("anything at all"));
    assert_eq!(r, Err(FcmError::Unauthorized));
}

#[test]
fn bad_request() {
    let r = classify_response(400, None, Some("ignored"));
    assert_eq!(
        r,
        Err(FcmError::InvalidMessage("Bad Request".to_string()))
    );
}

#[test]
fn service_unavailable_reflects_header() {
    let r = classify_response(503, Some("120"), Some(""));
    assert_eq!(
        r,
        Err(FcmError::ServerError(Some(RetryAfter::Seconds(120))))
    );
    let bare = classify_response(503, None, Some(""));
    assert_eq!(bare, Err(FcmError::ServerError(None)));
}

#[test]
fn non_json_body_is_unknown_error() {
    let r = classify_response(200, None, Some("not json"));
    assert_eq!(
        r,
        Err(FcmError::InvalidMessage("Unknown Error".to_string()))
    );
}

#[test]
fn unmapped_status_is_unknown_error() {
    let r = classify_response(418, None, Some(""));
    assert_eq!(
        r,
        Err(FcmError::InvalidMessage("Unknown Error".to_string()))
    );
}

#[test]
fn garbage_retry_after_does_not_fail_classification() {
    assert_eq!(RetryAfter::from_str("garbage"), None);
    let r = classify_response(503, Some("garbage"), Some(""));
    assert_eq!(r, Err(FcmError::ServerError(None)));
}

#[test]
fn classification_is_idempotent() {
    let triples: [(u16, Option<&str>, Option<&str>); 5] = [
        (200, Some("120"), Some("{\"error\": \"Unavailable\"}")),
        (200, None, Some("{\"error\": null, \"message_id\": 7}")),
        (401, None, Some("x")),
        (503, Some("garbage"), Some("")),
        (418, Some("30"), Some("not json")),
    ];
    for (status, header, body) in triples {
        let first = classify_response(status, header, body);
        let second = classify_response(status, header, body);
        assert_eq!(first, second);
    }
}

#[test]
fn undecodable_body_is_unknown_error_before_status() {
    let r = classify_response(401, None, None);
    assert_eq!(
        r,
        Err(FcmError::InvalidMessage("Unknown Error".to_string()))
    );
}

#[test]
fn transport_failure_is_server_error_without_hint() {
    assert_eq!(transport_error(), FcmError::ServerError(None));
}

#[test]
fn body_must_be_an_object() {
    assert_eq!(parse_body("123"), None);
    assert_eq!(parse_body("[1, 2]"), None);
    assert_eq!(parse_body("\"error\""), None);
}

#[test]
fn body_error_field_must_be_string_or_null() {
    assert_eq!(parse_body("{\"error\": 5}"), None);
    assert_eq!(parse_body("{\"error\": [1]}"), None);
}

#[test]
fn body_message_id_must_be_integer_or_null() {
    assert_eq!(parse_body("{\"message_id\": \"abc\"}"), None);
    assert_eq!(parse_body("{\"message_id\": -3}"), None);
}

#[test]
fn empty_object_body() {
    let resp = parse_body("{}").expect("an empty object is a valid response");
    assert_eq!(resp.message_id, None);
    assert_eq!(resp.error, None);
}

#[test]
fn classify_parsed_directly() {
    let body = FcmResponse {
        message_id: None,
        error: Some(ErrorReason::Unavailable),
        raw_body: "{\"error\": \"Unavailable\"}".to_string(),
    };
    let r = classify(200, Some(RetryAfter::Seconds(1)), Some(body));
    assert_eq!(
        r,
        Err(FcmError::ServerError(Some(RetryAfter::Seconds(1))))
    );
}

#[test]
fn five_hundred_range_is_server_error() {
    for status in [500u16, 501, 550, 599] {
        let r = classify_response(status, None, Some(""));
        assert_eq!(r, Err(FcmError::ServerError(None)));
    }
    let r = classify_response(600, None, Some(""));
    assert_eq!(
        r,
        Err(FcmError::InvalidMessage("Unknown Error".to_string()))
    );
}
