use axum_serde_boundary::respond::{
    decimal_text, error_response, failure_plan, fallback_error_document, sendable, ErrorDocument,
};
use axum_serde_boundary::{
    AcceptMatch, BoundaryError, BoundaryRejection, ErrorBody, HttpErrorContract, MediaType,
    ResponseMode, ResponsePlan, ResponseRepresentation, ResponseTable, WireFormat,
};

fn media(value: &'static str) -> MediaType {
    MediaType::try_new(value).expect("valid media type")
}

fn table() -> ResponseTable {
    ResponseTable::try_new(vec![
        ResponseRepresentation::new(media("application/json"), WireFormat::Json, ResponseMode::Payload),
        ResponseRepresentation::new(media("application/yaml"), WireFormat::Yaml, ResponseMode::Payload)
            .errors_as(WireFormat::Yaml, media("application/vnd.example.envelope+yaml")),
        ResponseRepresentation::new(
            media("application/vnd.example.envelope+json"),
            WireFormat::Json,
            ResponseMode::Envelope,
        ),
    ])
    .expect("valid table")
}

struct TeapotError;

impl HttpErrorContract for TeapotError {
    fn status(&self) -> u16 {
        418
    }

    fn wire_code(&self) -> &'static str {
        "TEAPOT"
    }

    fn wire_message(&self) -> String {
        "short and stout".to_owned()
    }

    fn retry_after(&self) -> Option<u32> {
        Some(30)
    }
}

struct PlainError;

impl HttpErrorContract for PlainError {
    fn status(&self) -> u16 {
        409
    }

    fn wire_code(&self) -> &'static str {
        "CONFLICT"
    }

    fn wire_message(&self) -> String {
        "already there".to_owned()
    }
}

#[test]
fn errors_plan_the_envelope_with_the_entry_policy() {
    let negotiated = table().negotiate(Some("application/yaml"), AcceptMatch::Selected(1)).expect("yaml");
    match negotiated.failure(&TeapotError) {
        ResponsePlan::Failure { status, format, media_type, body, retry_after } => {
            assert_eq!(status, 418);
            assert_eq!(format, WireFormat::Yaml);
            assert_eq!(media_type.as_str(), "application/vnd.example.envelope+yaml");
            assert_eq!(body.code, "TEAPOT");
            assert_eq!(body.message, "short and stout");
            assert_eq!(retry_after.as_deref(), Some("30"));
        }
        other => panic!("unexpected plan {other:?}"),
    }
}

#[test]
fn default_trait_methods_build_the_body_and_skip_retry() {
    assert_eq!(PlainError.retry_after(), None);
    let body = PlainError.error_body();
    assert_eq!(body.code, "CONFLICT");
    assert_eq!(body.message, "already there");
    let negotiated = table().negotiate(None, AcceptMatch::Unconstrained).expect("json");
    match negotiated.failure(&PlainError) {
        ResponsePlan::Failure { status, format, media_type, retry_after, .. } => {
            assert_eq!(status, 409);
            assert_eq!(format, WireFormat::Json);
            assert_eq!(media_type.as_str(), "application/json");
            assert!(retry_after.is_none());
        }
        other => panic!("unexpected plan {other:?}"),
    }
}

#[test]
fn no_content_success_plans_no_body() {
    let negotiated = table().negotiate(Some("application/json"), AcceptMatch::Selected(0)).expect("json");
    assert!(matches!(negotiated.success_plan(204), ResponsePlan::Bodyless { status: 204 }));
    let envelope = table().negotiate(Some("x"), AcceptMatch::Selected(2)).expect("envelope");
    assert!(matches!(envelope.success_plan(204), ResponsePlan::Bodyless { status: 204 }));
}

#[test]
fn success_plans_stream_in_the_negotiated_mode() {
    let envelope = table()
        .negotiate(Some("application/vnd.example.envelope+json"), AcceptMatch::Selected(2))
        .expect("envelope");
    match envelope.success_plan(201) {
        ResponsePlan::Stream { status, format, mode, content_type } => {
            assert_eq!(status, 201);
            assert_eq!(format, WireFormat::Json);
            assert_eq!(mode, ResponseMode::Envelope);
            assert_eq!(content_type.as_str(), "application/vnd.example.envelope+json");
        }
        other => panic!("unexpected plan {other:?}"),
    }
    let payload = table().negotiate(None, AcceptMatch::Malformed).expect("default");
    match payload.success_plan(200) {
        ResponsePlan::Stream { status, mode, content_type, .. } => {
            assert_eq!(status, 200);
            assert_eq!(mode, ResponseMode::Payload);
            assert_eq!(content_type.as_str(), "application/json");
        }
        other => panic!("unexpected plan {other:?}"),
    }
}

#[test]
fn rejections_plan_a_json_envelope() {
    let rejection = BoundaryRejection::new(BoundaryError::UnsupportedMediaType {
        content_type: "text/plain".to_owned(),
    });
    assert!(matches!(rejection.error(), BoundaryError::UnsupportedMediaType { .. }));
    match rejection.plan() {
        ResponsePlan::Failure { status, format, media_type, body, retry_after } => {
            assert_eq!(status, 415);
            assert_eq!(format, WireFormat::Json);
            assert_eq!(media_type.as_str(), "application/json");
            assert_eq!(body.code, ErrorBody::CODE_UNSUPPORTED_MEDIA_TYPE);
            assert_eq!(body.message, "unsupported Content-Type: text/plain");
            assert!(retry_after.is_none());
        }
        other => panic!("unexpected plan {other:?}"),
    }
}

#[test]
fn failure_plans_keep_what_they_are_given() {
    let body = ErrorBody::new("X", "y".to_owned());
    match failure_plan(WireFormat::MessagePack, media("application/vnd.msgpack"), 503, body, Some(7)) {
        ResponsePlan::Failure { status, format, media_type, body, retry_after } => {
            assert_eq!(status, 503);
            assert_eq!(format, WireFormat::MessagePack);
            assert_eq!(media_type.as_str(), "application/vnd.msgpack");
            assert_eq!(body.code, "X");
            assert_eq!(retry_after.as_deref(), Some("7"));
        }
        other => panic!("unexpected plan {other:?}"),
    }
}

#[test]
fn retry_after_is_written_in_decimal() {
    for value in [0u32, 7, 10, 30, 99, 100, 3600, 65535, u32::MAX] {
        assert_eq!(decimal_text(value), value.to_string());
    }
}

#[test]
fn the_fallback_document_is_static_json() {
    assert_eq!(
        fallback_error_document(),
        "{\"error\":{\"code\":\"RESPONSE_ENCODING\",\"message\":\"error envelope failed to encode\"}}"
    );
    let value: serde_json::Value =
        serde_json::from_str(&fallback_error_document()).expect("valid JSON");
    assert_eq!(value["error"]["code"], "RESPONSE_ENCODING");
}

struct OutOfRangeError;

impl HttpErrorContract for OutOfRangeError {
    fn status(&self) -> u16 {
        42
    }

    fn wire_code(&self) -> &'static str {
        "ODD"
    }

    fn wire_message(&self) -> String {
        "odd status".to_owned()
    }
}

#[test]
fn out_of_range_statuses_go_out_as_500() {
    assert_eq!(sendable(42), 500);
    assert_eq!(sendable(1000), 500);
    assert_eq!(sendable(99), 500);
    assert_eq!(sendable(100), 100);
    assert_eq!(sendable(999), 999);
    assert_eq!(sendable(418), 418);
    let negotiated = table().negotiate(None, AcceptMatch::Unconstrained).expect("json");
    match negotiated.failure(&OutOfRangeError) {
        ResponsePlan::Failure { status, body, .. } => {
            assert_eq!(status, 500);
            assert_eq!(body.code, "ODD");
        }
        other => panic!("unexpected plan {other:?}"),
    }
}

#[test]
fn error_responses_fall_back_to_static_json() {
    let sent = error_response(418, media("application/yaml"), Some(b"error: x".to_vec()));
    assert_eq!(sent.status, 418);
    assert_eq!(sent.content_type, "application/yaml");
    assert!(matches!(sent.document, ErrorDocument::Encoded(ref bytes) if bytes == b"error: x"));

    let fallback = error_response(418, media("application/yaml"), None);
    assert_eq!(fallback.status, 500);
    assert_eq!(fallback.content_type, "application/json");
    assert!(matches!(
        fallback.document,
        ErrorDocument::Fallback(ref text) if *text == fallback_error_document()
    ));
}
