use axum_serde_boundary::body::request_format;
use axum_serde_boundary::{BodyFormat, BoundaryError, ContentTypeHeader, SerdeBody};

#[test]
fn missing_content_type_resolves_to_json() {
    assert!(matches!(request_format(ContentTypeHeader::Absent), Ok(BodyFormat::Json)));
}

#[test]
fn content_types_resolve_through_the_format_layer() {
    let cases = [
        ("application/json", BodyFormat::Json),
        ("Application/JSON; charset=utf-8", BodyFormat::Json),
        ("application/vnd.msgpack", BodyFormat::MessagePack),
        ("application/x-msgpack", BodyFormat::MessagePack),
        (" application/msgpack ", BodyFormat::MessagePack),
        ("application/x-postcard", BodyFormat::Postcard),
    ];
    for (content_type, expected) in cases {
        let format = request_format(ContentTypeHeader::Text(content_type)).expect(content_type);
        assert_eq!(format, expected, "{content_type}");
    }
}

#[test]
fn unsupported_content_types_are_415_with_the_value() {
    for content_type in ["text/plain", "application/yaml", ""] {
        let error = request_format(ContentTypeHeader::Text(content_type)).expect_err("unsupported");
        assert!(
            matches!(&error, BoundaryError::UnsupportedMediaType { content_type: carried } if carried == content_type)
        );
    }
    let error = request_format(ContentTypeHeader::Opaque).expect_err("opaque");
    assert!(matches!(
        &error,
        BoundaryError::UnsupportedMediaType { content_type } if content_type == "<non-ASCII Content-Type>"
    ));
}

#[test]
fn serde_body_wraps_the_value() {
    let SerdeBody(value) = SerdeBody(5u8);
    assert_eq!(value, 5);
}
