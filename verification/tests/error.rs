use axum_serde_boundary::{BoundaryError, ErrorBody, FormatFailure, HttpErrorContract};

fn all_errors() -> Vec<(BoundaryError, u16, &'static str, &'static str)> {
    vec![
        (
            BoundaryError::NotAcceptable { accept: "text/plain".to_owned() },
            406,
            ErrorBody::CODE_NOT_ACCEPTABLE,
            "no representation satisfies Accept: text/plain",
        ),
        (
            BoundaryError::UnsupportedMediaType { content_type: "text/csv".to_owned() },
            415,
            ErrorBody::CODE_UNSUPPORTED_MEDIA_TYPE,
            "unsupported Content-Type: text/csv",
        ),
        (
            BoundaryError::PayloadTooLarge,
            413,
            ErrorBody::CODE_PAYLOAD_TOO_LARGE,
            "request body exceeded the configured limit",
        ),
        (
            BoundaryError::BodyRead { detail: "reset".to_owned() },
            400,
            ErrorBody::CODE_MALFORMED_BODY,
            "request body read failed: reset",
        ),
        (
            BoundaryError::MalformedBody { format: "JSON", detail: "line 1".to_owned() },
            400,
            ErrorBody::CODE_MALFORMED_BODY,
            "malformed JSON request body: line 1",
        ),
        (
            BoundaryError::ResponseEncoding { format: "YAML", detail: "cycle".to_owned() },
            500,
            ErrorBody::CODE_RESPONSE_ENCODING,
            "YAML response encoding failed: cycle",
        ),
    ]
}

#[test]
fn boundary_errors_map_to_status_code_and_message() {
    for (error, status, code, message) in all_errors() {
        assert_eq!(error.status(), status, "{error:?}");
        assert_eq!(error.wire_code(), code, "{error:?}");
        assert_eq!(error.wire_message(), message);
        assert_eq!(error.message(), message);
        assert_eq!(error.retry_after(), None);
        let body = error.error_body();
        assert_eq!(body.code, code);
        assert_eq!(body.message, message);
        assert!(body.validation.is_none());
    }
}

#[test]
fn format_failures_become_boundary_errors() {
    let malformed = BoundaryError::from_format_failure(FormatFailure::MalformedDocument {
        format: "JSON",
        detail: "eof".to_owned(),
    });
    assert!(matches!(
        malformed,
        BoundaryError::MalformedBody { format: "JSON", ref detail } if detail == "eof"
    ));
    assert!(matches!(
        BoundaryError::from_format_failure(FormatFailure::PayloadTooLarge),
        BoundaryError::PayloadTooLarge
    ));
    assert!(matches!(
        BoundaryError::from_format_failure(FormatFailure::Read { detail: "io".to_owned() }),
        BoundaryError::BodyRead { ref detail } if detail == "io"
    ));
    assert!(matches!(
        BoundaryError::from_format_failure(FormatFailure::Encoding {
            format: "YAML",
            detail: "x".to_owned()
        }),
        BoundaryError::ResponseEncoding { format: "YAML", ref detail } if detail == "x"
    ));
}
