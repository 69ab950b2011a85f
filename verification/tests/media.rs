use axum_serde_boundary::MediaType;

#[test]
fn media_types_enforce_token_syntax() {
    assert!(MediaType::try_new("application/vnd.example+json").is_ok());
    for value in [
        "",
        "noslash",
        "a/b/c",
        "/sub",
        "main/",
        "sp ace/json",
        "app/js{on}",
    ] {
        assert!(MediaType::try_new(value).is_err(), "{value:?}");
    }
}

#[test]
fn media_type_keeps_its_value() {
    let media = MediaType::try_new("application/vnd.example.envelope+yaml").expect("valid");
    assert_eq!(media.as_str(), "application/vnd.example.envelope+yaml");
    assert_eq!(media.as_ref(), "application/vnd.example.envelope+yaml");
}

#[test]
fn media_type_rejections_name_the_first_failed_check() {
    let cases = [
        ("", "must not be empty"),
        ("noslash", "must be type/subtype"),
        ("a/b/c", "must be exactly two non-empty segments"),
        ("/sub", "must be exactly two non-empty segments"),
        ("main/", "must be exactly two non-empty segments"),
        ("sp ace/json", "segments must be HTTP token characters"),
        ("app/js{on}", "segments must be HTTP token characters"),
        ("app/jsön", "segments must be HTTP token characters"),
    ];
    for (value, reason) in cases {
        let error = MediaType::try_new(value).expect_err("must fail");
        assert_eq!(error.reason(), reason, "{value:?}");
        assert_eq!(error.value(), value);
    }
}

#[test]
fn media_type_length_limit_is_255_bytes() {
    let long: &'static str = Box::leak(format!("a/{}", "b".repeat(253)).into_boxed_str());
    assert_eq!(long.len(), 255);
    assert!(MediaType::try_new(long).is_ok());
    let too_long: &'static str = Box::leak(format!("a/{}", "b".repeat(254)).into_boxed_str());
    let error = MediaType::try_new(too_long).expect_err("too long");
    assert_eq!(error.reason(), "longer than 255 bytes");
    // Non-ASCII characters count by their UTF-8 bytes.
    let wide: &'static str = Box::leak(format!("a/{}", "é".repeat(127)).into_boxed_str());
    assert_eq!(
        MediaType::try_new(wide).expect_err("too long").reason(),
        "longer than 255 bytes"
    );
}

#[test]
fn media_type_accepts_every_token_character() {
    assert!(MediaType::try_new("!#$%&'*+-.^_`|~/AZaz09").is_ok());
    assert!(MediaType::try_new("*/*").is_ok());
    assert!(MediaType::try_new("a/b;c").is_err());
}

#[test]
fn media_type_rejections_render_like_display() {
    let error = MediaType::try_new("sp ace/json").expect_err("must fail");
    assert_eq!(
        error.message(),
        "invalid media type: segments must be HTTP token characters (\"sp ace/json\")"
    );
    let error = MediaType::try_new("a\"b").expect_err("must fail");
    assert_eq!(error.message(), "invalid media type: must be type/subtype (\"a\\\"b\")");
}
