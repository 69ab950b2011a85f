use axum_serde_boundary::{
    AcceptMatch, Negotiated, BoundaryError, MediaType, ResponseMode, ResponseRepresentation, ResponseTable,
    WireFormat,
};

fn media(value: &'static str) -> MediaType {
    MediaType::try_new(value).expect("valid media type")
}

fn table() -> ResponseTable {
    ResponseTable::try_new(vec![
        ResponseRepresentation::new(media("application/json"), WireFormat::Json, ResponseMode::Payload),
        ResponseRepresentation::new(media("application/yaml"), WireFormat::Yaml, ResponseMode::Payload)
            .errors_as(WireFormat::Yaml, media("application/vnd.example.envelope+yaml")),
        ResponseRepresentation::new(
            media("application/vnd.example.envelope+json"),
            WireFormat::Json,
            ResponseMode::Envelope,
        ),
    ])
    .expect("valid table")
}

// The verdicts below are what the negotiation layer
// (`http_content_negotiation::ParsedAccept`) reports for each header
// against the table's media types.

#[test]
fn absent_and_empty_accept_select_the_first_entry() {
    for (accept, verdict) in [
        (None, AcceptMatch::Unconstrained),
        (Some(""), AcceptMatch::Unconstrained),
        (Some(" , ,"), AcceptMatch::Unconstrained),
    ] {
        let negotiated = table().negotiate(accept, verdict).expect("default");
        assert_eq!(negotiated.content_type().as_str(), "application/json");
    }
}

#[test]
fn q_values_steer_the_selection() {
    let negotiated = table()
        .negotiate(Some("application/json;q=0.1, application/yaml"), AcceptMatch::Selected(1))
        .expect("negotiate");
    assert_eq!(negotiated.content_type().as_str(), "application/yaml");
}

#[test]
fn wildcards_resolve_to_the_first_entry() {
    let negotiated = table().negotiate(Some("*/*"), AcceptMatch::Selected(0)).expect("negotiate");
    assert_eq!(negotiated.content_type().as_str(), "application/json");
}

#[test]
fn unmatched_and_malformed_accepts_are_406() {
    for (accept, verdict) in [
        ("text/plain", AcceptMatch::Unmatched),
        ("application/json;q=9", AcceptMatch::Malformed),
    ] {
        let err = table().negotiate(Some(accept), verdict).expect_err("must fail");
        assert!(
            matches!(&err, BoundaryError::NotAcceptable { accept: carried } if carried == accept),
            "{accept}"
        );
    }
}

#[test]
fn tables_reject_duplicates_and_emptiness() {
    assert!(ResponseTable::try_new(Vec::new()).is_err());
    let duplicate = ResponseTable::try_new(vec![
        ResponseRepresentation::new(media("application/json"), WireFormat::Json, ResponseMode::Payload),
        ResponseRepresentation::new(media("application/json"), WireFormat::Json, ResponseMode::Envelope),
    ]);
    assert!(duplicate.is_err());
}

#[test]
fn table_rejections_explain_themselves() {
    let empty = ResponseTable::try_new(Vec::new()).expect_err("empty");
    assert_eq!(empty.reason(), "a table needs at least one representation");
    assert_eq!(
        empty.message(),
        "invalid response table: a table needs at least one representation"
    );
    let duplicate = ResponseTable::try_new(vec![
        ResponseRepresentation::new(media("a/x"), WireFormat::Json, ResponseMode::Payload),
        ResponseRepresentation::new(media("a/y"), WireFormat::Json, ResponseMode::Payload),
        ResponseRepresentation::new(media("a/y"), WireFormat::Yaml, ResponseMode::Payload),
        ResponseRepresentation::new(media("a/x"), WireFormat::Yaml, ResponseMode::Payload),
    ])
    .expect_err("duplicate");
    assert_eq!(duplicate.reason(), "duplicate media type a/y");
}

#[test]
fn negotiated_entries_keep_their_rendering_policy() {
    let yaml = table().negotiate(Some("application/yaml"), AcceptMatch::Selected(1)).expect("yaml");
    assert_eq!(yaml.format(), WireFormat::Yaml);
    assert_eq!(yaml.mode(), ResponseMode::Payload);
    assert_eq!(yaml.error_format(), WireFormat::Yaml);
    assert_eq!(yaml.error_media_type().as_str(), "application/vnd.example.envelope+yaml");

    let envelope = table().negotiate(None, AcceptMatch::Selected(2)).expect("default");
    assert_eq!(envelope.content_type().as_str(), "application/json");

    let enveloped = table()
        .negotiate(Some("application/vnd.example.envelope+json"), AcceptMatch::Selected(2))
        .expect("envelope");
    assert_eq!(enveloped.mode(), ResponseMode::Envelope);
    assert_eq!(enveloped.error_format(), WireFormat::Json);
    assert_eq!(enveloped.error_media_type().as_str(), "application/json");
}

#[test]
fn selections_outside_the_table_are_406() {
    let err = table().negotiate(Some("x/y"), AcceptMatch::Selected(3)).expect_err("outside");
    assert!(matches!(err, BoundaryError::NotAcceptable { .. }));
}

#[test]
fn media_types_list_the_candidates_in_order() {
    assert_eq!(
        table().media_types(),
        vec!["application/json", "application/yaml", "application/vnd.example.envelope+json"]
    );
    let entry = ResponseRepresentation::new(media("text/csv"), WireFormat::Json, ResponseMode::Payload);
    assert_eq!(entry.media_type().as_str(), "text/csv");
}

#[test]
fn tables_clone_with_their_entries() {
    let original = table();
    let copy = original.clone();
    assert_eq!(copy, original);
    assert_eq!(copy.media_types(), original.media_types());
}

#[test]
fn negotiated_from_an_entry_keeps_its_policy() {
    let entry = ResponseRepresentation::new(media("application/yaml"), WireFormat::Yaml, ResponseMode::Envelope)
        .errors_as(WireFormat::MessagePack, media("application/vnd.msgpack"));
    let negotiated = Negotiated::from(&entry);
    assert_eq!(negotiated.format(), WireFormat::Yaml);
    assert_eq!(negotiated.mode(), ResponseMode::Envelope);
    assert_eq!(negotiated.content_type().as_str(), "application/yaml");
    assert_eq!(negotiated.error_format(), WireFormat::MessagePack);
    assert_eq!(negotiated.error_media_type().as_str(), "application/vnd.msgpack");
}
