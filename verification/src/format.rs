//! The Serde wire formats the boundary renders and decodes.
use vstd::prelude::*;

verus! {

/// A wire format a response is encoded in, as a bounded stream.
#[derive(Debug, Clone, Copy, PartialEq, Eq, Hash)]
pub enum WireFormat {
    /// `application/json`.
    Json,
    /// `application/yaml` (RFC 9512).
    Yaml,
    /// `application/vnd.msgpack`, with named fields.
    MessagePack,
    /// `application/x-postcard`.
    Postcard,
}

/// A wire format a request body is decoded from, incrementally.
#[derive(Debug, Clone, Copy, PartialEq, Eq, Hash)]
pub enum BodyFormat {
    /// `application/json`.
    Json,
    /// `application/vnd.msgpack`, self-describing (named fields).
    MessagePack,
    /// `application/x-postcard`.
    Postcard,
}

} // verus!
