//! The boundary's typed failure set.
use vstd::prelude::*;

verus! {

/// A failure at the Serde HTTP boundary.
#[derive(Debug)]
pub enum BoundaryError {
    /// No declared representation satisfies the request's `Accept`
    /// header (HTTP 406).
    NotAcceptable {
        /// The offending `Accept` value.
        accept: String,
    },
    /// The request `Content-Type` is not a supported structured
    /// format (HTTP 415).
    UnsupportedMediaType {
        /// The offending `Content-Type` value.
        content_type: String,
    },
    /// The request body exceeded the configured size limit (HTTP 413).
    PayloadTooLarge,
    /// The request body could not be read (HTTP 400).
    BodyRead {
        /// Human-readable read detail.
        detail: String,
    },
    /// The request body is not a valid document in the negotiated
    /// format (HTTP 400).
    MalformedBody {
        /// The format's display name.
        format: &'static str,
        /// Decoder detail (position information where available).
        detail: String,
    },
    /// The response failed to encode in the negotiated format
    /// (HTTP 500).
    ResponseEncoding {
        /// The format's display name.
        format: &'static str,
        /// Encoder detail.
        detail: String,
    },
}

/// A decode or encode failure of a Serde document, as the streaming
/// format layer reports it.
#[derive(Debug)]
pub enum FormatFailure {
    /// The input is not a valid document in the named format.
    MalformedDocument {
        /// The format's display name.
        format: &'static str,
        /// Decoder detail.
        detail: String,
    },
    /// The input exceeded a configured size limit.
    PayloadTooLarge,
    /// The underlying reader failed before the document ended.
    Read {
        /// Human-readable I/O detail.
        detail: String,
    },
    /// The value failed to encode in the named format.
    Encoding {
        /// The format's display name.
        format: &'static str,
        /// Encoder detail.
        detail: String,
    },
}

/// The boundary error a format failure becomes.
pub open spec fn boundary_error_of(failure: FormatFailure) -> BoundaryError {
    match failure {
        FormatFailure::MalformedDocument { format, detail } => BoundaryError::MalformedBody {
            format,
            detail,
        },
        FormatFailure::PayloadTooLarge => BoundaryError::PayloadTooLarge,
        FormatFailure::Read { detail } => BoundaryError::BodyRead { detail },
        FormatFailure::Encoding { format, detail } => BoundaryError::ResponseEncoding {
            format,
            detail,
        },
    }
}

/// The status code of each boundary failure.
pub open spec fn status_of(error: BoundaryError) -> u16 {
    match error {
        BoundaryError::NotAcceptable { .. } => 406,
        BoundaryError::UnsupportedMediaType { .. } => 415,
        BoundaryError::PayloadTooLarge => 413,
        BoundaryError::BodyRead { .. } => 400,
        BoundaryError::MalformedBody { .. } => 400,
        BoundaryError::ResponseEncoding { .. } => 500,
    }
}

/// The wire code of each boundary failure.
pub open spec fn wire_code_of(error: BoundaryError) -> Seq<char> {
    match error {
        BoundaryError::NotAcceptable { .. } => crate::ErrorBody::CODE_NOT_ACCEPTABLE@,
        BoundaryError::UnsupportedMediaType { .. } => crate::ErrorBody::CODE_UNSUPPORTED_MEDIA_TYPE@,
        BoundaryError::PayloadTooLarge => crate::ErrorBody::CODE_PAYLOAD_TOO_LARGE@,
        BoundaryError::BodyRead { .. } => crate::ErrorBody::CODE_MALFORMED_BODY@,
        BoundaryError::MalformedBody { .. } => crate::ErrorBody::CODE_MALFORMED_BODY@,
        BoundaryError::ResponseEncoding { .. } => crate::ErrorBody::CODE_RESPONSE_ENCODING@,
    }
}

/// The human-readable text of each boundary failure.
pub open spec fn message_of(error: BoundaryError) -> Seq<char> {
    match error {
        BoundaryError::NotAcceptable { accept } => MSG_NOT_ACCEPTABLE@ + accept@,
        BoundaryError::UnsupportedMediaType { content_type } => MSG_UNSUPPORTED@ + content_type@,
        BoundaryError::PayloadTooLarge => MSG_TOO_LARGE@,
        BoundaryError::BodyRead { detail } => MSG_BODY_READ@ + detail@,
        BoundaryError::MalformedBody { format, detail } => MSG_MALFORMED@ + format@
            + MSG_MALFORMED_TAIL@ + detail@,
        BoundaryError::ResponseEncoding { format, detail } => format@ + MSG_ENCODING_TAIL@
            + detail@,
    }
}

pub const MSG_NOT_ACCEPTABLE: &'static str = "no representation satisfies Accept: ";

pub const MSG_UNSUPPORTED: &'static str = "unsupported Content-Type: ";

pub const MSG_TOO_LARGE: &'static str = "request body exceeded the configured limit";

pub const MSG_BODY_READ: &'static str = "request body read failed: ";

pub const MSG_MALFORMED: &'static str = "malformed ";

pub const MSG_MALFORMED_TAIL: &'static str = " request body: ";

pub const MSG_ENCODING_TAIL: &'static str = " response encoding failed: ";

impl BoundaryError {
    /// The boundary error that a format failure maps to: a malformed
    /// document is a malformed body, a tripped limit is too large, a
    /// reader failure is a body read failure, an encoding failure is a
    /// response encoding failure.
    pub fn from_format_failure(failure: FormatFailure) -> (r: BoundaryError)
        ensures
            r == boundary_error_of(failure),
    {
        match failure {
            FormatFailure::MalformedDocument { format, detail } => BoundaryError::MalformedBody {
                format,
                detail,
            },
            FormatFailure::PayloadTooLarge => BoundaryError::PayloadTooLarge,
            FormatFailure::Read { detail } => BoundaryError::BodyRead { detail },
            FormatFailure::Encoding { format, detail } => BoundaryError::ResponseEncoding {
                format,
                detail,
            },
        }
    }

    /// The human-readable explanation of this failure.
    pub fn message(&self) -> (r: String)
        ensures
            r@ == message_of(*self),
    {
        match self {
            BoundaryError::NotAcceptable { accept } => MSG_NOT_ACCEPTABLE.to_owned().concat(
                accept.as_str(),
            ),
            BoundaryError::UnsupportedMediaType { content_type } => MSG_UNSUPPORTED.to_owned().concat(
                content_type.as_str(),
            ),
            BoundaryError::PayloadTooLarge => MSG_TOO_LARGE.to_owned(),
            BoundaryError::BodyRead { detail } => MSG_BODY_READ.to_owned().concat(detail.as_str()),
            BoundaryError::MalformedBody { format, detail } => MSG_MALFORMED.to_owned().concat(
                *format,
            ).concat(MSG_MALFORMED_TAIL).concat(detail.as_str()),
            BoundaryError::ResponseEncoding { format, detail } => (*format).to_owned().concat(
                MSG_ENCODING_TAIL,
            ).concat(detail.as_str()),
        }
    }
}

/// Every boundary failure is a client or server error, and its status
/// is a function of its wire code: two failures with the same wire code
/// always carry the same status.
pub proof fn lemma_status_follows_wire_code(a: BoundaryError, b: BoundaryError)
    ensures
        400 <= status_of(a) <= 599,
        wire_code_of(a) == wire_code_of(b) ==> status_of(a) == status_of(b),
{
    reveal_strlit("NOT_ACCEPTABLE");
    reveal_strlit("UNSUPPORTED_MEDIA_TYPE");
    reveal_strlit("PAYLOAD_TOO_LARGE");
    reveal_strlit("MALFORMED_BODY");
    reveal_strlit("RESPONSE_ENCODING");
    if wire_code_of(a) == wire_code_of(b) && status_of(a) != status_of(b) {
        assert(wire_code_of(a).len() != wire_code_of(b).len() || wire_code_of(a)[0] != wire_code_of(
            b,
        )[0]);
    }
}

/// A format failure crosses the boundary with its detail intact: a
/// malformed document and a reader failure are client errors (400), a
/// tripped size limit is 413, an encoding failure is a server error
/// (500); it is never a negotiation or media-type failure.
pub proof fn lemma_format_failure_status(failure: FormatFailure)
    ensures
        status_of(boundary_error_of(failure)) == match failure {
            FormatFailure::PayloadTooLarge => 413u16,
            FormatFailure::Encoding { .. } => 500u16,
            _ => 400u16,
        },
        !(boundary_error_of(failure) is NotAcceptable),
        !(boundary_error_of(failure) is UnsupportedMediaType),
        failure matches FormatFailure::MalformedDocument { format, detail } ==> message_of(
            boundary_error_of(failure),
        ) == MSG_MALFORMED@ + format@ + MSG_MALFORMED_TAIL@ + detail@,
{
}

} // verus!
