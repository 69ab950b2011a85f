//! The envelope-mode response contract and the machine-readable error
//! contract.
//!
//! Envelope metadata is bounded and deliberately spare: put nothing in
//! it that must not reach a client.
use vstd::prelude::*;

verus! {

/// The maximum number of warnings an envelope carries; later warnings
/// are dropped, never accumulated unboundedly.
pub const MAX_ENVELOPE_WARNINGS: usize = 16;

/// The envelope-mode response body: the payload (on success) or the
/// error contract (on failure), plus bounded operation metadata.
#[derive(Debug, Clone, PartialEq, Eq)]
pub struct ResponseEnvelope<T> {
    /// The operation's payload; present exactly when the operation
    /// succeeded.
    pub payload: Option<T>,
    /// The error contract; present exactly when the operation failed.
    pub error: Option<ErrorBody>,
    /// Non-fatal, human-readable warnings, at most
    /// [`MAX_ENVELOPE_WARNINGS`] of them.
    pub warnings: Vec<String>,
}

impl<T> ResponseEnvelope<T> {
    /// The envelope carries exactly one of a payload and an error, and
    /// no more warnings than its capacity.
    pub open spec fn well_formed(&self) -> bool {
        &&& (self.payload is Some) != (self.error is Some)
        &&& self.warnings@.len() <= MAX_ENVELOPE_WARNINGS
    }

    /// A success envelope around `payload`.
    pub fn ok(payload: T) -> (r: Self)
        ensures
            r.payload == Some(payload),
            r.error is None,
            r.warnings@.len() == 0,
            r.well_formed(),
    {
        ResponseEnvelope { payload: Some(payload), error: None, warnings: Vec::new() }
    }

    /// A failure envelope around `error`.
    pub fn err(error: ErrorBody) -> (r: Self)
        ensures
            r.payload is None,
            r.error == Some(error),
            r.warnings@.len() == 0,
            r.well_formed(),
    {
        ResponseEnvelope { payload: None, error: Some(error), warnings: Vec::new() }
    }

    /// Append a warning, dropping it silently once the bounded
    /// capacity is reached.
    pub fn push_warning(&mut self, warning: String)
        ensures
            final(self).payload == old(self).payload,
            final(self).error == old(self).error,
            old(self).warnings@.len() < MAX_ENVELOPE_WARNINGS ==> final(self).warnings@
                == old(self).warnings@.push(warning),
            old(self).warnings@.len() >= MAX_ENVELOPE_WARNINGS ==> final(self).warnings@
                == old(self).warnings@,
            old(self).well_formed() ==> final(self).well_formed(),
    {
        if self.warnings.len() < MAX_ENVELOPE_WARNINGS {
            self.warnings.push(warning);
        }
    }
}

/// The machine-readable error contract carried by every error
/// response (and by failure envelopes).
#[derive(Debug, Clone, PartialEq, Eq)]
pub struct ErrorBody {
    /// The machine-readable error code. Always sourced from a typed
    /// `CODE_*` associated constant — the application defines its own
    /// constants for domain errors; never a bare string literal at a
    /// call site.
    pub code: String,
    /// The human-readable explanation.
    pub message: String,
    /// Field-level validation failures, when the error is a request
    /// validation failure.
    pub validation: Option<ValidationDetails>,
}

impl ErrorBody {
    /// No representation satisfies the request's `Accept` header
    /// (HTTP 406).
    pub const CODE_NOT_ACCEPTABLE: &'static str = "NOT_ACCEPTABLE";

    /// The request `Content-Type` is not supported (HTTP 415).
    pub const CODE_UNSUPPORTED_MEDIA_TYPE: &'static str = "UNSUPPORTED_MEDIA_TYPE";

    /// The request body exceeds the permitted size (HTTP 413).
    pub const CODE_PAYLOAD_TOO_LARGE: &'static str = "PAYLOAD_TOO_LARGE";

    /// The request body is unreadable or not a valid document in the
    /// negotiated format (HTTP 400).
    pub const CODE_MALFORMED_BODY: &'static str = "MALFORMED_BODY";

    /// The response failed to encode in the negotiated format
    /// (HTTP 500).
    pub const CODE_RESPONSE_ENCODING: &'static str = "RESPONSE_ENCODING";

    /// An error body from a typed code constant and a message.
    pub fn new(code: &'static str, message: String) -> (r: Self)
        ensures
            r.code@ == code@,
            r.message == message,
            r.validation is None,
    {
        ErrorBody { code: code.to_owned(), message, validation: None }
    }

    /// Attach field-level validation details.
    pub fn with_validation(self, validation: ValidationDetails) -> (r: Self)
        ensures
            r.code == self.code,
            r.message == self.message,
            r.validation == Some(validation),
    {
        let mut body = self;
        body.validation = Some(validation);
        body
    }
}

/// Field-level detail for a request validation failure.
#[derive(Debug, Clone, PartialEq, Eq)]
pub struct ValidationDetails {
    /// The failing fields — one entry per invalid field of one
    /// request body.
    pub fields: Vec<FieldError>,
}

/// One invalid field in a request body.
#[derive(Debug, Clone, PartialEq, Eq)]
pub struct FieldError {
    /// A JSON-Pointer-style location of the failing field.
    pub pointer: String,
    /// Why the field was rejected.
    pub message: String,
}

} // verus!
