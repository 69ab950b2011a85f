//! How a typed error crosses the HTTP boundary.
use vstd::prelude::*;

use crate::envelope::ErrorBody;
use crate::error::{message_of, status_of, wire_code_of, BoundaryError};

verus! {

/// How a domain error crosses the HTTP boundary: its status code, its
/// typed `CODE_*` wire code, and its client-consumable error body.
pub trait HttpErrorContract {
    /// The HTTP status code this error maps to. A value outside
    /// 100–999 is no status code; such an error goes out as `500`
    /// (see [`crate::respond::sendable_status`]).
    fn status(&self) -> u16;

    /// The machine-readable wire code — always a typed `CODE_*`
    /// associated constant, never a bare literal.
    fn wire_code(&self) -> &'static str;

    /// The human-readable explanation. Must not disclose secrets or
    /// internal topology.
    fn wire_message(&self) -> String;

    /// The error's client-consumable body: by default, a body whose
    /// code is what [`HttpErrorContract::wire_code`] returns and whose
    /// message is what [`HttpErrorContract::wire_message`] returns, with
    /// no validation details.
    fn error_body(&self) -> (r: ErrorBody)
        default_ensures
            exists|code: &'static str, message: String|
                call_ensures(Self::wire_code, (self,), code) && call_ensures(
                    Self::wire_message,
                    (self,),
                    message,
                ) && r.code@ == code@ && r.message == message,
            r.validation is None,
    {
        let code = self.wire_code();
        let message = self.wire_message();
        ErrorBody::new(code, message)
    }

    /// Seconds after which the caller may retry, stamped as a
    /// `retry-after` header on the error response. `None` (the
    /// default) stamps nothing; implement for transient 503-class
    /// errors.
    fn retry_after(&self) -> (r: Option<u32>)
        default_ensures
            r is None,
    {
        None
    }
}

impl HttpErrorContract for BoundaryError {
    fn status(&self) -> (r: u16)
        ensures
            r == status_of(*self),
    {
        match self {
            BoundaryError::NotAcceptable { .. } => 406,
            BoundaryError::UnsupportedMediaType { .. } => 415,
            BoundaryError::PayloadTooLarge => 413,
            BoundaryError::BodyRead { .. } | BoundaryError::MalformedBody { .. } => 400,
            BoundaryError::ResponseEncoding { .. } => 500,
        }
    }

    fn wire_code(&self) -> (r: &'static str)
        ensures
            r@ == wire_code_of(*self),
    {
        match self {
            BoundaryError::NotAcceptable { .. } => ErrorBody::CODE_NOT_ACCEPTABLE,
            BoundaryError::UnsupportedMediaType { .. } => ErrorBody::CODE_UNSUPPORTED_MEDIA_TYPE,
            BoundaryError::PayloadTooLarge => ErrorBody::CODE_PAYLOAD_TOO_LARGE,
            BoundaryError::BodyRead { .. } | BoundaryError::MalformedBody { .. } => {
                ErrorBody::CODE_MALFORMED_BODY
            },
            BoundaryError::ResponseEncoding { .. } => ErrorBody::CODE_RESPONSE_ENCODING,
        }
    }

    fn wire_message(&self) -> (r: String)
        ensures
            r@ == message_of(*self),
    {
        self.message()
    }
}

} // verus!
