//! The decisions that render typed results and boundary failures
//! through the negotiated representation.
use vstd::prelude::*;

use crate::contract::HttpErrorContract;
use crate::envelope::ErrorBody;
use crate::error::{message_of, status_of, wire_code_of, BoundaryError};
use crate::format::WireFormat;
use crate::media::MediaType;
use crate::table::{default_error_media_type, Negotiated, ResponseMode, JSON_MEDIA_TYPE};

verus! {

/// The HTTP status `204 No Content`.
pub const NO_CONTENT: u16 = 204;

/// The HTTP status `500 Internal Server Error`.
pub const INTERNAL_SERVER_ERROR: u16 = 500;

/// How a response goes on the wire.
#[derive(Debug)]
pub enum ResponsePlan {
    /// A status alone: no body, no `Content-Type`.
    Bodyless {
        /// The status code.
        status: u16,
    },
    /// The success payload, streamed in `format`, bare or wrapped in a
    /// success envelope, stamped `content_type`.
    Stream {
        /// The status code.
        status: u16,
        /// The streaming format.
        format: WireFormat,
        /// Bare payload or envelope.
        mode: ResponseMode,
        /// The `Content-Type` stamp.
        content_type: MediaType,
    },
    /// A failure envelope around `body`, encoded in `format` before the
    /// headers go out, stamped `media_type`, with a `retry-after`
    /// header when `retry_after` holds one.
    Failure {
        /// The status code.
        status: u16,
        /// The encoding of the failure envelope.
        format: WireFormat,
        /// The `Content-Type` stamp.
        media_type: MediaType,
        /// The error contract the envelope carries.
        body: ErrorBody,
        /// The `retry-after` header value, in seconds.
        retry_after: Option<String>,
    },
}

/// The decimal digit `d` as a character.
pub open spec fn digit_char(d: nat) -> char
    recommends
        d < 10,
{
    if d == 0 {
        '0'
    } else if d == 1 {
        '1'
    } else if d == 2 {
        '2'
    } else if d == 3 {
        '3'
    } else if d == 4 {
        '4'
    } else if d == 5 {
        '5'
    } else if d == 6 {
        '6'
    } else if d == 7 {
        '7'
    } else if d == 8 {
        '8'
    } else {
        '9'
    }
}

/// The decimal notation of `n`, without sign or leading zeros.
pub open spec fn decimal_digits(n: nat) -> Seq<char>
    decreases n,
{
    if n < 10 {
        seq![digit_char(n)]
    } else {
        decimal_digits(n / 10) + seq![digit_char(n % 10)]
    }
}

/// The value of the decimal digit `c`.
pub open spec fn digit_value(c: char) -> nat {
    if c == '1' {
        1
    } else if c == '2' {
        2
    } else if c == '3' {
        3
    } else if c == '4' {
        4
    } else if c == '5' {
        5
    } else if c == '6' {
        6
    } else if c == '7' {
        7
    } else if c == '8' {
        8
    } else if c == '9' {
        9
    } else {
        0
    }
}

/// Whether `c` is one of `0`–`9`.
pub open spec fn is_digit(c: char) -> bool {
    '0' <= c <= '9'
}

/// The number a string of decimal digits denotes.
pub open spec fn decimal_value(s: Seq<char>) -> nat
    decreases s.len(),
{
    if s.len() == 0 {
        0
    } else {
        decimal_value(s.drop_last()) * 10 + digit_value(s.last())
    }
}

/// The decimal notation of `n` is a non-empty string of digits, with
/// no leading zero unless `n` is zero, and it denotes `n`: a
/// `retry-after` value carries exactly the delay's seconds.
pub proof fn lemma_decimal_round_trip(n: nat)
    ensures
        decimal_digits(n).len() >= 1,
        forall|i: int| 0 <= i < decimal_digits(n).len() ==> is_digit(#[trigger] decimal_digits(n)[i]),
        n > 0 ==> decimal_digits(n)[0] != '0',
        decimal_value(decimal_digits(n)) == n,
    decreases n,
{
    if n >= 10 {
        lemma_decimal_round_trip(n / 10);
        let head = decimal_digits(n / 10);
        let s = decimal_digits(n);
        assert(s.drop_last() =~= head);
        assert(s.last() == digit_char(n % 10));
        assert(forall|i: int| 0 <= i < head.len() ==> s[i] == head[i]);
        assert(digit_value(digit_char(n % 10)) == n % 10);
        assert(decimal_value(s) == decimal_value(head) * 10 + digit_value(s.last()));
        assert((n / 10) * 10 + n % 10 == n);
        assert(decimal_value(s) == n);
    } else {
        let s = decimal_digits(n);
        assert(s.drop_last() =~= Seq::<char>::empty());
        assert(digit_value(digit_char(n)) == n);
        assert(decimal_value(Seq::<char>::empty()) == 0);
        assert(decimal_value(s) == n);
    }
}

/// The `retry-after` header value for an optional delay.
pub open spec fn retry_after_text(retry_after: Option<u32>) -> Option<Seq<char>> {
    match retry_after {
        Some(seconds) => Some(decimal_digits(seconds as nat)),
        None => None,
    }
}

/// The text of an optional string.
pub open spec fn text_view(text: Option<String>) -> Option<Seq<char>> {
    match text {
        Some(s) => Some(s@),
        None => None,
    }
}

/// The decimal digit `d` as a one-character string.
fn digit_text(d: u32) -> (r: &'static str)
    requires
        d < 10,
    ensures
        r@ == seq![digit_char(d as nat)],
{
    proof {
        reveal_strlit("0");
        reveal_strlit("1");
        reveal_strlit("2");
        reveal_strlit("3");
        reveal_strlit("4");
        reveal_strlit("5");
        reveal_strlit("6");
        reveal_strlit("7");
        reveal_strlit("8");
        reveal_strlit("9");
    }
    if d == 0 {
        "0"
    } else if d == 1 {
        "1"
    } else if d == 2 {
        "2"
    } else if d == 3 {
        "3"
    } else if d == 4 {
        "4"
    } else if d == 5 {
        "5"
    } else if d == 6 {
        "6"
    } else if d == 7 {
        "7"
    } else if d == 8 {
        "8"
    } else {
        "9"
    }
}

/// The decimal notation of `n`, as `u32`'s `Display` writes it.
pub fn decimal_text(n: u32) -> (r: String)
    ensures
        r@ == decimal_digits(n as nat),
    decreases n,
{
    if n < 10 {
        digit_text(n).to_owned()
    } else {
        let mut text = decimal_text(n / 10);
        text.append(digit_text(n % 10));
        text
    }
}

/// The envelope emitted when an error envelope itself fails to
/// encode: a static JSON document with the response-encoding code.
pub open spec fn fallback_document() -> Seq<char> {
    FALLBACK_HEAD@ + ErrorBody::CODE_RESPONSE_ENCODING@ + FALLBACK_TAIL@
}

pub const FALLBACK_HEAD: &'static str = "{\"error\":{\"code\":\"";

pub const FALLBACK_TAIL: &'static str = "\",\"message\":\"error envelope failed to encode\"}}";

/// The body of the `500` response sent when an error envelope fails
/// to encode, stamped `application/json`: the failure is never an
/// empty 2xx or a bodyless response.
pub fn fallback_error_document() -> (r: String)
    ensures
        r@ == fallback_document(),
{
    FALLBACK_HEAD.to_owned().concat(ErrorBody::CODE_RESPONSE_ENCODING).concat(FALLBACK_TAIL)
}

/// Render an error body as a failure envelope in `format`, stamped as
/// `media_type`, with `status` and an optional `retry-after` delay.
/// A status code a response can carry: `status` when it is a valid
/// three-digit code (100–999), `500` otherwise.
pub open spec fn sendable_status(status: u16) -> u16 {
    if 100 <= status <= 999 {
        status
    } else {
        INTERNAL_SERVER_ERROR
    }
}

/// The status an error response goes out with: a code an error
/// contract names outside 100–999 goes out as `500`.
pub fn sendable(status: u16) -> (r: u16)
    ensures
        r == sendable_status(status),
{
    if 100 <= status && status <= 999 {
        status
    } else {
        INTERNAL_SERVER_ERROR
    }
}

pub fn failure_plan(
    format: WireFormat,
    media_type: MediaType,
    status: u16,
    body: ErrorBody,
    retry_after: Option<u32>,
) -> (r: ResponsePlan)
    ensures
        r matches ResponsePlan::Failure { status: s, format: f, media_type: m, body: b, retry_after: t }
            && s == sendable_status(status) && f == format && m@ == media_type@ && b == body
            && text_view(t) == retry_after_text(retry_after),
{
    let retry_after = match retry_after {
        Some(seconds) => Some(decimal_text(seconds)),
        None => None,
    };
    ResponsePlan::Failure { status: sendable(status), format, media_type, body, retry_after }
}

/// The document of an error response.
#[derive(Debug)]
pub enum ErrorDocument {
    /// The failure envelope, as encoded in the planned format.
    Encoded(Vec<u8>),
    /// The static JSON envelope sent when the failure envelope could
    /// not be encoded.
    Fallback(String),
}

/// An error response as it goes on the wire.
#[derive(Debug)]
pub struct ErrorResponse {
    /// The status code.
    pub status: u16,
    /// The `Content-Type` stamp.
    pub content_type: &'static str,
    /// The response body.
    pub document: ErrorDocument,
}

/// The response for a failure with `status` stamped `media_type`,
/// given the encoded failure envelope, or `None` when it failed to
/// encode: the envelope is sent as planned, and an envelope that failed
/// to encode becomes a `500` carrying the static JSON fallback, stamped
/// `application/json` — never an empty 2xx or a bodyless response.
pub fn error_response(status: u16, media_type: MediaType, encoded: Option<Vec<u8>>) -> (r:
    ErrorResponse)
    ensures
        encoded matches Some(bytes) ==> r.status == status && r.content_type@ == media_type@
            && r.document == ErrorDocument::Encoded(bytes),
        encoded is None ==> r.status == INTERNAL_SERVER_ERROR && r.content_type@
            == JSON_MEDIA_TYPE@ && (r.document matches ErrorDocument::Fallback(text) && text@
            == fallback_document()),
{
    match encoded {
        Some(bytes) => ErrorResponse {
            status,
            content_type: media_type.as_str(),
            document: ErrorDocument::Encoded(bytes),
        },
        None => ErrorResponse {
            status: INTERNAL_SERVER_ERROR,
            content_type: JSON_MEDIA_TYPE,
            document: ErrorDocument::Fallback(fallback_error_document()),
        },
    }
}

impl Negotiated {
    /// How a success with `status` goes out: a `204 No Content` is
    /// bodyless by HTTP semantics (no payload, no `Content-Type`) in
    /// either mode; any other status streams the payload in the
    /// negotiated format and mode, stamped with the negotiated type.
    pub fn success_plan(&self, status: u16) -> (r: ResponsePlan)
        ensures
            status == NO_CONTENT ==> r == (ResponsePlan::Bodyless { status }),
            status != NO_CONTENT ==> (r matches ResponsePlan::Stream {
                status: s,
                format,
                mode,
                content_type,
            } && s == status && format == self@.format && mode == self@.mode && content_type@
                == self@.media_type),
    {
        if status == NO_CONTENT {
            return ResponsePlan::Bodyless { status };
        }
        ResponsePlan::Stream {
            status,
            format: self.format(),
            mode: self.mode(),
            content_type: *self.content_type(),
        }
    }

    /// How a failure goes out under this negotiation: always the
    /// failure envelope, in the representation's error format, stamped
    /// with its error media type.
    pub fn error_plan(&self, status: u16, body: ErrorBody, retry_after: Option<u32>) -> (r:
        ResponsePlan)
        ensures
            r matches ResponsePlan::Failure {
                status: s,
                format,
                media_type,
                body: b,
                retry_after: t,
            } && s == sendable_status(status) && format == self@.error_format && media_type@
                == self@.error_media_type && b == body && text_view(t) == retry_after_text(
                retry_after,
            ),
    {
        failure_plan(self.error_format(), *self.error_media_type(), status, body, retry_after)
    }

    /// How a typed failure goes out under this negotiation: the status,
    /// error body and `retry-after` delay that the error's contract
    /// returns, in the representation's error format and error media
    /// type.
    pub fn failure<E: HttpErrorContract>(&self, error: &E) -> (r: ResponsePlan)
        ensures
            r matches ResponsePlan::Failure { format, media_type, .. } && format
                == self@.error_format && media_type@ == self@.error_media_type,
            exists|s: u16, b: ErrorBody, t: Option<u32>|
                call_ensures(E::status, (error,), s) && call_ensures(E::error_body, (error,), b)
                    && call_ensures(E::retry_after, (error,), t) && (r matches ResponsePlan::Failure {
                    status,
                    body,
                    retry_after,
                    ..
                } && status == sendable_status(s) && body == b && text_view(retry_after)
                    == retry_after_text(t)),
    {
        let status = error.status();
        let body = error.error_body();
        let retry_after = error.retry_after();
        self.error_plan(status, body, retry_after)
    }
}

/// A boundary failure raised by an extractor, rendered as the typed
/// JSON error envelope.
#[derive(Debug)]
pub struct BoundaryRejection {
    error: BoundaryError,
}

impl View for BoundaryRejection {
    type V = BoundaryError;

    closed spec fn view(&self) -> BoundaryError {
        self.error
    }
}

impl BoundaryRejection {
    /// Wrap a boundary error for use as an extractor rejection.
    pub fn new(error: BoundaryError) -> (r: Self)
        ensures
            r@ == error,
    {
        BoundaryRejection { error }
    }

    /// The underlying boundary error.
    pub fn error(&self) -> (r: &BoundaryError)
        ensures
            *r == self@,
    {
        &self.error
    }

    /// How the rejection goes out: the error's status, a JSON failure
    /// envelope stamped `application/json` carrying the error's wire
    /// code and message, and no `retry-after`.
    pub fn plan(&self) -> (r: ResponsePlan)
        ensures
            r matches ResponsePlan::Failure { status, format, media_type, body, retry_after }
                && status == status_of(self@) && format == WireFormat::Json && media_type@
                == JSON_MEDIA_TYPE@ && body.code@ == wire_code_of(self@) && body.message@
                == message_of(self@) && body.validation is None && retry_after is None,
    {
        failure_plan(
            WireFormat::Json,
            default_error_media_type(),
            self.error.status(),
            self.error.error_body(),
            self.error.retry_after(),
        )
    }
}

} // verus!
