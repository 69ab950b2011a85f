//! Typed request-body extraction: which structured format a request
//! body is decoded from, by its `Content-Type`.
use vstd::prelude::*;

use serde_stream_formats::DecodeFormat;

use crate::error::BoundaryError;
use crate::format::BodyFormat;

verus! {

/// A typed request body decoded in the structured format named by the
/// request's `Content-Type`.
///
/// - No `Content-Type` → decoded as JSON, the documented contract default.
/// - An unsupported `Content-Type` → typed 415.
/// - A body over the configured body limit → typed 413.
/// - A body that fails to decode → typed 400 with decoder detail.
#[derive(Debug, Clone)]
pub struct SerdeBody<T>(pub T);

/// A request's `Content-Type` header, as read from the request.
#[derive(Debug, Clone, Copy)]
pub enum ContentTypeHeader<'a> {
    /// The request carries no `Content-Type`.
    Absent,
    /// The header value is not visible ASCII text.
    Opaque,
    /// The header value, as text.
    Text(&'a str),
}

/// The text recorded for a `Content-Type` that is not visible ASCII.
pub const OPAQUE_CONTENT_TYPE: &'static str = "<non-ASCII Content-Type>";

/// Whether `k` is where the parameters of the header text `s` begin:
/// the first `;`, or the end of the text when it holds none.
pub open spec fn parameters_at(s: Seq<char>, k: int) -> bool {
    &&& 0 <= k <= s.len()
    &&& k < s.len() ==> s[k] == ';'
    &&& forall|j: int| 0 <= j < k ==> s[j] != ';'
}

/// The media type part of the header text `s`: everything before the
/// first `;`.
pub open spec fn before_parameters(s: Seq<char>) -> Seq<char> {
    s.subrange(0, choose|k: int| parameters_at(s, k))
}

/// Every header text has exactly one place where its parameters begin.
pub proof fn lemma_parameters_at(s: Seq<char>)
    ensures
        exists|k: int| parameters_at(s, k),
        forall|k1: int, k2: int| parameters_at(s, k1) && parameters_at(s, k2) ==> k1 == k2,
    decreases s.len(),
{
    assert forall|k1: int, k2: int| parameters_at(s, k1) && parameters_at(s, k2) implies k1
        == k2 by {
        if k1 < k2 {
            assert(s[k1] == ';');
        } else if k2 < k1 {
            assert(s[k2] == ';');
        }
    }
    if s.len() == 0 {
        assert(parameters_at(s, 0));
    } else {
        let init = s.drop_last();
        lemma_parameters_at(init);
        let k = choose|k: int| parameters_at(init, k);
        assert(forall|j: int| 0 <= j < init.len() ==> s[j] == init[j]);
        if k < init.len() {
            assert(parameters_at(s, k));
        } else if s.last() == ';' {
            assert(parameters_at(s, k));
        } else {
            assert(parameters_at(s, s.len() as int));
        }
    }
}

/// Parameters do not change the media type part: for a media type `m`
/// holding no `;`, the text `m;p` and the text `m` both name `m`,
/// whatever the parameter text `p`.
pub proof fn lemma_parameters_ignored(m: Seq<char>, p: Seq<char>)
    requires
        !m.contains(';'),
    ensures
        before_parameters(m + seq![';'] + p) == m,
        before_parameters(m) == m,
{
    let s = m + seq![';'] + p;
    lemma_parameters_at(s);
    lemma_parameters_at(m);
    assert(parameters_at(s, m.len() as int)) by {
        assert forall|j: int| 0 <= j < m.len() implies s[j] != ';' by {
            assert(s[j] == m[j]);
        }
    }
    assert(parameters_at(m, m.len() as int));
    assert(s.subrange(0, m.len() as int) =~= m);
    assert(m.subrange(0, m.len() as int) =~= m);
}

/// The media type part of a header text, and where its parameters
/// begin.
fn media_type_part(text: &str) -> (r: &str)
    ensures
        r@ == before_parameters(text@),
        !r@.contains(';'),
        exists|k: int| parameters_at(text@, k) && r@ == text@.subrange(0, k),
{
    let n = text.unicode_len();
    let mut k: usize = 0;
    while k < n && text.get_char(k) != ';'
        invariant
            n == text@.len(),
            k <= n,
            forall|j: int| 0 <= j < k ==> text@[j] != ';',
        decreases n - k,
    {
        k = k + 1;
    }
    let part = text.substring_char(0, k);
    proof {
        lemma_parameters_at(text@);
        assert(parameters_at(text@, k as int));
        assert(!part@.contains(';')) by {
            assert forall|j: int| 0 <= j < part@.len() implies part@[j] != ';' by {
                assert(part@[j] == text@[j]);
            }
        }
    }
    part
}

/// The format `serde_stream_formats::DecodeFormat::from_content_type`
/// resolves a `Content-Type` value to; `None` when the media type is
/// not incrementally decodable.
pub uninterp spec fn content_type_format(content_type: Seq<char>) -> Option<BodyFormat>;

/// Calls `serde_stream_formats::DecodeFormat::from_content_type`. It is
/// a function of the value alone (parameters after `;` ignored,
/// surrounding whitespace trimmed, ASCII case folded); the canonical
/// media types and the `MessagePack` aliases resolve as its source
/// lists them.
#[verifier::external_body]
fn decode_format_for(content_type: &str) -> (r: Option<BodyFormat>)
    ensures
        r == content_type_format(content_type@),
        content_type@ == "application/json"@ ==> r == Some(BodyFormat::Json),
        content_type@ == "application/vnd.msgpack"@ ==> r == Some(BodyFormat::MessagePack),
        content_type@ == "application/msgpack"@ ==> r == Some(BodyFormat::MessagePack),
        content_type@ == "application/x-msgpack"@ ==> r == Some(BodyFormat::MessagePack),
        content_type@ == "application/x-postcard"@ ==> r == Some(BodyFormat::Postcard),
        !content_type@.contains(';') ==> forall|parameters: Seq<char>|
            #[trigger] content_type_format(content_type@ + seq![';'] + parameters) == r,
{
    match DecodeFormat::from_content_type(content_type) {
        Some(DecodeFormat::Json) => Some(BodyFormat::Json),
        Some(DecodeFormat::MessagePack) => Some(BodyFormat::MessagePack),
        Some(DecodeFormat::Postcard) => Some(BodyFormat::Postcard),
        None => None,
    }
}

/// The decode format of a request, from its `Content-Type` header and
/// the format the format layer resolved the header text to
/// (`resolved` is ignored unless the header is text).
///
/// No header decodes as JSON; an opaque header, or text that names no
/// decodable format, is an unsupported media type (HTTP 415) that
/// carries the header text.
pub fn settle_request_format(header: ContentTypeHeader, resolved: Option<BodyFormat>) -> (r: Result<
    BodyFormat,
    BoundaryError,
>)
    ensures
        header is Absent ==> r == Ok::<BodyFormat, BoundaryError>(BodyFormat::Json),
        header is Opaque ==> (r matches Err(BoundaryError::UnsupportedMediaType { content_type })
            && content_type@ == OPAQUE_CONTENT_TYPE@),
        header matches ContentTypeHeader::Text(text) ==> match resolved {
            Some(format) => r == Ok::<BodyFormat, BoundaryError>(format),
            None => (r matches Err(BoundaryError::UnsupportedMediaType { content_type })
                && content_type@ == text@),
        },
{
    match header {
        ContentTypeHeader::Absent => Ok(BodyFormat::Json),
        ContentTypeHeader::Opaque => Err(
            BoundaryError::UnsupportedMediaType { content_type: OPAQUE_CONTENT_TYPE.to_owned() },
        ),
        ContentTypeHeader::Text(text) => match resolved {
            Some(format) => Ok(format),
            None => Err(BoundaryError::UnsupportedMediaType { content_type: text.to_owned() }),
        },
    }
}

/// Resolve a request's decode format from its `Content-Type` header.
///
/// No header decodes as JSON, the documented contract default; an
/// opaque header, or text that names no decodable format, is an
/// unsupported media type (HTTP 415) carrying the header text.
pub fn request_format(header: ContentTypeHeader) -> (r: Result<BodyFormat, BoundaryError>)
    ensures
        header matches ContentTypeHeader::Text(text) ==> {
            &&& text@ == "application/json"@ ==> r == Ok::<BodyFormat, BoundaryError>(
                BodyFormat::Json,
            )
            &&& text@ == "application/vnd.msgpack"@ ==> r == Ok::<BodyFormat, BoundaryError>(
                BodyFormat::MessagePack,
            )
            &&& text@ == "application/msgpack"@ ==> r == Ok::<BodyFormat, BoundaryError>(
                BodyFormat::MessagePack,
            )
            &&& text@ == "application/x-msgpack"@ ==> r == Ok::<BodyFormat, BoundaryError>(
                BodyFormat::MessagePack,
            )
            &&& text@ == "application/x-postcard"@ ==> r == Ok::<BodyFormat, BoundaryError>(
                BodyFormat::Postcard,
            )
        },
        header is Absent ==> r == Ok::<BodyFormat, BoundaryError>(BodyFormat::Json),
        header is Opaque ==> (r matches Err(BoundaryError::UnsupportedMediaType { content_type })
            && content_type@ == OPAQUE_CONTENT_TYPE@),
        header matches ContentTypeHeader::Text(text) ==> match content_type_format(text@) {
            Some(format) => r == Ok::<BodyFormat, BoundaryError>(format),
            None => (r matches Err(BoundaryError::UnsupportedMediaType { content_type })
                && content_type@ == text@),
        },
        header matches ContentTypeHeader::Text(text) ==> match content_type_format(
            before_parameters(text@),
        ) {
            Some(format) => r == Ok::<BodyFormat, BoundaryError>(format),
            None => (r matches Err(BoundaryError::UnsupportedMediaType { content_type })
                && content_type@ == text@),
        },
{
    let resolved = match header {
        ContentTypeHeader::Text(text) => {
            let media_type = media_type_part(text);
            let resolved = decode_format_for(media_type);
            proof {
                let k = choose|k: int| parameters_at(text@, k) && media_type@ == text@.subrange(0, k);
                if k < text@.len() {
                    let rest = text@.subrange(k + 1, text@.len() as int);
                    assert(text@ =~= media_type@ + seq![';'] + rest);
                    assert(content_type_format(media_type@ + seq![';'] + rest) == resolved);
                } else {
                    assert(media_type@ =~= text@);
                }
                reveal_strlit("application/json");
                reveal_strlit("application/vnd.msgpack");
                reveal_strlit("application/msgpack");
                reveal_strlit("application/x-msgpack");
                reveal_strlit("application/x-postcard");
            }
            resolved
        },
        _ => None,
    };
    settle_request_format(header, resolved)
}

} // verus!
