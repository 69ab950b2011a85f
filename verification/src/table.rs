//! The application's declared response representations and the result
//! of negotiating one.
use vstd::prelude::*;
use vstd::string::StringSliceAdditionalSpecFns;

use crate::error::BoundaryError;
use crate::format::WireFormat;
use crate::media::MediaType;

verus! {

/// How the typed result is represented on the wire.
#[derive(Debug, Clone, Copy, PartialEq, Eq)]
pub enum ResponseMode {
    /// The payload DTO alone — the low-ceremony default.
    Payload,
    /// The payload wrapped in [`crate::ResponseEnvelope`] with
    /// operation metadata.
    Envelope,
}

/// What a representation, or a settled negotiation, renders with:
/// success media type, format and mode, and the error format and
/// media type.
pub struct RenderingView {
    pub media_type: Seq<char>,
    pub format: WireFormat,
    pub mode: ResponseMode,
    pub error_format: WireFormat,
    pub error_media_type: Seq<char>,
}

/// One declared response representation: the media type `Accept`
/// selects (and the success `Content-Type` stamp), the streaming
/// format that renders it, the payload/envelope mode, and how errors
/// render when this representation is negotiated.
#[derive(Debug, Clone, PartialEq, Eq)]
pub struct ResponseRepresentation {
    media_type: MediaType,
    format: WireFormat,
    mode: ResponseMode,
    error_format: WireFormat,
    error_media_type: MediaType,
}

impl View for ResponseRepresentation {
    type V = RenderingView;

    closed spec fn view(&self) -> RenderingView {
        RenderingView {
            media_type: self.media_type@,
            format: self.format,
            mode: self.mode,
            error_format: self.error_format,
            error_media_type: self.error_media_type@,
        }
    }
}

/// The media type `application/json`.
pub const JSON_MEDIA_TYPE: &'static str = "application/json";

/// The default error rendering: a JSON error envelope.
pub fn default_error_media_type() -> (r: MediaType)
    ensures
        r@ == JSON_MEDIA_TYPE@,
{
    let value = JSON_MEDIA_TYPE;
    proof {
        reveal_strlit("application/json");
        vstd::string::is_ascii_spec_bytes(value);
        let b = value.spec_bytes();
        assert(b.len() == 16);
        assert(b[11] == 0x2f);
        assert forall|i: int| 0 <= i < 16 && i != 11 implies b[i] != 0x2f
            && crate::media::is_token_byte(b[i]) by {}
        assert(!crate::media::has_two_slashes(b));
        assert(!crate::media::has_foreign_byte(b));
    }
    match MediaType::try_new(value) {
        Ok(media_type) => media_type,
        Err(_) => vstd::pervasive::unreached(),
    }
}

impl ResponseRepresentation {
    /// Declare a representation. Errors default to a JSON error
    /// envelope stamped `application/json`; override with
    /// [`ResponseRepresentation::errors_as`].
    pub fn new(media_type: MediaType, format: WireFormat, mode: ResponseMode) -> (r: Self)
        ensures
            r@ == (RenderingView {
                media_type: media_type@,
                format,
                mode,
                error_format: WireFormat::Json,
                error_media_type: JSON_MEDIA_TYPE@,
            }),
    {
        ResponseRepresentation {
            media_type,
            format,
            mode,
            error_format: WireFormat::Json,
            error_media_type: default_error_media_type(),
        }
    }

    /// Render errors negotiated through this representation with
    /// `format`, stamped as `media_type` (e.g. a vendor
    /// `…envelope+yaml` type for a YAML representation).
    pub fn errors_as(self, format: WireFormat, media_type: MediaType) -> (r: Self)
        ensures
            r@ == (RenderingView { error_format: format, error_media_type: media_type@, ..self@ }),
    {
        let mut entry = self;
        entry.error_format = format;
        entry.error_media_type = media_type;
        entry
    }

    /// The media type `Accept` matches and success responses stamp.
    pub fn media_type(&self) -> (r: &MediaType)
        ensures
            r@ == self@.media_type,
    {
        &self.media_type
    }
}

/// Why a response table was rejected at construction.
#[derive(Debug, Clone, PartialEq, Eq)]
pub struct InvalidResponseTable {
    reason: String,
}

impl View for InvalidResponseTable {
    type V = Seq<char>;

    closed spec fn view(&self) -> Seq<char> {
        self.reason@
    }
}

pub const TABLE_EMPTY_REASON: &'static str = "a table needs at least one representation";

pub const TABLE_DUPLICATE_REASON: &'static str = "duplicate media type ";

pub const TABLE_MESSAGE_PREFIX: &'static str = "invalid response table: ";

impl InvalidResponseTable {
    /// Why the table was rejected.
    pub fn reason(&self) -> (r: &str)
        ensures
            r@ == self@,
    {
        self.reason.as_str()
    }

    /// The human-readable explanation: `invalid response table: ` and
    /// the reason.
    pub fn message(&self) -> (r: String)
        ensures
            r@ == TABLE_MESSAGE_PREFIX@ + self@,
    {
        TABLE_MESSAGE_PREFIX.to_owned().concat(self.reason.as_str())
    }
}

/// Whether entry `j` of `entries` repeats the media type of an earlier
/// entry.
pub open spec fn repeats_earlier(entries: Seq<RenderingView>, j: int) -> bool {
    exists|i: int| 0 <= i < j && entries[i].media_type == entries[j].media_type
}

/// Whether the entries declare every media type at most once.
pub open spec fn distinct_media_types(entries: Seq<RenderingView>) -> bool {
    forall|j: int| 0 <= j < entries.len() ==> !repeats_earlier(entries, j)
}

/// Whether `j` is the first entry that repeats an earlier media type.
pub open spec fn first_repeat(entries: Seq<RenderingView>, j: int) -> bool {
    &&& 0 <= j < entries.len()
    &&& repeats_earlier(entries, j)
    &&& forall|k: int| 0 <= k < j ==> !repeats_earlier(entries, k)
}

/// Entries have distinct media types exactly when no two entries, at
/// any two positions, declare the same media type; the first repeat is
/// an entry whose media type some earlier entry declares, with no such
/// clash among the entries before it.
pub proof fn lemma_distinct_is_pairwise(entries: Seq<RenderingView>, j: int)
    ensures
        distinct_media_types(entries) <==> forall|a: int, b: int|
            0 <= a < b < entries.len() ==> entries[a].media_type != entries[b].media_type,
        first_repeat(entries, j) ==> {
            &&& exists|a: int| 0 <= a < j && entries[a].media_type == entries[j].media_type
            &&& forall|a: int, b: int|
                0 <= a < b < j ==> entries[a].media_type != entries[b].media_type
        },
{
    if distinct_media_types(entries) {
        assert forall|a: int, b: int| 0 <= a < b < entries.len() implies entries[a].media_type
            != entries[b].media_type by {
            assert(!repeats_earlier(entries, b));
        }
    }
    if first_repeat(entries, j) {
        assert forall|a: int, b: int| 0 <= a < b < j implies entries[a].media_type
            != entries[b].media_type by {
            assert(!repeats_earlier(entries, b));
        }
    }
}

/// The views of a list of representations.
pub open spec fn views_of(entries: Seq<ResponseRepresentation>) -> Seq<RenderingView> {
    entries.map_values(|entry: ResponseRepresentation| entry@)
}

/// The application's response representations in server preference
/// order. The first entry is the contract default: it serves absent
/// and empty `Accept` headers, and wildcard ranges resolve to it.
#[derive(Debug, PartialEq, Eq)]
pub struct ResponseTable {
    // Bounded: an application's representation table is a small,
    // fixed declaration.
    representations: Vec<ResponseRepresentation>,
}

impl View for ResponseTable {
    type V = Seq<RenderingView>;

    closed spec fn view(&self) -> Seq<RenderingView> {
        views_of(self.representations@)
    }
}

/// Whether two media types are the same media type.
#[verifier::loop_isolation(false)]
fn same_media_type(a: &MediaType, b: &MediaType) -> (r: bool)
    ensures
        r == (a@ == b@),
{
    let x = a.as_str().as_bytes();
    let y = b.as_str().as_bytes();
    proof {
        vstd::utf8::encode_utf8_decode_utf8(a@);
        vstd::utf8::encode_utf8_decode_utf8(b@);
    }
    if x.len() != y.len() {
        return false;
    }
    let mut i: usize = 0;
    while i < x.len()
        invariant
            x@.len() == y@.len(),
            i <= x@.len(),
            forall|k: int| 0 <= k < i ==> x@[k] == y@[k],
        decreases x@.len() - i,
    {
        if x[i] != y[i] {
            return false;
        }
        i = i + 1;
    }
    assert(x@ =~= y@);
    true
}

impl ResponseRepresentation {
    /// A copy of this entry.
    fn copy(&self) -> (r: Self)
        ensures
            r@ == self@,
    {
        ResponseRepresentation {
            media_type: self.media_type,
            format: self.format,
            mode: self.mode,
            error_format: self.error_format,
            error_media_type: self.error_media_type,
        }
    }
}

impl Clone for ResponseTable {
    /// A table with the same representations in the same order.
    fn clone(&self) -> (r: Self)
        ensures
            r@ == self@,
    {
        proof {
            use_type_invariant(self);
        }
        let n = self.representations.len();
        let mut copies: Vec<ResponseRepresentation> = Vec::new();
        let mut i: usize = 0;
        while i < n
            invariant
                n == self.representations@.len(),
                i <= n,
                copies@.len() == i,
                forall|k: int| 0 <= k < i ==> #[trigger] copies@[k]@ == self.representations@[k]@,
            decreases n - i,
        {
            copies.push(self.representations[i].copy());
            i = i + 1;
        }
        assert(views_of(copies@) =~= views_of(self.representations@));
        ResponseTable { representations: copies }
    }
}

impl ResponseTable {
    #[verifier::type_invariant]
    spec fn well_formed(self) -> bool {
        &&& self.representations@.len() > 0
        &&& distinct_media_types(views_of(self.representations@))
    }

    /// Validate and build a table.
    ///
    /// Fails when the table is empty or declares the same media type
    /// twice; the reason names the first entry that repeats an earlier
    /// media type.
    pub fn try_new(representations: Vec<ResponseRepresentation>) -> (r: Result<
        Self,
        InvalidResponseTable,
    >)
        ensures
            r is Ok <==> representations@.len() > 0 && distinct_media_types(
                views_of(representations@),
            ),
            r matches Ok(table) ==> table@ == views_of(representations@),
            r is Ok ==> forall|a: int, b: int|
                0 <= a < b < representations@.len() ==> representations@[a]@.media_type
                    != representations@[b]@.media_type,
            representations@.len() == 0 ==> (r matches Err(e) && e@ == TABLE_EMPTY_REASON@),
            representations@.len() > 0 && !distinct_media_types(views_of(representations@))
                ==> (r matches Err(e) && exists|j: int|
                first_repeat(views_of(representations@), j) && e@ == TABLE_DUPLICATE_REASON@
                    + views_of(representations@)[j].media_type),
    {
        let ghost entries = views_of(representations@);
        if representations.len() == 0 {
            return Err(InvalidResponseTable { reason: TABLE_EMPTY_REASON.to_owned() });
        }
        let n = representations.len();
        let mut index: usize = 0;
        while index < n
            invariant
                n == representations@.len(),
                entries == views_of(representations@),
                index <= n,
                forall|k: int| 0 <= k < index ==> !repeats_earlier(entries, k),
            decreases n - index,
        {
            let mut earlier: usize = 0;
            while earlier < index
                invariant
                    n == representations@.len(),
                    entries == views_of(representations@),
                    index < n,
                    earlier <= index,
                    forall|k: int| 0 <= k < index ==> !repeats_earlier(entries, k),
                    forall|i: int| 0 <= i < earlier ==> entries[i].media_type
                        != entries[index as int].media_type,
                decreases index - earlier,
            {
                if same_media_type(
                    &representations[earlier].media_type,
                    &representations[index].media_type,
                ) {
                    let duplicate = representations[index].media_type.as_str();
                    assert(entries[earlier as int] == representations@[earlier as int]@);
                    assert(entries[index as int] == representations@[index as int]@);
                    assert(repeats_earlier(entries, index as int));
                    assert(first_repeat(entries, index as int));
                    return Err(
                        InvalidResponseTable {
                            reason: TABLE_DUPLICATE_REASON.to_owned().concat(duplicate),
                        },
                    );
                }
                proof {
                    assert(entries[earlier as int] == representations@[earlier as int]@);
                    assert(entries[index as int] == representations@[index as int]@);
                }
                earlier = earlier + 1;
            }
            index = index + 1;
        }
        proof {
            lemma_distinct_is_pairwise(entries, 0);
            assert forall|a: int, b: int| 0 <= a < b < representations@.len() implies representations@[a]@.media_type
                != representations@[b]@.media_type by {
                assert(entries[a] == representations@[a]@);
                assert(entries[b] == representations@[b]@);
            }
        }
        Ok(ResponseTable { representations })
    }
}

/// What the negotiation layer made of an `Accept` header against the
/// table's media types (see [`ResponseTable::media_types`]).
#[derive(Debug, Clone, Copy, PartialEq, Eq)]
pub enum AcceptMatch {
    /// The header is not a valid `Accept` list.
    Malformed,
    /// The header holds no media range.
    Unconstrained,
    /// The best entry, by its position in the table.
    Selected(usize),
    /// No entry satisfies the header.
    Unmatched,
}

/// The text of an optional header value.
pub open spec fn header_view(header: Option<&str>) -> Option<Seq<char>> {
    match header {
        Some(text) => Some(text@),
        None => None,
    }
}

/// The entry a negotiation settles on, by position in the table, or
/// `None` when the request is not acceptable.
pub open spec fn settled_entry(len: nat, accept: Option<Seq<char>>, verdict: AcceptMatch) -> Option<
    int,
> {
    match accept {
        None => Some(0),
        Some(_) => match verdict {
            AcceptMatch::Malformed => None,
            AcceptMatch::Unconstrained => Some(0),
            AcceptMatch::Selected(index) => if index < len {
                Some(index as int)
            } else {
                None
            },
            AcceptMatch::Unmatched => None,
        },
    }
}

/// Negotiation only ever settles on a declared entry, and an absent
/// header and a header holding no media range both settle on the
/// table's first entry, the contract default.
pub proof fn lemma_negotiation_settles_in_table(
    len: nat,
    accept: Option<Seq<char>>,
    verdict: AcceptMatch,
    header: Seq<char>,
)
    requires
        len > 0,
    ensures
        settled_entry(len, accept, verdict) matches Some(index) ==> 0 <= index < len,
        settled_entry(len, None, verdict) == Some(0int),
        settled_entry(len, Some(header), AcceptMatch::Unconstrained) == Some(0int),
        settled_entry(len, Some(header), AcceptMatch::Malformed) is None,
        settled_entry(len, Some(header), AcceptMatch::Unmatched) is None,
{
}

/// A header present with the layer's selection of entry `index`
/// settles on exactly that entry when the table has it, whatever the
/// header's text, and is not acceptable when it does not.
pub proof fn lemma_negotiation_follows_selection(len: nat, header: Seq<char>, index: usize)
    ensures
        index < len ==> settled_entry(len, Some(header), AcceptMatch::Selected(index)) == Some(
            index as int,
        ),
        index >= len ==> settled_entry(len, Some(header), AcceptMatch::Selected(index)) is None,
{
}

/// The settled outcome of negotiation: everything response rendering
/// needs, detached from the table.
#[derive(Debug, Clone, PartialEq, Eq)]
pub struct Negotiated {
    format: WireFormat,
    mode: ResponseMode,
    content_type: MediaType,
    error_format: WireFormat,
    error_media_type: MediaType,
}

impl View for Negotiated {
    type V = RenderingView;

    closed spec fn view(&self) -> RenderingView {
        RenderingView {
            media_type: self.content_type@,
            format: self.format,
            mode: self.mode,
            error_format: self.error_format,
            error_media_type: self.error_media_type@,
        }
    }
}

impl Negotiated {
    /// Settle on `entry`: its success rendering and its error policy.
    pub fn from_representation(entry: &ResponseRepresentation) -> (r: Self)
        ensures
            r@ == entry@,
    {
        Negotiated::from(entry)
    }

    /// The negotiated streaming format.
    pub fn format(&self) -> (r: WireFormat)
        ensures
            r == self@.format,
    {
        self.format
    }

    /// The negotiated payload/envelope mode.
    pub fn mode(&self) -> (r: ResponseMode)
        ensures
            r == self@.mode,
    {
        self.mode
    }

    /// The `Content-Type` of a success response in this negotiation.
    pub fn content_type(&self) -> (r: &MediaType)
        ensures
            r@ == self@.media_type,
    {
        &self.content_type
    }

    /// The format errors render in under this negotiation.
    pub fn error_format(&self) -> (r: WireFormat)
        ensures
            r == self@.error_format,
    {
        self.error_format
    }

    /// The `Content-Type` errors are stamped with under this
    /// negotiation.
    pub fn error_media_type(&self) -> (r: &MediaType)
        ensures
            r@ == self@.error_media_type,
    {
        &self.error_media_type
    }
}

impl<'a> From<&'a ResponseRepresentation> for Negotiated {
    fn from(entry: &'a ResponseRepresentation) -> (r: Self)
        ensures
            r@ == entry@,
    {
        Negotiated {
            format: entry.format,
            mode: entry.mode,
            content_type: entry.media_type,
            error_format: entry.error_format,
            error_media_type: entry.error_media_type,
        }
    }
}

impl<'a> vstd::std_specs::convert::FromSpecImpl<&'a ResponseRepresentation> for Negotiated {
    open spec fn obeys_from_spec() -> bool {
        true
    }

    closed spec fn from_spec(entry: &'a ResponseRepresentation) -> Self {
        Negotiated {
            format: entry.format,
            mode: entry.mode,
            content_type: entry.media_type,
            error_format: entry.error_format,
            error_media_type: entry.error_media_type,
        }
    }
}

impl ResponseTable {
    /// The declared media types, in server preference order: the
    /// candidates the negotiation layer ranks an `Accept` header
    /// against.
    pub fn media_types(&self) -> (r: Vec<&'static str>)
        ensures
            r@.len() == self@.len(),
            forall|i: int| 0 <= i < r@.len() ==> #[trigger] r@[i]@ == self@[i].media_type,
    {
        let n = self.representations.len();
        let mut types: Vec<&'static str> = Vec::new();
        let mut i: usize = 0;
        while i < n
            invariant
                n == self.representations@.len(),
                self@ == views_of(self.representations@),
                i <= n,
                types@.len() == i,
                forall|k: int| 0 <= k < i ==> #[trigger] types@[k]@ == self@[k].media_type,
            decreases n - i,
        {
            types.push(self.representations[i].media_type.as_str());
            i = i + 1;
        }
        types
    }

    /// Negotiate a representation from an `Accept` header value and
    /// what the negotiation layer made of it against
    /// [`ResponseTable::media_types`].
    ///
    /// An absent header, or one containing no media range, selects the
    /// table's first entry; a malformed header, one that matches no
    /// entry, or a selection outside the table is not acceptable
    /// (HTTP 406) and the error carries the header.
    pub fn negotiate(&self, accept: Option<&str>, verdict: AcceptMatch) -> (r: Result<
        Negotiated,
        BoundaryError,
    >)
        ensures
            accept is Some && verdict is Selected && verdict->0 < self@.len() ==> (r matches Ok(n)
                && n@ == self@[verdict->0 as int]),
            match settled_entry(self@.len(), header_view(accept), verdict) {
                Some(index) => r matches Ok(n) && n@ == self@[index],
                None => r matches Err(BoundaryError::NotAcceptable { accept: a }) && header_view(accept) == Some(a@),
            },
    {
        proof {
            use_type_invariant(self);
        }
        let index = match accept {
            None => 0,
            Some(header) => match verdict {
                AcceptMatch::Malformed => {
                    return Err(BoundaryError::NotAcceptable { accept: header.to_owned() });
                },
                AcceptMatch::Unconstrained => 0,
                AcceptMatch::Selected(index) => {
                    if index < self.representations.len() {
                        index
                    } else {
                        return Err(BoundaryError::NotAcceptable { accept: header.to_owned() });
                    }
                },
                AcceptMatch::Unmatched => {
                    return Err(BoundaryError::NotAcceptable { accept: header.to_owned() });
                },
            },
        };
        assert(self@[index as int] == self.representations@[index as int]@);
        Ok(Negotiated::from_representation(&self.representations[index]))
    }
}

} // verus!
