//! A validated media type.
use vstd::prelude::*;
use vstd::string::StringSliceAdditionalSpecFns;

verus! {

/// The byte `/`.
pub const SLASH: u8 = 0x2f;

/// Whether `b` is an HTTP token character (RFC 9110 §5.6.2): an ASCII
/// letter or digit, or one of ``!#$%&'*+-.^_`|~``.
pub open spec fn is_token_byte(b: u8) -> bool {
    ||| 0x30 <= b <= 0x39
    ||| 0x41 <= b <= 0x5a
    ||| 0x61 <= b <= 0x7a
    ||| b == 0x21 || b == 0x23 || b == 0x24 || b == 0x25 || b == 0x26 || b == 0x27
    ||| b == 0x2a || b == 0x2b || b == 0x2d || b == 0x2e || b == 0x5e || b == 0x5f
    ||| b == 0x60 || b == 0x7c || b == 0x7e
}

/// Whether `b` holds a `/` anywhere.
pub open spec fn has_slash(b: Seq<u8>) -> bool {
    exists|k: int| 0 <= k < b.len() && b[k] == SLASH
}

/// Whether `b` holds two or more `/`.
pub open spec fn has_two_slashes(b: Seq<u8>) -> bool {
    exists|i: int, j: int| 0 <= i < j < b.len() && b[i] == SLASH && b[j] == SLASH
}

/// Whether some byte of `b` other than `/` is not a token character.
pub open spec fn has_foreign_byte(b: Seq<u8>) -> bool {
    exists|i: int| 0 <= i < b.len() && b[i] != SLASH && !is_token_byte(b[i])
}

/// Why the bytes `b` are not a media type, in the order the checks run;
/// `None` when they are one.
pub open spec fn media_type_rejection(b: Seq<u8>) -> Option<Seq<char>> {
    if b.len() == 0 {
        Some(REASON_EMPTY@)
    } else if b.len() > 255 {
        Some(REASON_TOO_LONG@)
    } else if !has_slash(b) {
        Some(REASON_NO_SLASH@)
    } else if b[0] == SLASH || b[b.len() - 1] == SLASH || has_two_slashes(b) {
        Some(REASON_SEGMENTS@)
    } else if has_foreign_byte(b) {
        Some(REASON_TOKEN@)
    } else {
        None
    }
}

/// Whether the bytes `b` are a valid `type/subtype` media type: 1–255
/// bytes, exactly one `/` separating two non-empty segments of HTTP
/// token characters.
pub open spec fn is_media_type(b: Seq<u8>) -> bool {
    media_type_rejection(b) is None
}

/// The punctuation HTTP allows in a token (RFC 9110 §5.6.2 `tchar`),
/// besides ASCII letters and digits.
pub const TOKEN_PUNCTUATION: &'static str = "!#$%&'*+-.^_`|~";

/// The token characters are exactly the ASCII letters, the ASCII
/// digits and the punctuation of [`TOKEN_PUNCTUATION`]; in particular
/// no separator (`(),/:;<=>?@[\]{}"`), no space, no control byte and no
/// byte of a multi-byte UTF-8 sequence is one.
pub proof fn lemma_token_bytes(b: u8)
    ensures
        is_token_byte(b) <==> ('0' <= (b as char) <= '9' || 'a' <= (b as char) <= 'z' || 'A' <= (
        b as char) <= 'Z' || TOKEN_PUNCTUATION@.contains(b as char)),
        is_token_byte(b) ==> 0x21 <= b <= 0x7e,
        !is_token_byte(0x28) && !is_token_byte(0x29) && !is_token_byte(0x2c) && !is_token_byte(
            0x2f,
        ) && !is_token_byte(0x3a) && !is_token_byte(0x3b) && !is_token_byte(0x3c)
            && !is_token_byte(0x3d) && !is_token_byte(0x3e) && !is_token_byte(0x3f)
            && !is_token_byte(0x40) && !is_token_byte(0x5b) && !is_token_byte(0x5c)
            && !is_token_byte(0x5d) && !is_token_byte(0x7b) && !is_token_byte(0x7d)
            && !is_token_byte(0x22) && !is_token_byte(0x20),
{
    reveal_strlit("!#$%&'*+-.^_`|~");
    let p = TOKEN_PUNCTUATION@;
    if TOKEN_PUNCTUATION@.contains(b as char) {
        let i = choose|i: int| 0 <= i < p.len() && p[i] == b as char;
        assert(is_token_byte(b));
    }
    if is_token_byte(b) && !('0' <= (b as char) <= '9' || 'a' <= (b as char) <= 'z' || 'A' <= (
    b as char) <= 'Z') {
        if b == 0x21 { assert(p[0] == b as char); }
        else if b == 0x23 { assert(p[1] == b as char); }
        else if b == 0x24 { assert(p[2] == b as char); }
        else if b == 0x25 { assert(p[3] == b as char); }
        else if b == 0x26 { assert(p[4] == b as char); }
        else if b == 0x27 { assert(p[5] == b as char); }
        else if b == 0x2a { assert(p[6] == b as char); }
        else if b == 0x2b { assert(p[7] == b as char); }
        else if b == 0x2d { assert(p[8] == b as char); }
        else if b == 0x2e { assert(p[9] == b as char); }
        else if b == 0x5e { assert(p[10] == b as char); }
        else if b == 0x5f { assert(p[11] == b as char); }
        else if b == 0x60 { assert(p[12] == b as char); }
        else if b == 0x7c { assert(p[13] == b as char); }
        else { assert(p[14] == b as char); }
    }
}

/// A valid media type is 1–255 bytes holding exactly one `/`, neither
/// first nor last, and every other byte — the last one included — is a
/// token character.
pub proof fn lemma_media_type_shape(b: Seq<u8>)
    ensures
        is_media_type(b) <==> {
            &&& 1 <= b.len() <= 255
            &&& exists|k: int|
                0 < k < b.len() - 1 && b[k] == SLASH && forall|i: int|
                    0 <= i < b.len() && i != k ==> #[trigger] is_token_byte(b[i])
        },
{
    if is_media_type(b) {
        let k = choose|k: int| 0 <= k < b.len() && b[k] == SLASH;
        assert forall|i: int| 0 <= i < b.len() && i != k implies #[trigger] is_token_byte(b[i]) by {
            if b[i] == SLASH {
                if i < k {
                    assert(has_two_slashes(b));
                } else {
                    assert(has_two_slashes(b));
                }
            }
        }
    }
    if 1 <= b.len() <= 255 && exists|k: int|
        0 < k < b.len() - 1 && b[k] == SLASH && forall|i: int|
            0 <= i < b.len() && i != k ==> #[trigger] is_token_byte(b[i]) {
        let k = choose|k: int|
            0 < k < b.len() - 1 && b[k] == SLASH && forall|i: int|
                0 <= i < b.len() && i != k ==> #[trigger] is_token_byte(b[i]);
        assert(is_token_byte(b[0]));
        assert(is_token_byte(b[b.len() - 1]));
        assert(has_slash(b));
        assert(!has_two_slashes(b)) by {
            assert forall|i: int, j: int| 0 <= i < j < b.len() && b[i] == SLASH implies b[j]
                != SLASH by {
                if i != k {
                    assert(is_token_byte(b[i]));
                } else {
                    assert(is_token_byte(b[j]));
                }
            }
        }
        assert(!has_foreign_byte(b)) by {
            assert forall|i: int| 0 <= i < b.len() && b[i] != SLASH implies is_token_byte(b[i]) by {
                if i == k {
                } else {
                    assert(is_token_byte(b[i]));
                }
            }
        }
    }
}

pub const REASON_EMPTY: &'static str = "must not be empty";

pub const REASON_TOO_LONG: &'static str = "longer than 255 bytes";

pub const REASON_NO_SLASH: &'static str = "must be type/subtype";

pub const REASON_SEGMENTS: &'static str = "must be exactly two non-empty segments";

pub const REASON_TOKEN: &'static str = "segments must be HTTP token characters";

/// Why a media type was rejected.
#[derive(Debug, Clone, PartialEq, Eq)]
pub struct InvalidMediaType {
    reason: &'static str,
    value: String,
}

impl View for InvalidMediaType {
    /// The reason and the rejected value.
    type V = (Seq<char>, Seq<char>);

    closed spec fn view(&self) -> (Seq<char>, Seq<char>) {
        (self.reason@, self.value@)
    }
}

impl InvalidMediaType {
    /// Why the value was rejected.
    pub fn reason(&self) -> (r: &'static str)
        ensures
            r@ == self@.0,
    {
        self.reason
    }

    /// The rejected value.
    pub fn value(&self) -> (r: &str)
        ensures
            r@ == self@.1,
    {
        self.value.as_str()
    }

    /// The human-readable explanation: `invalid media type: `, the
    /// reason, and the value quoted as `Debug` writes a string.
    pub fn message(&self) -> (r: String)
        ensures
            r@ == INVALID_PREFIX@ + self@.0 + INVALID_OPEN@ + debug_quoted(self@.1) + INVALID_CLOSE@,
    {
        INVALID_PREFIX.to_owned().concat(self.reason).concat(INVALID_OPEN).concat(
            quoted(self.value.as_str()).as_str(),
        ).concat(INVALID_CLOSE)
    }
}

pub const INVALID_PREFIX: &'static str = "invalid media type: ";

pub const INVALID_OPEN: &'static str = " (";

pub const INVALID_CLOSE: &'static str = ")";

/// The text that `str`'s `Debug` implementation writes for a string:
/// the string in double quotes, with quotes, backslashes and
/// non-printable characters escaped.
pub uninterp spec fn debug_quoted(s: Seq<char>) -> Seq<char>;

/// Calls `<str as Debug>::fmt` through `format!`. Its output is a
/// function of the string alone; what the escapes are is left unsaid.
#[verifier::external_body]
fn quoted(s: &str) -> (r: String)
    ensures
        r@ == debug_quoted(s@),
{
    format!("{s:?}")
}

/// A validated `type/subtype` media type, as stamped into
/// `Content-Type` headers and matched against `Accept`.
///
/// Limits: 1–255 bytes, exactly one `/` separating two non-empty
/// segments of HTTP token characters (RFC 9110 §5.6.2). Parameters are
/// not part of a `MediaType`; they belong to header rendering.
#[derive(Debug, Clone, Copy, PartialEq, Eq, Hash)]
pub struct MediaType(&'static str);

impl View for MediaType {
    type V = Seq<char>;

    closed spec fn view(&self) -> Seq<char> {
        self.0@
    }
}

impl MediaType {
    #[verifier::type_invariant]
    spec fn well_formed(self) -> bool {
        is_media_type(self.0.spec_bytes())
    }

    /// Validate and wrap a static media type.
    ///
    /// Representation tables are built once from compile-time
    /// constants, so the value is `'static`; validation still runs so
    /// a malformed constant fails fast at table construction.
    ///
    /// Fails when the value is empty, longer than 255 bytes, has no
    /// single `/`, or contains a non-token character; the reason is
    /// the first of these checks that fails.
    #[verifier::loop_isolation(false)]
    pub fn try_new(value: &'static str) -> (r: Result<Self, InvalidMediaType>)
        ensures
            media_type_rejection(value.spec_bytes()) is None <==> r is Ok,
            r matches Ok(m) ==> m@ == value@,
            r is Ok ==> 1 <= value.spec_bytes().len() <= 255 && forall|i: int|
                0 <= i < value.spec_bytes().len() && value.spec_bytes()[i] != SLASH
                    ==> is_token_byte(#[trigger] value.spec_bytes()[i]),
            r matches Err(e) ==> e@ == (media_type_rejection(value.spec_bytes())->0, value@),
    {
        let bytes = value.as_bytes();
        let n = bytes.len();
        let ghost b = value.spec_bytes();
        if n == 0 {
            return Err(InvalidMediaType { reason: REASON_EMPTY, value: value.to_owned() });
        }
        if n > 255 {
            return Err(InvalidMediaType { reason: REASON_TOO_LONG, value: value.to_owned() });
        }
        let mut k: usize = 0;
        while k < n && bytes[k] != SLASH
            invariant
                n == b.len(),
                bytes@ == b,
                k <= n,
                forall|j: int| 0 <= j < k ==> b[j] != SLASH,
            decreases n - k,
        {
            k = k + 1;
        }
        if k == n {
            return Err(InvalidMediaType { reason: REASON_NO_SLASH, value: value.to_owned() });
        }
        assert(has_slash(b)) by {
            assert(b[k as int] == SLASH);
        }
        if k == 0 || k == n - 1 {
            return Err(InvalidMediaType { reason: REASON_SEGMENTS, value: value.to_owned() });
        }
        let mut j: usize = k + 1;
        while j < n
            invariant
                n == b.len(),
                bytes@ == b,
                0 < k < j <= n,
                b[k as int] == SLASH,
                forall|i: int| 0 <= i < k ==> b[i] != SLASH,
                forall|i: int| k < i < j ==> b[i] != SLASH,
            decreases n - j,
        {
            if bytes[j] == SLASH {
                assert(has_two_slashes(b)) by {
                    assert(0 <= k < j < b.len() && b[k as int] == SLASH && b[j as int] == SLASH);
                }
                return Err(InvalidMediaType { reason: REASON_SEGMENTS, value: value.to_owned() });
            }
            j = j + 1;
        }
        assert(!has_two_slashes(b)) by {
            assert forall|p: int, q: int| 0 <= p < q < b.len() && b[p] == SLASH implies b[q] != SLASH by {
                assert(p >= k);
            }
        }
        let mut i: usize = 0;
        while i < n
            invariant
                n == b.len(),
                bytes@ == b,
                i <= n,
                forall|p: int| 0 <= p < i && b[p] != SLASH ==> is_token_byte(b[p]),
            decreases n - i,
        {
            let c = bytes[i];
            if c != SLASH && !token_byte(c) {
                assert(has_foreign_byte(b)) by {
                    assert(b[i as int] != SLASH && !is_token_byte(b[i as int]));
                }
                assert(b[0] != SLASH);
                assert(b[b.len() - 1] != SLASH);
                return Err(InvalidMediaType { reason: REASON_TOKEN, value: value.to_owned() });
            }
            i = i + 1;
        }
        assert(b[0] != SLASH);
        assert(b[b.len() - 1] != SLASH);
        Ok(MediaType(value))
    }

    /// The validated media type.
    pub fn as_str(&self) -> (r: &'static str)
        ensures
            r@ == self@,
            is_media_type(r.spec_bytes()),
    {
        proof {
            use_type_invariant(self);
        }
        self.0
    }
}

impl AsRef<str> for MediaType {
    fn as_ref(&self) -> (r: &str)
        ensures
            r@ == self@,
    {
        self.0
    }
}

/// Whether `b` is an HTTP token character.
fn token_byte(b: u8) -> (r: bool)
    ensures
        r == is_token_byte(b),
{
    (0x30 <= b && b <= 0x39) || (0x41 <= b && b <= 0x5a) || (0x61 <= b && b <= 0x7a) || b == 0x21
        || b == 0x23 || b == 0x24 || b == 0x25 || b == 0x26 || b == 0x27 || b == 0x2a || b == 0x2b
        || b == 0x2d || b == 0x2e || b == 0x5e || b == 0x5f || b == 0x60 || b == 0x7c || b == 0x7e
}

} // verus!
