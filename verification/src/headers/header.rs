//! Reading header values out of an `http::HeaderMap`, their text, and a typed
//! header that holds its value as text.
use vstd::prelude::*;
use vstd::utf8::*;

verus! {

/// `http::HeaderValue`, the element type of a header map.
#[verifier::external_type_specification]
#[verifier::external_body]
pub struct ExHeaderValue(http::HeaderValue);

/// `http::HeaderMap`, a multimap from header names to header values.
#[verifier::external_type_specification]
#[verifier::external_body]
#[verifier::reject_recursive_types(T)]
pub struct ExHeaderMap<T>(http::HeaderMap<T>);

/// What a header map holds: for each header name present (as lowercase text), the
/// bytes of its values in the order they were added.
pub uninterp spec fn header_map_contents(headers: http::HeaderMap) -> Map<Seq<char>, Seq<Seq<u8>>>;

/// The bytes held by an optional byte vector.
pub open spec fn opt_bytes(value: Option<Vec<u8>>) -> Option<Seq<u8>> {
    match value {
        Some(v) => Some(v@),
        None => None,
    }
}

/// True when no character of `name` is an ASCII uppercase letter.
pub open spec fn has_no_ascii_uppercase(name: Seq<char>) -> bool {
    forall|i: int| 0 <= i < name.len() ==> !('A' <= #[trigger] name[i] <= 'Z')
}

/// The first value stored under `name`, if the map holds one.
pub open spec fn first_header_value(headers: http::HeaderMap, name: Seq<char>) -> Option<Seq<u8>> {
    let contents = header_map_contents(headers);
    if contents.contains_key(name) && contents[name].len() > 0 {
        Some(contents[name][0])
    } else {
        None
    }
}

/// Calls `http::HeaderMap::get` with a header name given as text, and copies the bytes
/// of the value found. Trusted: the source returns the first value stored under the
/// name (the name is matched as lowercase text, which a lowercase `name` already is).
#[verifier::external_body]
pub fn header_map_get(headers: &http::HeaderMap, name: &str) -> (value: Option<Vec<u8>>)
    requires
        has_no_ascii_uppercase(name@),
    ensures
        opt_bytes(value) == (if header_map_contents(*headers).contains_key(name@)
            && header_map_contents(*headers)[name@].len() > 0 {
            Some(header_map_contents(*headers)[name@][0])
        } else {
            None::<Seq<u8>>
        }),
{
    headers.get(name).map(|v| v.as_bytes().to_vec())
}

/// Calls `std::str::from_utf8`. Trusted: by its documentation it succeeds exactly on
/// valid UTF-8, and the string it gives holds those same bytes.
#[verifier::external_body]
fn utf8_str(bytes: &[u8]) -> (text: Option<&str>)
    ensures
        text is Some <==> valid_utf8(bytes@),
        text matches Some(t) ==> encode_utf8(t@) == bytes@,
{
    std::str::from_utf8(bytes).ok()
}

/// Visible ASCII, as `http::HeaderValue::to_str` accepts it: a tab or `32..=126`.
pub open spec fn is_visible_ascii(b: u8) -> bool {
    (32 <= b && b < 127) || b == 9
}

/// A byte that `http::HeaderValue::from_str` accepts: a tab, or `32..=255` but not `127`.
pub open spec fn is_header_value_byte(b: u8) -> bool {
    (32 <= b && b != 127) || b == 9
}

/// True when every byte of `bytes` is visible ASCII.
pub open spec fn all_visible_ascii(bytes: Seq<u8>) -> bool {
    forall|i: int| 0 <= i < bytes.len() ==> is_visible_ascii(#[trigger] bytes[i])
}

/// True when every byte of `bytes` may stand in a header value.
pub open spec fn all_header_value_bytes(bytes: Seq<u8>) -> bool {
    forall|i: int| 0 <= i < bytes.len() ==> is_header_value_byte(#[trigger] bytes[i])
}

/// The text of a header value: defined when every byte is visible ASCII.
pub open spec fn header_value_text(bytes: Seq<u8>) -> Option<Seq<char>> {
    if all_visible_ascii(bytes) {
        Some(decode_utf8(bytes))
    } else {
        None
    }
}

/// The bytes of the header value made from a text: its UTF-8 encoding, when every
/// byte of that encoding may stand in a header value.
pub open spec fn header_value_from_text(text: Seq<char>) -> Option<Seq<u8>> {
    if all_header_value_bytes(encode_utf8(text)) {
        Some(encode_utf8(text))
    } else {
        None
    }
}

/// Visible ASCII bytes are valid UTF-8.
proof fn lemma_visible_ascii_is_utf8(bytes: Seq<u8>)
    requires
        all_visible_ascii(bytes),
    ensures
        valid_utf8(bytes),
{
    assert(bytes.subrange(0, 0) =~= Seq::<u8>::empty());
    assert(forall|i: int|
        0 <= 0 <= i < bytes.len() <= bytes.len() ==> #[trigger] is_leading_byte_width_1(bytes[i]));
    partial_valid_utf8_extend_ascii_block(bytes, 0, bytes.len() as int);
    assert(bytes.subrange(0, bytes.len() as int) =~= bytes);
}

/// The text of a header value's bytes, as `http::HeaderValue::to_str` gives it: `None`
/// unless every byte is visible ASCII.
pub fn header_value_to_str(bytes: &[u8]) -> (text: Option<String>)
    ensures
        text.deep_view() == header_value_text(bytes@),
{
    let mut i: usize = 0;
    while i < bytes.len()
        invariant
            0 <= i <= bytes@.len(),
            forall|j: int| 0 <= j < i ==> is_visible_ascii(#[trigger] bytes@[j]),
        decreases bytes@.len() - i,
    {
        if !((bytes[i] >= 32 && bytes[i] < 127) || bytes[i] == 9) {
            return None;
        }
        i = i + 1;
    }
    proof { lemma_visible_ascii_is_utf8(bytes@); }
    match utf8_str(bytes) {
        Some(s) => {
            proof { encode_utf8_decode_utf8(s@); }
            Some(String::from_str(s))
        },
        None => None,
    }
}

/// The bytes of the header value made from `text`, as `http::HeaderValue::from_str`
/// builds it: `None` when a byte of the text may not stand in a header value.
pub fn header_value_from_str(text: &str) -> (bytes: Option<Vec<u8>>)
    ensures
        opt_bytes(bytes) == header_value_from_text(text@),
{
    let raw = text.as_bytes();
    let mut i: usize = 0;
    while i < raw.len()
        invariant
            0 <= i <= raw@.len(),
            raw@ == encode_utf8(text@),
            forall|j: int| 0 <= j < i ==> is_header_value_byte(#[trigger] raw@[j]),
        decreases raw@.len() - i,
    {
        if !((raw[i] >= 32 && raw[i] != 127) || raw[i] == 9) {
            return None;
        }
        i = i + 1;
    }
    Some(text.as_bytes_vec())
}

/// A header whose value is held as text, such as a request identifier.
pub struct TextHeader(pub String);

impl TextHeader {
    /// Decodes the header stored under `name`: the text of its first value, or `None`
    /// when the map holds no value there or the value is not visible ASCII.
    pub fn decode(headers: &http::HeaderMap, name: &str) -> (header: Option<TextHeader>)
        requires
            has_no_ascii_uppercase(name@),
        ensures
            match first_header_value(*headers, name@) {
                Some(bytes) => match header_value_text(bytes) {
                    Some(text) => header matches Some(h) && h.0@ == text,
                    None => header is None,
                },
                None => header is None,
            },
    {
        match header_map_get(headers, name) {
            Some(bytes) => match header_value_to_str(bytes.as_slice()) {
                Some(text) => Some(TextHeader(text)),
                None => None,
            },
            None => None,
        }
    }

    /// Encodes the header as the bytes of one header value, or `None` when its text
    /// cannot be a header value (in which case nothing is stored).
    pub fn encode(&self) -> (bytes: Option<Vec<u8>>)
        ensures
            opt_bytes(bytes) == header_value_from_text(self.0@),
    {
        header_value_from_str(self.0.as_str())
    }
}

/// A text whose UTF-8 bytes are all visible ASCII becomes a header value that
/// decodes back to the same text.
pub proof fn lemma_text_encode_decode(text: Seq<char>)
    requires
        all_visible_ascii(encode_utf8(text)),
    ensures
        header_value_from_text(text) == Some(encode_utf8(text)),
        header_value_text(encode_utf8(text)) == Some(text),
{
    encode_utf8_decode_utf8(text);
    let bytes = encode_utf8(text);
    assert forall|i: int| 0 <= i < bytes.len() implies is_header_value_byte(#[trigger] bytes[i]) by {
        assert(is_visible_ascii(bytes[i]));
    }
}

/// A header value that has a text is rebuilt, byte for byte, from that text.
pub proof fn lemma_value_decode_encode(bytes: Seq<u8>)
    requires
        header_value_text(bytes) is Some,
    ensures
        header_value_from_text(header_value_text(bytes)->0) == Some(bytes),
{
    lemma_visible_ascii_is_utf8(bytes);
    decode_utf8_encode_utf8(bytes);
    assert forall|i: int| 0 <= i < bytes.len() implies is_header_value_byte(#[trigger] bytes[i]) by {
        assert(is_visible_ascii(bytes[i]));
    }
}

/// Every byte sequence made only of tabs and bytes `0x20..=0x7E` has a text: its
/// ASCII decoding, one character per byte.
pub proof fn lemma_visible_ascii_text(bytes: Seq<u8>)
    requires
        forall|i: int| 0 <= i < bytes.len() ==> #[trigger] bytes[i] == 9 || (0x20 <= bytes[i] <= 0x7e),
    ensures
        header_value_text(bytes) == Some(Seq::new(bytes.len(), |i: int| bytes[i] as char)),
{
    let chars = Seq::new(bytes.len(), |i: int| bytes[i] as char);
    assert forall|i: int| 0 <= i < chars.len() implies '\0' <= #[trigger] chars[i] <= '\u{7f}' by {
        assert(bytes[i] == 9 || (0x20 <= bytes[i] <= 0x7e));
    }
    assert(is_ascii_chars(chars));
    is_ascii_chars_encode_utf8(chars);
    assert(encode_utf8(chars) =~= bytes) by {
        assert forall|i: int| 0 <= i < bytes.len() implies encode_utf8(chars)[i] == bytes[i] by {
            assert(chars[i] as u8 == encode_utf8(chars)[i]);
            assert(bytes[i] == 9 || (0x20 <= bytes[i] <= 0x7e));
        }
    }
    encode_utf8_decode_utf8(chars);
    assert forall|i: int| 0 <= i < bytes.len() implies is_visible_ascii(#[trigger] bytes[i]) by {
        assert(bytes[i] == 9 || (0x20 <= bytes[i] <= 0x7e));
    }
}

/// A header value with a byte that is neither a tab nor in `0x20..=0x7E` has no text.
pub proof fn lemma_other_byte_has_no_text(bytes: Seq<u8>, i: int)
    requires
        0 <= i < bytes.len(),
        !(bytes[i] == 9 || (0x20 <= bytes[i] <= 0x7e)),
    ensures
        header_value_text(bytes) is None,
{
    assert(!is_visible_ascii(bytes[i]));
}

} // verus!
