//! Status codes written as JSON strings, as the JSON:API specification asks,
//! rather than as numbers.
use vstd::prelude::*;
use vstd::utf8::*;

use crate::status::{
    is_status_code, lemma_parsed_text_is_status_code_text, lemma_status_code_text_parses_back, status_code_chars, status_code_from_bytes,
    status_code_of_bytes, status_code_text,
};

verus! {

/// The string that a status code is written as: its three decimal digits.
pub fn serialize(status: u16) -> (text: String)
    requires
        is_status_code(status as int),
    ensures
        text@ == status_code_chars(status),
{
    status_code_text(status)
}

/// The status code that a string denotes, if it is three ASCII digits not starting
/// with `0`; `None` for any other string.
pub fn deserialize(text: &str) -> (status: Option<u16>)
    ensures
        status == status_code_of_bytes(encode_utf8(text@)),
{
    status_code_from_bytes(text.as_bytes())
}

/// A status code written by `serialize` is read back unchanged by `deserialize`.
pub proof fn lemma_serialize_deserialize(status: u16)
    requires
        is_status_code(status as int),
    ensures
        status_code_of_bytes(encode_utf8(status_code_chars(status))) == Some(status),
{
    lemma_status_code_text_parses_back(status);
}

/// A string that `deserialize` accepts denotes a valid status code, and is exactly
/// the string `serialize` writes for it.
pub proof fn lemma_deserialize_serialize(text: Seq<char>)
    requires
        status_code_of_bytes(encode_utf8(text)) is Some,
    ensures
        is_status_code(status_code_of_bytes(encode_utf8(text))->0 as int),
        status_code_chars(status_code_of_bytes(encode_utf8(text))->0) == text,
{
    lemma_parsed_text_is_status_code_text(text);
}

} // verus!
