//! HTTP status codes as plain `u16` values: their three-digit text, their
//! parsing from bytes, and their canonical reason phrase.
use vstd::prelude::*;
use vstd::utf8::*;

verus! {

/// A status code is valid when it lies in `100..=999`.
pub open spec fn is_status_code(code: int) -> bool {
    100 <= code <= 999
}

/// The character for a decimal digit `0..=9`.
pub open spec fn decimal_digit(d: int) -> char {
    if d == 0 {
        '0'
    } else if d == 1 {
        '1'
    } else if d == 2 {
        '2'
    } else if d == 3 {
        '3'
    } else if d == 4 {
        '4'
    } else if d == 5 {
        '5'
    } else if d == 6 {
        '6'
    } else if d == 7 {
        '7'
    } else if d == 8 {
        '8'
    } else {
        '9'
    }
}

/// The three decimal digits of a status code, most significant first.
pub open spec fn status_code_chars(code: u16) -> Seq<char> {
    seq![
        decimal_digit((code / 100) as int),
        decimal_digit(((code / 10) % 10) as int),
        decimal_digit((code % 10) as int),
    ]
}

/// Status code denoted by three ASCII digits whose first digit is not `0`.
pub open spec fn status_code_of_bytes(bytes: Seq<u8>) -> Option<u16> {
    if bytes.len() == 3 && 49 <= bytes[0] <= 57 && 48 <= bytes[1] <= 57 && 48 <= bytes[2] <= 57 {
        Some(((bytes[0] - 48) * 100 + (bytes[1] - 48) * 10 + (bytes[2] - 48)) as u16)
    } else {
        None
    }
}

/// The reason phrase that `http::StatusCode::canonical_reason` gives for a code.
pub uninterp spec fn canonical_reason_phrase(code: u16) -> Option<Seq<char>>;

/// Calls `http::StatusCode::canonical_reason` on the status code `code`.
/// Trusted: the phrase returned is the one named by `canonical_reason_phrase`, which
/// depends on the code alone (a fixed table in the `http` crate); its text is not stated.
#[verifier::external_body]
pub fn canonical_reason(code: u16) -> (phrase: Option<String>)
    requires
        is_status_code(code as int),
    ensures
        phrase.deep_view() == canonical_reason_phrase(code),
{
    match http::StatusCode::from_u16(code) {
        Ok(status) => status.canonical_reason().map(|p| p.to_string()),
        Err(_) => None,
    }
}

/// Calls `http::StatusCode::from_bytes` and returns the code as a `u16`.
/// Trusted: the source accepts exactly three ASCII digits whose first digit is
/// `1..=9` and returns the number they denote; every other input is an error.
#[verifier::external_body]
pub fn status_code_from_bytes(bytes: &[u8]) -> (code: Option<u16>)
    ensures
        code == status_code_of_bytes(bytes@),
{
    match http::StatusCode::from_bytes(bytes) {
        Ok(status) => Some(status.as_u16()),
        Err(_) => None,
    }
}

/// The text of one decimal digit.
fn digit_text(d: u16) -> (text: &'static str)
    requires
        d <= 9,
    ensures
        text@ == seq![decimal_digit(d as int)],
{
    if d == 0 {
        proof { reveal_strlit("0"); }
        "0"
    } else if d == 1 {
        proof { reveal_strlit("1"); }
        "1"
    } else if d == 2 {
        proof { reveal_strlit("2"); }
        "2"
    } else if d == 3 {
        proof { reveal_strlit("3"); }
        "3"
    } else if d == 4 {
        proof { reveal_strlit("4"); }
        "4"
    } else if d == 5 {
        proof { reveal_strlit("5"); }
        "5"
    } else if d == 6 {
        proof { reveal_strlit("6"); }
        "6"
    } else if d == 7 {
        proof { reveal_strlit("7"); }
        "7"
    } else if d == 8 {
        proof { reveal_strlit("8"); }
        "8"
    } else {
        proof { reveal_strlit("9"); }
        "9"
    }
}

/// The decimal text of a status code, as `u16::to_string` writes it: three digits.
pub fn status_code_text(code: u16) -> (text: String)
    requires
        is_status_code(code as int),
    ensures
        text@ == status_code_chars(code),
{
    let mut text = String::new();
    text.append(digit_text(code / 100));
    text.append(digit_text((code / 10) % 10));
    text.append(digit_text(code % 10));
    text
}

/// Digits are ASCII characters.
proof fn lemma_status_code_chars_ascii(code: u16)
    ensures
        is_ascii_chars(status_code_chars(code)),
{
}

/// The UTF-8 bytes of the text of a status code are its three ASCII digits.
pub proof fn lemma_status_code_bytes(code: u16)
    requires
        is_status_code(code as int),
    ensures
        encode_utf8(status_code_chars(code)) =~= seq![
            (48 + code / 100) as u8,
            (48 + (code / 10) % 10) as u8,
            (48 + code % 10) as u8,
        ],
{
    let chars = status_code_chars(code);
    lemma_status_code_chars_ascii(code);
    is_ascii_chars_encode_utf8(chars);
    assert(chars[0] as u8 == encode_utf8(chars)[0]);
    assert(chars[1] as u8 == encode_utf8(chars)[1]);
    assert(chars[2] as u8 == encode_utf8(chars)[2]);
}

/// Parsing the text of a valid status code gives that code back.
pub proof fn lemma_status_code_text_parses_back(code: u16)
    requires
        is_status_code(code as int),
    ensures
        status_code_of_bytes(encode_utf8(status_code_chars(code))) == Some(code),
{
    lemma_status_code_bytes(code);
}

/// A text that parses as a status code is exactly the text of that code.
pub proof fn lemma_parsed_text_is_status_code_text(text: Seq<char>)
    requires
        status_code_of_bytes(encode_utf8(text)) is Some,
    ensures
        is_status_code(status_code_of_bytes(encode_utf8(text))->0 as int),
        status_code_chars(status_code_of_bytes(encode_utf8(text))->0) == text,
{
    let bytes = encode_utf8(text);
    let code = status_code_of_bytes(bytes)->0;
    encode_utf8_decode_utf8(text);
    lemma_status_code_bytes(code);
    encode_utf8_decode_utf8(status_code_chars(code));
    assert(code / 100 == bytes[0] - 48);
    assert((code / 10) % 10 == bytes[1] - 48);
    assert(code % 10 == bytes[2] - 48);
    assert(encode_utf8(status_code_chars(code)) =~= bytes);
}
} // verus!
