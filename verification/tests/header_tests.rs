use gen_axum::headers::header::{header_value_from_str, header_value_to_str, TextHeader};
use http::{HeaderMap, HeaderValue};

fn test_decode(name: &'static str, values: &[&str]) -> Option<TextHeader> {
    let mut map = HeaderMap::new();
    for val in values {
        map.append(name, val.parse().unwrap());
    }
    TextHeader::decode(&map, name)
}

fn test_encode(name: &'static str, header: TextHeader) -> HeaderMap {
    let mut map = HeaderMap::new();
    if let Some(bytes) = header.encode() {
        map.insert(name, HeaderValue::from_bytes(&bytes).unwrap());
    }
    map
}

#[test]
fn test_dummy_header() {
    let s = "18312349-3139-498C-84B6-87326BF1F2A7";
    let dummy_id = test_decode("x-dummy-id", &[s]).unwrap();
    let headers = test_encode("x-dummy-id", dummy_id);
    assert_eq!(headers["x-dummy-id"], s);
}

#[test]
fn decode_takes_first_value() {
    let header = test_decode("x-dummy-id", &["first", "second"]).unwrap();
    assert_eq!(header.0, "first");
    assert!(test_decode("x-dummy-id", &[]).is_none());
}

#[test]
fn decode_rejects_non_visible_ascii() {
    let mut map = HeaderMap::new();
    map.insert("x-dummy-id", HeaderValue::from_bytes(b"caf\xc3\xa9").unwrap());
    assert!(TextHeader::decode(&map, "x-dummy-id").is_none());
}

#[test]
fn header_value_text_rules() {
    assert_eq!(header_value_to_str(b"a\tb c~"), Some("a\tb c~".to_string()));
    assert_eq!(header_value_to_str(b""), Some(String::new()));
    assert_eq!(header_value_to_str(b"a\x7fb"), None);
    assert_eq!(header_value_to_str(b"\x80"), None);
    assert_eq!(header_value_to_str(b"a\nb"), None);
}

#[test]
fn header_value_from_text_rules() {
    assert_eq!(header_value_from_str("abc"), Some(b"abc".to_vec()));
    assert_eq!(header_value_from_str("café"), Some("café".as_bytes().to_vec()));
    assert_eq!(header_value_from_str("a\nb"), None);
    assert_eq!(header_value_from_str("a\x7f"), None);
    assert!(TextHeader("line\r\nbreak".to_string()).encode().is_none());
}

#[test]
fn visible_ascii_text_round_trips() {
    let text = "Bearer abc.def-123";
    let bytes = TextHeader(text.to_string()).encode().unwrap();
    assert_eq!(header_value_to_str(&bytes), Some(text.to_string()));
}
