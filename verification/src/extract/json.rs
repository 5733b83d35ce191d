//! The JSON extractor and response: which requests count as JSON, and which error
//! a request that cannot be read as JSON is answered with.
use vstd::prelude::*;

use crate::error::{app_error_view, AppError, AppErrorView};
use crate::headers::header::{
    all_visible_ascii, first_header_value, has_no_ascii_uppercase, header_map_get,
    header_value_from_text, header_value_text, header_value_to_str, lemma_text_encode_decode,
};
use vstd::utf8::{encode_utf8, is_ascii_chars, is_ascii_chars_encode_utf8};

verus! {

/// The parts of a media type that the JSON check reads: the type, the subtype, and
/// the `+suffix` if there is one.
pub struct MediaType {
    pub type_: String,
    pub subtype: String,
    pub suffix: Option<String>,
}

impl View for MediaType {
    type V = (Seq<char>, Seq<char>, Option<Seq<char>>);

    open spec fn view(&self) -> (Seq<char>, Seq<char>, Option<Seq<char>>) {
        (self.type_@, self.subtype@, self.suffix.deep_view())
    }
}

/// The type, subtype and suffix that `mime::Mime`'s parser finds in a text, or `None`
/// when it rejects the text.
pub uninterp spec fn parsed_media_type(text: Seq<char>) -> Option<(Seq<char>, Seq<char>, Option<Seq<char>>)>;

/// The view of an optional media type.
pub open spec fn opt_media_type(m: Option<MediaType>) -> Option<(Seq<char>, Seq<char>, Option<Seq<char>>)> {
    match m {
        Some(m) => Some(m@),
        None => None,
    }
}

/// Calls `str::parse::<mime::Mime>` and copies out `type_`, `subtype` and `suffix` as
/// text. Trusted: the parts are those named by `parsed_media_type`, a function of the
/// text alone; the grammar the parser accepts is not stated. Of one text the source
/// plainly gives the parts: `application/json` is all token characters around one
/// slash, with no `+` and no parameters, so it parses to `application`, `json` and
/// no suffix.
#[verifier::external_body]
pub fn parse_media_type(text: &str) -> (media_type: Option<MediaType>)
    ensures
        opt_media_type(media_type) == parsed_media_type(text@),
        text@ == "application/json"@ ==> opt_media_type(media_type) == Some(
            ("application"@, "json"@, None::<Seq<char>>),
        ),
{
    match text.parse::<mime::Mime>() {
        Ok(m) => Some(MediaType {
            type_: m.type_().as_str().to_string(),
            subtype: m.subtype().as_str().to_string(),
            suffix: m.suffix().map(|s| s.as_str().to_string()),
        }),
        Err(_) => None,
    }
}

/// The code of a character with ASCII uppercase letters mapped to lowercase.
pub open spec fn ascii_lower(c: char) -> int {
    if 'A' <= c && c <= 'Z' {
        c as int + 32
    } else {
        c as int
    }
}

/// Equality of two texts that ignores ASCII case, as `mime` compares names.
pub open spec fn eq_ignore_ascii_case(a: Seq<char>, b: Seq<char>) -> bool {
    a.len() == b.len() && forall|i: int| 0 <= i < a.len() ==> ascii_lower(#[trigger] a[i]) == ascii_lower(b[i])
}

/// Compares two strings, ignoring ASCII case.
pub fn str_eq_ignore_ascii_case(a: &str, b: &str) -> (equal: bool)
    ensures
        equal == eq_ignore_ascii_case(a@, b@),
{
    let n = a.unicode_len();
    if n != b.unicode_len() {
        return false;
    }
    let mut i: usize = 0;
    while i < n
        invariant
            n == a@.len(),
            n == b@.len(),
            0 <= i <= n,
            forall|j: int| 0 <= j < i ==> ascii_lower(#[trigger] a@[j]) == ascii_lower(b@[j]),
        decreases n - i,
    {
        let x = a.get_char(i);
        let y = b.get_char(i);
        let lx: u32 = if 'A' <= x && x <= 'Z' { x as u32 + 32 } else { x as u32 };
        let ly: u32 = if 'A' <= y && y <= 'Z' { y as u32 + 32 } else { y as u32 };
        if lx != ly {
            assert(ascii_lower(a@[i as int]) != ascii_lower(b@[i as int]));
            return false;
        }
        i = i + 1;
    }
    true
}

/// A media type is JSON when its type is `application` and its subtype or its suffix
/// is `json`, ignoring ASCII case.
pub open spec fn is_json_media(m: (Seq<char>, Seq<char>, Option<Seq<char>>)) -> bool {
    &&& eq_ignore_ascii_case(m.0, "application"@)
    &&& (eq_ignore_ascii_case(m.1, "json"@) || (m.2 matches Some(s) && eq_ignore_ascii_case(s, "json"@)))
}

/// Whether a parsed media type is JSON.
pub fn is_json_media_type(media_type: &MediaType) -> (json: bool)
    ensures
        json == is_json_media(media_type@),
{
    if !str_eq_ignore_ascii_case(media_type.type_.as_str(), "application") {
        return false;
    }
    if str_eq_ignore_ascii_case(media_type.subtype.as_str(), "json") {
        return true;
    }
    match &media_type.suffix {
        Some(s) => str_eq_ignore_ascii_case(s.as_str(), "json"),
        None => false,
    }
}

/// Whether the headers declare a JSON body: the first `content-type` value is visible
/// ASCII text that parses as a media type that is JSON.
pub open spec fn has_json_content_type(headers: http::HeaderMap) -> bool {
    match first_header_value(headers, "content-type"@) {
        Some(bytes) => match header_value_text(bytes) {
            Some(text) => match parsed_media_type(text) {
                Some(m) => is_json_media(m),
                None => false,
            },
            None => false,
        },
        None => false,
    }
}

/// Whether a request with these headers carries a JSON body.
pub fn json_content_type(headers: &http::HeaderMap) -> (json: bool)
    ensures
        json == has_json_content_type(*headers),
{
    let name = "content-type";
    proof {
        reveal_strlit("content-type");
        assert(has_no_ascii_uppercase(name@));
    }
    match header_map_get(headers, name) {
        Some(bytes) => match header_value_to_str(bytes.as_slice()) {
            Some(text) => match parse_media_type(text.as_str()) {
                Some(m) => is_json_media_type(&m),
                None => false,
            },
            None => false,
        },
        None => false,
    }
}

/// JSON extractor and response. As an extractor it reads a JSON request body into a
/// value; the request is rejected with an [`AppError`] when it does not declare a JSON
/// content type, when its body cannot be read, or when the body is not valid JSON or
/// does not fit the target type.
#[derive(Debug, Clone, Copy, Default)]
pub struct Json<T>(pub T);

impl<T> From<T> for Json<T> {
    fn from(inner: T) -> (json: Self) {
        Json(inner)
    }
}

impl<T> std::ops::Deref for Json<T> {
    type Target = T;

    fn deref(&self) -> (inner: &T)
        ensures
            *inner == self.0,
    {
        &self.0
    }
}

impl<T> vstd::std_specs::convert::FromSpecImpl<T> for Json<T> {
    open spec fn obeys_from_spec() -> bool {
        true
    }

    open spec fn from_spec(inner: T) -> Self {
        Json(inner)
    }
}

impl<T> Json<T> {
    /// The wrapped value.
    pub fn inner(&self) -> (inner: &T)
        ensures
            *inner == self.0,
    {
        &self.0
    }

    /// The value that a JSON deserializer produced, or the error that its failure
    /// is answered with.
    pub fn from_deserialized(result: Result<T, JsonDeserializeError>) -> (extracted: Result<
        Json<T>,
        AppError,
    >)
        ensures
            match result {
                Ok(value) => extracted == Ok::<Json<T>, AppError>(Json(value)),
                Err(e) => extracted matches Err(err) && err@ == deserialize_rejection_view(e),
            },
    {
        match result {
            Ok(value) => Ok(Json(value)),
            Err(e) => Err(json_rejection(JsonRejection::Deserialize(e))),
        }
    }
}

/// The kind of failure `serde_json` reports.
#[derive(Debug, Clone, Copy, PartialEq, Eq, Structural)]
pub enum JsonErrorCategory {
    /// Reading or writing bytes failed.
    Io,
    /// The input is not syntactically valid JSON.
    Syntax,
    /// The input is valid JSON that does not fit the target type.
    Data,
    /// The input ended too early.
    Eof,
}

/// A failure to deserialize a JSON body: its category, the path in the document
/// where it happened, and the error's text.
pub struct JsonDeserializeError {
    pub category: JsonErrorCategory,
    pub path: String,
    pub message: String,
}

/// The reasons a request body is not accepted as JSON.
pub enum JsonRejection {
    /// The request does not declare a JSON content type.
    MissingJsonContentType,
    /// The request body could not be read.
    BodyUnreadable,
    /// The body could not be deserialized.
    Deserialize(JsonDeserializeError),
}

/// The error a deserialization failure is answered with: 422 with the path and the
/// error text when the JSON does not fit the target type, 400 with the error text
/// otherwise.
pub open spec fn deserialize_rejection_view(e: JsonDeserializeError) -> AppErrorView {
    if e.category == JsonErrorCategory::Data {
        app_error_view(
            422,
            Some(
                "failed to deserialize the JSON body into the target type, json error path: "@
                    + e.path@ + "; json error "@ + e.message@,
            ),
        )
    } else {
        app_error_view(400, Some("failed to parse the request body as JSON; json error "@ + e.message@))
    }
}

/// The error each rejection is answered with.
pub open spec fn json_rejection_view(rejection: JsonRejection) -> AppErrorView {
    match rejection {
        JsonRejection::MissingJsonContentType => app_error_view(
            415,
            Some("Expected request with `Content-Type: application/json`"@),
        ),
        JsonRejection::BodyUnreadable => app_error_view(400, Some("Unable to parse request body"@)),
        JsonRejection::Deserialize(e) => deserialize_rejection_view(e),
    }
}

/// The error a rejected JSON request is answered with.
pub fn json_rejection(rejection: JsonRejection) -> (err: AppError)
    ensures
        err@ == json_rejection_view(rejection),
        rejection matches JsonRejection::Deserialize(e) ==> {
            &&& (err@.status == 422 <==> e.category == JsonErrorCategory::Data)
            &&& (e.category != JsonErrorCategory::Data ==> err@.status == 400
                && err@.detail == Some("failed to parse the request body as JSON; json error "@ + e.message@))
        },
{
    match rejection {
        JsonRejection::MissingJsonContentType => AppError::new(
            415,
            Some(String::from_str("Expected request with `Content-Type: application/json`")),
        ),
        JsonRejection::BodyUnreadable => AppError::new(400, Some(String::from_str("Unable to parse request body"))),
        JsonRejection::Deserialize(e) => {
            if e.category == JsonErrorCategory::Data {
                let mut message = String::from_str(
                    "failed to deserialize the JSON body into the target type, json error path: ",
                );
                message.append(e.path.as_str());
                message.append("; json error ");
                message.append(e.message.as_str());
                AppError::new(422, Some(message))
            } else {
                let mut message = String::from_str("failed to parse the request body as JSON; json error ");
                message.append(e.message.as_str());
                AppError::new(400, Some(message))
            }
        },
    }
}

/// The status, content type and body of the response a JSON value is sent as.
pub struct JsonResponseParts {
    pub status: u16,
    pub content_type: String,
    pub body: Vec<u8>,
}

/// The response for a value whose serialization gave `serialized`: 200 with
/// `application/json` and the bytes, or, when serialization failed, 500 with
/// `text/plain; charset=utf-8` and the error's text.
pub fn json_response(serialized: Result<Vec<u8>, String>) -> (parts: JsonResponseParts)
    ensures
        match serialized {
            Ok(bytes) => parts.status == 200 && parts.content_type@ == "application/json"@
                && parts.body@ == bytes@,
            Err(message) => parts.status == 500 && parts.content_type@ == "text/plain; charset=utf-8"@
                && parts.body@ == vstd::utf8::encode_utf8(message@),
        },
{
    match serialized {
        Ok(bytes) => JsonResponseParts {
            status: 200,
            content_type: String::from_str("application/json"),
            body: bytes,
        },
        Err(message) => JsonResponseParts {
            status: 500,
            content_type: String::from_str("text/plain; charset=utf-8"),
            body: message.as_str().as_bytes_vec(),
        },
    }
}

/// The content type a JSON response is sent with is one the JSON extractor accepts:
/// `application/json` becomes a header value, and a request whose first
/// `content-type` value holds those bytes is taken to carry JSON exactly when the
/// media-type parser splits that text into `application` and `json` (which
/// `parse_media_type` states of it).
pub proof fn lemma_json_response_content_type_accepted(headers: http::HeaderMap)
    requires
        first_header_value(headers, "content-type"@) == Some(encode_utf8("application/json"@)),
    ensures
        header_value_from_text("application/json"@) == Some(encode_utf8("application/json"@)),
        has_json_content_type(headers) == (parsed_media_type("application/json"@) matches Some(m)
            && is_json_media(m)),
        parsed_media_type("application/json"@) == Some(("application"@, "json"@, None::<Seq<char>>))
            ==> has_json_content_type(headers),
{
    reveal_strlit("application/json");
    let text = "application/json"@;
    assert(is_ascii_chars(text));
    is_ascii_chars_encode_utf8(text);
    let bytes = encode_utf8(text);
    assert forall|i: int| 0 <= i < bytes.len() implies crate::headers::header::is_visible_ascii(
        #[trigger] bytes[i],
    ) by {
        assert(text[i] as u8 == bytes[i]);
    }
    assert(all_visible_ascii(bytes));
    lemma_text_encode_decode(text);
    assert(is_json_media(("application"@, "json"@, None::<Seq<char>>)));
}

/// A deserialization failure is answered with 422 exactly when the JSON does not fit
/// the target type (category `Data`); every other failure (syntax, early end, I/O) is
/// answered with 400 and the detail `failed to parse the request body as JSON; json
/// error ` followed by the error's text. The title is the canonical reason of the status.
pub proof fn lemma_deserialize_rejection_status(e: JsonDeserializeError)
    ensures
        deserialize_rejection_view(e).status == 422 <==> e.category == JsonErrorCategory::Data,
        deserialize_rejection_view(e).status == 400 <==> e.category != JsonErrorCategory::Data,
        e.category != JsonErrorCategory::Data ==> deserialize_rejection_view(e).detail == Some(
            "failed to parse the request body as JSON; json error "@ + e.message@,
        ),
        e.category == JsonErrorCategory::Data ==> deserialize_rejection_view(e).detail == Some(
            "failed to deserialize the JSON body into the target type, json error path: "@ + e.path@
                + "; json error "@ + e.message@,
        ),
        deserialize_rejection_view(e).title == crate::status::canonical_reason_phrase(
            deserialize_rejection_view(e).status,
        ),
{
}

/// The error answering each rejection has its fixed status: 415 for a missing JSON
/// content type, 400 for an unreadable body, 400 or 422 for a body that does not
/// deserialize.
pub proof fn lemma_rejection_statuses(rejection: JsonRejection)
    ensures
        rejection is MissingJsonContentType ==> json_rejection_view(rejection).status == 415,
        rejection is BodyUnreadable ==> json_rejection_view(rejection).status == 400,
        rejection is Deserialize ==> (json_rejection_view(rejection).status == 400
            || json_rejection_view(rejection).status == 422),
{
}

} // verus!
