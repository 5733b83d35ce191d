//! Error values in the shape of JSON:API error objects.
//!
//! Each [`AppError`] carries an HTTP status code, a title and an optional
//! human-readable detail. The constructors set the title to the canonical reason
//! phrase of the status code; [`AppError::from_parts`] keeps a decoded title as given.
use vstd::prelude::*;

use vstd::arithmetic::power2::pow2;

use crate::status::{canonical_reason, canonical_reason_phrase, is_status_code};

pub mod serde_status_code;

verus! {

/// A Crockford base32 digit: `0123456789ABCDEFGHJKMNPQRSTVWXYZ` at position `d`.
pub open spec fn crockford_digit(d: int) -> char {
    seq![
        '0', '1', '2', '3', '4', '5', '6', '7', '8', '9', 'A', 'B', 'C', 'D', 'E', 'F',
        'G', 'H', 'J', 'K', 'M', 'N', 'P', 'Q', 'R', 'S', 'T', 'V', 'W', 'X', 'Y', 'Z',
    ][d]
}

/// The text of a ULID: 26 Crockford base32 digits, each holding 5 bits of `id`, the
/// most significant first.
pub open spec fn ulid_text(id: u128) -> Seq<char> {
    Seq::new(26, |i: int| crockford_digit((id as int / pow2((5 * (25 - i)) as nat) as int) % 32))
}

/// Calls `ulid::Ulid::to_string` on the identifier whose value is `id`.
/// Trusted: the source writes the 26 Crockford base32 digits of `id`, 5 bits each,
/// from the least significant digit at the end to the most significant at the front.
#[verifier::external_body]
fn ulid_to_string(id: u128) -> (text: String)
    ensures
        text@ == ulid_text(id),
{
    ulid::Ulid(id).to_string()
}

/// What an [`AppError`] holds, as mathematical values.
pub struct AppErrorView {
    pub status: u16,
    pub detail: Option<Seq<char>>,
    pub title: Option<Seq<char>>,
}

/// The view of an error with status `status`, detail `detail`, and the canonical reason
/// phrase of `status` as title.
pub open spec fn app_error_view(status: u16, detail: Option<Seq<char>>) -> AppErrorView {
    AppErrorView { status, detail, title: canonical_reason_phrase(status) }
}

/// Encodes a JSON:API error object: always the status code, a title (set by the
/// constructors to the canonical reason phrase of that code), and for unrecoverable
/// errors the error's text as detail.
#[derive(Debug, PartialEq, Eq)]
pub struct AppError {
    status: u16,
    detail: Option<String>,
    title: Option<String>,
}

impl View for AppError {
    type V = AppErrorView;

    closed spec fn view(&self) -> AppErrorView {
        AppErrorView {
            status: self.status,
            detail: self.detail.deep_view(),
            title: self.title.deep_view(),
        }
    }
}

impl AppError {
    #[verifier::type_invariant]
    spec fn status_is_valid(self) -> bool {
        is_status_code(self.status as int)
    }

    /// New error with the given status code and optional detail message; the title
    /// is the canonical reason phrase of the status code.
    pub fn new(status_code: u16, message: Option<String>) -> (err: AppError)
        requires
            is_status_code(status_code as int),
        ensures
            err@ == app_error_view(status_code, message.deep_view()),
            err@.status == status_code,
            err@.detail == message.deep_view(),
            err@.title == canonical_reason_phrase(status_code),
    {
        AppError { status: status_code, title: Self::canonical_reason_to_string(status_code), detail: message }
    }

    /// The error for an entity that does not exist: status 404 and the detail
    /// `Entity with id {id} not found`, where `{id}` is the ULID's text.
    pub fn not_found(id: u128) -> (err: AppError)
        ensures
            err@ == app_error_view(
                404,
                Some("Entity with id "@ + ulid_text(id) + " not found"@),
            ),
    {
        let mut message = String::from_str("Entity with id ");
        let id_text = ulid_to_string(id);
        message.append(id_text.as_str());
        message.append(" not found");
        Self::new(404, Some(message))
    }

    fn canonical_reason_to_string(status_code: u16) -> (title: Option<String>)
        requires
            is_status_code(status_code as int),
        ensures
            title.deep_view() == canonical_reason_phrase(status_code),
    {
        canonical_reason(status_code)
    }

    /// The error that an unexpected failure becomes: status 500, its canonical
    /// reason phrase as title, and the failure's text as detail.
    pub fn from_message(message: String) -> (err: AppError)
        ensures
            err@ == app_error_view(500, Some(message@)),
    {
        Self::new(500, Some(message))
    }

    /// An error with every field given, as a decoder rebuilds it; the title is kept
    /// as given.
    pub fn from_parts(status_code: u16, detail: Option<String>, title: Option<String>) -> (err: AppError)
        requires
            is_status_code(status_code as int),
        ensures
            err@ == (AppErrorView {
                status: status_code,
                detail: detail.deep_view(),
                title: title.deep_view(),
            }),
    {
        AppError { status: status_code, detail, title }
    }

    /// The status code.
    pub fn status(&self) -> (status: u16)
        ensures
            status == self@.status,
            is_status_code(status as int),
    {
        proof { use_type_invariant(self); }
        self.status
    }

    /// The detail message, if any.
    pub fn detail(&self) -> (detail: &Option<String>)
        ensures
            detail.deep_view() == self@.detail,
    {
        &self.detail
    }

    /// The title, if any.
    pub fn title(&self) -> (title: &Option<String>)
        ensures
            title.deep_view() == self@.title,
    {
        &self.title
    }
}

/// Error in JSON:API response format: a list of error objects.
#[derive(Debug)]
pub struct ErrorResponse {
    errors: Vec<AppError>,
}

impl View for ErrorResponse {
    type V = Seq<AppError>;

    closed spec fn view(&self) -> Seq<AppError> {
        self.errors@
    }
}

impl ErrorResponse {
    /// The response that carries exactly the one error `e`.
    pub fn from(e: AppError) -> (response: ErrorResponse)
        ensures
            response@ == seq![e],
    {
        let mut errors = Vec::new();
        errors.push(e);
        ErrorResponse { errors }
    }

    /// The response that carries the given errors, in order.
    pub fn new(errors: Vec<AppError>) -> (response: ErrorResponse)
        ensures
            response@ == errors@,
    {
        ErrorResponse { errors }
    }

    /// The errors of this response, in order.
    pub fn errors(&self) -> (errors: &Vec<AppError>)
        ensures
            errors@ == self@,
    {
        &self.errors
    }
}

/// The title of an error built from a status code is the canonical reason phrase of
/// that code, whatever its detail is: errors with the same status and different
/// details (present or absent) have the same title, and the status and detail are
/// kept as given.
pub proof fn lemma_title_is_canonical_reason(status: u16, detail: Option<Seq<char>>, other: Option<Seq<char>>)
    ensures
        app_error_view(status, detail).title == canonical_reason_phrase(status),
        app_error_view(status, detail).title == app_error_view(status, other).title,
        app_error_view(status, None).title == canonical_reason_phrase(status),
        app_error_view(status, detail).status == status,
        app_error_view(status, detail).detail == detail,
{
}

} // verus!
