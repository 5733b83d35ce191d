//! Rules for logging requests and responses of the server and of client calls:
//! the level of each record and the text of the fields that hold header values,
//! with authorization values kept out of the logs outside local and dev environments.
use vstd::prelude::*;

use crate::headers::header::{header_value_text, header_value_to_str, opt_bytes};
use crate::status::{is_status_code, status_code_chars, status_code_text};

verus! {

/// Request/response logger that logs request details at debug level only.
#[derive(Debug)]
pub struct DebugOnlyLogger;

/// Request/response logger.
#[derive(Debug)]
pub struct Logger;

/// The level a log record is written at.
#[derive(Debug, Clone, Copy, PartialEq, Eq, Structural)]
pub enum LogLevel {
    Debug,
    Info,
    Warn,
}

/// The level a finished server response is logged at: debug for success (`2xx`),
/// warn for server errors (`5xx`), info otherwise.
pub open spec fn response_level(status: u16) -> LogLevel {
    if 200 <= status <= 299 {
        LogLevel::Debug
    } else if 500 <= status <= 599 {
        LogLevel::Warn
    } else {
        LogLevel::Info
    }
}

/// The level a finished server response with this status code is logged at.
pub fn response_log_level(status: u16) -> (level: LogLevel)
    ensures
        level == response_level(status),
        level == LogLevel::Debug <==> 200 <= status <= 299,
        level == LogLevel::Warn <==> 500 <= status <= 599,
        level == LogLevel::Info <==> !(200 <= status <= 299) && !(500 <= status <= 599),
{
    if status >= 200 && status <= 299 {
        LogLevel::Debug
    } else if status >= 500 && status <= 599 {
        LogLevel::Warn
    } else {
        LogLevel::Info
    }
}

/// The text logged for a header value: its text, or `null` when it has none.
pub open spec fn value_text_or_null(bytes: Seq<u8>) -> Seq<char> {
    match header_value_text(bytes) {
        Some(text) => text,
        None => "null"@,
    }
}

/// The text logged for an optional header value: `null` when absent or not text.
pub open spec fn field_text(value: Option<Seq<u8>>) -> Seq<char> {
    match value {
        Some(bytes) => value_text_or_null(bytes),
        None => "null"@,
    }
}

/// The text logged for a header value: its text, or `null` when it is not visible ASCII.
pub fn header_text_or_null(bytes: &[u8]) -> (text: String)
    ensures
        text@ == value_text_or_null(bytes@),
{
    match header_value_to_str(bytes) {
        Some(text) => text,
        None => String::from_str("null"),
    }
}

/// The text logged for an optional header value, such as a client's user agent.
pub fn header_field(value: Option<Vec<u8>>) -> (text: String)
    ensures
        text@ == field_text(opt_bytes(value)),
{
    match value {
        Some(bytes) => header_text_or_null(bytes.as_slice()),
        None => String::from_str("null"),
    }
}

/// The request identifier logged for a server request: absent when the header is
/// absent, `null` when its value is not text.
pub fn request_id_field(value: Option<Vec<u8>>) -> (text: Option<String>)
    ensures
        match opt_bytes(value) {
            Some(bytes) => text matches Some(t) && t@ == value_text_or_null(bytes),
            None => text is None,
        },
{
    match value {
        Some(bytes) => Some(header_text_or_null(bytes.as_slice())),
        None => None,
    }
}

/// An authorization header of a server request: its bytes and whether it is marked
/// sensitive.
pub struct AuthorizationHeader {
    pub value: Vec<u8>,
    pub sensitive: bool,
}

/// The authorization field logged for a server request. In local and dev
/// environments the value's text is logged; elsewhere a value marked sensitive is
/// logged as `<redacted>`.
pub open spec fn request_authorization_text(local_or_dev: bool, header: Option<AuthorizationHeader>) -> Seq<char> {
    match header {
        Some(h) => if !local_or_dev && h.sensitive {
            "<redacted>"@
        } else {
            value_text_or_null(h.value@)
        },
        None => "null"@,
    }
}

/// The authorization field logged for a server request.
pub fn request_authorization_field(local_or_dev: bool, header: Option<AuthorizationHeader>) -> (text: String)
    ensures
        text@ == request_authorization_text(local_or_dev, header),
        !local_or_dev && (header matches Some(h) && h.sensitive) ==> text@ == "<redacted>"@,
{
    match header {
        Some(h) => {
            if !local_or_dev && h.sensitive {
                String::from_str("<redacted>")
            } else {
                header_text_or_null(h.value.as_slice())
            }
        },
        None => String::from_str("null"),
    }
}

/// The authorization field logged for a client request. In local and dev
/// environments the value's text is logged; elsewhere any value is logged as
/// `<redacted>`.
pub open spec fn client_authorization_text(local_or_dev: bool, value: Option<Seq<u8>>) -> Seq<char> {
    match value {
        Some(bytes) => if local_or_dev {
            value_text_or_null(bytes)
        } else {
            "<redacted>"@
        },
        None => "null"@,
    }
}

/// The authorization field logged for a client request.
pub fn client_authorization_field(local_or_dev: bool, value: Option<Vec<u8>>) -> (text: String)
    ensures
        text@ == client_authorization_text(local_or_dev, opt_bytes(value)),
        !local_or_dev && value is Some ==> text@ == "<redacted>"@,
{
    match value {
        Some(bytes) => {
            if local_or_dev {
                header_text_or_null(bytes.as_slice())
            } else {
                String::from_str("<redacted>")
            }
        },
        None => String::from_str("null"),
    }
}

/// The host field logged for a client request: the URL's host, or else the text of
/// the `host` header (`null` when that is absent or not text).
pub fn client_host_field(url_host: Option<String>, host_header: Option<Vec<u8>>) -> (text: String)
    ensures
        text@ == match url_host {
            Some(h) => h@,
            None => field_text(opt_bytes(host_header)),
        },
{
    match url_host {
        Some(host) => host,
        None => header_field(host_header),
    }
}

/// Whether the body of a client response is logged: for client and server errors
/// (`4xx` and `5xx`).
pub fn client_response_logged(status: u16) -> (logged: bool)
    ensures
        logged == (400 <= status <= 599),
{
    status >= 400 && status <= 599
}

/// The status field logged for a failed client request: the status code's digits,
/// or `none` when the failure carries no status code.
pub fn client_error_status_field(status: Option<u16>) -> (text: String)
    requires
        status matches Some(s) ==> is_status_code(s as int),
    ensures
        text@ == match status {
            Some(s) => status_code_chars(s),
            None => "none"@,
        },
{
    match status {
        Some(s) => status_code_text(s),
        None => String::from_str("none"),
    }
}

/// A response is logged at debug level exactly when it is a success (`2xx`), at warn
/// level exactly when it is a server error (`5xx`), and at info level otherwise, so
/// every redirection (`3xx`) and client error (`4xx`) is logged at info level.
pub proof fn lemma_response_level(status: u16)
    ensures
        response_level(status) == LogLevel::Debug <==> 200 <= status <= 299,
        response_level(status) == LogLevel::Warn <==> 500 <= status <= 599,
        response_level(status) == LogLevel::Info <==> !(200 <= status <= 299) && !(500 <= status
            <= 599),
        300 <= status <= 499 ==> response_level(status) == LogLevel::Info,
{
}

} // verus!
