//! Metric labels for client calls.
use vstd::prelude::*;

use crate::status::{is_status_code, status_code_chars, status_code_text};

verus! {

/// Metrics for the calls of one client, for use as client middleware.
#[derive(Debug)]
pub struct Metrics {
    /// Client name for metric gathering.
    pub name: String,
}

/// How a client call ended, as far as its metric labels go.
pub enum ClientOutcome {
    /// A response arrived with this status code.
    Response { status: u16 },
    /// The HTTP client failed, with the status code it reports, if any.
    RequestError { status: Option<u16> },
    /// A middleware failed.
    MiddlewareError,
}

/// Every status code an outcome carries is a valid status code.
pub open spec fn outcome_is_valid(outcome: ClientOutcome) -> bool {
    match outcome {
        ClientOutcome::Response { status } => is_status_code(status as int),
        ClientOutcome::RequestError { status: Some(status) } => is_status_code(status as int),
        _ => true,
    }
}

/// A list of labels as pairs of texts.
pub open spec fn labels_view(labels: Seq<(&str, String)>) -> Seq<(Seq<char>, Seq<char>)> {
    Seq::new(labels.len(), |i: int| (labels[i].0@, labels[i].1@))
}

/// The `result` and `status` labels an outcome adds.
pub open spec fn outcome_labels(outcome: ClientOutcome) -> Seq<(Seq<char>, Seq<char>)> {
    match outcome {
        ClientOutcome::Response { status } => seq![
            ("result"@, if 200 <= status <= 299 { "ok"@ } else { "error"@ }),
            ("status"@, status_code_chars(status)),
        ],
        ClientOutcome::RequestError { status } => seq![
            ("result"@, "error"@),
            ("status"@, match status {
                Some(s) => status_code_chars(s),
                None => "none"@,
            }),
        ],
        ClientOutcome::MiddlewareError => seq![("result"@, "middleware_error"@), ("status"@, "none"@)],
    }
}

/// The labels every client call is recorded with: client, method and request path.
pub fn client_request_labels(client: String, method: String, request_path: String) -> (labels: Vec<(&'static str, String)>)
    ensures
        labels_view(labels@) == seq![
            ("client"@, client@),
            ("method"@, method@),
            ("request_path"@, request_path@),
        ],
{
    let mut labels: Vec<(&'static str, String)> = Vec::new();
    labels.push(("client", client));
    labels.push(("method", method));
    labels.push(("request_path", request_path));
    proof {
        assert(labels_view(labels@) =~= seq![
            ("client"@, client@),
            ("method"@, method@),
            ("request_path"@, request_path@),
        ]);
    }
    labels
}

/// Extends a set of metric labels with the `result` and `status` of a client call.
pub fn extend_labels_for_response<'a>(labels: Vec<(&'a str, String)>, result: &ClientOutcome) -> (extended: Vec<(&'a str, String)>)
    requires
        outcome_is_valid(*result),
    ensures
        labels_view(extended@) == labels_view(labels@) + outcome_labels(*result),
        extended@.len() == labels@.len() + 2,
        labels_view(extended@)[labels@.len() as int].0 == "result"@,
        *result matches ClientOutcome::Response { status } ==> labels_view(extended@)[labels@.len() as int].1 == (if 200 <= status <= 299 {
            "ok"@
        } else {
            "error"@
        }),
{
    let mut labels = labels;
    let ghost before = labels@;
    match result {
        ClientOutcome::Response { status } => {
            if *status >= 200 && *status <= 299 {
                labels.push(("result", String::from_str("ok")));
            } else {
                labels.push(("result", String::from_str("error")));
            }
            labels.push(("status", status_code_text(*status)));
        },
        ClientOutcome::RequestError { status } => {
            labels.push(("result", String::from_str("error")));
            match status {
                Some(s) => labels.push(("status", status_code_text(*s))),
                None => labels.push(("status", String::from_str("none"))),
            }
        },
        ClientOutcome::MiddlewareError => {
            labels.push(("result", String::from_str("middleware_error")));
            labels.push(("status", String::from_str("none")));
        },
    }
    proof {
        assert(labels_view(labels@) =~= labels_view(before) + outcome_labels(*result));
    }
    labels
}

/// The labels a response adds are `result` and then `status`: `result` is `ok` for a
/// success status (`200..=299`) and `error` for any other status, and `status` is the
/// status code's three digits.
pub proof fn lemma_response_labels(status: u16)
    ensures
        outcome_labels(ClientOutcome::Response { status }).len() == 2,
        outcome_labels(ClientOutcome::Response { status })[0].0 == "result"@,
        200 <= status <= 299 ==> outcome_labels(ClientOutcome::Response { status })[0].1 == "ok"@,
        !(200 <= status <= 299) ==> outcome_labels(ClientOutcome::Response { status })[0].1 == "error"@,
        outcome_labels(ClientOutcome::Response { status })[1] == ("status"@, status_code_chars(status)),
{
}

/// A failed call is never labelled `ok`: its `result` label is `error` when the HTTP
/// client failed and `middleware_error` when a middleware failed, and its `status`
/// label is the reported status code or `none`.
pub proof fn lemma_failure_labels(status: Option<u16>)
    ensures
        outcome_labels(ClientOutcome::RequestError { status })[0] == ("result"@, "error"@),
        outcome_labels(ClientOutcome::RequestError { status })[1] == ("status"@, match status {
            Some(s) => status_code_chars(s),
            None => "none"@,
        }),
        outcome_labels(ClientOutcome::MiddlewareError) == seq![
            ("result"@, "middleware_error"@),
            ("status"@, "none"@),
        ],
{
}

} // verus!
