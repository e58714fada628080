//! Reading the service's answer to one request.
//!
//! The service answers every request with a JSON object whose `status` member
//! tags the outcome: `{"status":"ok"}`, or `{"status":"error","error":"..."}`.
//! The body alone decides; the HTTP status code is not consulted.

use vstd::prelude::*;
use crate::json::{find_text, json_document, parse_document, text_member, JsonValue};

verus! {

/// How one request ended.
#[derive(Debug, Clone, PartialEq, Eq)]
pub enum SubmissionOutcome {
    /// The service accepted the request.
    Success,
    /// The service answered with a well-formed refusal.
    Failure { message: String },
    /// The request did not reach the service, or no answer came back.
    TransportError { detail: String },
    /// The answer was not of the agreed form.
    ProtocolError { detail: String },
}

/// The mathematical value of a [`SubmissionOutcome`].
pub enum OutcomeView {
    Success,
    Failure { message: Seq<char> },
    TransportError { detail: Seq<char> },
    ProtocolError { detail: Seq<char> },
}

impl View for SubmissionOutcome {
    type V = OutcomeView;

    open spec fn view(&self) -> OutcomeView {
        match self {
            SubmissionOutcome::Success => OutcomeView::Success,
            SubmissionOutcome::Failure { message } => OutcomeView::Failure { message: message@ },
            SubmissionOutcome::TransportError { detail } => OutcomeView::TransportError {
                detail: detail@,
            },
            SubmissionOutcome::ProtocolError { detail } => OutcomeView::ProtocolError {
                detail: detail@,
            },
        }
    }
}

/// The outcome for an answer of any form but the agreed one.
pub open spec fn malformed() -> OutcomeView {
    OutcomeView::ProtocolError { detail: "invalid server response"@ }
}

/// The outcome that a parsed answer stands for.
///
/// Only an object with a string member `status` is well-formed. The status
/// `ok` is success. The status `error` is a refusal if the object also has a
/// string member `error`, which is then the message. Every other answer is
/// malformed: no text at all, a value that is no object, a missing or
/// unknown status, a refusal without a message.
pub open spec fn outcome_of_document(document: Option<JsonValue>) -> OutcomeView {
    match document {
        Some(JsonValue::Object(members)) => match text_member(members@, "status"@) {
            Some(status) => if status == "ok"@ {
                OutcomeView::Success
            } else if status == "error"@ {
                match text_member(members@, "error"@) {
                    Some(message) => OutcomeView::Failure { message },
                    None => malformed(),
                }
            } else {
                malformed()
            },
            None => malformed(),
        },
        _ => malformed(),
    }
}

/// The outcome of a request whose answer had the body `body`.
pub open spec fn outcome_of_body(body: Seq<char>) -> OutcomeView {
    outcome_of_document(json_document(body))
}

/// The detail of a request to `endpoint` that failed for `cause`.
pub open spec fn transport_detail(endpoint: Seq<char>, cause: Seq<char>) -> Seq<char> {
    "request to "@ + endpoint + " failed: "@ + cause
}

/// What came of sending one request.
#[derive(Debug, Clone, PartialEq, Eq)]
pub enum Reply {
    /// The request could not be sent, or the connection failed.
    Unsent { cause: String },
    /// An answer came back; its body, where it could be read as text.
    Received { body: Option<String> },
}

/// The mathematical value of a [`Reply`].
pub enum ReplyView {
    Unsent { cause: Seq<char> },
    Received { body: Option<Seq<char>> },
}

impl View for Reply {
    type V = ReplyView;

    open spec fn view(&self) -> ReplyView {
        match self {
            Reply::Unsent { cause } => ReplyView::Unsent { cause: cause@ },
            Reply::Received { body } => ReplyView::Received {
                body: match body {
                    Some(text) => Some(text@),
                    None => None,
                },
            },
        }
    }
}

/// The outcome of a request to `endpoint` that was answered by `reply`. A
/// body that could not be read counts as the empty body.
pub open spec fn outcome_of_reply(endpoint: Seq<char>, reply: ReplyView) -> OutcomeView {
    match reply {
        ReplyView::Unsent { cause } => OutcomeView::TransportError {
            detail: transport_detail(endpoint, cause),
        },
        ReplyView::Received { body: Some(text) } => outcome_of_body(text),
        ReplyView::Received { body: None } => outcome_of_body(Seq::empty()),
    }
}

fn protocol_error() -> (outcome: SubmissionOutcome)
    ensures
        outcome@ == malformed(),
{
    SubmissionOutcome::ProtocolError { detail: "invalid server response".to_owned() }
}

/// Reads the outcome from a parsed answer.
pub fn interpret_document(document: &Option<JsonValue>) -> (outcome: SubmissionOutcome)
    ensures
        outcome@ == outcome_of_document(*document),
{
    match document {
        Some(JsonValue::Object(members)) => match find_text(members, "status") {
            Some(status) => {
                if *status == "ok".to_owned() {
                    SubmissionOutcome::Success
                } else if *status == "error".to_owned() {
                    match find_text(members, "error") {
                        Some(message) => SubmissionOutcome::Failure { message: message.clone() },
                        None => protocol_error(),
                    }
                } else {
                    protocol_error()
                }
            },
            None => protocol_error(),
        },
        _ => protocol_error(),
    }
}

/// Reads the outcome from the body of an answer.
pub fn interpret_response(body: &str) -> (outcome: SubmissionOutcome)
    ensures
        outcome@ == outcome_of_body(body@),
{
    let document = parse_document(body);
    interpret_document(&document)
}

/// The outcome of the request to `endpoint` that was answered by `reply`.
pub fn interpret_reply(endpoint: &str, reply: &Reply) -> (outcome: SubmissionOutcome)
    ensures
        outcome@ == outcome_of_reply(endpoint@, reply@),
{
    match reply {
        Reply::Unsent { cause } => {
            let mut detail = "request to ".to_owned();
            detail.append(endpoint);
            detail.append(" failed: ");
            detail.append(cause.as_str());
            SubmissionOutcome::TransportError { detail }
        },
        Reply::Received { body: Some(text) } => interpret_response(text.as_str()),
        Reply::Received { body: None } => {
            let outcome = interpret_response("");
            proof {
                reveal_strlit("");
                assert(""@ =~= Seq::<char>::empty());
            }
            outcome
        },
    }
}

} // verus!
