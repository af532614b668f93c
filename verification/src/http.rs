//! The requests this library asks a transport to send, the replies the
//! transport hands back, and how a reply becomes the text of a result or an
//! error message.

use std::collections::HashMap;
use vstd::prelude::*;

use crate::json::{opt_text, json_check, json_member, json_parse_failure, string_member, string_member_of, json_get_member};

verus! {

/// The HTTP method of a request.
#[derive(Clone, Copy, Debug, PartialEq, Eq, Structural)]
pub enum HttpMethod {
    Get,
    Post,
    Patch,
    Delete,
}

/// The body of a request: none, JSON text, or form fields to be url-encoded.
#[derive(Debug)]
pub enum RequestBody {
    Empty,
    Json(String),
    Form(Vec<(String, String)>),
}

/// A request for the transport to send. `headers` are set first, in order;
/// then each entry of `extra_headers`, the caller's own headers.
#[derive(Debug)]
pub struct HttpRequest {
    pub method: HttpMethod,
    pub url: String,
    pub headers: Vec<(String, String)>,
    pub extra_headers: Option<HashMap<String, String>>,
    pub body: RequestBody,
}

/// The abstract value of a request body.
pub enum BodyView {
    Empty,
    Json(Seq<char>),
    Form(Seq<(Seq<char>, Seq<char>)>),
}

/// The abstract value of a request.
pub struct RequestView {
    pub method: HttpMethod,
    pub url: Seq<char>,
    pub headers: Seq<(Seq<char>, Seq<char>)>,
    pub extra_headers: Option<Map<String, String>>,
    pub body: BodyView,
}

/// The views of a sequence of string pairs.
pub open spec fn pairs(v: Seq<(String, String)>) -> Seq<(Seq<char>, Seq<char>)> {
    v.map_values(|p: (String, String)| (p.0@, p.1@))
}

/// The abstract value of the caller's extra headers.
pub open spec fn headers_view(h: Option<HashMap<String, String>>) -> Option<Map<String, String>> {
    match h {
        Some(m) => Some(m@),
        None => None,
    }
}

impl View for RequestBody {
    type V = BodyView;

    open spec fn view(&self) -> BodyView {
        match self {
            RequestBody::Empty => BodyView::Empty,
            RequestBody::Json(t) => BodyView::Json(t@),
            RequestBody::Form(f) => BodyView::Form(pairs(f@)),
        }
    }
}

impl View for HttpRequest {
    type V = RequestView;

    open spec fn view(&self) -> RequestView {
        RequestView {
            method: self.method,
            url: self.url@,
            headers: pairs(self.headers@),
            extra_headers: headers_view(self.extra_headers),
            body: self.body@,
        }
    }
}

/// Copies the caller's extra headers for another request.
pub fn copy_headers(h: &Option<HashMap<String, String>>) -> (res: Option<HashMap<String, String>>)
    ensures
        headers_view(res) == headers_view(*h),
{
    match h {
        Some(m) => Some(m.clone()),
        None => None,
    }
}

/// What the transport got for a request: either the request could not be
/// sent (with the message of the error), or a reply arrived, with its status
/// code, the status as text (such as `404 Not Found`), and its body or the
/// message of the error met while reading it.
#[derive(Debug)]
pub enum HttpReply {
    Unsent(String),
    Received { status: u16, status_line: String, body: Result<String, String> },
}

/// Whether a status code is in the 2xx range.
pub open spec fn is_success(status: u16) -> bool {
    200 <= status && status <= 299
}

/// The wording of the error messages of one kind of call; they differ
/// slightly from call to call.
#[derive(Clone, Copy, Debug, PartialEq, Eq, Structural)]
pub enum ReplyWording {
    /// Document reads, writes, lists and deletes.
    Standard,
    /// The server-timestamp commit.
    TimestampCommit,
    /// The increment commit.
    IncrementCommit,
    /// The field-deleting patch.
    FieldDelete,
    /// Identity and token calls, whose reply must also be JSON without an `error` member.
    Identity,
}

/// The message prefix when the request could not be sent.
pub open spec fn unsent_prefix(w: ReplyWording) -> Seq<char> {
    match w {
        ReplyWording::TimestampCommit => "Request failed:"@,
        ReplyWording::IncrementCommit => "Request Failed: "@,
        ReplyWording::FieldDelete => "Request Failed: "@,
        _ => "Request failed: "@,
    }
}

/// The message when the body could not be read.
pub open spec fn unread_message(w: ReplyWording, e: Seq<char>) -> Seq<char> {
    match w {
        ReplyWording::FieldDelete => "Failed to read response"@,
        ReplyWording::Identity => "Failed to parse response: "@ + e,
        _ => "Failed to read response: "@ + e,
    }
}

/// The separator between status and body in the message of a failed status.
pub open spec fn status_separator(w: ReplyWording) -> Seq<char> {
    match w {
        ReplyWording::IncrementCommit => ":"@,
        _ => ": "@,
    }
}

/// The message of the `error` member of a Firebase reply, when it has one:
/// the error's `message` string, or `Unknown Firebase error`.
pub open spec fn firebase_error_spec(text: Seq<char>) -> Option<Seq<char>> {
    let error = json_member(text, "error"@);
    firebase_error_of(
        error,
        match error {
            Some(e) => string_member(e, "message"@),
            None => None,
        },
    )
}

/// What a call gives for a reply: the body text for a 2xx reply, else an
/// error message; identity calls also refuse bodies that are not JSON or
/// that carry an `error` member.
pub open spec fn reply_outcome(w: ReplyWording, reply: HttpReply) -> Result<Seq<char>, Seq<char>> {
    match reply {
        HttpReply::Unsent(e) => Err(unsent_prefix(w) + e@),
        HttpReply::Received { status, status_line, body } => match body {
            Err(e) => Err(unread_message(w, e@)),
            Ok(text) => if !is_success(status) {
                Err("HTTP "@ + status_line@ + status_separator(w) + text@)
            } else if w == ReplyWording::Identity {
                identity_verdict(text@, json_parse_failure(text@), firebase_error_spec(text@))
            } else {
                Ok(text@)
            },
        },
    }
}

/// The view of a text result.
pub open spec fn result_text(r: Result<String, String>) -> Result<Seq<char>, Seq<char>> {
    match r {
        Ok(t) => Ok(t@),
        Err(e) => Err(e@),
    }
}

/// The Firebase error that a reply's `error` member states: none without
/// that member, else its `message` string, or `Unknown Firebase error`.
pub open spec fn firebase_error_of(error: Option<Seq<char>>, message: Option<Seq<char>>) -> Option<Seq<char>> {
    match error {
        Some(_) => Some(
            match message {
                Some(m) => m,
                None => "Unknown Firebase error"@,
            },
        ),
        None => None,
    }
}

/// Decides a Firebase reply from its `error` member (when it has one) and
/// that member's `message` string (when it has one).
pub fn firebase_error_from(error: Option<String>, message: Option<String>) -> (res: Result<(), String>)
    ensures
        match firebase_error_of(opt_text(error), opt_text(message)) {
            None => res is Ok,
            Some(m) => res matches Err(e) && e@ == m,
        },
{
    match error {
        Some(_) => match message {
            Some(m) => Err(m),
            None => Err(String::from_str("Unknown Firebase error")),
        },
        None => Ok(()),
    }
}

/// Refuses a Firebase reply that carries an `error` member, with that
/// error's message.
pub fn firebase_error(text: &str) -> (res: Result<(), String>)
    ensures
        match res {
            Ok(()) => firebase_error_spec(text@) is None,
            Err(m) => firebase_error_spec(text@) == Some(m@),
        },
{
    let error = json_get_member(text, "error");
    let message = match &error {
        Some(e) => string_member_of(e.as_str(), "message"),
        None => None,
    };
    firebase_error_from(error, message)
}

/// What an identity call gives for the body of a 2xx reply: the body, unless
/// it is not JSON (with the parser's message) or states a Firebase error.
pub open spec fn identity_verdict(
    text: Seq<char>,
    parse_failure: Option<Seq<char>>,
    firebase: Option<Seq<char>>,
) -> Result<Seq<char>, Seq<char>> {
    match parse_failure {
        Some(e) => Err("Failed to parse response: "@ + e),
        None => match firebase {
            Some(m) => Err(m),
            None => Ok(text),
        },
    }
}

/// Decides the body of a 2xx identity reply from the parser's verdict on it
/// and the Firebase error it states.
pub fn accept_identity_body(text: String, parse_failure: Option<String>, firebase: Result<(), String>) -> (res:
    Result<String, String>)
    ensures
        result_text(res) == identity_verdict(
            text@,
            opt_text(parse_failure),
            match firebase {
                Ok(()) => None,
                Err(m) => Some(m@),
            },
        ),
{
    match parse_failure {
        Some(e) => Err(String::from_str("Failed to parse response: ").concat(e.as_str())),
        None => match firebase {
            Err(m) => Err(m),
            Ok(()) => Ok(text),
        },
    }
}

/// The message prefix when the request could not be sent.
fn unsent_prefix_text(w: ReplyWording) -> (res: &'static str)
    ensures
        res@ == unsent_prefix(w),
{
    match w {
        ReplyWording::TimestampCommit => "Request failed:",
        ReplyWording::IncrementCommit => "Request Failed: ",
        ReplyWording::FieldDelete => "Request Failed: ",
        _ => "Request failed: ",
    }
}

/// Turns the transport's reply into the call's result: the body text of a
/// 2xx reply, or the error message that the call's wording gives.
pub fn complete(wording: ReplyWording, reply: HttpReply) -> (res: Result<String, String>)
    ensures
        result_text(res) == reply_outcome(wording, reply),
{
    match reply {
        HttpReply::Unsent(e) => Err(String::from_str(unsent_prefix_text(wording)).concat(e.as_str())),
        HttpReply::Received { status, status_line, body } => match body {
            Err(e) => match wording {
                ReplyWording::FieldDelete => Err(String::from_str("Failed to read response")),
                ReplyWording::Identity => Err(String::from_str("Failed to parse response: ").concat(e.as_str())),
                _ => Err(String::from_str("Failed to read response: ").concat(e.as_str())),
            },
            Ok(text) => {
                if !(200 <= status && status <= 299) {
                    let sep = match wording {
                        ReplyWording::IncrementCommit => ":",
                        _ => ": ",
                    };
                    Err(String::from_str("HTTP ").concat(status_line.as_str()).concat(sep).concat(text.as_str()))
                } else {
                    match wording {
                        ReplyWording::Identity => {
                            let parse_failure = json_check(text.as_str());
                            let firebase = firebase_error(text.as_str());
                            accept_identity_body(text, parse_failure, firebase)
                        },
                        _ => Ok(text),
                    }
                }
            },
        },
    }
}

/// A single request together with how its reply is read.
#[derive(Debug)]
pub struct Call {
    pub request: HttpRequest,
    pub wording: ReplyWording,
}

} // verus!
