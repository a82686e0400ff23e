//! One authenticated HTTP exchange: the request that a tool sends, the reply
//! that may come back, and the error that a failed exchange becomes.

use crate::json::{
    compact_text, error_message, json_of, null, parse, parse_of, to_compact_text, Json,
};
use crate::text::{decimal, decimal_string, lemma_occurs_in_middle, occurs_in};
use vstd::prelude::*;

verus! {

/// The HTTP methods that the tools use.
#[derive(Clone, Copy, Debug, PartialEq, Eq, Structural)]
pub enum Method {
    Get,
    Put,
    Post,
}

/// The upstream service that a request goes to.
#[derive(Clone, Copy, Debug, PartialEq, Eq, Structural)]
pub enum Service {
    Github,
    Jira,
}

/// One header line of a request.
#[derive(Debug)]
pub struct Header {
    pub name: String,
    pub value: String,
}

impl View for Header {
    type V = (Seq<char>, Seq<char>);

    open spec fn view(&self) -> (Seq<char>, Seq<char>) {
        (self.name@, self.value@)
    }
}

/// A request, ready to be sent: the headers in the order in which they are to
/// be attached, and the body as the text to transmit.
#[derive(Debug)]
pub struct Request {
    pub method: Method,
    pub url: String,
    pub headers: Vec<Header>,
    pub body: Option<String>,
}

/// What a [`Request`] says.
pub struct RequestView {
    pub method: Method,
    pub url: Seq<char>,
    pub headers: Seq<(Seq<char>, Seq<char>)>,
    pub body: Option<Seq<char>>,
}

impl View for Request {
    type V = RequestView;

    open spec fn view(&self) -> RequestView {
        RequestView {
            method: self.method,
            url: self.url@,
            headers: self.headers@.map_values(|header: Header| header@),
            body: match self.body {
                Some(text) => Some(text@),
                None => None,
            },
        }
    }
}

/// How an exchange ended, as the transport saw it.
#[derive(Debug)]
pub enum Reply {
    /// Sending failed; the transport's account of it.
    SendFailed(String),
    /// A response arrived, but its body could not be read; the transport's
    /// account of it.
    ReadFailed(String),
    /// A response arrived whole.
    Complete { status: u16, body: String },
}

/// What a [`Reply`] says.
pub enum ReplyView {
    SendFailed(Seq<char>),
    ReadFailed(Seq<char>),
    Complete { status: u16, body: Seq<char> },
}

impl View for Reply {
    type V = ReplyView;

    open spec fn view(&self) -> ReplyView {
        match self {
            Reply::SendFailed(detail) => ReplyView::SendFailed(detail@),
            Reply::ReadFailed(detail) => ReplyView::ReadFailed(detail@),
            Reply::Complete { status, body } => ReplyView::Complete {
                status: *status,
                body: body@,
            },
        }
    }
}

/// The classes of error that a tool reports. There is one: every failure is
/// an internal error, told apart from the others by its message alone.
#[derive(Clone, Copy, Debug, PartialEq, Eq, Structural)]
pub enum ErrorKind {
    Internal,
}

/// The error of a failed tool call.
#[derive(Debug)]
pub struct ToolError {
    pub kind: ErrorKind,
    pub message: String,
}

/// The name of `service` in messages.
pub open spec fn label(service: Service) -> Seq<char> {
    match service {
        Service::Github => "GitHub"@,
        Service::Jira => "Jira"@,
    }
}

/// `status` lies in the success range, 200 to 299.
pub open spec fn succeeded(status: u16) -> bool {
    200 <= status < 300
}

/// The standard reason phrase of `status`, where it has one.
pub uninterp spec fn reason_of(status: u16) -> Option<Seq<char>>;

/// A status line: the code in decimal, then its reason phrase.
pub open spec fn status_text(status: u16) -> Seq<char> {
    decimal(status as nat) + " "@ + match reason_of(status) {
        Some(reason) => reason,
        None => "<unknown status code>"@,
    }
}

/// The value of the header that carries the bearer credential `token`.
pub open spec fn bearer(token: Seq<char>) -> Seq<char> {
    "Bearer "@ + token
}

/// The message for a request that could not be sent.
pub open spec fn send_failure(detail: Seq<char>) -> Seq<char> {
    "Failed to send request: "@ + detail
}

/// The message for a response body that could not be read.
pub open spec fn read_failure(detail: Seq<char>) -> Seq<char> {
    "Failed to read response body: "@ + detail
}

/// The message for a response outside the success range: the status line and
/// the body as it came.
pub open spec fn status_failure(service: Service, status: u16, body: Seq<char>) -> Seq<char> {
    label(service) + " API Error "@ + status_text(status) + ": "@ + body
}

/// The message for a body that is no JSON text.
pub open spec fn parse_failure(detail: Seq<char>) -> Seq<char> {
    "Failed to parse JSON response: "@ + detail
}

/// The headers of a request, in order: what is accepted, the kind of the
/// body where there is one, and the credential where one is configured.
pub open spec fn headers_for(accept: Seq<char>, has_body: bool, token: Option<Seq<char>>) -> Seq<
    (Seq<char>, Seq<char>),
> {
    seq![("Accept"@, accept)] + (if has_body {
        seq![("Content-Type"@, "application/json"@)]
    } else {
        Seq::<(Seq<char>, Seq<char>)>::empty()
    }) + (match token {
        Some(token) => seq![("Authorization"@, bearer(token))],
        None => Seq::<(Seq<char>, Seq<char>)>::empty(),
    })
}

/// The text of the body of a successful exchange, or the message of the
/// failure. Failures come in the order send, read, status.
pub open spec fn body_in(service: Service, reply: ReplyView) -> Result<Seq<char>, Seq<char>> {
    match reply {
        ReplyView::SendFailed(detail) => Err(send_failure(detail)),
        ReplyView::ReadFailed(detail) => Err(read_failure(detail)),
        ReplyView::Complete { status, body } => if succeeded(status) {
            Ok(body)
        } else {
            Err(status_failure(service, status, body))
        },
    }
}

/// The JSON content of a successful exchange, or the message of the failure.
/// An empty body stands for null.
pub open spec fn json_in(service: Service, reply: ReplyView) -> Result<Json, Seq<char>> {
    match body_in(service, reply) {
        Ok(body) => if body.len() == 0 {
            Ok(Json::Null)
        } else {
            match parse_of(body) {
                Ok(json) => Ok(json),
                Err(detail) => Err(parse_failure(detail)),
            }
        },
        Err(message) => Err(message),
    }
}

/// The view of an optional text.
pub open spec fn option_view(text: Option<String>) -> Option<Seq<char>> {
    match text {
        Some(text) => Some(text@),
        None => None,
    }
}

/// Calls `StatusCode::canonical_reason` of `reqwest` on the status code made
/// of `status`: the reason phrase from the crate's table, nothing for a code
/// that the table lacks or that is no status code at all.
#[verifier::external_body]
pub(crate) fn canonical_reason(status: u16) -> (r: Option<&'static str>)
    ensures
        match r {
            Some(reason) => reason_of(status) == Some(reason@),
            None => reason_of(status) is None,
        },
{
    reqwest::StatusCode::from_u16(status).ok().and_then(|code| code.canonical_reason())
}

/// Whether `status` lies in the success range.
pub fn is_success(status: u16) -> (r: bool)
    ensures
        r == succeeded(status),
{
    200 <= status && status < 300
}

/// Writes the status line of `status`.
pub fn status_line(status: u16) -> (r: String)
    ensures
        r@ == status_text(status),
{
    let mut r = decimal_string(status as u64);
    r.append(" ");
    match canonical_reason(status) {
        Some(reason) => r.append(reason),
        None => r.append("<unknown status code>"),
    }
    r
}

impl Service {
    /// The name of the service in messages.
    pub fn label(self) -> (r: &'static str)
        ensures
            r@ == label(self),
    {
        match self {
            Service::Github => "GitHub",
            Service::Jira => "Jira",
        }
    }
}

impl ToolError {
    /// An internal error with the given message.
    pub fn internal(message: String) -> (r: ToolError)
        ensures
            r.kind == ErrorKind::Internal,
            r.message == message,
    {
        ToolError { kind: ErrorKind::Internal, message }
    }
}

/// The text `head` followed by `tail`.
pub(crate) fn join(head: &str, tail: &str) -> (r: String)
    ensures
        r@ == head@ + tail@,
{
    let mut r = String::from_str(head);
    r.append(tail);
    r
}

/// Plans a request: `method` on `url`, accepting `accept`, with the
/// credential `token` if there is one and the JSON value `body` if there is
/// one.
pub fn plan(
    method: Method,
    url: String,
    accept: &str,
    token: &Option<String>,
    body: Option<&serde_json::Value>,
) -> (r: Request)
    ensures
        r@ == (RequestView {
            method,
            url: url@,
            headers: headers_for(accept@, body is Some, option_view(*token)),
            body: match body {
                Some(value) => Some(compact_text(json_of(*value))),
                None => None,
            },
        }),
{
    let mut headers: Vec<Header> = Vec::new();
    headers.push(Header { name: String::from_str("Accept"), value: String::from_str(accept) });
    let text = match body {
        Some(value) => {
            headers.push(
                Header {
                    name: String::from_str("Content-Type"),
                    value: String::from_str("application/json"),
                },
            );
            Some(to_compact_text(value))
        },
        None => None,
    };
    match token {
        Some(token) => {
            headers.push(
                Header {
                    name: String::from_str("Authorization"),
                    value: join("Bearer ", token.as_str()),
                },
            );
        },
        None => {},
    }
    let r = Request { method, url, headers, body: text };
    assert(r@.headers =~= headers_for(accept@, body is Some, option_view(*token)));
    r
}

/// Reads the body of a reply: the text on success, else the error.
pub fn read_text(service: Service, reply: Reply) -> (r: Result<String, ToolError>)
    ensures
        match r {
            Ok(body) => body_in(service, reply@) == Ok::<Seq<char>, Seq<char>>(body@),
            Err(error) => error.kind == ErrorKind::Internal && body_in(service, reply@) == Err::<
                Seq<char>,
                Seq<char>,
            >(error.message@),
        },
{
    match reply {
        Reply::SendFailed(detail) => Err(
            ToolError::internal(join("Failed to send request: ", detail.as_str())),
        ),
        Reply::ReadFailed(detail) => Err(
            ToolError::internal(join("Failed to read response body: ", detail.as_str())),
        ),
        Reply::Complete { status, body } => {
            if is_success(status) {
                Ok(body)
            } else {
                let mut message = String::from_str(service.label());
                message.append(" API Error ");
                message.append(status_line(status).as_str());
                message.append(": ");
                message.append(body.as_str());
                Err(ToolError::internal(message))
            }
        },
    }
}

/// Reads the JSON value of a reply: null for an empty body, the parsed body
/// otherwise, else the error.
pub fn read_json(service: Service, reply: Reply) -> (r: Result<serde_json::Value, ToolError>)
    ensures
        match r {
            Ok(value) => json_in(service, reply@) == Ok::<Json, Seq<char>>(json_of(value)),
            Err(error) => error.kind == ErrorKind::Internal && json_in(service, reply@) == Err::<
                Json,
                Seq<char>,
            >(error.message@),
        },
{
    match read_text(service, reply) {
        Ok(body) => {
            if body.as_str().is_empty() {
                Ok(null())
            } else {
                match parse(body.as_str()) {
                    Ok(value) => Ok(value),
                    Err(error) => Err(
                        ToolError::internal(
                            join("Failed to parse JSON response: ", error_message(&error).as_str()),
                        ),
                    ),
                }
            }
        },
        Err(error) => Err(error),
    }
}

/// A reply outside the success range becomes an error whose message shows
/// the status code in decimal and the body as it came.
pub proof fn lemma_status_failure_shows_code_and_body(
    service: Service,
    status: u16,
    body: Seq<char>,
)
    requires
        !succeeded(status),
    ensures
        body_in(service, ReplyView::Complete { status, body }) == Err::<Seq<char>, Seq<char>>(
            status_failure(service, status, body),
        ),
        json_in(service, ReplyView::Complete { status, body }) == Err::<Json, Seq<char>>(
            status_failure(service, status, body),
        ),
        occurs_in(decimal(status as nat), status_failure(service, status, body)),
        occurs_in(body, status_failure(service, status, body)),
{
    let reason = match reason_of(status) {
        Some(reason) => reason,
        None => "<unknown status code>"@,
    };
    let code = decimal(status as nat);
    let message = status_failure(service, status, body);
    let before = label(service) + " API Error "@;
    let after = " "@ + reason + ": "@ + body;
    assert(message =~= before + code + after);
    lemma_occurs_in_middle(before, code, after);
    let front = label(service) + " API Error "@ + status_text(status) + ": "@;
    assert(message =~= front + body + Seq::<char>::empty());
    lemma_occurs_in_middle(front, body, Seq::<char>::empty());
}

/// An empty body on a successful status reads as null, not as a parse error.
pub proof fn lemma_empty_body_is_null(service: Service, status: u16)
    requires
        succeeded(status),
    ensures
        json_in(service, ReplyView::Complete { status, body: Seq::<char>::empty() }) == Ok::<
            Json,
            Seq<char>,
        >(Json::Null),
{
}

} // verus!
