//! A tool call in two steps: the planned exchange, and the reading of its
//! reply into the tool's one text.

use crate::github::{without_bot_comments, without_bots};
use crate::http::{
    body_in, json_in, lemma_status_failure_shows_code_and_body, read_json, read_text,
    status_failure, succeeded, ErrorKind, Reply, ReplyView, Request, Service, ToolError,
};
use crate::json::{parse_of, pretty_text, to_pretty_text, Json};
use crate::text::{decimal, occurs_in};
use vstd::prelude::*;

verus! {

/// How a tool turns a successful reply into its text.
#[derive(Clone, Copy, Debug, PartialEq, Eq, Structural)]
pub enum Reading {
    /// The JSON value of the body, printed with indentation.
    Json,
    /// As `Json`, after the comments written by bots have been dropped.
    Comments,
    /// The body as it came.
    Text,
    /// A fixed confirmation; the body has to be JSON or empty, and is
    /// discarded.
    Confirmation,
}

/// One planned tool call: the request to send, and how to read the reply.
#[derive(Debug)]
pub struct Call {
    pub service: Service,
    pub request: Request,
    pub reading: Reading,
}

/// What a server says of itself to those who list its tools.
#[derive(Debug)]
pub struct ServerDescription {
    pub name: String,
    pub instructions: String,
}

/// The text that confirms an edit.
pub open spec fn confirmation() -> Seq<char> {
    "Issue updated successfully."@
}

/// The result of a tool call whose exchange ended in `reply`: the tool's
/// text, or the message of its error.
pub open spec fn output_of(service: Service, reading: Reading, reply: ReplyView) -> Result<
    Seq<char>,
    Seq<char>,
> {
    match reading {
        Reading::Text => body_in(service, reply),
        _ => match json_in(service, reply) {
            Ok(json) => Ok(
                match reading {
                    Reading::Comments => pretty_text(without_bots(json)),
                    Reading::Confirmation => confirmation(),
                    _ => pretty_text(json),
                },
            ),
            Err(message) => Err(message),
        },
    }
}

impl Call {
    /// Reads the reply to this call's request into the tool's result.
    pub fn finish(&self, reply: Reply) -> (r: Result<String, ToolError>)
        ensures
            match r {
                Ok(text) => output_of(self.service, self.reading, reply@) == Ok::<
                    Seq<char>,
                    Seq<char>,
                >(text@),
                Err(error) => error.kind == ErrorKind::Internal && output_of(
                    self.service,
                    self.reading,
                    reply@,
                ) == Err::<Seq<char>, Seq<char>>(error.message@),
            },
    {
        match self.reading {
            Reading::Text => read_text(self.service, reply),
            Reading::Json => match read_json(self.service, reply) {
                Ok(value) => Ok(to_pretty_text(&value)),
                Err(error) => Err(error),
            },
            Reading::Comments => match read_json(self.service, reply) {
                Ok(value) => Ok(to_pretty_text(&without_bot_comments(value))),
                Err(error) => Err(error),
            },
            Reading::Confirmation => match read_json(self.service, reply) {
                Ok(_) => Ok(String::from_str("Issue updated successfully.")),
                Err(error) => Err(error),
            },
        }
    }
}

/// A successful reply with a JSON body gives that body's value, printed with
/// indentation; where comments are read, that value without the comments of
/// bots.
pub proof fn lemma_json_output_is_pretty_body(
    service: Service,
    status: u16,
    body: Seq<char>,
    json: Json,
)
    requires
        succeeded(status),
        body.len() > 0,
        parse_of(body) == Ok::<Json, Seq<char>>(json),
    ensures
        output_of(service, Reading::Json, ReplyView::Complete { status, body }) == Ok::<
            Seq<char>,
            Seq<char>,
        >(pretty_text(json)),
        output_of(service, Reading::Comments, ReplyView::Complete { status, body }) == Ok::<
            Seq<char>,
            Seq<char>,
        >(pretty_text(without_bots(json))),
{
}

/// A successful reply to an edit gives the confirmation, whatever JSON the
/// body holds and also where it is empty.
pub proof fn lemma_edit_output_is_confirmation(service: Service, status: u16, body: Seq<char>)
    requires
        succeeded(status),
        body.len() == 0 || parse_of(body) is Ok,
    ensures
        output_of(service, Reading::Confirmation, ReplyView::Complete { status, body }) == Ok::<
            Seq<char>,
            Seq<char>,
        >(confirmation()),
{
}

/// Whatever the tool, a reply outside the success range gives an error
/// whose message shows the status code in decimal and the body as it came.
pub proof fn lemma_failed_status_is_reported(
    service: Service,
    reading: Reading,
    status: u16,
    body: Seq<char>,
)
    requires
        !succeeded(status),
    ensures
        output_of(service, reading, ReplyView::Complete { status, body }) == Err::<
            Seq<char>,
            Seq<char>,
        >(status_failure(service, status, body)),
        occurs_in(decimal(status as nat), status_failure(service, status, body)),
        occurs_in(body, status_failure(service, status, body)),
{
    lemma_status_failure_shows_code_and_body(service, status, body);
}

/// A successful reply without a body reads as null: a tool that prints JSON
/// prints null, and no tool reports a parse error.
pub proof fn lemma_empty_body_reads_as_null(service: Service, reading: Reading, status: u16)
    requires
        succeeded(status),
    ensures
        output_of(service, reading, ReplyView::Complete { status, body: Seq::<char>::empty() })
            is Ok,
        output_of(
            service,
            Reading::Json,
            ReplyView::Complete { status, body: Seq::<char>::empty() },
        ) == Ok::<Seq<char>, Seq<char>>(pretty_text(Json::Null)),
{
}

} // verus!
