//! What the backend's answer means to the caller: the body of a success, or
//! the words in which a failure is shown to the user.

use vstd::prelude::*;
use vstd::string::*;
use crate::api::ApiRequest;
use crate::text::{decimal_text, decimal_text_of, option_text};

verus! {

/// Member of an error body that holds the backend's own words.
pub const DETAIL_MEMBER: &'static str = "detail";

/// An answer of the backend, read to its end.
pub struct HttpReply {
    /// Status code.
    pub status: u16,
    /// Reason phrase that goes with the code, such as `Not Found`.
    pub reason: String,
    /// The body as text, empty where it could not be read.
    pub body: String,
}

/// What came of sending a request: an answer, or the reason why there is
/// none.
pub enum Exchange {
    /// The backend answered, with whatever status.
    Answered(HttpReply),
    /// No answer: the connection failed or the time ran out.
    Failed(String),
}

/// Codes 200 to 299.
pub open spec fn is_success_status(status: u16) -> bool {
    200 <= status < 300
}

/// Whether `status` is one of the success codes.
pub fn is_success(status: u16) -> (success: bool)
    ensures
        success == is_success_status(status),
{
    200 <= status && status < 300
}

/// The string that the JSON text `text` holds under `key`: `text` parsed by
/// `serde_json` is an object, and its member `key` is a string. `None` in
/// every other case.
pub uninterp spec fn json_string_member(text: Seq<char>, key: Seq<char>) -> Option<Seq<char>>;

/// `serde_json::from_str` to a `serde_json::Value`, then `Value::get` with
/// `key`, then `Value::as_str`.
///
/// Trusted: the result is what `json_string_member` names, the same for the
/// same text and key.
#[verifier::external_body]
fn parse_string_member(text: &str, key: &str) -> (member: Option<String>)
    ensures
        option_text(member) == json_string_member(text@, key@),
{
    let parsed: Result<serde_json::Value, serde_json::Error> = serde_json::from_str(text);
    match parsed {
        Ok(value) => match value.get(key) {
            Some(found) => match found.as_str() {
                Some(string) => Some(string.to_string()),
                None => None,
            },
            None => None,
        },
        Err(_) => None,
    }
}

/// What an error body has to say: its detail where it had one, the whole
/// body where it had none.
pub open spec fn detail_or(detail: Option<Seq<char>>, body: Seq<char>) -> Seq<char> {
    match detail {
        Some(words) => words,
        None => body,
    }
}

/// A status as it is shown: the code in decimal and its reason phrase.
pub open spec fn status_line_of(status: u16, reason: Seq<char>) -> Seq<char> {
    decimal_text_of(status as nat) + " "@ + reason
}

/// A refusal by the backend, in the words shown to the user: what failed,
/// the status, and what the error body had to say.
pub open spec fn failure_message_of(
    failure: Seq<char>,
    status: u16,
    reason: Seq<char>,
    detail: Seq<char>,
) -> Seq<char> {
    failure + " "@ + status_line_of(status, reason) + ": "@ + detail
}

/// The message for a refusal: what failed, the status, and the detail.
pub fn failure_message(failure: &str, status: u16, reason: &str, detail: &str) -> (message: String)
    ensures
        message@ == failure_message_of(failure@, status, reason@, detail@),
{
    let code = decimal_text(status);
    let line = code.concat(" ").concat(reason);
    String::from_str(failure).concat(" ").concat(line.as_str()).concat(": ").concat(detail)
}

/// The message for a request that got no answer.
pub fn network_error(cause: &str) -> (message: String)
    ensures
        message@ == "Network error: "@ + cause@,
{
    String::from_str("Network error: ").concat(cause)
}

/// The message for an answer whose body is not what was expected.
pub fn parse_error(cause: &str) -> (message: String)
    ensures
        message@ == "Parse error: "@ + cause@,
{
    String::from_str("Parse error: ").concat(cause)
}

/// What a result of strings holds.
pub open spec fn result_text(result: Result<String, String>) -> Result<Seq<char>, Seq<char>> {
    match result {
        Ok(text) => Ok(text@),
        Err(text) => Err(text@),
    }
}

/// What the caller of an operation gets: the body of an answer with a
/// success code; for any other answer a message made of the operation's
/// words for failure, the status and what the error body has to say; for
/// no answer a message that says so. `detail` is the detail found in the
/// body, if any.
pub open spec fn outcome_of(
    failure: Seq<char>,
    exchange: Exchange,
    detail: Option<Seq<char>>,
) -> Result<Seq<char>, Seq<char>> {
    match exchange {
        Exchange::Failed(cause) => Err("Network error: "@ + cause@),
        Exchange::Answered(reply) => if is_success_status(reply.status) {
            Ok(reply.body@)
        } else {
            Err(
                failure_message_of(
                    failure,
                    reply.status,
                    reply.reason@,
                    detail_or(detail, reply.body@),
                ),
            )
        },
    }
}

/// The caller's result of an exchange, given the detail that was found in
/// the body.
pub fn settle(failure: &str, exchange: Exchange, detail: Option<String>) -> (result: Result<
    String,
    String,
>)
    ensures
        result_text(result) == outcome_of(failure@, exchange, option_text(detail)),
{
    match exchange {
        Exchange::Failed(cause) => Err(network_error(cause.as_str())),
        Exchange::Answered(reply) => {
            if is_success(reply.status) {
                Ok(reply.body)
            } else {
                let shown = match detail {
                    Some(words) => words,
                    None => reply.body,
                };
                Err(failure_message(failure, reply.status, reply.reason.as_str(), shown.as_str()))
            }
        },
    }
}

/// The detail that the body of an answer holds, if it is JSON and has one.
pub open spec fn detail_in(exchange: Exchange) -> Option<Seq<char>> {
    match exchange {
        Exchange::Answered(reply) => json_string_member(reply.body@, DETAIL_MEMBER@),
        Exchange::Failed(_) => None,
    }
}

/// Turns what came of `request` into the caller's result, looking into the
/// body of a refusal for its detail.
pub fn read_reply(request: &ApiRequest, exchange: Exchange) -> (result: Result<String, String>)
    ensures
        result_text(result) == outcome_of(request.failure@, exchange, detail_in(exchange)),
{
    let detail = match &exchange {
        Exchange::Answered(reply) => {
            if is_success(reply.status) {
                None
            } else {
                parse_string_member(reply.body.as_str(), DETAIL_MEMBER)
            }
        },
        Exchange::Failed(_) => None,
    };
    settle(request.failure.as_str(), exchange, detail)
}

/// Whether the probe found a backend: it answered, and with a success
/// code. No answer means no backend, never an error.
pub fn backend_is_healthy(exchange: &Exchange) -> (healthy: bool)
    ensures
        healthy == (exchange matches Exchange::Answered(reply) && is_success_status(reply.status)),
{
    match exchange {
        Exchange::Answered(reply) => is_success(reply.status),
        Exchange::Failed(_) => false,
    }
}

} // verus!
