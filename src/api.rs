//! Requests to the gateway: the frame a request travels in, and how the
//! reply envelope is unwrapped into the response body.

pub mod friend_list;
pub mod group_list;
pub mod member_list;
pub mod message_from_id;
pub mod recall;
pub mod resp_bot_invited_join_group_request_event;
pub mod send_friend_message;
pub mod send_group_message;

use vstd::prelude::*;
use vstd::string::*;
use crate::error::Error;
use crate::json::{decimal_text, i64_text, json_string_literal, Json};

verus! {

/// Where the response body stands in a reply envelope.
#[derive(Debug, Clone, Copy, PartialEq, Eq, Structural)]
pub enum UnwrapStrategy {
    /// In the member `data`, which must be there.
    Data,
    /// The envelope itself, its other members read as the response.
    Flatten,
    /// In the member `data`; where it is absent the response takes its default.
    Default,
}

/// An operation of the gateway that a request names.
pub trait ApiRequest {
    /// The command name of the operation.
    spec fn command_name(&self) -> Seq<char>;

    /// The sub-command name of the operation, if it has one.
    spec fn sub_command_name(&self) -> Option<Seq<char>>;

    /// The command name of the operation.
    fn command(&self) -> (r: &'static str)
        ensures
            r@ == self.command_name();

    /// The sub-command name, for operations that have one.
    fn sub_command(&self) -> (r: Option<&'static str>)
        ensures
            r is Some <==> self.sub_command_name() is Some,
            r is Some ==> r->Some_0@ == self.sub_command_name()->Some_0;

    /// Where the response of the operation stands in the reply envelope.
    spec fn strategy_of(&self) -> UnwrapStrategy;

    /// Where the response stands in the reply envelope.
    fn strategy(&self) -> (r: UnwrapStrategy)
        ensures
            r == self.strategy_of();
}

/// The text of the frame that carries a request: its correlation id, command,
/// sub-command or null, and the JSON text of its content.
pub open spec fn frame_text(sync_id: int, command: Seq<char>, sub_command: Option<Seq<char>>, content: Seq<char>) -> Seq<char> {
    "{\"syncId\":"@ + decimal_text(sync_id)
        + ",\"command\":"@ + json_string_literal(command)
        + ",\"subCommand\":"@ + match sub_command {
            Some(s) => json_string_literal(s),
            None => "null"@,
        }
        + ",\"content\":"@ + content + "}"@
}

/// Relies on `serde_json::to_string` of a `&str`: the quoted and escaped
/// literal of a text.
#[verifier::external_body]
fn quote_json(s: &str) -> (r: String)
    ensures
        r@ == json_string_literal(s@),
{
    serde_json::to_string(s).unwrap_or_default()
}

/// The frame that carries a request; `content` is the JSON text of its body.
pub fn encode_frame(sync_id: i64, command: &str, sub_command: Option<&str>, content: &str) -> (r: String)
    ensures
        r@ == frame_text(sync_id as int, command@, match sub_command {
            Some(s) => Some(s@),
            None => None,
        }, content@),
{
    let mut out = String::from_str("{\"syncId\":");
    let id = i64_text(sync_id);
    out.append(id.as_str());
    out.append(",\"command\":");
    let c = quote_json(command);
    out.append(c.as_str());
    out.append(",\"subCommand\":");
    match sub_command {
        Some(s) => {
            let q = quote_json(s);
            out.append(q.as_str());
        },
        None => {
            out.append("null");
        },
    }
    out.append(",\"content\":");
    out.append(content);
    out.append("}");
    out
}

/// The frame that carries `request` under `sync_id`.
pub fn encode_request<R: ApiRequest>(request: &R, sync_id: i64, content: &str) -> (r: String)
    ensures
        r@ == frame_text(sync_id as int, request.command_name(), request.sub_command_name(), content@),
{
    encode_frame(sync_id, request.command(), request.sub_command(), content)
}

/// The status code of an envelope, if it has one that fits an `i32`.
pub open spec fn status_of(envelope: Json) -> Option<i32> {
    match envelope.member("code"@) {
        Some(Json::Int(c)) => if i32::MIN <= c <= i32::MAX { Some(c as i32) } else { None },
        _ => None,
    }
}

/// The message of an envelope: empty where it has none, and `None` where
/// it has one that is not a string.
pub open spec fn status_message_of(envelope: Json) -> Option<Seq<char>> {
    match envelope.member("msg"@) {
        Some(Json::Str(m)) => Some(m@),
        None => Some(Seq::empty()),
        _ => None,
    }
}

/// Unwraps a reply envelope: a non-zero status code is a request error that
/// carries the code and the message; otherwise the response body, where the
/// strategy puts it. `None` stands for a body to take by default.
pub fn unwrap_reply(envelope: Json, strategy: UnwrapStrategy) -> (r: Result<Option<Json>, Error>)
    ensures
        match (status_of(envelope), status_message_of(envelope)) {
            (Some(c), Some(m)) => if c != 0 {
                r matches Err(Error::Request { code, msg }) && code == c && msg@ == m
            } else {
                match strategy {
                    UnwrapStrategy::Data => match envelope.member("data"@) {
                        Some(d) => r == Ok::<Option<Json>, Error>(Some(d)),
                        None => r matches Err(Error::Format { .. }),
                    },
                    UnwrapStrategy::Flatten => r == Ok::<Option<Json>, Error>(Some(envelope)),
                    UnwrapStrategy::Default => r == Ok::<Option<Json>, Error>(envelope.member("data"@)),
                }
            },
            _ => r matches Err(Error::Format { .. }),
        },
{
    let code: i32 = match envelope.get("code") {
        Some(Json::Int(c)) => {
            if *c < -2147483648 || *c > 2147483647 {
                return Err(Error::format("reply code out of range"));
            }
            *c as i32
        },
        _ => {
            return Err(Error::format("reply has no code"));
        },
    };
    let msg: String = match envelope.get("msg") {
        Some(Json::Str(m)) => m.clone(),
        None => String::new(),
        _ => {
            return Err(Error::format("reply msg is not a string"));
        },
    };
    if code != 0 {
        return Err(Error::Request { code, msg });
    }
    match strategy {
        UnwrapStrategy::Data => match envelope.into_member("data") {
            Some(d) => Ok(Some(d)),
            None => Err(Error::format("reply has no data")),
        },
        UnwrapStrategy::Flatten => Ok(Some(envelope)),
        UnwrapStrategy::Default => Ok(envelope.into_member("data")),
    }
}

/// The reply to sending a message.
#[derive(Debug, Clone, Copy, PartialEq, Eq, Structural)]
pub struct SendMessageResponse {
    /// The id of the message sent, to recall or quote it later.
    pub message_id: i64,
}

impl SendMessageResponse {
    /// Reads the response from a reply body: its member `messageId`.
    pub fn from_body(body: &Json) -> (r: Result<Self, Error>)
        ensures
            match body.member("messageId"@) {
                Some(Json::Int(id)) => r == Ok::<Self, Error>(SendMessageResponse { message_id: id }),
                _ => r matches Err(Error::Format { .. }),
            },
    {
        match body.get("messageId") {
            Some(Json::Int(id)) => Ok(SendMessageResponse { message_id: *id }),
            _ => Err(Error::format("reply has no messageId")),
        }
    }
}

} // verus!
