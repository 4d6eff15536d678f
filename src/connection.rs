//! The decisions of the connection: what an inbound frame is, and what the
//! run loop does with each thing the transport hands it.

use vstd::prelude::*;
use crate::api::{encode_frame, frame_text};
use crate::error::Error;
use crate::json::{decimal_i64, parse_i64, parse_json, parsed_json, Json};

verus! {

/// The correlation id a `syncId` member gives: `Some(None)` for none (the
/// member absent, or an empty string), `Some(Some(n))` for a number or a
/// decimal string, and `None` where the member is malformed.
pub open spec fn sync_id_of(field: Option<Json>) -> Option<Option<int>> {
    match field {
        None => Some(None),
        Some(Json::Int(n)) => Some(Some(n as int)),
        Some(Json::Str(s)) => if s@.len() == 0 {
            Some(None)
        } else {
            match decimal_i64(s@) {
                Some(n) => Some(Some(n)),
                None => None,
            }
        },
        _ => None,
    }
}

/// Reads the correlation id of a frame from its `syncId` member.
pub fn from_string_ignore_error(field: Option<&Json>) -> (r: Result<Option<i64>, Error>)
    ensures
        match sync_id_of(match field { Some(f) => Some(*f), None => None }) {
            Some(Some(n)) => r matches Ok(Some(x)) && x as int == n,
            Some(None) => r matches Ok(None),
            None => r matches Err(Error::Format { .. }),
        },
{
    match field {
        None => Ok(None),
        Some(Json::Int(n)) => Ok(Some(*n)),
        Some(Json::Str(s)) => {
            if s.unicode_len() == 0 {
                Ok(None)
            } else {
                match parse_i64(s.as_str()) {
                    Some(n) => Ok(Some(n)),
                    None => Err(Error::format("syncId is not a number")),
                }
            }
        },
        _ => Err(Error::format("syncId is neither a number nor a string")),
    }
}

/// An inbound frame, sorted.
#[derive(Debug)]
pub enum Inbound {
    /// The reply to the request with this correlation id.
    Reply { id: i64, data: Json },
    /// An event for every handler.
    Broadcast { data: Json },
}

/// How a frame whose JSON value is `frame` is sorted: a positive
/// correlation id makes it a reply, anything else an event; its body is the
/// member `data`, which must be there.
pub open spec fn classified(frame: Json, r: Result<Inbound, Error>) -> bool {
    match (sync_id_of(frame.member("syncId"@)), frame.member("data"@)) {
        (Some(Some(id)), Some(d)) => if id > 0 {
            r matches Ok(Inbound::Reply { id: x, data }) && x as int == id && data == d
        } else {
            r matches Ok(Inbound::Broadcast { data }) && data == d
        },
        (Some(None), Some(d)) => r matches Ok(Inbound::Broadcast { data }) && data == d,
        _ => r matches Err(Error::Format { .. }),
    }
}

/// Sorts the JSON value of a frame.
pub fn classify_value(frame: Json) -> (r: Result<Inbound, Error>)
    ensures
        classified(frame, r),
{
    let id = from_string_ignore_error(frame.get("syncId"));
    let id = match id {
        Ok(id) => id,
        Err(e) => {
            return Err(e);
        },
    };
    let data = match frame.into_member("data") {
        Some(d) => d,
        None => {
            return Err(Error::format("frame has no data"));
        },
    };
    match id {
        Some(n) => if n > 0 {
            Ok(Inbound::Reply { id: n, data })
        } else {
            Ok(Inbound::Broadcast { data })
        },
        None => Ok(Inbound::Broadcast { data }),
    }
}

/// Sorts the text of a frame; a text that is no JSON is a JSON error.
pub fn classify_frame(text: &str) -> (r: Result<Inbound, Error>)
    ensures
        match parsed_json(text@) {
            None => r matches Err(Error::Json(_)),
            Some(v) => classified(v, r),
        },
{
    match parse_json(text) {
        Ok(v) => classify_value(v),
        Err(e) => Err(Error::Json(e)),
    }
}

/// What the transport handed the run loop.
pub enum Transport {
    /// A text frame.
    Text(String),
    /// A frame the protocol does not use: binary, ping, pong.
    Other,
    /// The peer closed the connection, or the stream ended.
    Closed,
    /// The transport failed, for this reason.
    Failed(String),
}

/// What the run loop does next.
#[derive(Debug)]
pub enum Step {
    /// Hand `data` to the request waiting under `id`, if one still does.
    Deliver { id: i64, data: Json },
    /// Decode `data` as an event and publish it. A decoding failure is an
    /// error unless the frame was the first one, which may acknowledge the
    /// connection instead.
    Publish { data: Json, first: bool },
    /// Nothing to do for this frame.
    Skip,
    /// Report this error for the frame, and go on.
    Report(Error),
    /// Stop: the connection is closed.
    Stop,
}

/// The step for a text frame whose sorting came to `c`, where `started`
/// says whether a frame was received before it.
pub open spec fn text_step(c: Result<Inbound, Error>, started: bool, r: Step) -> bool {
    match c {
        Ok(Inbound::Reply { id, data }) => r matches Step::Deliver { id: x, data: d } && x == id && d == data,
        Ok(Inbound::Broadcast { data }) => r matches Step::Publish { data: d, first: f } && d == data && f == !started,
        Err(e) => if !started { r is Skip } else { r == Step::Report(e) },
    }
}

/// The state of a connection: whether a frame has been received yet, and
/// whether it is closed. Closing is final.
pub struct ConnectionState {
    started: bool,
    closed: bool,
}

impl ConnectionState {
    /// Whether a frame has been received.
    pub closed spec fn has_started(&self) -> bool {
        self.started
    }

    /// Whether the connection is closed.
    pub closed spec fn is_closed_spec(&self) -> bool {
        self.closed
    }

    /// A connection that is open and has received nothing.
    pub fn new() -> (r: Self)
        ensures
            !r.has_started(),
            !r.is_closed_spec(),
    {
        ConnectionState { started: false, closed: false }
    }

    /// Whether the connection is closed.
    pub fn is_closed(&self) -> (r: bool)
        ensures
            r == self.is_closed_spec(),
    {
        self.closed
    }

    /// Closes the connection: the request channel was dropped, or a write
    /// failed.
    pub fn close(&mut self)
        ensures
            final(self).is_closed_spec(),
            final(self).has_started() == old(self).has_started(),
    {
        self.closed = true;
    }

    /// The step for what the transport handed over. Once closed, every step
    /// is `Stop`. A frame that cannot be read is reported, except the first.
    pub fn on_transport(&mut self, t: Transport) -> (r: Step)
        ensures
            old(self).is_closed_spec() ==> r is Stop && *final(self) == *old(self),
            !old(self).is_closed_spec() ==> match t {
                Transport::Text(s) => {
                    &&& final(self).has_started()
                    &&& !final(self).is_closed_spec()
                    &&& exists|c: Result<Inbound, Error>| {
                        &&& #[trigger] text_step(c, old(self).has_started(), r)
                        &&& match parsed_json(s@) {
                            None => c matches Err(Error::Json(_)),
                            Some(v) => classified(v, c),
                        }
                    }
                },
                Transport::Other => r is Skip && *final(self) == *old(self),
                _ => r is Stop && final(self).is_closed_spec()
                    && final(self).has_started() == old(self).has_started(),
            },
    {
        if self.closed {
            return Step::Stop;
        }
        match t {
            Transport::Text(s) => {
                let first = !self.started;
                self.started = true;
                let c = classify_frame(s.as_str());
                let ghost gc = c;
                let r = match c {
                    Ok(Inbound::Reply { id, data }) => Step::Deliver { id, data },
                    Ok(Inbound::Broadcast { data }) => Step::Publish { data, first },
                    Err(e) => if first {
                        Step::Skip
                    } else {
                        Step::Report(e)
                    },
                };
                assert(text_step(gc, old(self).has_started(), r));
                assert(match parsed_json(s@) {
                    None => gc matches Err(Error::Json(_)),
                    Some(v) => classified(v, gc),
                });
                r
            },
            Transport::Other => Step::Skip,
            _ => {
                self.closed = true;
                Step::Stop
            },
        }
    }

    /// The frame to write for a request, or `ConnectionClosed` once the
    /// connection is closed.
    pub fn outbound(&self, sync_id: i64, command: &str, sub_command: Option<&str>, content: &str) -> (r: Result<String, Error>)
        ensures
            self.is_closed_spec() ==> r matches Err(Error::ConnectionClosed),
            !self.is_closed_spec() ==> r is Ok && r->Ok_0@ == frame_text(sync_id as int, command@, match sub_command {
                Some(s) => Some(s@),
                None => None,
            }, content@),
    {
        if self.closed {
            Err(Error::ConnectionClosed)
        } else {
            Ok(encode_frame(sync_id, command, sub_command, content))
        }
    }
}

} // verus!
