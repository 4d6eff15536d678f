//! The errors the library reports.

use vstd::prelude::*;
use vstd::string::*;

verus! {

/// Why a request or a frame failed.
#[derive(Debug)]
pub enum Error {
    /// The transport failed.
    Websocket(String),
    /// A text was no JSON.
    Json(serde_json::Error),
    /// A JSON value did not have the shape the protocol asks for.
    Format { reason: String },
    /// The connection is closed; nothing more can be sent or received.
    ConnectionClosed,
    /// No reply came before the deadline.
    RequestTimeout,
    /// A timeout that is not longer than zero.
    InvalidTimeout,
    /// The gateway answered with a non-zero status code.
    Request { code: i32, msg: String },
}

impl Error {
    /// A format error with the given reason.
    pub fn format(reason: &str) -> (r: Self)
        ensures
            r matches Error::Format { reason: x } && x@ == reason@,
    {
        Error::Format { reason: String::from_str(reason) }
    }
}

} // verus!
