//! Recalls a message.

use vstd::prelude::*;
use crate::api::{ApiRequest, UnwrapStrategy};

verus! {

/// The request of this operation.
#[derive(Debug, Clone, PartialEq, Eq)]
pub struct Request {
    /// The id of the message to recall.
    pub message_id: i64,
}

impl ApiRequest for Request {
    open spec fn command_name(&self) -> Seq<char> {
        "recall"@
    }

    open spec fn sub_command_name(&self) -> Option<Seq<char>> {
        None
    }

    open spec fn strategy_of(&self) -> UnwrapStrategy {
        UnwrapStrategy::Default
    }

    fn command(&self) -> (r: &'static str) {
        "recall"
    }

    fn sub_command(&self) -> (r: Option<&'static str>) {
        None
    }

    fn strategy(&self) -> (r: UnwrapStrategy) {
        UnwrapStrategy::Default
    }
}

/// The response of this operation: nothing.
#[derive(Debug, Clone, Copy, PartialEq, Eq, Structural, Default)]
pub struct Response;

} // verus!
