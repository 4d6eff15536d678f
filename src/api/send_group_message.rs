//! Sends a message to a group.

use vstd::prelude::*;
use crate::api::{ApiRequest, UnwrapStrategy};
use crate::types::QQ;
use crate::chain::MessageChain;

verus! {

/// The request of this operation.
#[derive(Debug, Clone, PartialEq, Eq)]
pub struct Request {
    /// The group to send to.
    pub target: QQ,
    /// The id of a message to quote.
    pub quote: Option<i64>,
    /// The message.
    pub message: MessageChain,
}

impl ApiRequest for Request {
    open spec fn command_name(&self) -> Seq<char> {
        "sendGroupMessage"@
    }

    open spec fn sub_command_name(&self) -> Option<Seq<char>> {
        None
    }

    open spec fn strategy_of(&self) -> UnwrapStrategy {
        UnwrapStrategy::Flatten
    }

    fn command(&self) -> (r: &'static str) {
        "sendGroupMessage"
    }

    fn sub_command(&self) -> (r: Option<&'static str>) {
        None
    }

    fn strategy(&self) -> (r: UnwrapStrategy) {
        UnwrapStrategy::Flatten
    }
}

} // verus!
