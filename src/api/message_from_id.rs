//! Fetches a cached message by its id.

use vstd::prelude::*;
use crate::api::{ApiRequest, UnwrapStrategy};
use crate::types::QQ;

verus! {

/// The request of this operation.
#[derive(Debug, Clone, PartialEq, Eq)]
pub struct Request {
    /// The id of the message.
    pub target: QQ,
}

impl ApiRequest for Request {
    open spec fn command_name(&self) -> Seq<char> {
        "messageFromId"@
    }

    open spec fn sub_command_name(&self) -> Option<Seq<char>> {
        None
    }

    open spec fn strategy_of(&self) -> UnwrapStrategy {
        UnwrapStrategy::Data
    }

    fn command(&self) -> (r: &'static str) {
        "messageFromId"
    }

    fn sub_command(&self) -> (r: Option<&'static str>) {
        None
    }

    fn strategy(&self) -> (r: UnwrapStrategy) {
        UnwrapStrategy::Data
    }
}

} // verus!
