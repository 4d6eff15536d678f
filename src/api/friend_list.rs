//! Lists the bot's friends.

use vstd::prelude::*;
use crate::api::{ApiRequest, UnwrapStrategy};

verus! {

/// The request of this operation.
#[derive(Debug, Clone, PartialEq, Eq)]
pub struct Request;

impl ApiRequest for Request {
    open spec fn command_name(&self) -> Seq<char> {
        "friendList"@
    }

    open spec fn sub_command_name(&self) -> Option<Seq<char>> {
        None
    }

    open spec fn strategy_of(&self) -> UnwrapStrategy {
        UnwrapStrategy::Data
    }

    fn command(&self) -> (r: &'static str) {
        "friendList"
    }

    fn sub_command(&self) -> (r: Option<&'static str>) {
        None
    }

    fn strategy(&self) -> (r: UnwrapStrategy) {
        UnwrapStrategy::Data
    }
}

} // verus!
