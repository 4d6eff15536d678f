//! Answers an invitation of the bot into a group.

use vstd::prelude::*;
use crate::api::{ApiRequest, UnwrapStrategy};
use crate::types::QQ;

verus! {

/// The request of this operation.
#[derive(Debug, Clone, PartialEq, Eq)]
pub struct Request {
    /// The session key.
    pub session_key: String,
    /// The id of the invitation event.
    pub event_id: i64,
    /// Who invited the bot.
    pub from_id: QQ,
    /// The group.
    pub group_id: QQ,
    /// 0 to accept, 1 to refuse.
    pub operate: i32,
    /// The answer's message.
    pub message: String,
}

impl ApiRequest for Request {
    open spec fn command_name(&self) -> Seq<char> {
        "resp_botInvitedJoinGroupRequestEvent"@
    }

    open spec fn sub_command_name(&self) -> Option<Seq<char>> {
        None
    }

    open spec fn strategy_of(&self) -> UnwrapStrategy {
        UnwrapStrategy::Flatten
    }

    fn command(&self) -> (r: &'static str) {
        "resp_botInvitedJoinGroupRequestEvent"
    }

    fn sub_command(&self) -> (r: Option<&'static str>) {
        None
    }

    fn strategy(&self) -> (r: UnwrapStrategy) {
        UnwrapStrategy::Flatten
    }
}

} // verus!
