//! Messages and events as the gateway delivers them.

use vstd::prelude::*;
use crate::chain::MessageChain;
use crate::events::Event;
use crate::types::{FriendMember, GroupMember};

verus! {

/// A private message from a friend.
#[derive(Debug, Clone, PartialEq, Eq)]
pub struct FriendMessage {
    pub sender: FriendMember,
    pub message: MessageChain,
}

/// A message in a group.
#[derive(Debug, Clone, PartialEq, Eq)]
pub struct GroupMessage {
    pub sender: GroupMember,
    pub message: MessageChain,
}

/// A temporary message from a member of a group.
#[derive(Debug, Clone, PartialEq, Eq)]
pub struct TempMessage {
    pub sender: GroupMember,
    pub message: MessageChain,
}

/// A message from a stranger.
#[derive(Debug, Clone, PartialEq, Eq)]
pub struct StrangerMessage {
    pub sender: FriendMember,
    pub message: MessageChain,
}

/// What the gateway delivers: a message of one of four kinds, or an event.
#[derive(Debug, Clone, PartialEq, Eq)]
pub enum Message {
    Friend(FriendMessage),
    Group(GroupMessage),
    Temp(TempMessage),
    Stranger(StrangerMessage),
    Event(Event),
}

impl Message {
    /// The text this delivery reads as: that of its chain for a message,
    /// none for an event.
    pub open spec fn text_of(&self) -> Option<Seq<char>> {
        match self {
            Message::Friend(m) => Some(m.message.text_of()),
            Message::Group(m) => Some(m.message.text_of()),
            Message::Temp(m) => Some(m.message.text_of()),
            Message::Stranger(m) => Some(m.message.text_of()),
            Message::Event(_) => None,
        }
    }

    /// The text this delivery reads as, if it is a message.
    pub fn text(&self) -> (r: Option<String>)
        ensures
            r is Some <==> self.text_of() is Some,
            r is Some ==> r->Some_0@ == self.text_of()->Some_0,
    {
        match self {
            Message::Friend(m) => Some(m.message.to_text()),
            Message::Group(m) => Some(m.message.to_text()),
            Message::Temp(m) => Some(m.message.to_text()),
            Message::Stranger(m) => Some(m.message.to_text()),
            Message::Event(_) => None,
        }
    }
}

} // verus!
