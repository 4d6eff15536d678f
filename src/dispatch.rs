//! The extractor protocol: how a handler's inputs are drawn from a delivery,
//! and how its result turns into an effect.

use vstd::prelude::*;
use crate::events::{
    Event,
    BotOnlineEvent,
    BotOfflineEventActive,
    BotOfflineEventForce,
    BotOfflineEventDropped,
    BotReloginEvent,
    FriendInputStatusChangedEvent,
    FriendNickChangedEvent,
    BotGroupPermissionChangeEvent,
    BotMuteEvent,
    BotUnmuteEvent,
    BotJoinGroupEvent,
    BotLeaveEventActive,
    BotLeaveEventKick,
    GroupRecallEvent,
    FriendRecallEvent,
    GroupNameChangeEvent,
    GroupEntranceAnnouncementChangeEvent,
    GroupMuteAllEvent,
    GroupAllowAnonymousChatEvent,
    GroupAllowConfessTalkEvent,
    GroupAllowMemberInviteEvent,
    MemberJoinEvent,
    MemberLeaveEventKick,
    MemberLeaveEventQuit,
    MemberCardChangeEvent,
    MemberSpecialTitleChangeEvent,
    MemberPermissionChangeEvent,
    MemberMuteEvent,
    MemberUnmuteEvent,
    MemberHonorChangeEvent,
    NewFriendRequestEvent,
    MemberJoinRequestEvent,
    BotInvitedJoinGroupRequestEvent,
    CommandExecutedEvent,
};
use crate::message::{FriendMessage, GroupMessage, Message, StrangerMessage, TempMessage};
use crate::types::QQ;

verus! {

/// An application that delivers messages of one type to its handlers.
pub trait App: Sized + Clone {
    /// What the application delivers.
    type Message: Clone;
}

/// One delivery: the application and the message delivered.
#[derive(Clone)]
pub struct Request<A: App> {
    pub app: A,
    pub message: A::Message,
}

/// A value that a handler can ask for, drawn from a delivery when the
/// delivery has it.
pub trait FromRequest<A: App>: Sized {
    /// Whether this value can be drawn from `request`; always, unless an
    /// implementation says otherwise.
    open spec fn applies(request: Request<A>) -> bool {
        true
    }

    /// The value drawn from `request`, or none when it does not apply.
    fn from_request(request: &Request<A>) -> (r: Option<Self>)
        ensures
            r is Some <==> Self::applies(*request);
}

impl<A: App> FromRequest<A> for () {
    open spec fn applies(request: Request<A>) -> bool {
        true
    }

    fn from_request(request: &Request<A>) -> (r: Option<Self>) {
        Some(())
    }
}

impl<A: App, T1: FromRequest<A>> FromRequest<A> for (T1,) {
    open spec fn applies(request: Request<A>) -> bool {
        T1::applies(request)
    }

    fn from_request(request: &Request<A>) -> (r: Option<Self>) {
        let x0 = T1::from_request(request)?;
        Some((x0,))
    }
}

impl<A: App, T1: FromRequest<A>, T2: FromRequest<A>> FromRequest<A> for (T1, T2) {
    open spec fn applies(request: Request<A>) -> bool {
        T1::applies(request) && T2::applies(request)
    }

    fn from_request(request: &Request<A>) -> (r: Option<Self>) {
        let x0 = T1::from_request(request)?;
        let x1 = T2::from_request(request)?;
        Some((x0, x1))
    }
}

impl<A: App, T1: FromRequest<A>, T2: FromRequest<A>, T3: FromRequest<A>> FromRequest<A> for (T1, T2, T3) {
    open spec fn applies(request: Request<A>) -> bool {
        T1::applies(request) && T2::applies(request) && T3::applies(request)
    }

    fn from_request(request: &Request<A>) -> (r: Option<Self>) {
        let x0 = T1::from_request(request)?;
        let x1 = T2::from_request(request)?;
        let x2 = T3::from_request(request)?;
        Some((x0, x1, x2))
    }
}

impl<A: App, T1: FromRequest<A>, T2: FromRequest<A>, T3: FromRequest<A>, T4: FromRequest<A>> FromRequest<A> for (T1, T2, T3, T4) {
    open spec fn applies(request: Request<A>) -> bool {
        T1::applies(request) && T2::applies(request) && T3::applies(request) && T4::applies(request)
    }

    fn from_request(request: &Request<A>) -> (r: Option<Self>) {
        let x0 = T1::from_request(request)?;
        let x1 = T2::from_request(request)?;
        let x2 = T3::from_request(request)?;
        let x3 = T4::from_request(request)?;
        Some((x0, x1, x2, x3))
    }
}

impl<A: App, T1: FromRequest<A>, T2: FromRequest<A>, T3: FromRequest<A>, T4: FromRequest<A>, T5: FromRequest<A>> FromRequest<A> for (T1, T2, T3, T4, T5) {
    open spec fn applies(request: Request<A>) -> bool {
        T1::applies(request) && T2::applies(request) && T3::applies(request) && T4::applies(request) && T5::applies(request)
    }

    fn from_request(request: &Request<A>) -> (r: Option<Self>) {
        let x0 = T1::from_request(request)?;
        let x1 = T2::from_request(request)?;
        let x2 = T3::from_request(request)?;
        let x3 = T4::from_request(request)?;
        let x4 = T5::from_request(request)?;
        Some((x0, x1, x2, x3, x4))
    }
}

impl<A: App, T1: FromRequest<A>, T2: FromRequest<A>, T3: FromRequest<A>, T4: FromRequest<A>, T5: FromRequest<A>, T6: FromRequest<A>> FromRequest<A> for (T1, T2, T3, T4, T5, T6) {
    open spec fn applies(request: Request<A>) -> bool {
        T1::applies(request) && T2::applies(request) && T3::applies(request) && T4::applies(request) && T5::applies(request) && T6::applies(request)
    }

    fn from_request(request: &Request<A>) -> (r: Option<Self>) {
        let x0 = T1::from_request(request)?;
        let x1 = T2::from_request(request)?;
        let x2 = T3::from_request(request)?;
        let x3 = T4::from_request(request)?;
        let x4 = T5::from_request(request)?;
        let x5 = T6::from_request(request)?;
        Some((x0, x1, x2, x3, x4, x5))
    }
}

impl<A: App, T1: FromRequest<A>, T2: FromRequest<A>, T3: FromRequest<A>, T4: FromRequest<A>, T5: FromRequest<A>, T6: FromRequest<A>, T7: FromRequest<A>> FromRequest<A> for (T1, T2, T3, T4, T5, T6, T7) {
    open spec fn applies(request: Request<A>) -> bool {
        T1::applies(request) && T2::applies(request) && T3::applies(request) && T4::applies(request) && T5::applies(request) && T6::applies(request) && T7::applies(request)
    }

    fn from_request(request: &Request<A>) -> (r: Option<Self>) {
        let x0 = T1::from_request(request)?;
        let x1 = T2::from_request(request)?;
        let x2 = T3::from_request(request)?;
        let x3 = T4::from_request(request)?;
        let x4 = T5::from_request(request)?;
        let x5 = T6::from_request(request)?;
        let x6 = T7::from_request(request)?;
        Some((x0, x1, x2, x3, x4, x5, x6))
    }
}

impl<A: App, T1: FromRequest<A>, T2: FromRequest<A>, T3: FromRequest<A>, T4: FromRequest<A>, T5: FromRequest<A>, T6: FromRequest<A>, T7: FromRequest<A>, T8: FromRequest<A>> FromRequest<A> for (T1, T2, T3, T4, T5, T6, T7, T8) {
    open spec fn applies(request: Request<A>) -> bool {
        T1::applies(request) && T2::applies(request) && T3::applies(request) && T4::applies(request) && T5::applies(request) && T6::applies(request) && T7::applies(request) && T8::applies(request)
    }

    fn from_request(request: &Request<A>) -> (r: Option<Self>) {
        let x0 = T1::from_request(request)?;
        let x1 = T2::from_request(request)?;
        let x2 = T3::from_request(request)?;
        let x3 = T4::from_request(request)?;
        let x4 = T5::from_request(request)?;
        let x5 = T6::from_request(request)?;
        let x6 = T7::from_request(request)?;
        let x7 = T8::from_request(request)?;
        Some((x0, x1, x2, x3, x4, x5, x6, x7))
    }
}

impl<A: App, T1: FromRequest<A>, T2: FromRequest<A>, T3: FromRequest<A>, T4: FromRequest<A>, T5: FromRequest<A>, T6: FromRequest<A>, T7: FromRequest<A>, T8: FromRequest<A>, T9: FromRequest<A>> FromRequest<A> for (T1, T2, T3, T4, T5, T6, T7, T8, T9) {
    open spec fn applies(request: Request<A>) -> bool {
        T1::applies(request) && T2::applies(request) && T3::applies(request) && T4::applies(request) && T5::applies(request) && T6::applies(request) && T7::applies(request) && T8::applies(request) && T9::applies(request)
    }

    fn from_request(request: &Request<A>) -> (r: Option<Self>) {
        let x0 = T1::from_request(request)?;
        let x1 = T2::from_request(request)?;
        let x2 = T3::from_request(request)?;
        let x3 = T4::from_request(request)?;
        let x4 = T5::from_request(request)?;
        let x5 = T6::from_request(request)?;
        let x6 = T7::from_request(request)?;
        let x7 = T8::from_request(request)?;
        let x8 = T9::from_request(request)?;
        Some((x0, x1, x2, x3, x4, x5, x6, x7, x8))
    }
}

impl<A: App, T1: FromRequest<A>, T2: FromRequest<A>, T3: FromRequest<A>, T4: FromRequest<A>, T5: FromRequest<A>, T6: FromRequest<A>, T7: FromRequest<A>, T8: FromRequest<A>, T9: FromRequest<A>, T10: FromRequest<A>> FromRequest<A> for (T1, T2, T3, T4, T5, T6, T7, T8, T9, T10) {
    open spec fn applies(request: Request<A>) -> bool {
        T1::applies(request) && T2::applies(request) && T3::applies(request) && T4::applies(request) && T5::applies(request) && T6::applies(request) && T7::applies(request) && T8::applies(request) && T9::applies(request) && T10::applies(request)
    }

    fn from_request(request: &Request<A>) -> (r: Option<Self>) {
        let x0 = T1::from_request(request)?;
        let x1 = T2::from_request(request)?;
        let x2 = T3::from_request(request)?;
        let x3 = T4::from_request(request)?;
        let x4 = T5::from_request(request)?;
        let x5 = T6::from_request(request)?;
        let x6 = T7::from_request(request)?;
        let x7 = T8::from_request(request)?;
        let x8 = T9::from_request(request)?;
        let x9 = T10::from_request(request)?;
        Some((x0, x1, x2, x3, x4, x5, x6, x7, x8, x9))
    }
}

impl<A: App<Message = Message>> FromRequest<A> for Message {
    open spec fn applies(request: Request<A>) -> bool {
        true
    }

    fn from_request(request: &Request<A>) -> (r: Option<Self>) {
        Some(request.message.clone())
    }
}

impl<A: App<Message = Message>> FromRequest<A> for FriendMessage {
    open spec fn applies(request: Request<A>) -> bool {
        request.message is Friend
    }

    fn from_request(request: &Request<A>) -> (r: Option<Self>) {
        match &request.message {
            Message::Friend(m) => Some(m.clone()),
            _ => None,
        }
    }
}

impl<A: App<Message = Message>> FromRequest<A> for GroupMessage {
    open spec fn applies(request: Request<A>) -> bool {
        request.message is Group
    }

    fn from_request(request: &Request<A>) -> (r: Option<Self>) {
        match &request.message {
            Message::Group(m) => Some(m.clone()),
            _ => None,
        }
    }
}

impl<A: App<Message = Message>> FromRequest<A> for TempMessage {
    open spec fn applies(request: Request<A>) -> bool {
        request.message is Temp
    }

    fn from_request(request: &Request<A>) -> (r: Option<Self>) {
        match &request.message {
            Message::Temp(m) => Some(m.clone()),
            _ => None,
        }
    }
}

impl<A: App<Message = Message>> FromRequest<A> for StrangerMessage {
    open spec fn applies(request: Request<A>) -> bool {
        request.message is Stranger
    }

    fn from_request(request: &Request<A>) -> (r: Option<Self>) {
        match &request.message {
            Message::Stranger(m) => Some(m.clone()),
            _ => None,
        }
    }
}

impl<A: App<Message = Message>> FromRequest<A> for Event {
    open spec fn applies(request: Request<A>) -> bool {
        request.message is Event
    }

    fn from_request(request: &Request<A>) -> (r: Option<Self>) {
        match &request.message {
            Message::Event(m) => Some(m.clone()),
            _ => None,
        }
    }
}

impl<A: App<Message = Message>> FromRequest<A> for BotOnlineEvent {
    open spec fn applies(request: Request<A>) -> bool {
        request.message matches Message::Event(Event::BotOnlineEvent(_))
    }

    fn from_request(request: &Request<A>) -> (r: Option<Self>) {
        match &request.message {
            Message::Event(Event::BotOnlineEvent(e)) => Some(e.clone()),
            _ => None,
        }
    }
}

impl<A: App<Message = Message>> FromRequest<A> for BotOfflineEventActive {
    open spec fn applies(request: Request<A>) -> bool {
        request.message matches Message::Event(Event::BotOfflineEventActive(_))
    }

    fn from_request(request: &Request<A>) -> (r: Option<Self>) {
        match &request.message {
            Message::Event(Event::BotOfflineEventActive(e)) => Some(e.clone()),
            _ => None,
        }
    }
}

impl<A: App<Message = Message>> FromRequest<A> for BotOfflineEventForce {
    open spec fn applies(request: Request<A>) -> bool {
        request.message matches Message::Event(Event::BotOfflineEventForce(_))
    }

    fn from_request(request: &Request<A>) -> (r: Option<Self>) {
        match &request.message {
            Message::Event(Event::BotOfflineEventForce(e)) => Some(e.clone()),
            _ => None,
        }
    }
}

impl<A: App<Message = Message>> FromRequest<A> for BotOfflineEventDropped {
    open spec fn applies(request: Request<A>) -> bool {
        request.message matches Message::Event(Event::BotOfflineEventDropped(_))
    }

    fn from_request(request: &Request<A>) -> (r: Option<Self>) {
        match &request.message {
            Message::Event(Event::BotOfflineEventDropped(e)) => Some(e.clone()),
            _ => None,
        }
    }
}

impl<A: App<Message = Message>> FromRequest<A> for BotReloginEvent {
    open spec fn applies(request: Request<A>) -> bool {
        request.message matches Message::Event(Event::BotReloginEvent(_))
    }

    fn from_request(request: &Request<A>) -> (r: Option<Self>) {
        match &request.message {
            Message::Event(Event::BotReloginEvent(e)) => Some(e.clone()),
            _ => None,
        }
    }
}

impl<A: App<Message = Message>> FromRequest<A> for FriendInputStatusChangedEvent {
    open spec fn applies(request: Request<A>) -> bool {
        request.message matches Message::Event(Event::FriendInputStatusChangedEvent(_))
    }

    fn from_request(request: &Request<A>) -> (r: Option<Self>) {
        match &request.message {
            Message::Event(Event::FriendInputStatusChangedEvent(e)) => Some(e.clone()),
            _ => None,
        }
    }
}

impl<A: App<Message = Message>> FromRequest<A> for FriendNickChangedEvent {
    open spec fn applies(request: Request<A>) -> bool {
        request.message matches Message::Event(Event::FriendNickChangedEvent(_))
    }

    fn from_request(request: &Request<A>) -> (r: Option<Self>) {
        match &request.message {
            Message::Event(Event::FriendNickChangedEvent(e)) => Some(e.clone()),
            _ => None,
        }
    }
}

impl<A: App<Message = Message>> FromRequest<A> for BotGroupPermissionChangeEvent {
    open spec fn applies(request: Request<A>) -> bool {
        request.message matches Message::Event(Event::BotGroupPermissionChangeEvent(_))
    }

    fn from_request(request: &Request<A>) -> (r: Option<Self>) {
        match &request.message {
            Message::Event(Event::BotGroupPermissionChangeEvent(e)) => Some(e.clone()),
            _ => None,
        }
    }
}

impl<A: App<Message = Message>> FromRequest<A> for BotMuteEvent {
    open spec fn applies(request: Request<A>) -> bool {
        request.message matches Message::Event(Event::BotMuteEvent(_))
    }

    fn from_request(request: &Request<A>) -> (r: Option<Self>) {
        match &request.message {
            Message::Event(Event::BotMuteEvent(e)) => Some(e.clone()),
            _ => None,
        }
    }
}

impl<A: App<Message = Message>> FromRequest<A> for BotUnmuteEvent {
    open spec fn applies(request: Request<A>) -> bool {
        request.message matches Message::Event(Event::BotUnmuteEvent(_))
    }

    fn from_request(request: &Request<A>) -> (r: Option<Self>) {
        match &request.message {
            Message::Event(Event::BotUnmuteEvent(e)) => Some(e.clone()),
            _ => None,
        }
    }
}

impl<A: App<Message = Message>> FromRequest<A> for BotJoinGroupEvent {
    open spec fn applies(request: Request<A>) -> bool {
        request.message matches Message::Event(Event::BotJoinGroupEvent(_))
    }

    fn from_request(request: &Request<A>) -> (r: Option<Self>) {
        match &request.message {
            Message::Event(Event::BotJoinGroupEvent(e)) => Some(e.clone()),
            _ => None,
        }
    }
}

impl<A: App<Message = Message>> FromRequest<A> for BotLeaveEventActive {
    open spec fn applies(request: Request<A>) -> bool {
        request.message matches Message::Event(Event::BotLeaveEventActive(_))
    }

    fn from_request(request: &Request<A>) -> (r: Option<Self>) {
        match &request.message {
            Message::Event(Event::BotLeaveEventActive(e)) => Some(e.clone()),
            _ => None,
        }
    }
}

impl<A: App<Message = Message>> FromRequest<A> for BotLeaveEventKick {
    open spec fn applies(request: Request<A>) -> bool {
        request.message matches Message::Event(Event::BotLeaveEventKick(_))
    }

    fn from_request(request: &Request<A>) -> (r: Option<Self>) {
        match &request.message {
            Message::Event(Event::BotLeaveEventKick(e)) => Some(e.clone()),
            _ => None,
        }
    }
}

impl<A: App<Message = Message>> FromRequest<A> for GroupRecallEvent {
    open spec fn applies(request: Request<A>) -> bool {
        request.message matches Message::Event(Event::GroupRecallEvent(_))
    }

    fn from_request(request: &Request<A>) -> (r: Option<Self>) {
        match &request.message {
            Message::Event(Event::GroupRecallEvent(e)) => Some(e.clone()),
            _ => None,
        }
    }
}

impl<A: App<Message = Message>> FromRequest<A> for FriendRecallEvent {
    open spec fn applies(request: Request<A>) -> bool {
        request.message matches Message::Event(Event::FriendRecallEvent(_))
    }

    fn from_request(request: &Request<A>) -> (r: Option<Self>) {
        match &request.message {
            Message::Event(Event::FriendRecallEvent(e)) => Some(e.clone()),
            _ => None,
        }
    }
}

impl<A: App<Message = Message>> FromRequest<A> for GroupNameChangeEvent {
    open spec fn applies(request: Request<A>) -> bool {
        request.message matches Message::Event(Event::GroupNameChangeEvent(_))
    }

    fn from_request(request: &Request<A>) -> (r: Option<Self>) {
        match &request.message {
            Message::Event(Event::GroupNameChangeEvent(e)) => Some(e.clone()),
            _ => None,
        }
    }
}

impl<A: App<Message = Message>> FromRequest<A> for GroupEntranceAnnouncementChangeEvent {
    open spec fn applies(request: Request<A>) -> bool {
        request.message matches Message::Event(Event::GroupEntranceAnnouncementChangeEvent(_))
    }

    fn from_request(request: &Request<A>) -> (r: Option<Self>) {
        match &request.message {
            Message::Event(Event::GroupEntranceAnnouncementChangeEvent(e)) => Some(e.clone()),
            _ => None,
        }
    }
}

impl<A: App<Message = Message>> FromRequest<A> for GroupMuteAllEvent {
    open spec fn applies(request: Request<A>) -> bool {
        request.message matches Message::Event(Event::GroupMuteAllEvent(_))
    }

    fn from_request(request: &Request<A>) -> (r: Option<Self>) {
        match &request.message {
            Message::Event(Event::GroupMuteAllEvent(e)) => Some(e.clone()),
            _ => None,
        }
    }
}

impl<A: App<Message = Message>> FromRequest<A> for GroupAllowAnonymousChatEvent {
    open spec fn applies(request: Request<A>) -> bool {
        request.message matches Message::Event(Event::GroupAllowAnonymousChatEvent(_))
    }

    fn from_request(request: &Request<A>) -> (r: Option<Self>) {
        match &request.message {
            Message::Event(Event::GroupAllowAnonymousChatEvent(e)) => Some(e.clone()),
            _ => None,
        }
    }
}

impl<A: App<Message = Message>> FromRequest<A> for GroupAllowConfessTalkEvent {
    open spec fn applies(request: Request<A>) -> bool {
        request.message matches Message::Event(Event::GroupAllowConfessTalkEvent(_))
    }

    fn from_request(request: &Request<A>) -> (r: Option<Self>) {
        match &request.message {
            Message::Event(Event::GroupAllowConfessTalkEvent(e)) => Some(e.clone()),
            _ => None,
        }
    }
}

impl<A: App<Message = Message>> FromRequest<A> for GroupAllowMemberInviteEvent {
    open spec fn applies(request: Request<A>) -> bool {
        request.message matches Message::Event(Event::GroupAllowMemberInviteEvent(_))
    }

    fn from_request(request: &Request<A>) -> (r: Option<Self>) {
        match &request.message {
            Message::Event(Event::GroupAllowMemberInviteEvent(e)) => Some(e.clone()),
            _ => None,
        }
    }
}

impl<A: App<Message = Message>> FromRequest<A> for MemberJoinEvent {
    open spec fn applies(request: Request<A>) -> bool {
        request.message matches Message::Event(Event::MemberJoinEvent(_))
    }

    fn from_request(request: &Request<A>) -> (r: Option<Self>) {
        match &request.message {
            Message::Event(Event::MemberJoinEvent(e)) => Some(e.clone()),
            _ => None,
        }
    }
}

impl<A: App<Message = Message>> FromRequest<A> for MemberLeaveEventKick {
    open spec fn applies(request: Request<A>) -> bool {
        request.message matches Message::Event(Event::MemberLeaveEventKick(_))
    }

    fn from_request(request: &Request<A>) -> (r: Option<Self>) {
        match &request.message {
            Message::Event(Event::MemberLeaveEventKick(e)) => Some(e.clone()),
            _ => None,
        }
    }
}

impl<A: App<Message = Message>> FromRequest<A> for MemberLeaveEventQuit {
    open spec fn applies(request: Request<A>) -> bool {
        request.message matches Message::Event(Event::MemberLeaveEventQuit(_))
    }

    fn from_request(request: &Request<A>) -> (r: Option<Self>) {
        match &request.message {
            Message::Event(Event::MemberLeaveEventQuit(e)) => Some(e.clone()),
            _ => None,
        }
    }
}

impl<A: App<Message = Message>> FromRequest<A> for MemberCardChangeEvent {
    open spec fn applies(request: Request<A>) -> bool {
        request.message matches Message::Event(Event::MemberCardChangeEvent(_))
    }

    fn from_request(request: &Request<A>) -> (r: Option<Self>) {
        match &request.message {
            Message::Event(Event::MemberCardChangeEvent(e)) => Some(e.clone()),
            _ => None,
        }
    }
}

impl<A: App<Message = Message>> FromRequest<A> for MemberSpecialTitleChangeEvent {
    open spec fn applies(request: Request<A>) -> bool {
        request.message matches Message::Event(Event::MemberSpecialTitleChangeEvent(_))
    }

    fn from_request(request: &Request<A>) -> (r: Option<Self>) {
        match &request.message {
            Message::Event(Event::MemberSpecialTitleChangeEvent(e)) => Some(e.clone()),
            _ => None,
        }
    }
}

impl<A: App<Message = Message>> FromRequest<A> for MemberPermissionChangeEvent {
    open spec fn applies(request: Request<A>) -> bool {
        request.message matches Message::Event(Event::MemberPermissionChangeEvent(_))
    }

    fn from_request(request: &Request<A>) -> (r: Option<Self>) {
        match &request.message {
            Message::Event(Event::MemberPermissionChangeEvent(e)) => Some(e.clone()),
            _ => None,
        }
    }
}

impl<A: App<Message = Message>> FromRequest<A> for MemberMuteEvent {
    open spec fn applies(request: Request<A>) -> bool {
        request.message matches Message::Event(Event::MemberMuteEvent(_))
    }

    fn from_request(request: &Request<A>) -> (r: Option<Self>) {
        match &request.message {
            Message::Event(Event::MemberMuteEvent(e)) => Some(e.clone()),
            _ => None,
        }
    }
}

impl<A: App<Message = Message>> FromRequest<A> for MemberUnmuteEvent {
    open spec fn applies(request: Request<A>) -> bool {
        request.message matches Message::Event(Event::MemberUnmuteEvent(_))
    }

    fn from_request(request: &Request<A>) -> (r: Option<Self>) {
        match &request.message {
            Message::Event(Event::MemberUnmuteEvent(e)) => Some(e.clone()),
            _ => None,
        }
    }
}

impl<A: App<Message = Message>> FromRequest<A> for MemberHonorChangeEvent {
    open spec fn applies(request: Request<A>) -> bool {
        request.message matches Message::Event(Event::MemberHonorChangeEvent(_))
    }

    fn from_request(request: &Request<A>) -> (r: Option<Self>) {
        match &request.message {
            Message::Event(Event::MemberHonorChangeEvent(e)) => Some(e.clone()),
            _ => None,
        }
    }
}

impl<A: App<Message = Message>> FromRequest<A> for NewFriendRequestEvent {
    open spec fn applies(request: Request<A>) -> bool {
        request.message matches Message::Event(Event::NewFriendRequestEvent(_))
    }

    fn from_request(request: &Request<A>) -> (r: Option<Self>) {
        match &request.message {
            Message::Event(Event::NewFriendRequestEvent(e)) => Some(e.clone()),
            _ => None,
        }
    }
}

impl<A: App<Message = Message>> FromRequest<A> for MemberJoinRequestEvent {
    open spec fn applies(request: Request<A>) -> bool {
        request.message matches Message::Event(Event::MemberJoinRequestEvent(_))
    }

    fn from_request(request: &Request<A>) -> (r: Option<Self>) {
        match &request.message {
            Message::Event(Event::MemberJoinRequestEvent(e)) => Some(e.clone()),
            _ => None,
        }
    }
}

impl<A: App<Message = Message>> FromRequest<A> for BotInvitedJoinGroupRequestEvent {
    open spec fn applies(request: Request<A>) -> bool {
        request.message matches Message::Event(Event::BotInvitedJoinGroupRequestEvent(_))
    }

    fn from_request(request: &Request<A>) -> (r: Option<Self>) {
        match &request.message {
            Message::Event(Event::BotInvitedJoinGroupRequestEvent(e)) => Some(e.clone()),
            _ => None,
        }
    }
}

impl<A: App<Message = Message>> FromRequest<A> for CommandExecutedEvent {
    open spec fn applies(request: Request<A>) -> bool {
        request.message matches Message::Event(Event::CommandExecutedEvent(_))
    }

    fn from_request(request: &Request<A>) -> (r: Option<Self>) {
        match &request.message {
            Message::Event(Event::CommandExecutedEvent(e)) => Some(e.clone()),
            _ => None,
        }
    }
}

/// The handlers to invoke for one delivery, given for each registered
/// handler whether its extractor applies: the positions of those that apply,
/// in order of registration.
pub fn invocation_plan(applies: &Vec<bool>) -> (r: Vec<usize>)
    ensures
        forall|i: int, j: int| 0 <= i < j < r@.len() ==> r@[i] < r@[j],
        forall|i: int| 0 <= i < r@.len() ==> r@[i] < applies@.len() && applies@[r@[i] as int],
        forall|k: usize| (k as int) < applies@.len() && applies@[k as int] ==> r@.contains(k),
{
    let mut r: Vec<usize> = Vec::new();
    let mut k: usize = 0;
    while k < applies.len()
        invariant
            k <= applies@.len(),
            forall|i: int, j: int| 0 <= i < j < r@.len() ==> r@[i] < r@[j],
            forall|i: int| 0 <= i < r@.len() ==> r@[i] < k && applies@[r@[i] as int],
            forall|x: usize| x < k && applies@[x as int] ==> r@.contains(x),
        decreases applies@.len() - k,
    {
        if applies[k] {
            let ghost before = r@;
            r.push(k);
            proof {
                assert forall|x: usize| x < k + 1 && applies@[x as int] implies r@.contains(x) by {
                    if x < k {
                        let i = choose|i: int| 0 <= i < before.len() && before[i] == x;
                        assert(r@[i] == x);
                    } else {
                        assert(r@[before.len() as int] == x);
                    }
                };
            }
        }
        k = k + 1;
    }
    r
}

/// Whether a handler is invoked for a delivery exactly once: its position
/// stands in the plan, and at one place only.
pub open spec fn invoked_once(plan: Seq<usize>, k: usize) -> bool {
    &&& plan.contains(k)
    &&& forall|i: int, j: int| 0 <= i < plan.len() && 0 <= j < plan.len()
        && plan[i] == k && plan[j] == k ==> i == j
}

/// Each handler whose extractor applies to a delivery is invoked exactly once
/// for it, and a handler whose extractor does not apply is never invoked.
pub proof fn law_invoked_once_iff_applies(applies: Seq<bool>, plan: Seq<usize>, k: usize)
    requires
        (k as int) < applies.len(),
        forall|i: int, j: int| 0 <= i < j < plan.len() ==> plan[i] < plan[j],
        forall|i: int| 0 <= i < plan.len() ==> plan[i] < applies.len() && applies[plan[i] as int],
        forall|x: usize| (x as int) < applies.len() && applies[x as int] ==> plan.contains(x),
    ensures
        applies[k as int] ==> invoked_once(plan, k),
        !applies[k as int] ==> !plan.contains(k),
{
    if plan.contains(k) {
        let i = choose|i: int| 0 <= i < plan.len() && plan[i] == k;
        assert(applies[plan[i] as int]);
    }
    assert forall|i: int, j: int| 0 <= i < plan.len() && 0 <= j < plan.len()
        && plan[i] == k && plan[j] == k implies i == j by {
        if i < j {
            assert(plan[i] < plan[j]);
        } else if j < i {
            assert(plan[j] < plan[i]);
        }
    };
}

/// What a handler returned, as the dispatcher sees it.
pub enum HandlerResult<C> {
    /// Nothing to do: unit, or an empty option.
    NoEffect,
    /// The handler failed, with this detail.
    Failed(String),
    /// Content to send back to the conversation the delivery came from.
    Content(C),
}

impl<C> HandlerResult<C> {
    /// A handler that returned unit.
    pub fn unit() -> (r: Self)
        ensures
            r is NoEffect,
    {
        HandlerResult::NoEffect
    }

    /// A handler that returned content or nothing.
    pub fn from_option(o: Option<C>) -> (r: Self)
        ensures
            match o {
                Some(c) => r == HandlerResult::Content(c),
                None => r is NoEffect,
            },
    {
        match o {
            Some(c) => HandlerResult::Content(c),
            None => HandlerResult::NoEffect,
        }
    }

    /// A handler that returned content or an error, with the error's detail.
    pub fn from_result(res: Result<C, String>) -> (r: Self)
        ensures
            match res {
                Ok(c) => r == HandlerResult::Content(c),
                Err(e) => r == HandlerResult::<C>::Failed(e),
            },
    {
        match res {
            Ok(c) => HandlerResult::Content(c),
            Err(e) => HandlerResult::Failed(e),
        }
    }

    /// A handler that returned unit or an error.
    pub fn from_unit_result(res: Result<(), String>) -> (r: Self)
        ensures
            match res {
                Ok(_) => r is NoEffect,
                Err(e) => r == HandlerResult::<C>::Failed(e),
            },
    {
        match res {
            Ok(_) => HandlerResult::NoEffect,
            Err(e) => HandlerResult::Failed(e),
        }
    }

    /// A handler that returned optional content or an error: the error
    /// comes first, then the option is read as content or nothing.
    pub fn from_result_option(res: Result<Option<C>, String>) -> (r: Self)
        ensures
            match res {
                Ok(Some(c)) => r == HandlerResult::Content(c),
                Ok(None) => r is NoEffect,
                Err(e) => r == HandlerResult::<C>::Failed(e),
            },
    {
        match res {
            Ok(Some(c)) => HandlerResult::Content(c),
            Ok(None) => HandlerResult::NoEffect,
            Err(e) => HandlerResult::Failed(e),
        }
    }
}

/// Where a reply to a delivery goes, and which message it quotes.
#[derive(Debug, Clone, Copy, PartialEq, Eq, Structural)]
pub enum ReplyTarget {
    /// A private reply to a friend.
    Friend { target: QQ, quote: Option<i64> },
    /// A reply in a group.
    Group { target: QQ, quote: Option<i64> },
}

/// The conversation a reply to `message` goes to, if it has one: the sender
/// of a private message or the group of a group message, quoting the message.
pub open spec fn reply_target_of(message: Message) -> Option<ReplyTarget> {
    match message {
        Message::Friend(m) => Some(ReplyTarget::Friend { target: m.sender.id, quote: m.message.id_of() }),
        Message::Group(m) => Some(ReplyTarget::Group { target: m.sender.group.id, quote: m.message.id_of() }),
        _ => None,
    }
}

/// The conversation a reply to `message` goes to, if it has one.
pub fn reply_target(message: &Message) -> (r: Option<ReplyTarget>)
    ensures
        r == reply_target_of(*message),
{
    match message {
        Message::Friend(m) => Some(ReplyTarget::Friend { target: m.sender.id, quote: m.message.message_id() }),
        Message::Group(m) => Some(ReplyTarget::Group { target: m.sender.group.id, quote: m.message.message_id() }),
        _ => None,
    }
}

/// What the dispatcher does with a handler's result.
pub enum Effect<C> {
    /// Nothing.
    Nothing,
    /// Log a warning with the failure's detail; nothing else.
    Warn(String),
    /// Send the content as a reply.
    Reply(ReplyTarget, C),
    /// Log that the delivery has no conversation to reply to, and drop the content.
    NoReplyTarget,
}

/// The effect of a handler's result on the delivery it handled.
pub fn effect_of<C>(result: HandlerResult<C>, message: &Message) -> (r: Effect<C>)
    ensures
        match result {
            HandlerResult::NoEffect => r is Nothing,
            HandlerResult::Failed(e) => r == Effect::<C>::Warn(e),
            HandlerResult::Content(c) => match reply_target_of(*message) {
                Some(t) => r == Effect::Reply(t, c),
                None => r is NoReplyTarget,
            },
        },
{
    match result {
        HandlerResult::NoEffect => Effect::Nothing,
        HandlerResult::Failed(e) => Effect::Warn(e),
        HandlerResult::Content(c) => match reply_target(message) {
            Some(t) => Effect::Reply(t, c),
            None => Effect::NoReplyTarget,
        },
    }
}

} // verus!
