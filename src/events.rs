//! Events the gateway pushes besides messages.

use vstd::prelude::*;
use crate::types::{FriendMember, Group, GroupMember, Permission, QQ};

verus! {

/// The bot logged in.
#[derive(Debug, Clone, PartialEq, Eq)]
pub struct BotOnlineEvent {
    pub qq: QQ,
}

/// The bot went offline of its own accord.
#[derive(Debug, Clone, PartialEq, Eq)]
pub struct BotOfflineEventActive {
    pub qq: QQ,
}

/// The bot was pushed offline by another login.
#[derive(Debug, Clone, PartialEq, Eq)]
pub struct BotOfflineEventForce {
    pub qq: QQ,
}

/// The bot was dropped by the server or the network.
#[derive(Debug, Clone, PartialEq, Eq)]
pub struct BotOfflineEventDropped {
    pub qq: QQ,
}

/// The bot logged in again.
#[derive(Debug, Clone, PartialEq, Eq)]
pub struct BotReloginEvent {
    pub qq: QQ,
}

/// A friend started or stopped typing.
#[derive(Debug, Clone, PartialEq, Eq)]
pub struct FriendInputStatusChangedEvent {
    pub friend: FriendMember,
    pub inputting: bool,
}

/// A friend changed nickname.
#[derive(Debug, Clone, PartialEq, Eq)]
pub struct FriendNickChangedEvent {
    pub friend: FriendMember,
    pub from: String,
    pub to: String,
}

/// The bot's permission in a group changed; the owner did it.
#[derive(Debug, Clone, PartialEq, Eq)]
pub struct BotGroupPermissionChangeEvent {
    pub origin: Permission,
    pub current: Permission,
    pub group: Group,
}

/// The bot was muted.
#[derive(Debug, Clone, PartialEq, Eq)]
pub struct BotMuteEvent {
    /// How long the mute lasts, in seconds.
    pub seconds: u32,
    pub operator: GroupMember,
}

/// The bot was unmuted.
#[derive(Debug, Clone, PartialEq, Eq)]
pub struct BotUnmuteEvent {
    pub operator: GroupMember,
}

/// The bot joined a group.
#[derive(Debug, Clone, PartialEq, Eq)]
pub struct BotJoinGroupEvent {
    pub group: Group,
}

/// The bot left a group.
#[derive(Debug, Clone, PartialEq, Eq)]
pub struct BotLeaveEventActive {
    pub group: Group,
}

/// The bot was removed from a group.
#[derive(Debug, Clone, PartialEq, Eq)]
pub struct BotLeaveEventKick {
    pub group: Group,
}

/// A group message was recalled.
#[derive(Debug, Clone, PartialEq, Eq)]
pub struct GroupRecallEvent {
    pub author: QQ,
    pub message_id: i64,
    /// When the recalled message was sent, in seconds since the Unix epoch.
    pub time: i64,
    pub group: Group,
    pub operator: Option<GroupMember>,
}

/// A private message was recalled.
#[derive(Debug, Clone, PartialEq, Eq)]
pub struct FriendRecallEvent {
    pub author: QQ,
    pub message_id: i64,
    /// When the recalled message was sent, in seconds since the Unix epoch.
    pub time: i64,
    pub operator: QQ,
}

/// A group was renamed.
#[derive(Debug, Clone, PartialEq, Eq)]
pub struct GroupNameChangeEvent {
    pub origin: String,
    pub current: String,
    pub group: Group,
    pub operator: Option<GroupMember>,
}

/// A group's entrance announcement changed.
#[derive(Debug, Clone, PartialEq, Eq)]
pub struct GroupEntranceAnnouncementChangeEvent {
    pub origin: String,
    pub current: String,
    pub group: Group,
    pub operator: Option<GroupMember>,
}

/// Muting of the whole group was switched.
#[derive(Debug, Clone, PartialEq, Eq)]
pub struct GroupMuteAllEvent {
    pub origin: bool,
    pub current: bool,
    pub group: Group,
    pub operator: Option<GroupMember>,
}

/// Anonymous chat in a group was switched.
#[derive(Debug, Clone, PartialEq, Eq)]
pub struct GroupAllowAnonymousChatEvent {
    pub origin: bool,
    pub current: bool,
    pub group: Group,
    pub operator: Option<GroupMember>,
}

/// Confess talk in a group was switched.
#[derive(Debug, Clone, PartialEq, Eq)]
pub struct GroupAllowConfessTalkEvent {
    pub origin: bool,
    pub current: bool,
    pub group: Group,
    pub is_by_bot: bool,
}

/// Member invitations in a group were switched.
#[derive(Debug, Clone, PartialEq, Eq)]
pub struct GroupAllowMemberInviteEvent {
    pub origin: bool,
    pub current: bool,
    pub group: Group,
    pub operator: Option<GroupMember>,
}

/// Someone joined a group.
#[derive(Debug, Clone, PartialEq, Eq)]
pub struct MemberJoinEvent {
    pub member: GroupMember,
}

/// A member other than the bot was removed from a group.
#[derive(Debug, Clone, PartialEq, Eq)]
pub struct MemberLeaveEventKick {
    pub member: GroupMember,
    pub operator: Option<GroupMember>,
}

/// A member other than the bot left a group.
#[derive(Debug, Clone, PartialEq, Eq)]
pub struct MemberLeaveEventQuit {
    pub member: GroupMember,
}

/// A member's group card changed.
#[derive(Debug, Clone, PartialEq, Eq)]
pub struct MemberCardChangeEvent {
    pub origin: String,
    pub current: String,
    pub member: GroupMember,
}

/// A member's special title changed; only the owner can do it.
#[derive(Debug, Clone, PartialEq, Eq)]
pub struct MemberSpecialTitleChangeEvent {
    pub origin: String,
    pub current: String,
    pub member: GroupMember,
}

/// A member's permission changed.
#[derive(Debug, Clone, PartialEq, Eq)]
pub struct MemberPermissionChangeEvent {
    pub origin: Permission,
    pub current: Permission,
    pub member: GroupMember,
}

/// A member other than the bot was muted.
#[derive(Debug, Clone, PartialEq, Eq)]
pub struct MemberMuteEvent {
    /// How long the mute lasts, in seconds.
    pub seconds: u32,
    pub member: GroupMember,
    pub operator: Option<GroupMember>,
}

/// A member other than the bot was unmuted.
#[derive(Debug, Clone, PartialEq, Eq)]
pub struct MemberUnmuteEvent {
    pub member: GroupMember,
    pub operator: Option<GroupMember>,
}

/// A member's honour changed.
#[derive(Debug, Clone, PartialEq, Eq)]
pub struct MemberHonorChangeEvent {
    pub member: GroupMember,
    pub action: String,
    pub honor: String,
}

/// Someone asked to become a friend.
#[derive(Debug, Clone, PartialEq, Eq)]
pub struct NewFriendRequestEvent {
    pub event_id: i64,
    pub from_id: QQ,
    pub group_id: QQ,
    pub nick: String,
    pub message: String,
}

/// Someone asked to join a group the bot administers.
#[derive(Debug, Clone, PartialEq, Eq)]
pub struct MemberJoinRequestEvent {
    pub event_id: i64,
    pub from_id: QQ,
    pub group_id: QQ,
    pub group_name: String,
    pub nick: String,
    pub message: String,
}

/// The bot was invited into a group.
#[derive(Debug, Clone, PartialEq, Eq)]
pub struct BotInvitedJoinGroupRequestEvent {
    pub event_id: i64,
    pub from_id: QQ,
    pub group_id: QQ,
    pub group_name: String,
    pub nick: String,
    pub message: String,
}

/// A console command was run.
#[derive(Debug, Clone, PartialEq, Eq)]
pub struct CommandExecutedEvent {
    pub event_id: i64,
    pub name: String,
    pub friend: Option<FriendMember>,
    pub member: Option<GroupMember>,
    pub args: Vec<serde_json::Value>,
}

/// An event, one variant per kind.
#[derive(Debug, Clone, PartialEq, Eq)]
pub enum Event {
    BotOnlineEvent(BotOnlineEvent),
    BotOfflineEventActive(BotOfflineEventActive),
    BotOfflineEventForce(BotOfflineEventForce),
    BotOfflineEventDropped(BotOfflineEventDropped),
    BotReloginEvent(BotReloginEvent),
    FriendInputStatusChangedEvent(FriendInputStatusChangedEvent),
    FriendNickChangedEvent(FriendNickChangedEvent),
    BotGroupPermissionChangeEvent(BotGroupPermissionChangeEvent),
    BotMuteEvent(BotMuteEvent),
    BotUnmuteEvent(BotUnmuteEvent),
    BotJoinGroupEvent(BotJoinGroupEvent),
    BotLeaveEventActive(BotLeaveEventActive),
    BotLeaveEventKick(BotLeaveEventKick),
    GroupRecallEvent(GroupRecallEvent),
    FriendRecallEvent(FriendRecallEvent),
    GroupNameChangeEvent(GroupNameChangeEvent),
    GroupEntranceAnnouncementChangeEvent(GroupEntranceAnnouncementChangeEvent),
    GroupMuteAllEvent(GroupMuteAllEvent),
    GroupAllowAnonymousChatEvent(GroupAllowAnonymousChatEvent),
    GroupAllowConfessTalkEvent(GroupAllowConfessTalkEvent),
    GroupAllowMemberInviteEvent(GroupAllowMemberInviteEvent),
    MemberJoinEvent(MemberJoinEvent),
    MemberLeaveEventKick(MemberLeaveEventKick),
    MemberLeaveEventQuit(MemberLeaveEventQuit),
    MemberCardChangeEvent(MemberCardChangeEvent),
    MemberSpecialTitleChangeEvent(MemberSpecialTitleChangeEvent),
    MemberPermissionChangeEvent(MemberPermissionChangeEvent),
    MemberMuteEvent(MemberMuteEvent),
    MemberUnmuteEvent(MemberUnmuteEvent),
    MemberHonorChangeEvent(MemberHonorChangeEvent),
    NewFriendRequestEvent(NewFriendRequestEvent),
    MemberJoinRequestEvent(MemberJoinRequestEvent),
    BotInvitedJoinGroupRequestEvent(BotInvitedJoinGroupRequestEvent),
    CommandExecutedEvent(CommandExecutedEvent),
}

} // verus!
