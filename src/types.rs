//! Plain identifiers and group membership values.

use vstd::prelude::*;

verus! {

/// A QQ number: the identity of a user, a group, or the bot itself.
#[derive(Debug, Clone, Copy, PartialEq, Eq, Structural, PartialOrd, Ord, Default, Hash)]
pub struct QQ(pub u64);

/// A member's standing in a group: member, administrator or owner.
#[derive(Debug, Clone, Copy, PartialEq, Eq, Structural)]
pub enum Permission {
    Member,
    Administrator,
    Owner,
}

impl Permission {
    /// Rank of a permission: member below administrator below owner.
    pub open spec fn rank(self) -> int {
        match self {
            Permission::Member => 0,
            Permission::Administrator => 1,
            Permission::Owner => 2,
        }
    }
}

impl PartialOrd for Permission {
    fn partial_cmp(&self, other: &Permission) -> (r: Option<std::cmp::Ordering>)
        ensures
            r == Some(rank_order(self.rank(), other.rank())),
    {
        let (a, b) = (self.rank_of(), other.rank_of());
        if a < b {
            Some(std::cmp::Ordering::Less)
        } else if a > b {
            Some(std::cmp::Ordering::Greater)
        } else {
            Some(std::cmp::Ordering::Equal)
        }
    }
}

impl vstd::std_specs::cmp::PartialOrdSpecImpl for Permission {
    open spec fn obeys_partial_cmp_spec() -> bool {
        true
    }

    open spec fn partial_cmp_spec(&self, other: &Permission) -> Option<std::cmp::Ordering> {
        Some(rank_order(self.rank(), other.rank()))
    }
}

/// How two ranks compare.
pub open spec fn rank_order(a: int, b: int) -> std::cmp::Ordering {
    if a < b {
        std::cmp::Ordering::Less
    } else if a > b {
        std::cmp::Ordering::Greater
    } else {
        std::cmp::Ordering::Equal
    }
}

impl Permission {
    /// The rank of this permission, as a number.
    pub fn rank_of(&self) -> (r: u8)
        ensures
            r as int == self.rank(),
    {
        match self {
            Permission::Member => 0,
            Permission::Administrator => 1,
            Permission::Owner => 2,
        }
    }
}

/// A group: its number, its name, and the bot's permission in it.
#[derive(Debug, Clone, PartialEq, Eq)]
pub struct Group {
    pub id: QQ,
    pub name: String,
    pub permission: Permission,
}

/// A friend of the bot, or a stranger who wrote to it.
#[derive(Debug, Clone, PartialEq, Eq)]
pub struct FriendMember {
    pub id: QQ,
    /// The friend's nickname.
    pub nickname: String,
    /// The bot's remark on the friend.
    pub remark: String,
}

/// A member of a group. Times are seconds since the Unix epoch.
#[derive(Debug, Clone, PartialEq, Eq)]
pub struct GroupMember {
    pub id: QQ,
    pub member_name: String,
    /// The title the owner gave the member.
    pub special_title: String,
    pub permission: Permission,
    /// When the member joined the group.
    pub join: Option<i64>,
    /// When the member last spoke.
    pub last_speak: Option<i64>,
    /// The group the member belongs to.
    pub group: Group,
}

impl GroupMember {
    /// The member's QQ number.
    pub fn as_qq(&self) -> (r: QQ)
        ensures
            r == self.id,
    {
        self.id
    }
}

} // verus!
