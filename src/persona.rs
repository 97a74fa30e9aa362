//! The persona-state-change broadcast: its flags and the public value that a
//! raw record maps to.
use vstd::prelude::*;

use crate::ids::SteamId;

verus! {

pub const NAME: u32 = 0x0001;
pub const STATUS: u32 = 0x0002;
pub const COME_ONLINE: u32 = 0x0004;
pub const GONE_OFFLINE: u32 = 0x0008;
pub const GAME_PLAYED: u32 = 0x0010;
pub const GAME_SERVER: u32 = 0x0020;
pub const AVATAR: u32 = 0x0040;
pub const JOINED_SOURCE: u32 = 0x0080;
pub const LEFT_SOURCE: u32 = 0x0100;
pub const RELATIONSHIP_CHANGED: u32 = 0x0200;
pub const NAME_FIRST_SET: u32 = 0x0400;
pub const BROADCAST: u32 = 0x0800;
pub const NICKNAME: u32 = 0x1000;
pub const STEAM_LEVEL: u32 = 0x2000;
pub const RICH_PRESENCE: u32 = 0x4000;

/// Every flag that a persona change may carry.
pub const ALL_FLAGS: u32 = 0x7fff;

/// A set of persona-change flags; it never holds a bit outside `ALL_FLAGS`.
#[derive(Debug, Copy, Clone, Hash, PartialEq, Eq, Structural, PartialOrd, Ord)]
pub struct PersonaStateChangeFlags {
    bits: u32,
}

impl PersonaStateChangeFlags {
    /// The bits of the set.
    pub closed spec fn view_bits(self) -> u32 {
        self.bits
    }

    /// The flags among `bits` that are known; the other bits are dropped.
    pub fn from_bits_truncate(bits: u32) -> (r: PersonaStateChangeFlags)
        ensures
            r.view_bits() == bits & ALL_FLAGS,
    {
        PersonaStateChangeFlags { bits: bits & ALL_FLAGS }
    }

    pub fn empty() -> (r: PersonaStateChangeFlags)
        ensures
            r.view_bits() == 0,
    {
        PersonaStateChangeFlags { bits: 0 }
    }

    pub fn bits(&self) -> (r: u32)
        ensures
            r == self.view_bits(),
    {
        self.bits
    }

    /// Whether every flag of `other` is in this set.
    pub fn contains(&self, other: PersonaStateChangeFlags) -> (r: bool)
        ensures
            r == (self.view_bits() & other.view_bits() == other.view_bits()),
    {
        self.bits & other.bits == other.bits
    }
}

/// A user's persona changed: who, and what changed.
#[derive(Debug, Copy, Clone, Hash, PartialEq, Eq, Structural, PartialOrd, Ord)]
pub struct PersonaStateChange {
    pub steam_id: SteamId,
    pub change_flags: PersonaStateChangeFlags,
}

impl PersonaStateChange {
    /// The public value of a raw persona-state-change record, from its user
    /// identifier and its flag word.
    pub fn from_raw(steam_id: u64, change_flags: i32) -> (r: PersonaStateChange)
        ensures
            r.steam_id.value() == steam_id,
            r.change_flags.view_bits() == (change_flags as u32) & ALL_FLAGS,
    {
        PersonaStateChange {
            steam_id: SteamId::new(steam_id),
            change_flags: PersonaStateChangeFlags::from_bits_truncate(change_flags as u32),
        }
    }

    /// Whether this change reports a new name for the user `id`.
    pub fn is_name_change_of(&self, id: SteamId) -> (r: bool)
        ensures
            r == (self.steam_id.value() == id.value() && self.change_flags.view_bits() & NAME == NAME),
    {
        self.steam_id.as_u64() == id.as_u64() && self.change_flags.bits() & NAME == NAME
    }
}

} // verus!
