use vstd::prelude::*;

verus! {

/// The identifier of a Steam application.
#[derive(Debug, Copy, Clone, Hash, PartialEq, Eq, Structural, PartialOrd, Ord)]
pub struct AppId(pub u32);

impl AppId {
    pub fn new(id: u32) -> (r: AppId)
        ensures
            r.0 == id,
    {
        AppId(id)
    }
}

impl From<u32> for AppId {
    fn from(x: u32) -> (r: AppId) {
        AppId(x)
    }
}

impl vstd::std_specs::convert::FromSpecImpl<u32> for AppId {
    open spec fn obeys_from_spec() -> bool {
        true
    }

    open spec fn from_spec(v: u32) -> AppId {
        AppId(v)
    }
}

impl From<AppId> for u32 {
    fn from(x: AppId) -> (r: u32) {
        x.0
    }
}

impl vstd::std_specs::convert::FromSpecImpl<AppId> for u32 {
    open spec fn obeys_from_spec() -> bool {
        true
    }

    open spec fn from_spec(v: AppId) -> u32 {
        v.0
    }
}

/// The identifier of a Steam user; identifiers compare by their numeric value.
#[derive(Debug, Copy, Clone, Hash, PartialEq, Eq, Structural, Ord)]
pub struct SteamId(pub(crate) u64);

impl PartialOrd for SteamId {
    fn partial_cmp(&self, other: &SteamId) -> (r: Option<core::cmp::Ordering>) {
        if self.0 < other.0 {
            Some(core::cmp::Ordering::Less)
        } else if self.0 > other.0 {
            Some(core::cmp::Ordering::Greater)
        } else {
            Some(core::cmp::Ordering::Equal)
        }
    }
}

impl vstd::std_specs::cmp::PartialOrdSpecImpl for SteamId {
    open spec fn obeys_partial_cmp_spec() -> bool {
        true
    }

    open spec fn partial_cmp_spec(&self, other: &SteamId) -> Option<core::cmp::Ordering> {
        if self.value() < other.value() {
            Some(core::cmp::Ordering::Less)
        } else if self.value() > other.value() {
            Some(core::cmp::Ordering::Greater)
        } else {
            Some(core::cmp::Ordering::Equal)
        }
    }
}

/// Two identifiers are equal exactly when their values are.
pub proof fn lemma_steam_id_eq(a: SteamId, b: SteamId)
    ensures
        (a == b) <==> (a.value() == b.value()),
{
}

impl SteamId {
    /// The numeric value of this identifier.
    pub closed spec fn value(self) -> u64 {
        self.0
    }

    pub fn new(id: u64) -> (r: SteamId)
        ensures
            r.value() == id,
    {
        SteamId(id)
    }

    pub fn as_u64(self) -> (r: u64)
        ensures
            r == self.value(),
    {
        self.0
    }
}

impl From<u64> for SteamId {
    fn from(inner: u64) -> (r: SteamId) {
        SteamId(inner)
    }
}

impl vstd::std_specs::convert::FromSpecImpl<u64> for SteamId {
    open spec fn obeys_from_spec() -> bool {
        true
    }

    closed spec fn from_spec(v: u64) -> SteamId {
        SteamId(v)
    }
}

impl From<SteamId> for u64 {
    fn from(steam_id: SteamId) -> (r: u64) {
        steam_id.0
    }
}

impl vstd::std_specs::convert::FromSpecImpl<SteamId> for u64 {
    open spec fn obeys_from_spec() -> bool {
        true
    }

    closed spec fn from_spec(v: SteamId) -> u64 {
        v.0
    }
}

} // verus!
