//! Classification of native messages and the guard that every raw record
//! passes before it is read.
use vstd::prelude::*;

use az::WrappingCast;
use slotmap::DefaultKey;

use crate::persona::PersonaStateChange;
use crate::registry::{published_to, Broadcast, Registry};

verus! {

/// The tag of a call-completed notice.
pub const CALL_COMPLETED_TAG: u32 = 703;

/// The tag of a persona-state-change broadcast.
pub const PERSONA_STATE_CHANGE_TAG: u32 = 304;

/// The tag of a native-shutdown broadcast.
pub const STEAM_SHUTDOWN_TAG: u32 = 704;

/// The broadcast event kinds that this engine models.
#[derive(Debug, Copy, Clone, PartialEq, Eq, Structural)]
pub enum EventKind {
    PersonaStateChange,
    SteamShutdown,
}

/// Where a native message goes.
#[derive(Debug, Copy, Clone, PartialEq, Eq, Structural)]
pub enum Route {
    /// A call-result completion notice: fetch the payload, then hand it to
    /// the call-result table.
    CallCompleted,
    /// A broadcast of a modelled kind.
    Broadcast(EventKind),
    /// A kind that this engine does not model.
    Ignore,
}

/// Relies on az's `WrappingCast` from `u32` to `i32`: the same 32 bits read
/// as two's complement.
#[verifier::external_body]
fn wrapping_i32_of(x: u32) -> (r: i32)
    ensures
        r as int == if x <= i32::MAX as u32 {
            x as int
        } else {
            x as int - 0x1_0000_0000
        },
{
    x.wrapping_cast()
}

/// Relies on az's `WrappingCast` from `i32` to `u32`: the same 32 bits read
/// as unsigned.
#[verifier::external_body]
fn wrapping_u32_of(x: i32) -> (r: u32)
    ensures
        r as int == if x >= 0 {
            x as int
        } else {
            x as int + 0x1_0000_0000
        },
{
    x.wrapping_cast()
}

pub open spec fn route_spec(tag: i32) -> Route {
    if tag as int == CALL_COMPLETED_TAG as int {
        Route::CallCompleted
    } else if tag as int == PERSONA_STATE_CHANGE_TAG as int {
        Route::Broadcast(EventKind::PersonaStateChange)
    } else if tag as int == STEAM_SHUTDOWN_TAG as int {
        Route::Broadcast(EventKind::SteamShutdown)
    } else {
        Route::Ignore
    }
}

/// Where the native message with kind tag `tag` goes.
pub fn route(tag: i32) -> (r: Route)
    ensures
        r == route_spec(tag),
{
    if tag == wrapping_i32_of(CALL_COMPLETED_TAG) {
        return Route::CallCompleted;
    }
    let unsigned = wrapping_u32_of(tag);
    if unsigned == PERSONA_STATE_CHANGE_TAG {
        Route::Broadcast(EventKind::PersonaStateChange)
    } else if unsigned == STEAM_SHUTDOWN_TAG {
        Route::Broadcast(EventKind::SteamShutdown)
    } else {
        Route::Ignore
    }
}

/// How a raw record fails the guard.
#[derive(Debug, Copy, Clone, PartialEq, Eq, Structural)]
pub enum RecordError {
    /// The buffer's address is null.
    Null,
    /// The address is not a multiple of the record's alignment.
    Misaligned,
    /// The byte length differs from the record's size.
    WrongLength,
}

pub open spec fn pointer_check_spec(addr: usize, align: usize) -> Result<(), RecordError> {
    if addr == 0 {
        Err(RecordError::Null)
    } else if addr % align != 0 {
        Err(RecordError::Misaligned)
    } else {
        Ok(())
    }
}

pub open spec fn record_check_spec(addr: usize, len: i32, size: usize, align: usize) -> Result<
    (),
    RecordError,
> {
    if pointer_check_spec(addr, align) is Err {
        pointer_check_spec(addr, align)
    } else if len < 0 || len as int != size as int {
        Err(RecordError::WrongLength)
    } else {
        Ok(())
    }
}

/// Whether a native buffer at address `addr` may be read as a record with
/// alignment `align`: it is not null and it is aligned.
pub fn check_pointer(addr: usize, align: usize) -> (r: Result<(), RecordError>)
    requires
        align > 0,
    ensures
        r == pointer_check_spec(addr, align),
{
    if addr == 0 {
        Err(RecordError::Null)
    } else if addr % align != 0 {
        Err(RecordError::Misaligned)
    } else {
        Ok(())
    }
}

/// Whether a native buffer at address `addr` of `len` bytes may be read as a
/// record of `size` bytes with alignment `align`.
pub fn check_record(addr: usize, len: i32, size: usize, align: usize) -> (r: Result<
    (),
    RecordError,
>)
    requires
        align > 0,
    ensures
        r == record_check_spec(addr, len, size, align),
{
    let pointer = check_pointer(addr, align);
    if pointer.is_err() {
        return pointer;
    }
    if len < 0 || len as usize != size {
        Err(RecordError::WrongLength)
    } else {
        Ok(())
    }
}

/// The fields of a validated raw broadcast record.
#[derive(Debug, Copy, Clone, PartialEq, Eq, Structural)]
pub enum RawEvent {
    PersonaStateChange { steam_id: u64, change_flags: i32 },
    SteamShutdown,
}

pub open spec fn kind_of(raw: RawEvent) -> EventKind {
    match raw {
        RawEvent::PersonaStateChange { .. } => EventKind::PersonaStateChange,
        RawEvent::SteamShutdown => EventKind::SteamShutdown,
    }
}

/// Whether `b` is the public value of the raw record `raw`.
pub open spec fn maps_to(raw: RawEvent, b: Broadcast) -> bool {
    match raw {
        RawEvent::PersonaStateChange { steam_id, change_flags } => b matches Broadcast::PersonaStateChange(p)
            && p.steam_id.value() == steam_id && p.change_flags.view_bits() == (change_flags as u32)
            & crate::persona::ALL_FLAGS,
        RawEvent::SteamShutdown => b == Broadcast::SteamShutdown,
    }
}

/// The public value of a raw record.
pub fn map_raw(raw: RawEvent) -> (r: Broadcast)
    ensures
        maps_to(raw, r),
{
    match raw {
        RawEvent::PersonaStateChange { steam_id, change_flags } => Broadcast::PersonaStateChange(
            PersonaStateChange::from_raw(steam_id, change_flags),
        ),
        RawEvent::SteamShutdown => Broadcast::SteamShutdown,
    }
}

/// Publishes the public value of `raw` to `registry`; returns the
/// subscribers pruned.
pub fn publish_raw(registry: &mut Registry, raw: RawEvent) -> (pruned: Vec<DefaultKey>)
    requires
        old(registry).wf(),
    ensures
        maps_to(raw, final(registry).history().last()),
        published_to(*old(registry), *final(registry), final(registry).history().last(), pruned@),
{
    let value = map_raw(raw);
    registry.publish(value)
}

/// One broadcast registry per event kind.
pub struct Dispatchers {
    pub persona_state_change: Registry,
    pub steam_shutdown: Registry,
}

impl Dispatchers {
    pub open spec fn wf(&self) -> bool {
        self.persona_state_change.wf() && self.steam_shutdown.wf()
    }

    /// The registry of `kind`.
    pub open spec fn registry(&self, kind: EventKind) -> Registry {
        match kind {
            EventKind::PersonaStateChange => self.persona_state_change,
            EventKind::SteamShutdown => self.steam_shutdown,
        }
    }

    pub fn new() -> (r: Dispatchers)
        ensures
            r.wf(),
            r.persona_state_change.subscribers() == Set::<DefaultKey>::empty(),
            r.steam_shutdown.subscribers() == Set::<DefaultKey>::empty(),
            r.persona_state_change.history() == Seq::<Broadcast>::empty(),
            r.steam_shutdown.history() == Seq::<Broadcast>::empty(),
    {
        Dispatchers { persona_state_change: Registry::new(), steam_shutdown: Registry::new() }
    }

    /// Publishes the value of `raw` to the registry of its kind; the other
    /// registry is left as it is. Returns the subscribers pruned.
    pub fn dispatch(&mut self, raw: RawEvent) -> (pruned: Vec<DefaultKey>)
        requires
            old(self).wf(),
        ensures
            final(self).wf(),
            maps_to(raw, final(self).registry(kind_of(raw)).history().last()),
            published_to(
                old(self).registry(kind_of(raw)),
                final(self).registry(kind_of(raw)),
                final(self).registry(kind_of(raw)).history().last(),
                pruned@,
            ),
            match raw {
                RawEvent::PersonaStateChange { .. } => final(self).steam_shutdown == old(
                    self,
                ).steam_shutdown,
                RawEvent::SteamShutdown => final(self).persona_state_change == old(
                    self,
                ).persona_state_change,
            },
    {
        match raw {
            RawEvent::PersonaStateChange { .. } => publish_raw(&mut self.persona_state_change, raw),
            RawEvent::SteamShutdown => publish_raw(&mut self.steam_shutdown, raw),
        }
    }
}

} // verus!
