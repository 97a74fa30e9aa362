//! The broadcast registry: for one event kind, the live subscribers and the
//! fan-out of each published value to all of them, with lazy pruning of the
//! subscribers whose receiving side is gone.
use vstd::prelude::*;

use futures::channel::mpsc::{UnboundedReceiver, UnboundedSender};
use slotmap::{DefaultKey, DenseSlotMap};

use crate::persona::PersonaStateChange;

verus! {

#[verifier::external_type_specification]
#[verifier::external_body]
pub struct ExDefaultKey(slotmap::DefaultKey);

#[verifier::external_type_specification]
#[verifier::external_body]
#[verifier::reject_recursive_types(T)]
pub struct ExUnboundedSender<T>(futures::channel::mpsc::UnboundedSender<T>);

#[verifier::external_type_specification]
#[verifier::external_body]
#[verifier::reject_recursive_types(T)]
pub struct ExUnboundedReceiver<T>(futures::channel::mpsc::UnboundedReceiver<T>);

/// A value that a registry fans out.
#[derive(Debug, Copy, Clone, PartialEq, Eq, Structural)]
pub enum Broadcast {
    PersonaStateChange(PersonaStateChange),
    SteamShutdown,
}

/// A registry takes a new subscriber while it holds at most this many: a
/// dense slot map panics when it would grow past 2^32 - 2 values.
pub const MAX_SUBSCRIBERS: usize = 0xffff_fffd;

/// The subscriber channels of a registry, in a dense slot map. Verus does
/// not take a declaration of `DenseSlotMap` (its key type is bound by
/// slotmap's `Key` trait), so the map is held here and seen only through
/// `slots_of`.
#[verifier::external_body]
pub struct SubscriberSlots {
    map: DenseSlotMap<DefaultKey, UnboundedSender<Broadcast>>,
}

/// What a slot map of subscriber channels holds, by key.
pub uninterp spec fn slots_of(m: SubscriberSlots) -> Map<
    DefaultKey,
    UnboundedSender<Broadcast>,
>;

/// Relies on `DenseSlotMap::new`: an empty map.
#[verifier::external_body]
fn slots_new() -> (r: SubscriberSlots)
    ensures
        slots_of(r).dom() == Set::<DefaultKey>::empty(),
{
    SubscriberSlots { map: DenseSlotMap::new() }
}

/// Relies on `DenseSlotMap::len`: the number of values held.
#[verifier::external_body]
fn slots_len(m: &SubscriberSlots) -> (r: usize)
    ensures
        r == slots_of(*m).len(),
{
    m.map.len()
}

/// Relies on `DenseSlotMap::insert`: the value is stored under a key that
/// the map did not hold. It panics only once the map holds 2^32 - 2 values.
#[verifier::external_body]
fn slots_insert(
    m: &mut SubscriberSlots,
    v: UnboundedSender<Broadcast>,
) -> (k: DefaultKey)
    requires
        slots_of(*old(m)).dom().finite(),
        slots_of(*old(m)).len() <= MAX_SUBSCRIBERS,
    ensures
        !slots_of(*old(m)).contains_key(k),
        slots_of(*final(m)) == slots_of(*old(m)).insert(k, v),
{
    m.map.insert(v)
}

/// Relies on `DenseSlotMap::remove`: the key leaves the map, and its value is
/// returned if it was there.
#[verifier::external_body]
fn slots_remove(m: &mut SubscriberSlots, k: DefaultKey) -> (r:
    Option<UnboundedSender<Broadcast>>)
    ensures
        slots_of(*final(m)) == slots_of(*old(m)).remove(k),
        r is Some <==> slots_of(*old(m)).contains_key(k),
        r is Some ==> r->Some_0 == slots_of(*old(m))[k],
{
    m.map.remove(k)
}

/// Relies on `DenseSlotMap::get`: the value under the key, if any.
#[verifier::external_body]
fn slots_get(m: &SubscriberSlots, k: DefaultKey) -> (r:
    Option<&UnboundedSender<Broadcast>>)
    ensures
        r is Some <==> slots_of(*m).contains_key(k),
        r is Some ==> *r->Some_0 == slots_of(*m)[k],
{
    m.map.get(k)
}

/// Relies on `DenseSlotMap::get_mut`: the value under the key, if any, to be
/// changed in place.
#[verifier::external_body]
fn slots_get_mut(m: &mut SubscriberSlots, k: DefaultKey) -> (r: Option<
    &mut UnboundedSender<Broadcast>,
>)
    ensures
        r is Some <==> slots_of(*old(m)).contains_key(k),
        r is None ==> slots_of(*final(m)) == slots_of(*old(m)),
        r matches Some(tx) ==> *tx == slots_of(*old(m))[k] && slots_of(*final(m)) == slots_of(
            *old(m),
        ).insert(k, *final(tx)),
{
    m.map.get_mut(k)
}

/// Relies on `DenseSlotMap::keys`: each key of the map, once.
#[verifier::external_body]
fn slots_keys(m: &SubscriberSlots) -> (r: Vec<DefaultKey>)
    ensures
        r@.no_duplicates(),
        forall|k: DefaultKey| r@.contains(k) <==> slots_of(*m).contains_key(k),
{
    m.map.keys().collect()
}

/// The channel that a sending end belongs to.
pub uninterp spec fn sender_channel(tx: UnboundedSender<Broadcast>) -> nat;

/// The channel that a receiving end belongs to.
pub uninterp spec fn receiver_channel(rx: UnboundedReceiver<Broadcast>) -> nat;

/// The values that the channel has taken from this sending end, in order;
/// its receiving end yields them in that order.
pub uninterp spec fn taken(tx: UnboundedSender<Broadcast>) -> Seq<Broadcast>;

/// Whether the channel no longer takes values from this sending end: its
/// receiving end is gone or has closed it.
pub uninterp spec fn channel_closed(tx: UnboundedSender<Broadcast>) -> bool;

/// Relies on `futures::channel::mpsc::unbounded`: the two ends of one fresh
/// channel, which has taken nothing yet.
#[verifier::external_body]
fn subscriber_channel() -> (r: (UnboundedSender<Broadcast>, UnboundedReceiver<Broadcast>))
    ensures
        sender_channel(r.0) == receiver_channel(r.1),
        taken(r.0) == Seq::<Broadcast>::empty(),
{
    futures::channel::mpsc::unbounded()
}

/// Relies on `UnboundedSender::unbounded_send`: the channel takes the value,
/// or refuses it because the channel is closed (an unbounded channel refuses
/// for no other reason). Returns whether it took the value. It would panic
/// only with about `usize::MAX / 2` values waiting unread in the channel,
/// which memory rules out first.
#[verifier::external_body]
fn send_to(tx: &mut UnboundedSender<Broadcast>, v: Broadcast) -> (accepted: bool)
    ensures
        sender_channel(*final(tx)) == sender_channel(*old(tx)),
        accepted ==> taken(*final(tx)) == taken(*old(tx)).push(v),
        !accepted ==> taken(*final(tx)) == taken(*old(tx)) && channel_closed(*final(tx)),
{
    tx.unbounded_send(v).is_ok()
}

/// Whether the channel `c` was found closed: some sending end of it saw it
/// closed.
pub open spec fn found_closed(c: nat) -> bool {
    exists|tx: UnboundedSender<Broadcast>| sender_channel(tx) == c && channel_closed(tx)
}

/// The subscribers of one event kind.
///
/// Besides the channels, the registry keeps in ghost state every value
/// published so far and the point of that history at which each subscriber
/// joined.
pub struct Registry {
    slots: SubscriberSlots,
    published: Ghost<Seq<Broadcast>>,
    joined: Ghost<Map<DefaultKey, nat>>,
}

/// What a publish of `value` that pruned `pruned` did, from `old` to `new`:
/// the value joins the history; each subscriber either stays on its channel,
/// which took the value after all it had taken before, or is pruned because
/// its channel was found closed; nobody joins.
pub open spec fn published_to(old: Registry, new: Registry, value: Broadcast, pruned: Seq<
    DefaultKey,
>) -> bool {
    &&& new.wf()
    &&& new.history() == old.history().push(value)
    &&& pruned.no_duplicates()
    &&& new.subscribers() == old.subscribers().difference(pruned.to_set())
    &&& forall|k: DefaultKey| #[trigger]
        pruned.contains(k) ==> old.subscribers().contains(k) && found_closed(old.channel(k))
    &&& forall|k: DefaultKey| #[trigger]
        new.subscribers().contains(k) ==> new.joined_at(k) == old.joined_at(k) && new.channel(k)
            == old.channel(k) && new.delivered(k) == old.delivered(k).push(value)
}

impl Registry {
    /// The keys of the live subscribers.
    pub closed spec fn subscribers(&self) -> Set<DefaultKey> {
        slots_of(self.slots).dom()
    }

    /// Every value published through this registry, in order.
    pub closed spec fn history(&self) -> Seq<Broadcast> {
        self.published@
    }

    /// The length of the history when subscriber `k` joined.
    pub closed spec fn joined_at(&self, k: DefaultKey) -> nat {
        self.joined@[k]
    }

    /// The channel of subscriber `k`.
    pub closed spec fn channel(&self, k: DefaultKey) -> nat {
        sender_channel(slots_of(self.slots)[k])
    }

    /// The values that subscriber `k`'s channel has taken, in order.
    pub closed spec fn delivered(&self, k: DefaultKey) -> Seq<Broadcast> {
        taken(slots_of(self.slots)[k])
    }

    pub closed spec fn wf(&self) -> bool {
        &&& slots_of(self.slots).dom().finite()
        &&& self.joined@.dom() == slots_of(self.slots).dom()
        &&& forall|k: DefaultKey|
            #[trigger] self.joined@.contains_key(k) ==> self.joined@[k] <= self.published@.len()
                && taken(slots_of(self.slots)[k]) == self.published@.subrange(
                self.joined@[k] as int,
                self.published@.len() as int,
            )
    }

    pub fn new() -> (r: Registry)
        ensures
            r.wf(),
            r.subscribers() == Set::<DefaultKey>::empty(),
            r.history() == Seq::<Broadcast>::empty(),
    {
        Registry { slots: slots_new(), published: Ghost(Seq::empty()), joined: Ghost(Map::empty()) }
    }

    /// The number of live subscribers.
    pub fn len(&self) -> (r: usize)
        requires
            self.wf(),
        ensures
            r == self.subscribers().len(),
    {
        slots_len(&self.slots)
    }

    /// Adds a subscriber and returns its key and the receiving end of its
    /// channel, which has taken nothing: it sees only what is published from
    /// now on.
    pub fn subscribe(&mut self) -> (r: (DefaultKey, UnboundedReceiver<Broadcast>))
        requires
            old(self).wf(),
            old(self).subscribers().len() <= MAX_SUBSCRIBERS,
        ensures
            final(self).wf(),
            !old(self).subscribers().contains(r.0),
            final(self).subscribers() == old(self).subscribers().insert(r.0),
            final(self).history() == old(self).history(),
            final(self).joined_at(r.0) == old(self).history().len(),
            final(self).channel(r.0) == receiver_channel(r.1),
            final(self).delivered(r.0) == Seq::<Broadcast>::empty(),
            forall|k: DefaultKey|
                old(self).subscribers().contains(k) ==> final(self).joined_at(k) == old(
                    self,
                ).joined_at(k) && final(self).channel(k) == old(self).channel(k)
                    && final(self).delivered(k) == old(self).delivered(k),
    {
        let (tx, rx) = subscriber_channel();
        let k = slots_insert(&mut self.slots, tx);
        proof {
            let n = self.published@.len();
            self.joined@ = self.joined@.insert(k, n);
            assert(self.published@.subrange(n as int, n as int) =~= Seq::<Broadcast>::empty());
        }
        (k, rx)
    }

    /// Keeps subscriber `k` when its channel took the value, and drops it
    /// when the channel refused it. Returns whether it was dropped.
    fn settle_send(&mut self, k: DefaultKey, accepted: bool) -> (dropped: bool)
        ensures
            dropped == !accepted,
            accepted ==> slots_of(final(self).slots) == slots_of(old(self).slots)
                && final(self).joined@ == old(self).joined@,
            !accepted ==> slots_of(final(self).slots) == slots_of(old(self).slots).remove(k)
                && final(self).joined@ == old(self).joined@.remove(k),
            final(self).published@ == old(self).published@,
    {
        if accepted {
            false
        } else {
            slots_remove(&mut self.slots, k);
            proof {
                self.joined@ = self.joined@.remove(k);
            }
            true
        }
    }

    /// Offers `value` to every live subscriber's channel and drops, in the
    /// same pass, those whose channel refused it because it is closed.
    /// Returns the keys dropped.
    pub fn publish(&mut self, value: Broadcast) -> (pruned: Vec<DefaultKey>)
        requires
            old(self).wf(),
        ensures
            published_to(*old(self), *final(self), value, pruned@),
    {
        let keys = slots_keys(&self.slots);
        let ghost old_slots = slots_of(self.slots);
        let mut pruned: Vec<DefaultKey> = Vec::new();
        let mut i: usize = 0;
        proof {
            assert(self.joined@ =~= self.joined@.restrict(slots_of(self.slots).dom()));
            assert forall|j: int| 0 <= j < keys@.len() implies slots_of(self.slots).contains_key(
                #[trigger] keys@[j],
            ) by {
                assert(keys@.contains(keys@[j]));
            }
        }
        while i < keys.len()
            invariant
                0 <= i <= keys.len(),
                keys@.no_duplicates(),
                forall|k: DefaultKey| keys@.contains(k) <==> old_slots.contains_key(k),
                self.published@ == old(self).published@,
                self.joined@ == old(self).joined@.restrict(slots_of(self.slots).dom()),
                old_slots == slots_of(old(self).slots),
                old(self).joined@.dom() == old_slots.dom(),
                pruned@.no_duplicates(),
                forall|k: DefaultKey|
                    #[trigger] pruned@.contains(k) <==> (old_slots.contains_key(k)
                        && !slots_of(self.slots).contains_key(k)),
                forall|k: DefaultKey| #[trigger]
                    pruned@.contains(k) ==> found_closed(sender_channel(old_slots[k])),
                forall|k: DefaultKey| #[trigger]
                    slots_of(self.slots).contains_key(k) ==> old_slots.contains_key(k),
                forall|j: int|
                    i <= j < keys@.len() ==> slots_of(self.slots).contains_key(#[trigger] keys@[j])
                        && slots_of(self.slots)[keys@[j]] == old_slots[keys@[j]],
                forall|j: int|
                    0 <= j < i && slots_of(self.slots).contains_key(#[trigger] keys@[j])
                        ==> sender_channel(slots_of(self.slots)[keys@[j]]) == sender_channel(
                        old_slots[keys@[j]],
                    ) && taken(slots_of(self.slots)[keys@[j]]) == taken(
                        old_slots[keys@[j]],
                    ).push(value),
            decreases keys.len() - i,
        {
            let k = keys[i];
            let ghost pruned_before = pruned@;
            let ghost slots_before = slots_of(self.slots);
            let accepted = match slots_get_mut(&mut self.slots, k) {
                Some(tx) => send_to(tx, value),
                None => true,
            };
            let ghost sent = slots_of(self.slots)[k];
            assert(sender_channel(sent) == sender_channel(old_slots[k]));
            assert(!accepted ==> channel_closed(sent));
            let dropped = self.settle_send(k, accepted);
            if dropped {
                assert(!pruned@.contains(k));
                pruned.push(k);
            }
            proof {
                assert(self.joined@ =~= old(self).joined@.restrict(slots_of(self.slots).dom()));
                assert forall|k2: DefaultKey| #[trigger]
                    pruned@.contains(k2) <==> (old_slots.contains_key(k2) && !slots_of(
                        self.slots,
                    ).contains_key(k2)) by {
                    if dropped {
                        assert(pruned@ =~= pruned_before.push(k));
                        if pruned_before.contains(k2) {
                            let x = choose|x: int|
                                0 <= x < pruned_before.len() && pruned_before[x] == k2;
                            assert(pruned@[x] == k2);
                        }
                        if k2 == k {
                            assert(pruned@[pruned_before.len() as int] == k2);
                        }
                    } else {
                        assert(pruned@ =~= pruned_before);
                    }
                }
                assert forall|k2: DefaultKey| #[trigger]
                    pruned@.contains(k2) implies found_closed(sender_channel(old_slots[k2])) by {
                    if k2 == k && dropped {
                        assert(sender_channel(sent) == sender_channel(old_slots[k2]));
                        assert(channel_closed(sent));
                    } else {
                        assert(pruned_before.contains(k2)) by {
                            if dropped {
                                assert(pruned@ =~= pruned_before.push(k));
                                let x = choose|x: int| 0 <= x < pruned@.len() && pruned@[x] == k2;
                                assert(x < pruned_before.len());
                                assert(pruned_before[x] == k2);
                            } else {
                                assert(pruned@ =~= pruned_before);
                            }
                        }
                    }
                }
                assert forall|j: int|
                    0 <= j < i + 1 && slots_of(self.slots).contains_key(
                        #[trigger] keys@[j],
                    ) implies sender_channel(slots_of(self.slots)[keys@[j]]) == sender_channel(
                    old_slots[keys@[j]],
                ) && taken(slots_of(self.slots)[keys@[j]]) == taken(old_slots[keys@[j]]).push(
                    value,
                ) by {
                    if j < i {
                        assert(keys@[j] != k);
                    }
                }
                assert forall|j: int|
                    i + 1 <= j < keys@.len() implies slots_of(self.slots).contains_key(
                        #[trigger] keys@[j],
                    ) && slots_of(self.slots)[keys@[j]] == old_slots[keys@[j]] by {
                    assert(keys@[j] != k);
                }
            }
            i = i + 1;
        }
        proof {
            let n = self.published@.len();
            self.published@ = self.published@.push(value);
            assert forall|k: DefaultKey| slots_of(self.slots).contains_key(k) implies sender_channel(
                slots_of(self.slots)[k],
            ) == sender_channel(old_slots[k]) && taken(slots_of(self.slots)[k]) == taken(
                old_slots[k],
            ).push(value) by {
                assert(keys@.contains(k));
                let j = choose|j: int| 0 <= j < keys@.len() && keys@[j] == k;
            }
            assert(slots_of(self.slots).dom() =~= old_slots.dom().difference(pruned@.to_set()));
            assert(self.joined@.dom() =~= slots_of(self.slots).dom());
            assert forall|k: DefaultKey| #[trigger]
                self.joined@.contains_key(k) implies self.joined@[k] <= self.published@.len()
                && taken(slots_of(self.slots)[k]) == self.published@.subrange(
                self.joined@[k] as int,
                self.published@.len() as int,
            ) by {
                assert(old(self).joined@.contains_key(k));
                assert(self.published@.subrange(self.joined@[k] as int, n as int + 1) =~= old(
                    self,
                ).published@.subrange(self.joined@[k] as int, n as int).push(value));
            }
        }
        pruned
    }

    /// Whether `k` is a live subscriber.
    pub fn contains(&self, k: DefaultKey) -> (r: bool)
        ensures
            r == self.subscribers().contains(k),
    {
        slots_get(&self.slots, k).is_some()
    }
}

/// Delivery: in every state of a registry, the channel of each live
/// subscriber has taken exactly the values published after it subscribed, in
/// the order of publication; its receiving end yields them in that order.
pub proof fn lemma_delivery_follows_subscription(r: &Registry, k: DefaultKey)
    requires
        r.wf(),
        r.subscribers().contains(k),
    ensures
        r.joined_at(k) <= r.history().len(),
        r.delivered(k) == r.history().subrange(r.joined_at(k) as int, r.history().len() as int),
{
}

} // verus!
