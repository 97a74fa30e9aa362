//! The call-result table: each outstanding native call, by its handle, with
//! the one-shot channel on which its result is awaited.
use vstd::prelude::*;

use futures::channel::oneshot::{Receiver, Sender};
use std::collections::HashMap;

verus! {

broadcast use vstd::std_specs::hash::group_hash_axioms;

#[verifier::external_type_specification]
#[verifier::external_body]
#[verifier::reject_recursive_types(T)]
pub struct ExOneshotSender<T>(futures::channel::oneshot::Sender<T>);

#[verifier::external_type_specification]
#[verifier::external_body]
#[verifier::reject_recursive_types(T)]
pub struct ExOneshotReceiver<T>(futures::channel::oneshot::Receiver<T>);

#[verifier::external_type_specification]
#[verifier::external_body]
pub struct ExCanceled(futures::channel::oneshot::Canceled);

/// The one-shot channel that a sending end belongs to.
pub uninterp spec fn result_sender_channel(tx: Sender<Vec<u8>>) -> nat;

/// The one-shot channel that a receiving end belongs to.
pub uninterp spec fn result_receiver_channel(rx: Receiver<Vec<u8>>) -> nat;

/// The bytes that this sending end handed to its receiving end, if it
/// handed any; the receiving end then resolves to them.
pub uninterp spec fn carried(tx: Sender<Vec<u8>>) -> Option<Seq<u8>>;

/// Relies on `futures::channel::oneshot::channel`: the two ends of one fresh
/// channel.
#[verifier::external_body]
fn result_channel() -> (r: (Sender<Vec<u8>>, Receiver<Vec<u8>>))
    ensures
        result_sender_channel(r.0) == result_receiver_channel(r.1),
{
    futures::channel::oneshot::channel()
}

/// Relies on `oneshot::Sender::send`: the value is handed to the receiving
/// side, or given back, not handed, when that side is gone.
#[verifier::external_body]
fn send_result(tx: Sender<Vec<u8>>, bytes: Vec<u8>) -> (r: Result<(), Vec<u8>>)
    ensures
        r is Ok ==> carried(tx) == Some(bytes@),
        r matches Err(b) ==> b@ == bytes@ && carried(tx) is None,
{
    tx.send(bytes)
}

/// What became of a completion.
#[derive(Debug, PartialEq, Eq)]
pub enum Completion {
    /// The awaiting side took the bytes.
    Delivered,
    /// The call was pending but its awaiting side is gone; the bytes are
    /// returned.
    Abandoned(Vec<u8>),
    /// No call with this handle was pending; nothing changed.
    NoRecipient,
}

/// Why fetching a call's payload from the native layer failed.
#[derive(Debug, Copy, Clone, PartialEq, Eq, Structural)]
pub enum FetchFailure {
    /// The fetch call returned false.
    ReturnedFalse,
    /// The fetch call returned true but set its failure flag.
    FailedFlag,
}

/// The completion that a send on a pending call's channel amounts to:
/// `Ok` when the awaiting side took the bytes, `Err` with the bytes back when
/// that side is gone.
pub fn completion_of(sent: Result<(), Vec<u8>>) -> (r: Completion)
    ensures
        match sent {
            Ok(()) => r == Completion::Delivered,
            Err(b) => r == Completion::Abandoned(b),
        },
{
    match sent {
        Ok(()) => Completion::Delivered,
        Err(b) => Completion::Abandoned(b),
    }
}

/// The outstanding calls, by handle.
pub struct CallResultTable {
    pending: HashMap<u64, Sender<Vec<u8>>>,
}

pub open spec fn after_register(pending: Set<u64>, call: u64) -> Set<u64> {
    pending.insert(call)
}

pub open spec fn after_complete(pending: Set<u64>, call: u64) -> Set<u64> {
    pending.remove(call)
}

/// Whether a completion for `call` finds a pending entry.
pub open spec fn finds_entry(pending: Set<u64>, call: u64) -> bool {
    pending.contains(call)
}

/// What completing `call` with `bytes` did, from `old` to `new`, with
/// outcome `r`: a pending call is forgotten and its sender hands the bytes
/// over exactly when `r` is `Delivered`; any other call leaves the table as
/// it is.
pub open spec fn completed(
    old: CallResultTable,
    new: CallResultTable,
    call: u64,
    bytes: Seq<u8>,
    r: Completion,
) -> bool {
    &&& new.pending() == if finds_entry(old.pending(), call) {
        after_complete(old.pending(), call)
    } else {
        old.pending()
    }
    &&& (r == Completion::NoRecipient) == !finds_entry(old.pending(), call)
    &&& finds_entry(old.pending(), call) ==> new.senders() == old.senders().remove(call)
    &&& !finds_entry(old.pending(), call) ==> new.senders() == old.senders()
    &&& r == Completion::Delivered ==> carried(old.senders()[call]) == Some(bytes)
    &&& r matches Completion::Abandoned(b) ==> b@ == bytes && carried(old.senders()[call]) is None
}

impl CallResultTable {
    /// The sending end of each outstanding call, by handle.
    pub closed spec fn senders(&self) -> Map<u64, Sender<Vec<u8>>> {
        self.pending@
    }

    /// The handles of the outstanding calls.
    pub closed spec fn pending(&self) -> Set<u64> {
        self.pending@.dom()
    }

    pub fn new() -> (r: CallResultTable)
        ensures
            r.pending() == Set::<u64>::empty(),
    {
        CallResultTable { pending: HashMap::new() }
    }

    /// Records that `call` has been issued and returns the side on which its
    /// result will arrive. It must run before the native call can complete.
    pub fn register(&mut self, call: u64) -> (rx: Receiver<Vec<u8>>)
        ensures
            final(self).pending() == after_register(old(self).pending(), call),
            final(self).senders() == old(self).senders().insert(call, final(self).senders()[call]),
            result_sender_channel(final(self).senders()[call]) == result_receiver_channel(rx),
    {
        let (tx, rx) = result_channel();
        self.pending.insert(call, tx);
        rx
    }

    /// Hands `bytes` to the call `call` and forgets it; a completion for a
    /// call that is not pending changes nothing.
    pub fn complete(&mut self, call: u64, bytes: Vec<u8>) -> (r: Completion)
        ensures
            completed(*old(self), *final(self), call, bytes@, r),
    {
        match self.pending.remove(&call) {
            Some(tx) => completion_of(send_result(tx, bytes)),
            None => {
                proof {
                    assert(self.pending@ =~= old(self).pending@);
                }
                Completion::NoRecipient
            },
        }
    }

    /// Whether `call` is outstanding.
    pub fn is_pending(&self, call: u64) -> (r: bool)
        ensures
            r == self.pending().contains(call),
    {
        self.pending.contains_key(&call)
    }
}

pub open spec fn fetch_spec(returned: bool, failed: bool) -> Result<(), FetchFailure> {
    if !returned {
        Err(FetchFailure::ReturnedFalse)
    } else if failed {
        Err(FetchFailure::FailedFlag)
    } else {
        Ok(())
    }
}

/// Routes a fetched payload: `returned` and `failed` are what the native
/// fetch call reported. A failed fetch breaks the native contract and
/// changes nothing; a good one completes `call` with `bytes`.
pub fn deliver_fetched(
    table: &mut CallResultTable,
    call: u64,
    returned: bool,
    failed: bool,
    bytes: Vec<u8>,
) -> (r: Result<Completion, FetchFailure>)
    ensures
        fetch_spec(returned, failed) matches Err(e) ==> r == Err::<Completion, FetchFailure>(e)
            && *final(table) == *old(table),
        fetch_spec(returned, failed) is Ok ==> r is Ok && completed(
            *old(table),
            *final(table),
            call,
            bytes@,
            r->Ok_0,
        ),
{
    if !returned {
        return Err(FetchFailure::ReturnedFalse);
    }
    if failed {
        return Err(FetchFailure::FailedFlag);
    }
    Ok(table.complete(call, bytes))
}

/// Exactly-once completion: after `register(call)`, a completion for `call`
/// finds its entry and removes it, so a second completion finds nothing and
/// leaves the table as it is; a completion for a call never registered has
/// no effect.
pub proof fn lemma_complete_once(pending: Set<u64>, call: u64)
    ensures
        finds_entry(after_register(pending, call), call),
        !after_complete(after_register(pending, call), call).contains(call),
        !finds_entry(after_complete(after_register(pending, call), call), call),
        !pending.contains(call) ==> after_complete(after_register(pending, call), call)
            == pending,
{
    if !pending.contains(call) {
        assert(pending.insert(call).remove(call) =~= pending);
    }
}

/// Exactly-once delivery through the table: after `register(call)` returned
/// `rx` (taking the table from `t0` to `t1`), a completion of `call` with
/// `bytes` (from `t1` to `t2`) finds the call; when it reports `Delivered`,
/// the sender on `rx`'s channel handed over exactly `bytes`. The call is then
/// forgotten, so a second completion (from `t2` to `t3`) finds nothing and
/// leaves the table as it is.
pub proof fn lemma_register_then_complete(
    t0: CallResultTable,
    t1: CallResultTable,
    t2: CallResultTable,
    t3: CallResultTable,
    call: u64,
    rx: Receiver<Vec<u8>>,
    bytes: Seq<u8>,
    again: Seq<u8>,
    r: Completion,
    r2: Completion,
)
    requires
        t1.pending() == after_register(t0.pending(), call),
        t1.senders() == t0.senders().insert(call, t1.senders()[call]),
        result_sender_channel(t1.senders()[call]) == result_receiver_channel(rx),
        completed(t1, t2, call, bytes, r),
        completed(t2, t3, call, again, r2),
    ensures
        r != Completion::NoRecipient,
        r == Completion::Delivered ==> carried(t1.senders()[call]) == Some(bytes)
            && result_sender_channel(t1.senders()[call]) == result_receiver_channel(rx),
        !t2.pending().contains(call),
        r2 == Completion::NoRecipient,
        t3.senders() == t2.senders(),
{
}

} // verus!
