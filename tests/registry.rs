use futures::channel::mpsc::UnboundedReceiver;
use steamworks::dispatch::{publish_raw, Dispatchers, RawEvent};
use steamworks::registry::{Broadcast, Registry};
use steamworks::{PersonaStateChange, PersonaStateChangeFlags, SteamId};

fn drain(rx: &mut UnboundedReceiver<Broadcast>) -> Vec<Broadcast> {
    let mut out = Vec::new();
    while let Ok(v) = rx.try_recv() {
        out.push(v);
    }
    out
}

fn change(id: u64, bits: u32) -> Broadcast {
    Broadcast::PersonaStateChange(PersonaStateChange {
        steam_id: SteamId::new(id),
        change_flags: PersonaStateChangeFlags::from_bits_truncate(bits),
    })
}

#[test]
fn subscribers_see_only_what_follows_their_subscription() {
    let mut reg = Registry::new();
    let (_, mut first) = reg.subscribe();
    reg.publish(change(1, 1));
    let (_, mut second) = reg.subscribe();
    reg.publish(change(2, 2));
    reg.publish(change(3, 4));
    let (_, mut third) = reg.subscribe();
    assert_eq!(
        drain(&mut first),
        vec![change(1, 1), change(2, 2), change(3, 4)]
    );
    assert_eq!(drain(&mut second), vec![change(2, 2), change(3, 4)]);
    assert_eq!(drain(&mut third), vec![]);
    assert_eq!(reg.len(), 3);
}

#[test]
fn dropped_subscriber_is_pruned_on_next_publish() {
    let mut reg = Registry::new();
    let (gone, rx) = reg.subscribe();
    let (kept, mut live) = reg.subscribe();
    drop(rx);
    // Nothing is pruned until the next publish.
    assert!(reg.contains(gone));
    assert_eq!(reg.len(), 2);
    let pruned = reg.publish(Broadcast::SteamShutdown);
    assert_eq!(pruned, vec![gone]);
    assert!(!reg.contains(gone));
    assert!(reg.contains(kept));
    assert_eq!(reg.len(), 1);
    assert_eq!(drain(&mut live), vec![Broadcast::SteamShutdown]);
    assert!(reg.publish(Broadcast::SteamShutdown).is_empty());
}

#[test]
fn publish_without_subscribers_is_harmless() {
    let mut reg = Registry::new();
    assert!(reg.publish(change(5, 1)).is_empty());
    let (_, mut rx) = reg.subscribe();
    assert_eq!(drain(&mut rx), vec![]);
}

#[test]
fn scenario_kinds_do_not_mix() {
    let mut d = Dispatchers::new();
    let (_, mut a) = d.persona_state_change.subscribe();
    d.dispatch(RawEvent::PersonaStateChange {
        steam_id: 76561197960287930,
        change_flags: 1,
    });
    d.dispatch(RawEvent::SteamShutdown);
    assert_eq!(drain(&mut a), vec![change(76561197960287930, 1)]);
}

#[test]
fn raw_flags_are_truncated_to_known_bits() {
    let mut d = Dispatchers::new();
    let (_, mut rx) = d.persona_state_change.subscribe();
    d.dispatch(RawEvent::PersonaStateChange {
        steam_id: 9,
        change_flags: -1,
    });
    let got = drain(&mut rx);
    assert_eq!(got, vec![change(9, 0x7fff)]);
    match got[0] {
        Broadcast::PersonaStateChange(p) => {
            assert_eq!(p.change_flags.bits(), 0x7fff);
            assert_eq!(p.steam_id.as_u64(), 9);
        }
        Broadcast::SteamShutdown => unreachable!(),
    }
}

#[test]
fn raw_events_reach_live_subscribers_and_prune_dead_ones() {
    let mut reg = Registry::new();
    let (_, mut live) = reg.subscribe();
    let (dead, rx) = reg.subscribe();
    drop(rx);
    let pruned = publish_raw(
        &mut reg,
        RawEvent::PersonaStateChange {
            steam_id: 3,
            change_flags: 2,
        },
    );
    assert_eq!(pruned, vec![dead]);
    assert_eq!(drain(&mut live), vec![change(3, 2)]);
    assert_eq!(reg.len(), 1);
}
