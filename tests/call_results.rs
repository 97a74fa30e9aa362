use futures::channel::oneshot::Receiver;
use steamworks::call_results::{
    completion_of, deliver_fetched, CallResultTable, Completion, FetchFailure,
};

fn ready(rx: &mut Receiver<Vec<u8>>) -> Option<Vec<u8>> {
    rx.try_recv().unwrap()
}

#[test]
fn completion_reaches_its_awaiting_side_once() {
    let mut table = CallResultTable::new();
    let mut rx = table.register(42);
    assert!(table.is_pending(42));
    assert_eq!(table.complete(42, vec![1, 2, 3]), Completion::Delivered);
    assert!(!table.is_pending(42));
    assert_eq!(ready(&mut rx), Some(vec![1, 2, 3]));
    // A second arrival for the same handle is discarded.
    assert_eq!(table.complete(42, vec![9]), Completion::NoRecipient);
}

#[test]
fn completion_without_register_changes_nothing() {
    let mut table = CallResultTable::new();
    let mut rx = table.register(7);
    assert_eq!(table.complete(8, vec![5]), Completion::NoRecipient);
    assert!(table.is_pending(7));
    assert!(!table.is_pending(8));
    assert_eq!(ready(&mut rx), None);
}

#[test]
fn scenario_handle_42_resolves_then_duplicate_is_discarded() {
    let mut table = CallResultTable::new();
    let mut other = table.register(43);
    let mut rx = table.register(42);
    let payload = vec![0xde, 0xad, 0xbe, 0xef];
    assert_eq!(
        deliver_fetched(&mut table, 42, true, false, payload.clone()),
        Ok(Completion::Delivered)
    );
    assert_eq!(ready(&mut rx), Some(payload));
    assert_eq!(
        deliver_fetched(&mut table, 42, true, false, vec![1]),
        Ok(Completion::NoRecipient)
    );
    assert_eq!(ready(&mut other), None);
    assert!(table.is_pending(43));
}

#[test]
fn abandoned_call_gives_bytes_back() {
    let mut table = CallResultTable::new();
    let rx = table.register(3);
    drop(rx);
    assert_eq!(table.complete(3, vec![4, 5]), Completion::Abandoned(vec![4, 5]));
    assert!(!table.is_pending(3));
}

#[test]
fn failed_fetch_is_reported_and_changes_nothing() {
    let mut table = CallResultTable::new();
    let _rx = table.register(1);
    assert_eq!(
        deliver_fetched(&mut table, 1, false, false, vec![]),
        Err(FetchFailure::ReturnedFalse)
    );
    assert_eq!(
        deliver_fetched(&mut table, 1, true, true, vec![]),
        Err(FetchFailure::FailedFlag)
    );
    assert!(table.is_pending(1));
}

#[test]
fn send_outcomes_map_to_completions() {
    assert_eq!(completion_of(Ok(())), Completion::Delivered);
    assert_eq!(completion_of(Err(vec![1, 2])), Completion::Abandoned(vec![1, 2]));
}
