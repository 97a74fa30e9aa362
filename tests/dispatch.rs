use steamworks::dispatch::{
    check_pointer, check_record, map_raw, route, EventKind, RawEvent, RecordError, Route,
    CALL_COMPLETED_TAG, PERSONA_STATE_CHANGE_TAG, STEAM_SHUTDOWN_TAG,
};
use steamworks::registry::Broadcast;

#[test]
fn tags_route_to_their_kind() {
    assert_eq!(route(703), Route::CallCompleted);
    assert_eq!(route(304), Route::Broadcast(EventKind::PersonaStateChange));
    assert_eq!(route(704), Route::Broadcast(EventKind::SteamShutdown));
    assert_eq!(route(CALL_COMPLETED_TAG as i32), Route::CallCompleted);
    assert_eq!(
        route(PERSONA_STATE_CHANGE_TAG as i32),
        Route::Broadcast(EventKind::PersonaStateChange)
    );
    assert_eq!(
        route(STEAM_SHUTDOWN_TAG as i32),
        Route::Broadcast(EventKind::SteamShutdown)
    );
}

#[test]
fn unknown_tags_are_ignored() {
    assert_eq!(route(0), Route::Ignore);
    assert_eq!(route(305), Route::Ignore);
    assert_eq!(route(-703), Route::Ignore);
    assert_eq!(route(i32::MIN), Route::Ignore);
    assert_eq!(route(i32::MAX), Route::Ignore);
}

#[test]
fn record_guard_accepts_a_matching_record() {
    assert_eq!(check_record(0x1000, 16, 16, 8), Ok(()));
    assert_eq!(check_record(0x1004, 12, 12, 4), Ok(()));
    assert_eq!(check_pointer(0x1008, 8), Ok(()));
}

#[test]
fn record_guard_reports_each_failure() {
    assert_eq!(check_record(0, 16, 16, 8), Err(RecordError::Null));
    assert_eq!(check_record(0x1004, 16, 16, 8), Err(RecordError::Misaligned));
    assert_eq!(check_record(0x1000, 12, 16, 8), Err(RecordError::WrongLength));
    assert_eq!(check_record(0x1000, -16, 16, 8), Err(RecordError::WrongLength));
    assert_eq!(check_pointer(0, 4), Err(RecordError::Null));
    assert_eq!(check_pointer(0x1002, 4), Err(RecordError::Misaligned));
}

#[test]
fn raw_records_map_to_public_values() {
    match map_raw(RawEvent::PersonaStateChange {
        steam_id: 42,
        change_flags: 0x10001,
    }) {
        Broadcast::PersonaStateChange(p) => {
            assert_eq!(p.steam_id.as_u64(), 42);
            assert_eq!(p.change_flags.bits(), 1);
        }
        Broadcast::SteamShutdown => panic!("wrong kind"),
    }
    assert_eq!(map_raw(RawEvent::SteamShutdown), Broadcast::SteamShutdown);
}
