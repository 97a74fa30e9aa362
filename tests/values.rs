use steamworks::persona::{PersonaStateChangeFlags, ALL_FLAGS, AVATAR, NAME, STATUS};
use steamworks::remote_storage::{DownloadUGCResult, UgcHandle};
use steamworks::ugc::{plan_page, PagePlan, PublishedFileId, QueryType, Tags};
use steamworks::user_stats::{
    check_leaderboard_name, clamp_max_details, details_count, upload_outcome,
    LeaderboardEntry, LeaderboardNameError, LeaderboardScoreUploaded,
    UploadLeaderboardScoreError,
};
use steamworks::ugc::{app_ids_allowed, MatchingUgcType, PublishedFileVisibility, WorkshopFileType};
use steamworks::user_stats::global_range;
use steamworks::{AppId, PersonaStateChange, SteamId, SteamResult};

#[test]
fn ids_keep_their_value() {
    assert_eq!(AppId::new(233610).0, 233610);
    assert_eq!(u32::from(AppId::from(480)), 480);
    assert_eq!(SteamId::new(76561197960287930).as_u64(), 76561197960287930);
    assert_eq!(u64::from(SteamId::from(5)), 5);
    assert!(SteamId::new(1) < SteamId::new(2));
    assert_eq!(format!("{:?}", SteamId::new(7)), "SteamId(7)");
    assert_eq!(PublishedFileId(3).0, 3);
    assert_eq!(u64::from(PublishedFileId::from(8)), 8);
    assert!(QueryType::RankedByVote < QueryType::RankedByPublicationDate);
}

#[test]
fn flags_contain_and_truncate() {
    let f = PersonaStateChangeFlags::from_bits_truncate(NAME | AVATAR | 0x8000);
    assert_eq!(f.bits(), NAME | AVATAR);
    assert!(f.contains(PersonaStateChangeFlags::from_bits_truncate(NAME)));
    assert!(!f.contains(PersonaStateChangeFlags::from_bits_truncate(STATUS)));
    assert!(f.contains(PersonaStateChangeFlags::empty()));
    assert_eq!(PersonaStateChangeFlags::from_bits_truncate(u32::MAX).bits(), ALL_FLAGS);
}

#[test]
fn tags_split_on_commas() {
    let tags = Tags::new(String::from("Sprint,Map,,Race"));
    assert_eq!(tags.iter(), vec!["Sprint", "Map", "", "Race"]);
    assert_eq!(tags.as_str(), "Sprint,Map,,Race");
    assert_eq!(Tags::new(String::new()).iter(), vec![""]);
    assert_eq!(Tags::default().into_inner(), "");
    assert_eq!(Tags::new(String::from("a,")).iter(), vec!["a", ""]);
}

#[test]
fn pages_stop_at_quota_or_at_the_last_match() {
    assert_eq!(
        plan_page(u32::MAX, 0, 50, 120),
        PagePlan { take: 50, fetch_next: true }
    );
    assert_eq!(
        plan_page(u32::MAX, 100, 20, 120),
        PagePlan { take: 20, fetch_next: false }
    );
    assert_eq!(plan_page(30, 0, 50, 120), PagePlan { take: 30, fetch_next: true });
    assert_eq!(plan_page(30, 30, 50, 120), PagePlan { take: 0, fetch_next: false });
}

#[test]
fn leaderboard_names_are_checked() {
    assert_eq!(check_leaderboard_name(b"Feet Traveled"), Ok(()));
    assert_eq!(
        check_leaderboard_name(b"ab\0c\0"),
        Err(LeaderboardNameError::Nul { position: 2 })
    );
    let long = vec![b'x'; 129];
    assert_eq!(
        check_leaderboard_name(&long),
        Err(LeaderboardNameError::TooLong { length: 129 })
    );
    assert_eq!(check_leaderboard_name(&long[..128]), Ok(()));
}

#[test]
fn upload_details_and_outcomes() {
    assert_eq!(details_count(None), 0);
    assert_eq!(details_count(Some(&[1, 2, 3][..])), 3);
    assert_eq!(clamp_max_details(10), 10);
    assert_eq!(clamp_max_details(200), 64);
    assert_eq!(
        upload_outcome(1, 1, 5, 9),
        Ok(LeaderboardScoreUploaded {
            score_changed: true,
            global_rank_new: 5,
            global_rank_previous: 9
        })
    );
    assert_eq!(upload_outcome(0, 1, 5, 9), Err(UploadLeaderboardScoreError));
    assert_eq!(
        UploadLeaderboardScoreError.message(),
        "A call to the Steamworks function 'UploadLeaderboardScore()' failed"
    );
    assert_eq!(
        LeaderboardScoreUploaded::default(),
        LeaderboardScoreUploaded {
            score_changed: false,
            global_rank_new: 0,
            global_rank_previous: 0
        }
    );
}

#[test]
fn entries_keep_their_details() {
    let e = LeaderboardEntry::from_raw(11, 1, 500, vec![7, 8, 9, 0], 2, u64::MAX);
    assert_eq!(e.steam_id, SteamId::new(11));
    assert_eq!(e.details, vec![7, 8]);
    assert_eq!(e.ugc, None);
    let f = LeaderboardEntry::from_raw(11, 1, 500, vec![7, 8], -1, 12);
    assert_eq!(f.details, vec![7, 8]);
    assert_eq!(f.ugc.map(|h| h.as_u64()), Some(12));
    assert_eq!(UgcHandle::from_inner(u64::MAX), None);
}

#[test]
fn download_result_reads_its_file_name() {
    let name: [i8; 6] = [97, 46, 98, 0, 120, 0];
    let a = DownloadUGCResult::from_response(480, 10, &name, 3).unwrap();
    let b = DownloadUGCResult::from_response(480, 10, &[97, 46, 98, 0], 3).unwrap();
    assert_eq!(a, b);
    assert!(DownloadUGCResult::from_response(480, 10, &[-1, 0], 3).is_err());
}

#[test]
fn name_changes_are_recognised() {
    let c = PersonaStateChange::from_raw(10, (NAME | STATUS) as i32);
    assert!(c.is_name_change_of(SteamId::new(10)));
    assert!(!c.is_name_change_of(SteamId::new(11)));
    let s = PersonaStateChange::from_raw(10, STATUS as i32);
    assert!(!s.is_name_change_of(SteamId::new(10)));
}

#[test]
fn global_ranges_saturate_at_i32_max() {
    assert_eq!(global_range(1, 10), (1, 10));
    assert_eq!(global_range(5, u32::MAX), (5, i32::MAX));
    assert_eq!(global_range(u32::MAX, u32::MAX), (i32::MAX, i32::MAX));
}

#[test]
fn result_codes_round_trip() {
    assert_eq!(SteamResult::from_code(1), Some(SteamResult::OK));
    assert_eq!(SteamResult::from_code(2), Some(SteamResult::Fail));
    assert_eq!(SteamResult::from_code(4), None);
    assert_eq!(SteamResult::from_code(5), Some(SteamResult::InvalidPassword));
    assert_eq!(SteamResult::from_code(113), Some(SteamResult::CantRemoveItem));
    assert_eq!(SteamResult::from_code(114), None);
    assert_eq!(SteamResult::from_code(0), None);
    assert_eq!(SteamResult::CantRemoveItem.to_code(), 113);
    assert_eq!(SteamResult::OK.message(), "Success.");
}

#[test]
fn workshop_enums_have_native_values() {
    assert_eq!(MatchingUgcType::All.to_native(), -1);
    assert_eq!(MatchingUgcType::ItemsReadyToUse.to_native(), 2);
    assert_eq!(QueryType::RankedByPublicationDate.to_native(), 1);
    assert_eq!(QueryType::RankedByLifetimePlaytimeSessions.to_native(), 18);
    assert_eq!(WorkshopFileType::from_native(15), Some(WorkshopFileType::GameManagedItem));
    assert_eq!(WorkshopFileType::from_native(16), None);
    assert_eq!(PublishedFileVisibility::from_native(1), Some(PublishedFileVisibility::FriendsOnly));
    assert_eq!(PublishedFileVisibility::from_native(-1), None);
    let me = AppId::new(480);
    assert!(app_ids_allowed(None, Some(AppId::new(1)), me));
    assert!(app_ids_allowed(Some(AppId::new(1)), Some(me), me));
    assert!(!app_ids_allowed(Some(AppId::new(1)), Some(AppId::new(2)), me));
}

#[test]
fn zero_time_means_never_added() {
    assert_eq!(steamworks::ugc::time_added_to_user_list(0), None);
    assert_eq!(steamworks::ugc::time_added_to_user_list(1600000000), Some(1600000000));
}
