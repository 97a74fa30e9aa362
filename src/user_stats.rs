//! Values and rules of leaderboard requests: the checks made before a
//! request is issued and the mapping of the native responses.
use vstd::prelude::*;

use crate::ids::SteamId;
use crate::remote_storage::{UgcHandle, UGC_HANDLE_INVALID};

verus! {

/// The longest leaderboard name, in bytes.
pub const LEADERBOARD_NAME_MAX: usize = 128;

/// The most game-specific details an entry or an upload carries.
pub const MAX_DETAILS: usize = 64;

/// Why a leaderboard name is refused before any request is made.
#[derive(Debug, Copy, Clone, PartialEq, Eq, Structural)]
pub enum LeaderboardNameError {
    /// The name holds a nul byte, first at `position`.
    Nul { position: usize },
    /// The name is `length` bytes long, over `LEADERBOARD_NAME_MAX`.
    TooLong { length: usize },
}

pub open spec fn has_nul_before(name: Seq<u8>, i: int) -> bool {
    exists|j: int| 0 <= j < i && name[j] == 0
}

/// Checks a leaderboard name: it holds no nul byte and is at most
/// `LEADERBOARD_NAME_MAX` bytes long. A nul byte is reported first.
pub fn check_leaderboard_name(name: &[u8]) -> (r: Result<(), LeaderboardNameError>)
    ensures
        r matches Err(LeaderboardNameError::Nul { position }) ==> position < name@.len()
            && name@[position as int] == 0 && !has_nul_before(name@, position as int),
        r matches Err(LeaderboardNameError::TooLong { length }) ==> length == name@.len()
            && !has_nul_before(name@, name@.len() as int) && length > LEADERBOARD_NAME_MAX,
        r is Ok <==> !has_nul_before(name@, name@.len() as int) && name@.len()
            <= LEADERBOARD_NAME_MAX,
{
    let mut i: usize = 0;
    while i < name.len()
        invariant
            0 <= i <= name.len(),
            !has_nul_before(name@, i as int),
        decreases name.len() - i,
    {
        if name[i] == 0 {
            return Err(LeaderboardNameError::Nul { position: i });
        }
        i = i + 1;
    }
    if name.len() > LEADERBOARD_NAME_MAX {
        Err(LeaderboardNameError::TooLong { length: name.len() })
    } else {
        Ok(())
    }
}

/// A rank as the native call takes it: ranks beyond `i32::MAX` become
/// `i32::MAX`.
pub open spec fn native_rank(rank: u32) -> i32 {
    if rank <= i32::MAX as u32 {
        rank as i32
    } else {
        i32::MAX
    }
}

/// The native range of a request by global rank, from `range_start` to
/// `range_end` inclusive; ranks start at 1.
pub fn global_range(range_start: u32, range_end: u32) -> (r: (i32, i32))
    requires
        range_start > 0,
        range_end >= range_start,
    ensures
        r == (native_rank(range_start), native_rank(range_end)),
{
    let start = if range_start <= i32::MAX as u32 {
        range_start as i32
    } else {
        i32::MAX
    };
    let end = if range_end <= i32::MAX as u32 {
        range_end as i32
    } else {
        i32::MAX
    };
    (start, end)
}

/// The number of details of an upload, which carries at most `MAX_DETAILS`.
pub fn details_count(details: Option<&[i32]>) -> (r: i32)
    requires
        details matches Some(d) ==> d@.len() <= MAX_DETAILS,
    ensures
        r as int == match details {
            Some(d) => d@.len() as int,
            None => 0,
        },
{
    match details {
        Some(d) => d.len() as i32,
        None => 0,
    }
}

/// The number of details to ask for per entry: at most `MAX_DETAILS`.
pub fn clamp_max_details(max_details: u8) -> (r: u8)
    ensures
        r as int == if max_details as int <= MAX_DETAILS as int {
            max_details as int
        } else {
            MAX_DETAILS as int
        },
{
    if max_details as usize > MAX_DETAILS {
        MAX_DETAILS as u8
    } else {
        max_details
    }
}

/// The outcome of a score upload that succeeded.
#[derive(Debug, Copy, Clone, Hash, PartialEq, Eq, Structural, PartialOrd, Ord)]
pub struct LeaderboardScoreUploaded {
    pub score_changed: bool,
    pub global_rank_new: i32,
    pub global_rank_previous: i32,
}

impl Default for LeaderboardScoreUploaded {
    fn default() -> (r: LeaderboardScoreUploaded)
        ensures
            r == (LeaderboardScoreUploaded {
                score_changed: false,
                global_rank_new: 0,
                global_rank_previous: 0,
            }),
    {
        LeaderboardScoreUploaded { score_changed: false, global_rank_new: 0, global_rank_previous: 0 }
    }
}

/// A score upload failed.
#[derive(Debug, Copy, Clone, Default, Hash, PartialEq, Eq, Structural, PartialOrd, Ord)]
pub struct UploadLeaderboardScoreError;

impl UploadLeaderboardScoreError {
    /// What went wrong, in words.
    pub fn message(&self) -> &'static str {
        "A call to the Steamworks function 'UploadLeaderboardScore()' failed"
    }
}

/// The outcome of an upload from the fields of its native response: it
/// succeeded exactly when the success byte is 1.
pub fn upload_outcome(
    success: u8,
    score_changed: u8,
    global_rank_new: i32,
    global_rank_previous: i32,
) -> (r: Result<LeaderboardScoreUploaded, UploadLeaderboardScoreError>)
    ensures
        success == 1 ==> r == Ok::<LeaderboardScoreUploaded, UploadLeaderboardScoreError>(
            LeaderboardScoreUploaded {
                score_changed: score_changed != 0,
                global_rank_new,
                global_rank_previous,
            },
        ),
        success != 1 ==> r == Err::<LeaderboardScoreUploaded, UploadLeaderboardScoreError>(
            UploadLeaderboardScoreError,
        ),
{
    if success == 1 {
        Ok(LeaderboardScoreUploaded { score_changed: score_changed != 0, global_rank_new, global_rank_previous })
    } else {
        Err(UploadLeaderboardScoreError)
    }
}

/// One downloaded leaderboard entry.
#[derive(Debug, Clone, Hash, PartialEq, Eq, PartialOrd, Ord)]
pub struct LeaderboardEntry {
    pub steam_id: SteamId,
    pub global_rank: i32,
    pub score: i32,
    pub details: Vec<i32>,
    pub ugc: Option<UgcHandle>,
}

impl LeaderboardEntry {
    /// An entry from the fields of its native record: `details` is the
    /// buffer the details were written to, of which the first
    /// `detail_count` are the entry's.
    pub fn from_raw(
        steam_id: u64,
        global_rank: i32,
        score: i32,
        details: Vec<i32>,
        detail_count: i32,
        ugc: u64,
    ) -> (r: LeaderboardEntry)
        ensures
            r.steam_id.value() == steam_id,
            r.global_rank == global_rank,
            r.score == score,
            r.details@ == if 0 <= detail_count < details@.len() {
                details@.take(detail_count as int)
            } else {
                details@
            },
            r.ugc is None <==> ugc == UGC_HANDLE_INVALID,
            r.ugc matches Some(h) ==> h.value() == ugc,
    {
        let mut details = details;
        if 0 <= detail_count && (detail_count as usize) < details.len() {
            details.truncate(detail_count as usize);
        }
        LeaderboardEntry {
            steam_id: SteamId::new(steam_id),
            global_rank,
            score,
            details,
            ugc: UgcHandle::from_inner(ugc),
        }
    }
}

} // verus!
