//! Values of the workshop (user-generated content) queries, and the paging
//! rule of a query that runs over several pages.
use vstd::prelude::*;

use crate::ids::AppId;

verus! {

/// How a workshop query ranks its results.
#[derive(Debug, Copy, Clone, Hash, PartialEq, Eq, Structural, PartialOrd, Ord)]
pub enum QueryType {
    RankedByVote,
    RankedByPublicationDate,
    AcceptedForGameRankedByAcceptanceDate,
    RankedByTrend,
    FavoritedByFriendsRankedByPublicationDate,
    CreatedByFriendsRankedByPublicationDate,
    RankedByNumTimesReported,
    CreatedByFollowedUsersRankedByPublicationDate,
    NotYetRated,
    RankedByTotalVotesAsc,
    RankedByVotesUp,
    RankedByTextSearch,
    RankedByTotalUniqueSubscriptions,
    RankedByPlaytimeTrend,
    RankedByTotalPlaytime,
    RankedByAveragePlaytimeTrend,
    RankedByLifetimeAveragePlaytime,
    RankedByPlaytimeSessionsTrend,
    RankedByLifetimePlaytimeSessions,
}

impl QueryType {
    /// The native value of this variant.
    pub open spec fn native(self) -> i32 {
        match self {
            QueryType::RankedByVote => 0,
            QueryType::RankedByPublicationDate => 1,
            QueryType::AcceptedForGameRankedByAcceptanceDate => 2,
            QueryType::RankedByTrend => 3,
            QueryType::FavoritedByFriendsRankedByPublicationDate => 4,
            QueryType::CreatedByFriendsRankedByPublicationDate => 5,
            QueryType::RankedByNumTimesReported => 6,
            QueryType::CreatedByFollowedUsersRankedByPublicationDate => 7,
            QueryType::NotYetRated => 8,
            QueryType::RankedByTotalVotesAsc => 9,
            QueryType::RankedByVotesUp => 10,
            QueryType::RankedByTextSearch => 11,
            QueryType::RankedByTotalUniqueSubscriptions => 12,
            QueryType::RankedByPlaytimeTrend => 13,
            QueryType::RankedByTotalPlaytime => 14,
            QueryType::RankedByAveragePlaytimeTrend => 15,
            QueryType::RankedByLifetimeAveragePlaytime => 16,
            QueryType::RankedByPlaytimeSessionsTrend => 17,
            QueryType::RankedByLifetimePlaytimeSessions => 18,
        }
    }

    /// The native value of this variant.
    pub fn to_native(self) -> (r: i32)
        ensures
            r == self.native(),
    {
        match self {
            QueryType::RankedByVote => 0,
            QueryType::RankedByPublicationDate => 1,
            QueryType::AcceptedForGameRankedByAcceptanceDate => 2,
            QueryType::RankedByTrend => 3,
            QueryType::FavoritedByFriendsRankedByPublicationDate => 4,
            QueryType::CreatedByFriendsRankedByPublicationDate => 5,
            QueryType::RankedByNumTimesReported => 6,
            QueryType::CreatedByFollowedUsersRankedByPublicationDate => 7,
            QueryType::NotYetRated => 8,
            QueryType::RankedByTotalVotesAsc => 9,
            QueryType::RankedByVotesUp => 10,
            QueryType::RankedByTextSearch => 11,
            QueryType::RankedByTotalUniqueSubscriptions => 12,
            QueryType::RankedByPlaytimeTrend => 13,
            QueryType::RankedByTotalPlaytime => 14,
            QueryType::RankedByAveragePlaytimeTrend => 15,
            QueryType::RankedByLifetimeAveragePlaytime => 16,
            QueryType::RankedByPlaytimeSessionsTrend => 17,
            QueryType::RankedByLifetimePlaytimeSessions => 18,
        }
    }

}

/// Which kind of content a workshop query matches.
#[derive(Debug, Copy, Clone, Hash, PartialEq, Eq, Structural, PartialOrd, Ord)]
pub enum MatchingUgcType {
    Items,
    ItemsMtx,
    ItemsReadyToUse,
    Collections,
    Artwork,
    Videos,
    Screenshots,
    AllGuides,
    WebGuides,
    IntegratedGuides,
    UsableInGame,
    ControllerBindings,
    GameManagedItems,
    All,
}

impl MatchingUgcType {
    /// The native value of this variant.
    pub open spec fn native(self) -> i32 {
        match self {
            MatchingUgcType::Items => 0,
            MatchingUgcType::ItemsMtx => 1,
            MatchingUgcType::ItemsReadyToUse => 2,
            MatchingUgcType::Collections => 3,
            MatchingUgcType::Artwork => 4,
            MatchingUgcType::Videos => 5,
            MatchingUgcType::Screenshots => 6,
            MatchingUgcType::AllGuides => 7,
            MatchingUgcType::WebGuides => 8,
            MatchingUgcType::IntegratedGuides => 9,
            MatchingUgcType::UsableInGame => 10,
            MatchingUgcType::ControllerBindings => 11,
            MatchingUgcType::GameManagedItems => 12,
            MatchingUgcType::All => -1i32,
        }
    }

    /// The native value of this variant.
    pub fn to_native(self) -> (r: i32)
        ensures
            r == self.native(),
    {
        match self {
            MatchingUgcType::Items => 0,
            MatchingUgcType::ItemsMtx => 1,
            MatchingUgcType::ItemsReadyToUse => 2,
            MatchingUgcType::Collections => 3,
            MatchingUgcType::Artwork => 4,
            MatchingUgcType::Videos => 5,
            MatchingUgcType::Screenshots => 6,
            MatchingUgcType::AllGuides => 7,
            MatchingUgcType::WebGuides => 8,
            MatchingUgcType::IntegratedGuides => 9,
            MatchingUgcType::UsableInGame => 10,
            MatchingUgcType::ControllerBindings => 11,
            MatchingUgcType::GameManagedItems => 12,
            MatchingUgcType::All => -1i32,
        }
    }

}

/// The type of a workshop item.
#[derive(Debug, Copy, Clone, Hash, PartialEq, Eq, Structural, PartialOrd, Ord)]
pub enum WorkshopFileType {
    Community,
    Microtransaction,
    Collection,
    Art,
    Video,
    Screenshot,
    Game,
    Software,
    Concept,
    WebGuide,
    IntegratedGuide,
    Merch,
    ControllerBinding,
    SteamworksAccessInvite,
    SteamVideo,
    GameManagedItem,
}

impl WorkshopFileType {
    /// The native value of this variant.
    pub open spec fn native(self) -> i32 {
        match self {
            WorkshopFileType::Community => 0,
            WorkshopFileType::Microtransaction => 1,
            WorkshopFileType::Collection => 2,
            WorkshopFileType::Art => 3,
            WorkshopFileType::Video => 4,
            WorkshopFileType::Screenshot => 5,
            WorkshopFileType::Game => 6,
            WorkshopFileType::Software => 7,
            WorkshopFileType::Concept => 8,
            WorkshopFileType::WebGuide => 9,
            WorkshopFileType::IntegratedGuide => 10,
            WorkshopFileType::Merch => 11,
            WorkshopFileType::ControllerBinding => 12,
            WorkshopFileType::SteamworksAccessInvite => 13,
            WorkshopFileType::SteamVideo => 14,
            WorkshopFileType::GameManagedItem => 15,
        }
    }

    /// The variant whose native value is `value`, if any.
    pub fn from_native(value: i32) -> (r: Option<WorkshopFileType>)
        ensures
            r matches Some(x) ==> x.native() == value,
            r is None ==> forall|x: WorkshopFileType| x.native() != value,
    {
        match value {
            0 => Some(WorkshopFileType::Community),
            1 => Some(WorkshopFileType::Microtransaction),
            2 => Some(WorkshopFileType::Collection),
            3 => Some(WorkshopFileType::Art),
            4 => Some(WorkshopFileType::Video),
            5 => Some(WorkshopFileType::Screenshot),
            6 => Some(WorkshopFileType::Game),
            7 => Some(WorkshopFileType::Software),
            8 => Some(WorkshopFileType::Concept),
            9 => Some(WorkshopFileType::WebGuide),
            10 => Some(WorkshopFileType::IntegratedGuide),
            11 => Some(WorkshopFileType::Merch),
            12 => Some(WorkshopFileType::ControllerBinding),
            13 => Some(WorkshopFileType::SteamworksAccessInvite),
            14 => Some(WorkshopFileType::SteamVideo),
            15 => Some(WorkshopFileType::GameManagedItem),
            _ => None,
        }
    }

}

/// Who may see a workshop item.
#[derive(Debug, Copy, Clone, Hash, PartialEq, Eq, Structural, PartialOrd, Ord)]
pub enum PublishedFileVisibility {
    Public,
    FriendsOnly,
    Private,
}

impl PublishedFileVisibility {
    /// The native value of this variant.
    pub open spec fn native(self) -> i32 {
        match self {
            PublishedFileVisibility::Public => 0,
            PublishedFileVisibility::FriendsOnly => 1,
            PublishedFileVisibility::Private => 2,
        }
    }

    /// The variant whose native value is `value`, if any.
    pub fn from_native(value: i32) -> (r: Option<PublishedFileVisibility>)
        ensures
            r matches Some(x) ==> x.native() == value,
            r is None ==> forall|x: PublishedFileVisibility| x.native() != value,
    {
        match value {
            0 => Some(PublishedFileVisibility::Public),
            1 => Some(PublishedFileVisibility::FriendsOnly),
            2 => Some(PublishedFileVisibility::Private),
            _ => None,
        }
    }

}

/// The identifier of a published workshop item.
#[derive(Debug, Copy, Clone, Hash, PartialEq, Eq, Structural, PartialOrd, Ord)]
pub struct PublishedFileId(pub u64);

impl From<u64> for PublishedFileId {
    fn from(x: u64) -> (r: PublishedFileId) {
        PublishedFileId(x)
    }
}

impl vstd::std_specs::convert::FromSpecImpl<u64> for PublishedFileId {
    open spec fn obeys_from_spec() -> bool {
        true
    }

    open spec fn from_spec(v: u64) -> PublishedFileId {
        PublishedFileId(v)
    }
}

impl From<PublishedFileId> for u64 {
    fn from(x: PublishedFileId) -> (r: u64) {
        x.0
    }
}

impl vstd::std_specs::convert::FromSpecImpl<PublishedFileId> for u64 {
    open spec fn obeys_from_spec() -> bool {
        true
    }

    open spec fn from_spec(v: PublishedFileId) -> u64 {
        v.0
    }
}

/// The pieces of `s` between commas, in order; an empty `s` is one empty
/// piece.
pub open spec fn comma_split(s: Seq<char>) -> Seq<Seq<char>>
    decreases s.len(),
{
    if s.len() == 0 {
        seq![Seq::empty()]
    } else {
        let init = comma_split(s.drop_last());
        if s.last() == ',' {
            init.push(Seq::empty())
        } else {
            init.update(init.len() - 1, init.last().push(s.last()))
        }
    }
}

/// Relies on `str::split` with the pattern `','`: the substrings between
/// commas, in order.
#[verifier::external_body]
fn split_commas(s: &str) -> (r: Vec<String>)
    ensures
        r@.len() == comma_split(s@).len(),
        forall|i: int| 0 <= i < r@.len() ==> #[trigger] r@[i]@ == comma_split(s@)[i],
{
    s.split(',').map(String::from).collect()
}

/// The comma-separated tags of a workshop item.
#[derive(Debug, Clone)]
pub struct Tags(String);

impl Tags {
    pub closed spec fn view(&self) -> Seq<char> {
        self.0@
    }

    pub fn new(tags: String) -> (r: Tags)
        ensures
            r.view() == tags@,
    {
        Tags(tags)
    }

    pub fn into_inner(self) -> (r: String)
        ensures
            r@ == self.view(),
    {
        self.0
    }

    pub fn as_str(&self) -> (r: &str)
        ensures
            r@ == self.view(),
    {
        self.0.as_str()
    }

    /// Each tag, in order.
    pub fn iter(&self) -> (r: Vec<String>)
        ensures
            r@.len() == comma_split(self.view()).len(),
            forall|i: int| 0 <= i < r@.len() ==> #[trigger] r@[i]@ == comma_split(self.view())[i],
    {
        split_commas(self.0.as_str())
    }
}

impl Default for Tags {
    fn default() -> (r: Tags)
        ensures
            r.view() == Seq::<char>::empty(),
    {
        Tags(String::new())
    }
}

/// What a multi-page query does with one page of results.
#[derive(Debug, Copy, Clone, PartialEq, Eq, Structural)]
pub struct PagePlan {
    /// How many of the page's results to hand out.
    pub take: u32,
    /// Whether to ask for the next page afterwards.
    pub fetch_next: bool,
}

/// The plan for a page that returned `page_results` of `total_matching`
/// results, when `returned` have been handed out so far and at most
/// `max_results` are wanted: hand out no more than the quota left, and go on
/// while the quota was not used up before this page and more results match
/// than have been handed out.
pub fn plan_page(max_results: u32, returned: u32, page_results: u32, total_matching: u32) -> (r:
    PagePlan)
    requires
        returned <= max_results,
    ensures
        r.take == if max_results - returned < page_results {
            (max_results - returned) as int
        } else {
            page_results as int
        },
        r.fetch_next == (max_results - returned > 0 && total_matching > returned + r.take),
        returned + r.take <= max_results,
{
    let quota = max_results - returned;
    let take = if quota < page_results {
        quota
    } else {
        page_results
    };
    let now_returned = returned + take;
    PagePlan { take, fetch_next: quota > 0 && total_matching > now_returned }
}

/// The time an item was added to the user's list, in seconds since the
/// epoch: a native value of 0 means that it was never added.
pub fn time_added_to_user_list(raw: u32) -> (r: Option<u32>)
    ensures
        r == if raw == 0 {
            None::<u32>
        } else {
            Some(raw)
        },
{
    if raw == 0 {
        None
    } else {
        Some(raw)
    }
}

/// Whether a query may run for the application `current`: when both the
/// creator and the consumer application are set, one of them must be
/// `current`.
pub fn app_ids_allowed(creator: Option<AppId>, consumer: Option<AppId>, current: AppId) -> (r:
    bool)
    ensures
        r == match (creator, consumer) {
            (Some(x), Some(y)) => x == current || y == current,
            _ => true,
        },
{
    match (creator, consumer) {
        (Some(x), Some(y)) => x.0 == current.0 || y.0 == current.0,
        _ => true,
    }
}

} // verus!
