//! What Trakt answers.

use super::items::{TraktEpisode, TraktItemIds, TraktMovie, TraktShow};
use crate::double::Double;
use crate::json::{copy_value, json, JsonView};
use vstd::prelude::*;

verus! {

#[derive(Debug, Clone)]
pub struct TraktPopularItem {
    pub ids: TraktItemIds,
}

#[derive(Debug, Clone)]
pub struct TraktStats {
    pub watchers: u64,
    pub recommended: u64,
    pub favorited: u64,
}

/// A device login that has been started.
#[derive(Debug, Clone, PartialEq, Eq)]
pub struct DeviceCodeResponse {
    pub device_code: String,
    pub user_code: String,
    pub verification_url: String,
    pub expires_in: u64,
    pub interval: u64,
}

/// The tokens of a user.
#[derive(Debug, Clone, PartialEq, Eq)]
pub struct TokenResponse {
    pub access_token: String,
    pub token_type: String,
    pub expires_in: u64,
    pub refresh_token: String,
    pub scope: String,
    pub created_at: u64,
}

/// The body of an answer that refuses a token.
#[derive(Debug, Clone, PartialEq, Eq)]
pub struct TokenErrorBody {
    pub error: String,
    pub error_description: Option<String>,
}

#[derive(Debug, Clone, Default)]
pub struct UserSettings {
    pub user: TraktUser,
}

#[derive(Debug, Clone, Default)]
pub struct TraktUser {
    pub username: Option<String>,
}

#[derive(Debug, Clone)]
pub struct ScrobbleResponse {
    pub action: Option<String>,
    pub progress: Option<Double>,
}

#[derive(Debug, Default)]
pub struct SyncResult {
    pub added: Option<serde_json::Value>,
    pub deleted: Option<serde_json::Value>,
}

/// The contents of a JSON value, if there is one.
pub open spec fn optional_json(v: Option<serde_json::Value>) -> Option<JsonView> {
    match v {
        Some(v) => Some(json(v)),
        None => None,
    }
}

fn copy_optional(v: &Option<serde_json::Value>) -> (r: Option<serde_json::Value>)
    ensures
        optional_json(r) == optional_json(*v),
{
    match v {
        Some(v) => Some(copy_value(v)),
        None => None,
    }
}

impl Clone for SyncResult {
    fn clone(&self) -> (r: Self)
        ensures
            optional_json(r.added) == optional_json(self.added),
            optional_json(r.deleted) == optional_json(self.deleted),
    {
        SyncResult { added: copy_optional(&self.added), deleted: copy_optional(&self.deleted) }
    }
}

#[derive(Debug, Clone, Default)]
pub struct LastActivities {
    pub all: Option<String>,
}

#[derive(Debug, Clone)]
pub struct WatchedMovie {
    pub plays: u32,
    pub last_watched_at: Option<String>,
    pub movie: TraktMovie,
}

#[derive(Debug, Clone)]
pub struct WatchedEpisode {
    pub number: i64,
    pub last_watched_at: Option<String>,
}

#[derive(Debug, Clone)]
pub struct WatchedSeason {
    pub number: i64,
    pub episodes: Vec<WatchedEpisode>,
}

#[derive(Debug, Clone)]
pub struct WatchedShow {
    pub plays: u32,
    pub last_watched_at: Option<String>,
    pub show: TraktShow,
    pub seasons: Vec<WatchedSeason>,
}

#[derive(Debug, Clone)]
pub struct HistoryEpisodeEntry {
    pub watched_at: Option<String>,
    pub show: Option<TraktShow>,
    pub episode: Option<TraktEpisode>,
}

#[derive(Debug, Clone)]
pub struct WatchlistEntry {
    pub kind: String,
    pub movie: Option<TraktMovie>,
    pub show: Option<TraktShow>,
}

#[derive(Debug, Clone)]
pub struct RatedEntry {
    pub rating: u8,
    pub kind: String,
    pub movie: Option<TraktMovie>,
    pub show: Option<TraktShow>,
    pub episode: Option<TraktEpisode>,
}

#[derive(Debug, Clone)]
pub struct PlaybackEntry {
    pub progress: Double,
    pub kind: String,
    pub movie: Option<TraktMovie>,
    pub show: Option<TraktShow>,
    pub episode: Option<TraktEpisode>,
}

/// What the user is watching now.
#[derive(Debug, Clone)]
pub struct WatchingEntry {
    pub kind: String,
    pub progress: Option<Double>,
    pub movie: Option<TraktMovie>,
    pub show: Option<TraktShow>,
    pub episode: Option<TraktEpisode>,
}

/// Whether there is a watched episode at `k` in the season at `i`.
pub open spec fn is_watched(seasons: Seq<WatchedSeason>, i: int, k: int) -> bool {
    0 <= i < seasons.len() && 0 <= k < seasons[i].episodes@.len()
}

/// Whether the episode at `k2` in the season at `i2` does not come after the one at `k` in the
/// season at `i`: its season has a lower number, or the same and it has no higher one itself.
pub open spec fn comes_no_later(
    seasons: Seq<WatchedSeason>,
    i2: int,
    k2: int,
    i: int,
    k: int,
) -> bool {
    seasons[i2].number < seasons[i].number || (seasons[i2].number == seasons[i].number
        && seasons[i2].episodes@[k2].number <= seasons[i].episodes@[k].number)
}

/// Whether the last watched episode is at `k` in the season at `i`.
pub open spec fn is_last_watched(seasons: Seq<WatchedSeason>, i: int, k: int) -> bool {
    &&& is_watched(seasons, i, k)
    &&& forall|i2: int, k2: int| #[trigger]
        is_watched(seasons, i2, k2) ==> comes_no_later(seasons, i2, k2, i, k)
}

/// Whether `best` is the last watched episode of those in front of the one at `k` in the season at
/// `i`.
spec fn is_best(seasons: Seq<WatchedSeason>, i: int, k: int, best: Option<(usize, usize)>) -> bool {
    match best {
        Some((bi, bk)) => is_watched(seasons, bi as int, bk as int) && forall|i2: int, k2: int|
            (#[trigger] is_watched(seasons, i2, k2) && (i2 < i || (i2 == i && k2 < k)))
                ==> comes_no_later(seasons, i2, k2, bi as int, bk as int),
        None => forall|i2: int, k2: int| #[trigger]
            is_watched(seasons, i2, k2) ==> !(i2 < i || (i2 == i && k2 < k)),
    }
}

/// The episode to watch after the last one that was watched: the next number in its season. How
/// many episodes the season has is not known. There is none where no episode was watched.
pub fn next_up_after_watched(show: &WatchedShow) -> (r: Option<(i64, i64)>)
    requires
        forall|i: int, k: int| #[trigger]
            is_last_watched(show.seasons@, i, k) ==> show.seasons@[i].episodes@[k].number
                < i64::MAX,
    ensures
        match r {
            None => forall|i: int|
                0 <= i < show.seasons@.len() ==> (#[trigger] show.seasons@[i]).episodes@.len() == 0,
            Some(n) => exists|i: int, k: int| #[trigger]
                is_last_watched(show.seasons@, i, k) && n.0 == show.seasons@[i].number && n.1
                    == show.seasons@[i].episodes@[k].number + 1,
        },
{
    let seasons = &show.seasons;
    let mut best: Option<(usize, usize)> = None;
    for i in 0..seasons.len()
        invariant
            seasons@ == show.seasons@,
            is_best(seasons@, i as int, 0, best),
    {
        let episodes = &seasons[i].episodes;
        for k in 0..episodes.len()
            invariant
                i < seasons@.len(),
                *episodes == seasons@[i as int].episodes,
                is_best(seasons@, i as int, k as int, best),
        {
            assert(is_watched(seasons@, i as int, k as int));
            let is_later = match best {
                Some((bi, bk)) => seasons[bi].number < seasons[i].number || (seasons[bi].number
                    == seasons[i].number && seasons[bi].episodes[bk].number < episodes[k].number),
                None => true,
            };
            if is_later {
                best = Some((i, k));
            }
        }
    }
    match best {
        None => {
            assert forall|i: int| 0 <= i < show.seasons@.len() implies (
            #[trigger] show.seasons@[i]).episodes@.len() == 0 by {
                if show.seasons@[i].episodes@.len() > 0 {
                    assert(is_watched(show.seasons@, i, 0));
                }
            }
            None
        },
        Some((bi, bk)) => {
            assert(is_last_watched(show.seasons@, bi as int, bk as int));
            Some((seasons[bi].number, seasons[bi].episodes[bk].number + 1))
        },
    }
}

/// The last watched episode has one place in the order of episodes: what to watch next is
/// determined by what was watched.
pub proof fn lemma_next_up_unique(seasons: Seq<WatchedSeason>, i: int, k: int, j: int, m: int)
    requires
        is_last_watched(seasons, i, k),
        is_last_watched(seasons, j, m),
    ensures
        seasons[i].number == seasons[j].number,
        seasons[i].episodes@[k].number == seasons[j].episodes@[m].number,
{
    assert(is_watched(seasons, i, k));
    assert(is_watched(seasons, j, m));
}

/// The episode to watch next is the one right behind an episode that was watched, and comes after
/// every episode that was: in a later season than it, or in the same with a higher number. There is
/// one if and only if an episode was watched.
pub proof fn lemma_next_up_comes_after_all(
    show: &WatchedShow,
    r: Option<(i64, i64)>,
    i: int,
    k: int,
)
    requires
        call_ensures(next_up_after_watched, (show,), r),
        is_watched(show.seasons@, i, k),
    ensures
        r matches Some(n) && {
            &&& show.seasons@[i].number < n.0 || (show.seasons@[i].number == n.0
                && show.seasons@[i].episodes@[k].number < n.1)
            &&& exists|j: int, m: int| #[trigger]
                is_watched(show.seasons@, j, m) && show.seasons@[j].number == n.0
                    && show.seasons@[j].episodes@[m].number == n.1 - 1
        },
{
    if let Some(n) = r {
        let (j, m) = choose|j: int, m: int| #[trigger]
            is_last_watched(show.seasons@, j, m) && n.0 == show.seasons@[j].number && n.1
                == show.seasons@[j].episodes@[m].number + 1;
        assert(is_watched(show.seasons@, j, m));
    } else {
        assert(show.seasons@[i].episodes@.len() == 0);
    }
}

} // verus!
