//! Reading what Trakt knows of a user: which requests are sent, and what the answers say.

use super::calls::{is_call, optional_str, optional_view, TraktAddon, TraktCall};
use super::errors::{map_error, mapped_error};
use super::targets::{external_ids, ids_to_external};
use super::tokens::{bad_credentials, kept_tokens, StoredTokens};
use crate::double::{lemma_natural, lemma_positive_patterns, Double};
use crate::ids::ExternalIds;
use crate::rest::{parsed_url, request_of, ClientError, Method, RequestView};
use crate::text::same_text;
use crate::time::{
    formatted_instant, parse_watched_at, rfc3339_instant, watched_at_spec, Timestamp,
};
use crate::tracker::{
    ErrorView, MediaTrackerCredentials, MediaTrackerResult, RemoteWatch,
};
use crate::trakt::endpoints::{
    HistoryEpisodesEndpoint, PlaybackEndpoint, RatingsEndpoint, WatchedMoviesEndpoint,
    WatchedShowsEndpoint, WatchingEndpoint,
};
use crate::trakt::items::{TraktEpisode, TraktItemIds, TraktShow};
use crate::trakt::replies::{
    HistoryEpisodeEntry, PlaybackEntry, RatedEntry, WatchedEpisode, WatchedMovie, WatchedSeason,
    WatchedShow, WatchingEntry,
};
use vstd::prelude::*;

verus! {

/// How many items are asked for at once.
pub const PAGE_SIZE: u32 = 100;

/// How many pages of the history are read at most.
pub const MAX_HISTORY_PAGES: u32 = 20;

/// A title that was watched, or not.
pub open spec fn watch_of(
    ids: ExternalIds,
    season: Option<i64>,
    episode: Option<i64>,
    watched: bool,
    watched_at: Option<Timestamp>,
) -> RemoteWatch {
    RemoteWatch {
        ids,
        season,
        episode,
        watched,
        position_ticks: None,
        progress_percent: None,
        watched_at,
        favorite: None,
        rating: None,
    }
}

fn watch(
    ids: ExternalIds,
    season: Option<i64>,
    episode: Option<i64>,
    watched: bool,
    watched_at: Option<Timestamp>,
) -> (r: RemoteWatch)
    ensures
        r == watch_of(ids, season, episode, watched, watched_at),
{
    RemoteWatch {
        ids,
        season,
        episode,
        watched,
        position_ticks: None,
        progress_percent: None,
        watched_at,
        favorite: None,
        rating: None,
    }
}

/// A movie counts as watched if it was played.
pub open spec fn movie_watch(item: WatchedMovie) -> RemoteWatch {
    watch_of(
        external_ids(item.movie.ids),
        None,
        None,
        item.plays > 0,
        watched_at_spec(optional_view(item.last_watched_at)),
    )
}

pub open spec fn movie_watches(items: Seq<WatchedMovie>) -> Seq<RemoteWatch> {
    items.map_values(|item: WatchedMovie| movie_watch(item))
}

/// What the list of watched movies says.
pub fn watches_of_movies(items: &Vec<WatchedMovie>) -> (r: Vec<RemoteWatch>)
    ensures
        r@ == movie_watches(items@),
{
    let mut out: Vec<RemoteWatch> = Vec::new();
    for i in 0..items.len()
        invariant
            out@ == movie_watches(items@.take(i as int)),
    {
        let item = &items[i];
        out.push(
            watch(
                ids_to_external(&item.movie.ids),
                None,
                None,
                item.plays > 0,
                parse_watched_at(optional_str(&item.last_watched_at)),
            ),
        );
        assert(out@ =~= movie_watches(items@.take(i + 1)));
    }
    assert(items@.take(items@.len() as int) =~= items@);
    out
}

/// An episode of a watched show: it is named by the ids of the show, its season and its number.
pub open spec fn episode_watch(ids: TraktItemIds, season: i64, ep: WatchedEpisode) -> RemoteWatch {
    watch_of(
        external_ids(ids),
        Some(season),
        Some(ep.number),
        true,
        watched_at_spec(optional_view(ep.last_watched_at)),
    )
}

pub open spec fn season_watches(ids: TraktItemIds, season: WatchedSeason) -> Seq<RemoteWatch> {
    season.episodes@.map_values(|ep: WatchedEpisode| episode_watch(ids, season.number, ep))
}

pub open spec fn seasons_watches(ids: TraktItemIds, seasons: Seq<WatchedSeason>) -> Seq<RemoteWatch>
    decreases seasons.len(),
{
    if seasons.len() == 0 {
        Seq::empty()
    } else {
        seasons_watches(ids, seasons.drop_last()) + season_watches(ids, seasons.last())
    }
}

pub open spec fn show_watches(shows: Seq<WatchedShow>) -> Seq<RemoteWatch>
    decreases shows.len(),
{
    if shows.len() == 0 {
        Seq::empty()
    } else {
        show_watches(shows.drop_last()) + seasons_watches(
            shows.last().show.ids,
            shows.last().seasons@,
        )
    }
}

fn watches_of_season(ids: &TraktItemIds, season: &WatchedSeason) -> (r: Vec<RemoteWatch>)
    ensures
        r@ == season_watches(*ids, *season),
{
    let mut out: Vec<RemoteWatch> = Vec::new();
    for k in 0..season.episodes.len()
        invariant
            out@ =~= season.episodes@.take(k as int).map_values(
                |ep: WatchedEpisode| episode_watch(*ids, season.number, ep),
            ),
    {
        let ep = &season.episodes[k];
        out.push(
            watch(
                ids_to_external(ids),
                Some(season.number),
                Some(ep.number),
                true,
                parse_watched_at(optional_str(&ep.last_watched_at)),
            ),
        );
    }
    assert(season.episodes@.take(season.episodes@.len() as int) =~= season.episodes@);
    out
}

fn watches_of_seasons(ids: &TraktItemIds, seasons: &Vec<WatchedSeason>) -> (r: Vec<RemoteWatch>)
    ensures
        r@ == seasons_watches(*ids, seasons@),
{
    let mut out: Vec<RemoteWatch> = Vec::new();
    for j in 0..seasons.len()
        invariant
            out@ == seasons_watches(*ids, seasons@.take(j as int)),
    {
        assert(seasons@.take(j + 1).drop_last() =~= seasons@.take(j as int));
        let mut more = watches_of_season(ids, &seasons[j]);
        out.append(&mut more);
    }
    assert(seasons@.take(seasons@.len() as int) =~= seasons@);
    out
}

/// What the list of watched shows says.
pub fn watches_of_shows(shows: &Vec<WatchedShow>) -> (r: Vec<RemoteWatch>)
    ensures
        r@ == show_watches(shows@),
{
    let mut out: Vec<RemoteWatch> = Vec::new();
    for i in 0..shows.len()
        invariant
            out@ == show_watches(shows@.take(i as int)),
    {
        assert(shows@.take(i + 1).drop_last() =~= shows@.take(i as int));
        let mut more = watches_of_seasons(&shows[i].show.ids, &shows[i].seasons);
        out.append(&mut more);
    }
    assert(shows@.take(shows@.len() as int) =~= shows@);
    out
}

/// What the items say of which something can be said, in their order.
pub open spec fn collected<A>(items: Seq<A>, f: spec_fn(A) -> Option<RemoteWatch>) -> Seq<RemoteWatch>
    decreases items.len(),
{
    if items.len() == 0 {
        Seq::empty()
    } else {
        let out = collected(items.drop_last(), f);
        match f(items.last()) {
            Some(w) => out.push(w),
            None => out,
        }
    }
}

/// An entry of the history names an episode if it has a show, a season and a number.
pub open spec fn history_watch(item: HistoryEpisodeEntry) -> Option<RemoteWatch> {
    match (item.show, item.episode) {
        (Some(show), Some(ep)) => if ep.season is Some && ep.number is Some {
            Some(
                watch_of(
                    external_ids(show.ids),
                    ep.season,
                    ep.number,
                    true,
                    watched_at_spec(optional_view(item.watched_at)),
                ),
            )
        } else {
            None
        },
        _ => None,
    }
}

pub open spec fn history_watches(items: Seq<HistoryEpisodeEntry>) -> Seq<RemoteWatch> {
    collected(items, |item: HistoryEpisodeEntry| history_watch(item))
}

fn watch_of_history(item: &HistoryEpisodeEntry) -> (r: Option<RemoteWatch>)
    ensures
        r == history_watch(*item),
{
    match (&item.show, &item.episode) {
        (Some(show), Some(ep)) => {
            if ep.season.is_some() && ep.number.is_some() {
                Some(
                    watch(
                        ids_to_external(&show.ids),
                        ep.season,
                        ep.number,
                        true,
                        parse_watched_at(optional_str(&item.watched_at)),
                    ),
                )
            } else {
                None
            }
        },
        _ => None,
    }
}

/// What a page of the history says.
pub fn watches_of_history(items: &Vec<HistoryEpisodeEntry>) -> (r: Vec<RemoteWatch>)
    ensures
        r@ == history_watches(items@),
{
    let mut out: Vec<RemoteWatch> = Vec::new();
    for i in 0..items.len()
        invariant
            out@ == history_watches(items@.take(i as int)),
    {
        assert(items@.take(i + 1).drop_last() =~= items@.take(i as int));
        if let Some(w) = watch_of_history(&items[i]) {
            out.push(w);
        }
    }
    assert(items@.take(items@.len() as int) =~= items@);
    out
}

/// A title and its rating.
pub open spec fn rating_of(
    ids: ExternalIds,
    season: Option<i64>,
    episode: Option<i64>,
    rating: u8,
) -> RemoteWatch {
    RemoteWatch { rating: Some(Double::natural(rating)), ..watch_of(ids, season, episode, false, None) }
}

/// A rating is of a movie, a show or an episode. Only an episode has a season and a number.
pub open spec fn rating_watch(item: RatedEntry) -> Option<RemoteWatch> {
    if item.kind@ == "movie"@ {
        match item.movie {
            Some(m) => Some(rating_of(external_ids(m.ids), None, None, item.rating)),
            None => None,
        }
    } else if item.kind@ == "show"@ {
        match item.show {
            Some(s) => Some(rating_of(external_ids(s.ids), None, None, item.rating)),
            None => None,
        }
    } else if item.kind@ == "episode"@ {
        match item.episode {
            Some(e) => Some(rating_of(external_ids(e.ids), e.season, e.number, item.rating)),
            None => None,
        }
    } else {
        None
    }
}

pub open spec fn rating_watches(items: Seq<RatedEntry>) -> Seq<RemoteWatch> {
    collected(items, |item: RatedEntry| rating_watch(item))
}

fn watch_of_rating(item: &RatedEntry) -> (r: Option<RemoteWatch>)
    ensures
        r == rating_watch(*item),
{
    let (ids, season, episode) = if same_text(item.kind.as_str(), "movie") {
        match &item.movie {
            Some(m) => (ids_to_external(&m.ids), None, None),
            None => {
                return None;
            },
        }
    } else if same_text(item.kind.as_str(), "show") {
        match &item.show {
            Some(s) => (ids_to_external(&s.ids), None, None),
            None => {
                return None;
            },
        }
    } else if same_text(item.kind.as_str(), "episode") {
        match &item.episode {
            Some(e) => (ids_to_external(&e.ids), e.season, e.number),
            None => {
                return None;
            },
        }
    } else {
        return None;
    };
    Some(
        RemoteWatch {
            ids,
            season,
            episode,
            watched: false,
            position_ticks: None,
            progress_percent: None,
            watched_at: None,
            favorite: None,
            rating: Some(Double::from_natural(item.rating)),
        },
    )
}

/// What the list of ratings says.
pub fn watches_of_ratings(items: &Vec<RatedEntry>) -> (r: Vec<RemoteWatch>)
    ensures
        r@ == rating_watches(items@),
{
    let mut out: Vec<RemoteWatch> = Vec::new();
    for i in 0..items.len()
        invariant
            out@ == rating_watches(items@.take(i as int)),
    {
        assert(items@.take(i + 1).drop_last() =~= items@.take(i as int));
        if let Some(w) = watch_of_rating(&items[i]) {
            out.push(w);
        }
    }
    assert(items@.take(items@.len() as int) =~= items@);
    out
}

/// A title and how far it has been played.
pub open spec fn progress_of(
    ids: ExternalIds,
    season: Option<i64>,
    episode: Option<i64>,
    progress: Double,
) -> RemoteWatch {
    RemoteWatch {
        progress_percent: Some(progress),
        ..watch_of(ids, season, episode, false, None)
    }
}

fn progressed(
    ids: ExternalIds,
    season: Option<i64>,
    episode: Option<i64>,
    progress: Double,
) -> (r: RemoteWatch)
    ensures
        r == progress_of(ids, season, episode, progress),
{
    RemoteWatch {
        ids,
        season,
        episode,
        watched: false,
        position_ticks: None,
        progress_percent: Some(progress),
        watched_at: None,
        favorite: None,
        rating: None,
    }
}

/// The episode that an entry names, or one of which nothing is known.
pub open spec fn episode_or_unnamed(e: Option<TraktEpisode>) -> TraktEpisode {
    match e {
        Some(e) => e,
        None => TraktEpisode::unnamed(),
    }
}

/// The ids by which an episode is found: those of the show, or its own where there is no show.
pub open spec fn episode_ids(
    show: Option<crate::trakt::items::TraktShow>,
    episode: Option<TraktEpisode>,
) -> ExternalIds {
    match show {
        Some(s) => external_ids(s.ids),
        None => external_ids(episode_or_unnamed(episode).ids),
    }
}

fn find_episode(
    show: &Option<crate::trakt::items::TraktShow>,
    episode: &Option<TraktEpisode>,
) -> (r: (ExternalIds, Option<i64>, Option<i64>))
    ensures
        r.0 == episode_ids(*show, *episode),
        r.1 == episode_or_unnamed(*episode).season,
        r.2 == episode_or_unnamed(*episode).number,
{
    let ep = match episode {
        Some(e) => e.clone(),
        None => TraktEpisode::default(),
    };
    let ids = match show {
        Some(s) => ids_to_external(&s.ids),
        None => ids_to_external(&ep.ids),
    };
    (ids, ep.season, ep.number)
}

/// An entry of the playbacks is a movie, or an episode.
pub open spec fn playback_watch(item: PlaybackEntry) -> Option<RemoteWatch> {
    if item.kind@ == "movie"@ {
        match item.movie {
            Some(m) => Some(progress_of(external_ids(m.ids), None, None, item.progress)),
            None => None,
        }
    } else if item.kind@ == "episode"@ {
        let ep = episode_or_unnamed(item.episode);
        Some(
            progress_of(episode_ids(item.show, item.episode), ep.season, ep.number, item.progress),
        )
    } else {
        None
    }
}

pub open spec fn playback_watches(items: Seq<PlaybackEntry>) -> Seq<RemoteWatch> {
    collected(items, |item: PlaybackEntry| playback_watch(item))
}

fn watch_of_playback(item: &PlaybackEntry) -> (r: Option<RemoteWatch>)
    ensures
        r == playback_watch(*item),
{
    if same_text(item.kind.as_str(), "movie") {
        match &item.movie {
            Some(m) => Some(progressed(ids_to_external(&m.ids), None, None, item.progress)),
            None => None,
        }
    } else if same_text(item.kind.as_str(), "episode") {
        let (ids, season, number) = find_episode(&item.show, &item.episode);
        Some(progressed(ids, season, number, item.progress))
    } else {
        None
    }
}

/// What the list of playbacks says.
pub fn watches_of_playback(items: &Vec<PlaybackEntry>) -> (r: Vec<RemoteWatch>)
    ensures
        r@ == playback_watches(items@),
{
    let mut out: Vec<RemoteWatch> = Vec::new();
    for i in 0..items.len()
        invariant
            out@ == playback_watches(items@.take(i as int)),
    {
        assert(items@.take(i + 1).drop_last() =~= items@.take(i as int));
        if let Some(w) = watch_of_playback(&items[i]) {
            out.push(w);
        }
    }
    assert(items@.take(items@.len() as int) =~= items@);
    out
}

/// What is being watched now counts if it can be found by an id. Where it is not said how far it
/// has got, it has just begun: one percent.
pub open spec fn watching_watch(item: WatchingEntry) -> Option<RemoteWatch> {
    let ep = episode_or_unnamed(item.episode);
    let progress = match item.progress {
        Some(p) => p,
        None => Double::one_spec(),
    };
    if item.kind@ == "movie"@ {
        match item.movie {
            Some(m) => if external_ids(m.ids).some_id() {
                Some(progress_of(external_ids(m.ids), None, None, progress))
            } else {
                None
            },
            None => None,
        }
    } else if item.kind@ == "episode"@ {
        if episode_ids(item.show, item.episode).some_id() {
            Some(
                progress_of(episode_ids(item.show, item.episode), ep.season, ep.number, progress),
            )
        } else {
            None
        }
    } else {
        None
    }
}

/// What the entry says of what is being watched now.
pub fn watch_of_watching(item: &WatchingEntry) -> (r: Option<RemoteWatch>)
    ensures
        r == watching_watch(*item),
{
    let (ids, season, number) = if same_text(item.kind.as_str(), "movie") {
        match &item.movie {
            Some(m) => (ids_to_external(&m.ids), None, None),
            None => (ExternalIds::default(), None, None),
        }
    } else if same_text(item.kind.as_str(), "episode") {
        find_episode(&item.show, &item.episode)
    } else {
        (ExternalIds::default(), None, None)
    };
    if ids.has_id() {
        let progress = match item.progress {
            Some(p) => p,
            None => Double::one(),
        };
        Some(progressed(ids, season, number, progress))
    } else {
        None
    }
}

pub open spec fn watching_watches(item: Option<WatchingEntry>) -> Seq<RemoteWatch> {
    match item {
        Some(item) => match watching_watch(item) {
            Some(w) => seq![w],
            None => Seq::empty(),
        },
        None => Seq::empty(),
    }
}

/// How far the reading has got: what is being asked for.
#[derive(Debug, Clone, Copy, PartialEq, Eq, Structural)]
pub enum PullStage {
    Movies,
    Shows,
    History { page: u32 },
    Ratings,
    Playback,
    Watching,
}

/// What Trakt answered to a question.
pub enum PullReply {
    Movies(Result<Vec<WatchedMovie>, ClientError>),
    Shows(Result<Vec<WatchedShow>, ClientError>),
    History(Result<Vec<HistoryEpisodeEntry>, ClientError>),
    Ratings(Result<Vec<RatedEntry>, ClientError>),
    Playback(Result<Vec<PlaybackEntry>, ClientError>),
    Watching(Result<Option<WatchingEntry>, ClientError>),
}

impl PullReply {
    /// Whether this answers what is being asked for.
    pub open spec fn fits(self, stage: PullStage) -> bool {
        match stage {
            PullStage::Movies => self is Movies,
            PullStage::Shows => self is Shows,
            PullStage::History { .. } => self is History,
            PullStage::Ratings => self is Ratings,
            PullStage::Playback => self is Playback,
            PullStage::Watching => self is Watching,
        }
    }
}

/// A reading under way: the token of the user, what is being asked for, and what is known so far.
pub struct PullState {
    pub token: String,
    pub stage: PullStage,
    pub out: Vec<RemoteWatch>,
}

/// What is to be done next: to send a request and go on with the answer, or nothing more.
pub enum PullStep {
    Ask { call: TraktCall, state: PullState },
    Done(MediaTrackerResult<Vec<RemoteWatch>>),
}

/// What comes of an answer.
pub enum PullNext {
    Ask(PullStage, Seq<RemoteWatch>),
    Finished(Seq<RemoteWatch>),
    Failed(ErrorView),
}

/// The request with which something is asked for.
pub open spec fn stage_request(stage: PullStage) -> RequestView {
    match stage {
        PullStage::Movies => request_of(WatchedMoviesEndpoint { page: 1, limit: PAGE_SIZE }),
        PullStage::Shows => request_of(WatchedShowsEndpoint { page: 1, limit: PAGE_SIZE }),
        PullStage::History { page } => request_of(
            HistoryEpisodesEndpoint { page, limit: PAGE_SIZE },
        ),
        PullStage::Ratings => request_of(RatingsEndpoint { page: 1, limit: PAGE_SIZE }),
        PullStage::Playback => request_of(PlaybackEndpoint),
        PullStage::Watching => request_of(WatchingEndpoint),
    }
}

/// What is asked for after a page of the history: the next page if this one was full and there is
/// another to read, and else the ratings.
pub open spec fn after_history(page: u32, len: nat) -> PullStage {
    if len < PAGE_SIZE || page >= MAX_HISTORY_PAGES {
        PullStage::Ratings
    } else {
        PullStage::History { page: (page + 1) as u32 }
    }
}

/// What comes of an answer, when `out` is known already. An answer that is an error ends the
/// reading, except to the last question, of which nothing depends.
pub open spec fn advance(stage: PullStage, out: Seq<RemoteWatch>, reply: PullReply) -> PullNext {
    match (stage, reply) {
        (PullStage::Movies, PullReply::Movies(Ok(v))) => PullNext::Ask(
            PullStage::Shows,
            out + movie_watches(v@),
        ),
        (PullStage::Movies, PullReply::Movies(Err(e))) => PullNext::Failed(mapped_error(e)),
        (PullStage::Shows, PullReply::Shows(Ok(v))) => PullNext::Ask(
            PullStage::History { page: 1 },
            out + show_watches(v@),
        ),
        (PullStage::Shows, PullReply::Shows(Err(e))) => PullNext::Failed(mapped_error(e)),
        (PullStage::History { page }, PullReply::History(Ok(v))) => PullNext::Ask(
            after_history(page, v@.len()),
            out + history_watches(v@),
        ),
        (PullStage::History { page }, PullReply::History(Err(e))) => PullNext::Failed(
            mapped_error(e),
        ),
        (PullStage::Ratings, PullReply::Ratings(Ok(v))) => PullNext::Ask(
            PullStage::Playback,
            out + rating_watches(v@),
        ),
        (PullStage::Ratings, PullReply::Ratings(Err(e))) => PullNext::Failed(mapped_error(e)),
        (PullStage::Playback, PullReply::Playback(Ok(v))) => PullNext::Ask(
            PullStage::Watching,
            out + playback_watches(v@),
        ),
        (PullStage::Playback, PullReply::Playback(Err(e))) => PullNext::Failed(mapped_error(e)),
        (PullStage::Watching, PullReply::Watching(Ok(w))) => PullNext::Finished(
            out + watching_watches(w),
        ),
        (PullStage::Watching, PullReply::Watching(Err(_))) => PullNext::Finished(out),
        _ => arbitrary(),
    }
}

/// Whether `r` is the step to take. Where the address of the service is none no request can be
/// sent: that ends the reading with an error, except at the last question.
pub open spec fn is_step(r: PullStep, addon: TraktAddon, token: Seq<char>, next: PullNext) -> bool {
    match next {
        PullNext::Failed(why) => r matches PullStep::Done(Err(e)) && e@ == why,
        PullNext::Finished(out) => r matches PullStep::Done(Ok(o)) && o@ == out,
        PullNext::Ask(stage, out) => match r {
            PullStep::Ask { call, state } => {
                &&& state.stage == stage
                &&& state.out@ == out
                &&& state.token@ == token
                &&& is_call(Ok(call), addon, Some(token), stage_request(stage))
            },
            PullStep::Done(Err(e)) => stage !is Watching && is_call(
                Err(e),
                addon,
                Some(token),
                stage_request(stage),
            ),
            PullStep::Done(Ok(o)) => stage is Watching && o@ == out && parsed_url(
                addon.base_url@,
            ) is Err,
        },
    }
}

fn ask(addon: &TraktAddon, state: PullState) -> (r: PullStep)
    ensures
        is_step(r, *addon, state.token@, PullNext::Ask(state.stage, state.out@)),
{
    let token = Some(state.token.as_str());
    let call = match state.stage {
        PullStage::Movies => addon.execute(
            token,
            &WatchedMoviesEndpoint { page: 1, limit: PAGE_SIZE },
        ),
        PullStage::Shows => addon.execute(
            token,
            &WatchedShowsEndpoint { page: 1, limit: PAGE_SIZE },
        ),
        PullStage::History { page } => addon.execute(
            token,
            &HistoryEpisodesEndpoint { page, limit: PAGE_SIZE },
        ),
        PullStage::Ratings => addon.execute(token, &RatingsEndpoint { page: 1, limit: PAGE_SIZE }),
        PullStage::Playback => addon.execute(token, &PlaybackEndpoint),
        PullStage::Watching => addon.execute(token, &WatchingEndpoint),
    };
    match call {
        Ok(call) => PullStep::Ask { call, state },
        Err(e) => match state.stage {
            PullStage::Watching => PullStep::Done(Ok(state.out)),
            _ => PullStep::Done(Err(e)),
        },
    }
}

fn extended(out: Vec<RemoteWatch>, more: Vec<RemoteWatch>) -> (r: Vec<RemoteWatch>)
    ensures
        r@ == out@ + more@,
{
    let mut out = out;
    let mut more = more;
    out.append(&mut more);
    out
}

impl TraktAddon {
    /// Begins to read what Trakt knows of the user.
    pub fn pull_changes(&self, creds: &MediaTrackerCredentials) -> (r: PullStep)
        ensures
            match kept_tokens(creds@) {
                None => r matches PullStep::Done(Err(e)) && e@ == bad_credentials(creds@),
                Some(t) => is_step(
                    r,
                    *self,
                    t.access_token,
                    PullNext::Ask(PullStage::Movies, Seq::empty()),
                ),
            },
    {
        match StoredTokens::from_creds(creds) {
            Ok(stored) => ask(
                self,
                PullState { token: stored.access_token, stage: PullStage::Movies, out: Vec::new() },
            ),
            Err(e) => PullStep::Done(Err(e)),
        }
    }

    /// Begins to import the history of the user: all that Trakt knows of them.
    pub fn import_history(&self, creds: &MediaTrackerCredentials) -> (r: PullStep)
        ensures
            match kept_tokens(creds@) {
                None => r matches PullStep::Done(Err(e)) && e@ == bad_credentials(creds@),
                Some(t) => is_step(
                    r,
                    *self,
                    t.access_token,
                    PullNext::Ask(PullStage::Movies, Seq::empty()),
                ),
            },
    {
        self.pull_changes(creds)
    }

    /// Goes on with the reading when there is an answer.
    pub fn pull_resume(&self, state: PullState, reply: PullReply) -> (r: PullStep)
        requires
            reply.fits(state.stage),
        ensures
            is_step(r, *self, state.token@, advance(state.stage, state.out@, reply)),
    {
        let PullState { token, stage, out } = state;
        match reply {
            PullReply::Movies(Ok(v)) => ask(
                self,
                PullState {
                    token,
                    stage: PullStage::Shows,
                    out: extended(out, watches_of_movies(&v)),
                },
            ),
            PullReply::Shows(Ok(v)) => ask(
                self,
                PullState {
                    token,
                    stage: PullStage::History { page: 1 },
                    out: extended(out, watches_of_shows(&v)),
                },
            ),
            PullReply::History(Ok(v)) => {
                let page: u32 = match stage {
                    PullStage::History { page } => page,
                    _ => MAX_HISTORY_PAGES,
                };
                let next = if v.len() < PAGE_SIZE as usize || page >= MAX_HISTORY_PAGES {
                    PullStage::Ratings
                } else {
                    PullStage::History { page: page + 1 }
                };
                ask(self, PullState { token, stage: next, out: extended(out, watches_of_history(&v)) })
            },
            PullReply::Ratings(Ok(v)) => ask(
                self,
                PullState {
                    token,
                    stage: PullStage::Playback,
                    out: extended(out, watches_of_ratings(&v)),
                },
            ),
            PullReply::Playback(Ok(v)) => ask(
                self,
                PullState {
                    token,
                    stage: PullStage::Watching,
                    out: extended(out, watches_of_playback(&v)),
                },
            ),
            PullReply::Watching(Ok(w)) => {
                let ghost before = out@;
                let mut out = out;
                if let Some(item) = &w {
                    if let Some(x) = watch_of_watching(item) {
                        out.push(x);
                    }
                }
                assert(out@ =~= before + watching_watches(w));
                PullStep::Done(Ok(out))
            },
            PullReply::Watching(Err(_)) => PullStep::Done(Ok(out)),
            PullReply::Movies(Err(e)) => PullStep::Done(Err(map_error(e))),
            PullReply::Shows(Err(e)) => PullStep::Done(Err(map_error(e))),
            PullReply::History(Err(e)) => PullStep::Done(Err(map_error(e))),
            PullReply::Ratings(Err(e)) => PullStep::Done(Err(map_error(e))),
            PullReply::Playback(Err(e)) => PullStep::Done(Err(map_error(e))),
        }
    }
}

/// What comes of a whole series of answers.
pub open spec fn run(stage: PullStage, out: Seq<RemoteWatch>, replies: Seq<PullReply>) -> PullNext
    decreases replies.len(),
{
    if replies.len() == 0 {
        PullNext::Ask(stage, out)
    } else {
        match advance(stage, out, replies[0]) {
            PullNext::Ask(s, o) => run(s, o, replies.drop_first()),
            end => end,
        }
    }
}

/// How many questions are left at most.
pub open spec fn questions_left(stage: PullStage) -> int {
    match stage {
        PullStage::Movies => 5 + MAX_HISTORY_PAGES,
        PullStage::Shows => 4 + MAX_HISTORY_PAGES,
        PullStage::History { page } => if page <= MAX_HISTORY_PAGES {
            4 + MAX_HISTORY_PAGES - page
        } else {
            4
        },
        PullStage::Ratings => 3,
        PullStage::Playback => 2,
        PullStage::Watching => 1,
    }
}

/// The import only reads: no request of it changes anything at Trakt.
pub proof fn lemma_import_only_reads(stage: PullStage)
    ensures
        stage_request(stage).method == Method::Get,
        stage_request(stage).body is None,
{
}

/// The reading ends: each answer leaves fewer questions, of which there are 25 at first.
pub proof fn lemma_pull_ends(stage: PullStage, out: Seq<RemoteWatch>, reply: PullReply)
    requires
        reply.fits(stage),
        stage matches PullStage::History { page } ==> page >= 1,
    ensures
        questions_left(PullStage::Movies) == 25,
        advance(stage, out, reply) matches PullNext::Ask(s, _) ==> questions_left(s)
            < questions_left(stage),
{
}

/// What is known stays known: an answer adds to it, and takes nothing away.
pub proof fn lemma_pull_keeps(stage: PullStage, out: Seq<RemoteWatch>, reply: PullReply)
    requires
        reply.fits(stage),
    ensures
        match advance(stage, out, reply) {
            PullNext::Ask(_, o) => out.is_prefix_of(o),
            PullNext::Finished(o) => out.is_prefix_of(o),
            PullNext::Failed(_) => true,
        },
{
}

/// The last question never fails the reading.
pub proof fn lemma_watching_never_fails(out: Seq<RemoteWatch>, reply: PullReply)
    requires
        reply.fits(PullStage::Watching),
    ensures
        advance(PullStage::Watching, out, reply) is Finished,
{
}

/// What all pages of the history say.
pub open spec fn pages_watches(pages: Seq<Seq<HistoryEpisodeEntry>>) -> Seq<RemoteWatch>
    decreases pages.len(),
{
    if pages.len() == 0 {
        Seq::empty()
    } else {
        history_watches(pages[0]) + pages_watches(pages.drop_first())
    }
}

/// Whether these are the pages of the history that are read, from `page` on: each is full but for
/// the last, which is not or is the last that is read.
pub open spec fn pages_from(page: u32, pages: Seq<Vec<HistoryEpisodeEntry>>) -> bool
    decreases pages.len(),
{
    if pages.len() == 0 {
        false
    } else if pages.len() == 1 {
        after_history(page, pages[0]@.len()) is Ratings
    } else {
        after_history(page, pages[0]@.len()) is History && pages_from(
            (page + 1) as u32,
            pages.drop_first(),
        )
    }
}

pub open spec fn page_replies(pages: Seq<Vec<HistoryEpisodeEntry>>) -> Seq<PullReply> {
    pages.map_values(|v: Vec<HistoryEpisodeEntry>| PullReply::History(Ok(v)))
}

pub open spec fn page_contents(pages: Seq<Vec<HistoryEpisodeEntry>>) -> Seq<
    Seq<HistoryEpisodeEntry>,
> {
    pages.map_values(|v: Vec<HistoryEpisodeEntry>| v@)
}

proof fn lemma_history_run(
    page: u32,
    out: Seq<RemoteWatch>,
    pages: Seq<Vec<HistoryEpisodeEntry>>,
    rest: Seq<PullReply>,
)
    requires
        pages_from(page, pages),
    ensures
        run(PullStage::History { page }, out, page_replies(pages) + rest) == run(
            PullStage::Ratings,
            out + pages_watches(page_contents(pages)),
            rest,
        ),
    decreases pages.len(),
{
    let all = page_replies(pages) + rest;
    assert(all[0] == PullReply::History(Ok::<Vec<HistoryEpisodeEntry>, ClientError>(pages[0])));
    let contents = page_contents(pages);
    assert(contents[0] == pages[0]@);
    assert(contents.drop_first() =~= page_contents(pages.drop_first()));
    let out2 = out + history_watches(pages[0]@);
    assert(all.drop_first() =~= page_replies(pages.drop_first()) + rest);
    if pages.len() == 1 {
        assert(pages.drop_first().len() == 0);
        assert(all.drop_first() =~= rest);
        assert(pages_watches(contents.drop_first()) =~= Seq::<RemoteWatch>::empty());
        assert(out + pages_watches(contents) =~= out2);
    } else {
        lemma_history_run((page + 1) as u32, out2, pages.drop_first(), rest);
        assert(out + pages_watches(contents) =~= out2 + pages_watches(contents.drop_first()));
    }
}

/// What a complete reading yields: what the movies, the shows, each page of the history, the
/// ratings, the playbacks and the current playback say, in this order.
pub proof fn lemma_pull_yields(
    movies: Vec<WatchedMovie>,
    shows: Vec<WatchedShow>,
    pages: Seq<Vec<HistoryEpisodeEntry>>,
    ratings: Vec<RatedEntry>,
    playback: Vec<PlaybackEntry>,
    watching: Option<WatchingEntry>,
)
    requires
        pages_from(1, pages),
    ensures
        run(
            PullStage::Movies,
            Seq::empty(),
            seq![PullReply::Movies(Ok(movies)), PullReply::Shows(Ok(shows))] + page_replies(pages)
                + seq![
                PullReply::Ratings(Ok(ratings)),
                PullReply::Playback(Ok(playback)),
                PullReply::Watching(Ok(watching)),
            ],
        ) == PullNext::Finished(
            movie_watches(movies@) + show_watches(shows@) + pages_watches(page_contents(pages))
                + rating_watches(ratings@) + playback_watches(playback@) + watching_watches(
                watching,
            ),
        ),
{
    let tail = seq![
        PullReply::Ratings(Ok(ratings)),
        PullReply::Playback(Ok(playback)),
        PullReply::Watching(Ok(watching)),
    ];
    let head = seq![PullReply::Movies(Ok(movies)), PullReply::Shows(Ok(shows))];
    let all = head + page_replies(pages) + tail;
    let out0 = Seq::<RemoteWatch>::empty();
    let out1 = out0 + movie_watches(movies@);
    let out2 = out1 + show_watches(shows@);
    let out3 = out2 + pages_watches(page_contents(pages));
    assert(all[0] == head[0]);
    assert(all.drop_first()[0] == head[1]);
    assert(all.drop_first().drop_first() =~= page_replies(pages) + tail);
    assert(run(PullStage::Movies, out0, all) == run(PullStage::Shows, out1, all.drop_first()));
    assert(run(PullStage::Shows, out1, all.drop_first()) == run(
        PullStage::History { page: 1 },
        out2,
        page_replies(pages) + tail,
    ));
    lemma_history_run(1, out2, pages, tail);
    let out4 = out3 + rating_watches(ratings@);
    let out5 = out4 + playback_watches(playback@);
    let t1 = tail.drop_first();
    let t2 = t1.drop_first();
    assert(tail[0] == PullReply::Ratings(Ok::<Vec<RatedEntry>, ClientError>(ratings)));
    assert(t1[0] == PullReply::Playback(Ok::<Vec<PlaybackEntry>, ClientError>(playback)));
    assert(t2[0] == PullReply::Watching(Ok::<Option<WatchingEntry>, ClientError>(watching)));
    assert(run(PullStage::Ratings, out3, tail) == run(PullStage::Playback, out4, t1));
    assert(run(PullStage::Playback, out4, t1) == run(PullStage::Watching, out5, t2));
    assert(out5 + watching_watches(watching) =~= movie_watches(movies@) + show_watches(shows@)
        + pages_watches(page_contents(pages)) + rating_watches(ratings@) + playback_watches(
        playback@,
    ) + watching_watches(watching));
}

/// Whether these are ids of Trakt, each under the name of the service that knows the title by it.
/// An empty text is no id.
pub open spec fn are_ids_from(ids: ExternalIds, told: TraktItemIds) -> bool {
    &&& ids.tmdb == told.tmdb
    &&& ids.tvdb == told.tvdb
    &&& ids.imdb matches Some(s) ==> told.imdb == Some(s.value) && s.value@.len() > 0
    &&& ids.imdb is None ==> (told.imdb matches Some(s) ==> s@.len() == 0)
}

/// Whether this is the point in time that the text names, if it names one.
pub open spec fn is_instant_of(at: Option<Timestamp>, text: Option<String>) -> bool {
    match text {
        None => at is None,
        Some(text) => match rfc3339_instant(text@) {
            Some(p) => at == Some(Timestamp { secs: p.0, nanos: p.1 }),
            None => match formatted_instant(text@, "%Y-%m-%dT%H:%M:%S%.fZ"@) {
                Some(p) => at == Some(Timestamp { secs: p.0, nanos: p.1 }),
                None => at is None,
            },
        },
    }
}

/// Whether nothing is said but whether a title was watched, and when.
pub open spec fn is_about_watching(w: RemoteWatch) -> bool {
    w.position_ticks is None && w.progress_percent is None && w.favorite is None && w.rating is None
}

/// Whether nothing is said but how a title was rated.
pub open spec fn is_about_rating(w: RemoteWatch) -> bool {
    !w.watched && w.watched_at is None && w.position_ticks is None && w.progress_percent is None
        && w.favorite is None
}

/// Whether nothing is said but how far a title has been played.
pub open spec fn is_about_progress(w: RemoteWatch) -> bool {
    !w.watched && w.watched_at is None && w.position_ticks is None && w.favorite is None && w.rating
        is None
}

/// Each movie of the list is read as one: it goes by its ids, was watched if it was played at all,
/// and at the time that the list says.
pub proof fn lemma_movies_as_told(items: Seq<WatchedMovie>)
    ensures
        movie_watches(items).len() == items.len(),
        forall|i: int|
            0 <= i < items.len() ==> {
                let w = #[trigger] movie_watches(items)[i];
                &&& are_ids_from(w.ids, items[i].movie.ids)
                &&& w.season is None && w.episode is None
                &&& w.watched <==> items[i].plays > 0
                &&& is_instant_of(w.watched_at, items[i].last_watched_at)
                &&& is_about_watching(w)
            },
{
}

/// Whether this says that an episode was watched, under the ids of its show.
pub open spec fn is_watched_episode(
    w: RemoteWatch,
    show: TraktItemIds,
    season: i64,
    ep: WatchedEpisode,
) -> bool {
    &&& are_ids_from(w.ids, show)
    &&& w.season == Some(season) && w.episode == Some(ep.number)
    &&& w.watched
    &&& is_instant_of(w.watched_at, ep.last_watched_at)
    &&& is_about_watching(w)
}

/// The shows of a list are read one after the other, the seasons of a show too, and of a season
/// each episode: it was watched, goes by the ids of the show, the number of the season and its own,
/// and was watched at the time that the list says.
pub proof fn lemma_shows_as_told(
    a: Seq<WatchedShow>,
    show: WatchedShow,
    seasons: Seq<WatchedSeason>,
    season: WatchedSeason,
    ids: TraktItemIds,
)
    ensures
        show_watches(Seq::empty()).len() == 0,
        show_watches(a.push(show)) == show_watches(a) + seasons_watches(
            show.show.ids,
            show.seasons@,
        ),
        seasons_watches(ids, Seq::empty()).len() == 0,
        ({
            let before = seasons_watches(ids, seasons);
            let all = seasons_watches(ids, seasons.push(season));
            &&& before.is_prefix_of(all)
            &&& all.len() == before.len() + season.episodes@.len()
            &&& forall|k: int|
                0 <= k < season.episodes@.len() ==> is_watched_episode(
                    #[trigger] all[before.len() + k],
                    ids,
                    season.number,
                    season.episodes@[k],
                )
        }),
{
    assert(a.push(show).drop_last() =~= a);
    assert(seasons.push(season).drop_last() =~= seasons);
    let before = seasons_watches(ids, seasons);
    let more = season_watches(ids, season);
    let all = seasons_watches(ids, seasons.push(season));
    assert(all =~= before + more);
    assert forall|k: int| 0 <= k < season.episodes@.len() implies is_watched_episode(
        #[trigger] all[before.len() + k],
        ids,
        season.number,
        season.episodes@[k],
    ) by {
        assert(all[before.len() + k] == more[k]);
    }
}

proof fn lemma_seasons_hold(ids: TraktItemIds, seasons: Seq<WatchedSeason>, j: int, k: int)
    requires
        0 <= j < seasons.len(),
        0 <= k < seasons[j].episodes@.len(),
    ensures
        exists|m: int|
            0 <= m < seasons_watches(ids, seasons).len() && is_watched_episode(
                #[trigger] seasons_watches(ids, seasons)[m],
                ids,
                seasons[j].number,
                seasons[j].episodes@[k],
            ),
    decreases seasons.len(),
{
    let front = seasons.drop_last();
    let before = seasons_watches(ids, front);
    let more = season_watches(ids, seasons.last());
    let all = seasons_watches(ids, seasons);
    assert(all =~= before + more);
    if j < front.len() {
        lemma_seasons_hold(ids, front, j, k);
        let m = choose|m: int|
            0 <= m < before.len() && is_watched_episode(
                #[trigger] before[m],
                ids,
                front[j].number,
                front[j].episodes@[k],
            );
        assert(all[m] == before[m]);
    } else {
        assert(all[before.len() + k] == more[k]);
    }
}

/// No watched episode gets lost: each one of each season of each show of a list is read.
pub proof fn lemma_every_watched_episode(shows: Seq<WatchedShow>, i: int, j: int, k: int)
    requires
        0 <= i < shows.len(),
        0 <= j < shows[i].seasons@.len(),
        0 <= k < shows[i].seasons@[j].episodes@.len(),
    ensures
        exists|m: int|
            0 <= m < show_watches(shows).len() && is_watched_episode(
                #[trigger] show_watches(shows)[m],
                shows[i].show.ids,
                shows[i].seasons@[j].number,
                shows[i].seasons@[j].episodes@[k],
            ),
    decreases shows.len(),
{
    let front = shows.drop_last();
    let before = show_watches(front);
    let more = seasons_watches(shows.last().show.ids, shows.last().seasons@);
    let all = show_watches(shows);
    assert(all =~= before + more);
    let ep = shows[i].seasons@[j].episodes@[k];
    let number = shows[i].seasons@[j].number;
    let ids = shows[i].show.ids;
    if i < front.len() {
        lemma_every_watched_episode(front, i, j, k);
        let m = choose|m: int|
            0 <= m < before.len() && is_watched_episode(#[trigger] before[m], ids, number, ep);
        assert(all[m] == before[m]);
    } else {
        lemma_seasons_hold(ids, shows[i].seasons@, j, k);
        let m = choose|m: int|
            0 <= m < more.len() && is_watched_episode(#[trigger] more[m], ids, number, ep);
        assert(all[before.len() + m] == more[m]);
    }
}

/// An entry of the history is read if and only if it names a show, a season and a number. It says
/// that this episode of this show was watched, and at the time that the entry names.
pub proof fn lemma_history_as_told(item: HistoryEpisodeEntry)
    ensures
        history_watch(item) is Some <==> item.show is Some && (item.episode matches Some(ep)
            && ep.season is Some && ep.number is Some),
        history_watch(item) matches Some(w) ==> {
            &&& are_ids_from(w.ids, item.show->0.ids)
            &&& w.season == item.episode->0.season
            &&& w.episode == item.episode->0.number
            &&& w.watched
            &&& is_instant_of(w.watched_at, item.watched_at)
            &&& is_about_watching(w)
        },
{
}

/// Whether this is a movie, a show or an episode, by its kind, and is named.
pub open spec fn is_named_rating(item: RatedEntry) -> bool {
    ||| item.kind@ == "movie"@ && item.movie is Some
    ||| item.kind@ == "show"@ && item.show is Some
    ||| item.kind@ == "episode"@ && item.episode is Some
}

proof fn lemma_kinds()
    ensures
        "movie"@ != "show"@,
        "movie"@ != "episode"@,
        "show"@ != "episode"@,
{
    reveal_strlit("movie");
    reveal_strlit("show");
    reveal_strlit("episode");
    assert("movie"@.len() == 5 && "show"@.len() == 4 && "episode"@.len() == 7);
}

/// A rating is read if and only if the title is named that is of its kind. It goes by the ids of
/// that title, an episode also by its season and its number, and it is the number that the entry
/// says. Nothing else is said of the title.
pub proof fn lemma_rating_as_told(item: RatedEntry)
    ensures
        rating_watch(item) is Some <==> is_named_rating(item),
        rating_watch(item) matches Some(w) ==> {
            &&& is_about_rating(w)
            &&& w.rating matches Some(d) && d.is_natural(item.rating as nat)
            &&& item.kind@ == "movie"@ ==> are_ids_from(w.ids, item.movie->0.ids) && w.season is None
                && w.episode is None
            &&& item.kind@ == "show"@ ==> are_ids_from(w.ids, item.show->0.ids) && w.season is None
                && w.episode is None
            &&& item.kind@ == "episode"@ ==> are_ids_from(w.ids, item.episode->0.ids) && w.season
                == item.episode->0.season && w.episode == item.episode->0.number
        },
{
    lemma_kinds();
    lemma_natural(item.rating);
}

/// Whether these are the ids and the numbers of an episode: it goes by the ids of its show, and by
/// its own where no show is named.
pub open spec fn is_episode_named(
    w: RemoteWatch,
    show: Option<TraktShow>,
    episode: Option<TraktEpisode>,
) -> bool {
    &&& show matches Some(s) ==> are_ids_from(w.ids, s.ids)
    &&& show is None ==> (episode matches Some(e) ==> are_ids_from(w.ids, e.ids))
    &&& show is None && episode is None ==> w.ids.imdb is None && w.ids.tmdb is None && w.ids.tvdb
        is None
    &&& episode matches Some(e) ==> w.season == e.season && w.episode == e.number
    &&& episode is None ==> w.season is None && w.episode is None
}

/// A playback is read if it is of an episode, or of a movie that is named. It goes by the ids of
/// the movie, or as the episode is named, and has got as far as the entry says. Nothing else is said
/// of the title.
pub proof fn lemma_playback_as_told(item: PlaybackEntry)
    ensures
        playback_watch(item) is Some <==> item.kind@ == "episode"@ || (item.kind@ == "movie"@
            && item.movie is Some),
        playback_watch(item) matches Some(w) ==> {
            &&& is_about_progress(w)
            &&& w.progress_percent == Some(item.progress)
            &&& item.kind@ == "movie"@ ==> are_ids_from(w.ids, item.movie->0.ids) && w.season is None
                && w.episode is None
            &&& item.kind@ == "episode"@ ==> is_episode_named(w, item.show, item.episode)
        },
{
    lemma_kinds();
}

/// What is being watched now is read if it is of a kind that is known and goes by some id. It goes
/// by the ids of the movie, or as the episode is named, and has got as far as the entry says, or to
/// one percent where it says nothing. Nothing else is said of the title.
pub proof fn lemma_watching_as_told(item: WatchingEntry)
    ensures
        watching_watch(item) matches Some(w) ==> {
            &&& is_about_progress(w)
            &&& w.ids.imdb is Some || w.ids.tmdb is Some || w.ids.tvdb is Some
            &&& item.progress is Some ==> w.progress_percent == item.progress
            &&& item.progress is None ==> (w.progress_percent matches Some(d) && d.is_natural(1))
            &&& item.kind@ == "movie"@ || item.kind@ == "episode"@
            &&& item.kind@ == "movie"@ ==> (item.movie matches Some(m) && are_ids_from(w.ids, m.ids))
                && w.season is None && w.episode is None
            &&& item.kind@ == "episode"@ ==> is_episode_named(w, item.show, item.episode)
        },
        watching_watch(item) is None ==> {
            &&& item.kind@ == "movie"@ ==> (item.movie matches Some(m) ==> m.ids.tmdb is None
                && m.ids.tvdb is None && (m.ids.imdb matches Some(s) ==> s@.len() == 0))
            &&& item.kind@ == "episode"@ ==> (item.show matches Some(s) ==> s.ids.tmdb is None
                && s.ids.tvdb is None && (s.ids.imdb matches Some(t) ==> t@.len() == 0))
            &&& item.kind@ == "episode"@ && item.show is None ==> (item.episode matches Some(e)
                ==> e.ids.tmdb is None && e.ids.tvdb is None && (e.ids.imdb matches Some(t)
                ==> t@.len() == 0))
        },
{
    lemma_kinds();
    lemma_positive_patterns(Double::one_spec(), 1);
}

/// What is said of many items is what is said of the first of them and then of the others: nothing
/// that can be said is left out, nothing is added, and the order is kept.
pub proof fn lemma_said_one_by_one<A>(items: Seq<A>, x: A, f: spec_fn(A) -> Option<RemoteWatch>)
    ensures
        collected(Seq::<A>::empty(), f).len() == 0,
        collected(items.push(x), f) == match f(x) {
            Some(w) => collected(items, f).push(w),
            None => collected(items, f),
        },
{
    assert(items.push(x).drop_last() =~= items);
}

/// Each entry of the history, each rating and each playback that can be read is read, behind those
/// that come before it, and the others say nothing.
pub proof fn lemma_entries_one_by_one(
    history: Seq<HistoryEpisodeEntry>,
    seen: HistoryEpisodeEntry,
    ratings: Seq<RatedEntry>,
    rating: RatedEntry,
    playbacks: Seq<PlaybackEntry>,
    playback: PlaybackEntry,
)
    ensures
        history_watches(Seq::empty()).len() == 0,
        rating_watches(Seq::empty()).len() == 0,
        playback_watches(Seq::empty()).len() == 0,
        history_watches(history.push(seen)) == match history_watch(seen) {
            Some(w) => history_watches(history).push(w),
            None => history_watches(history),
        },
        rating_watches(ratings.push(rating)) == match rating_watch(rating) {
            Some(w) => rating_watches(ratings).push(w),
            None => rating_watches(ratings),
        },
        playback_watches(playbacks.push(playback)) == match playback_watch(playback) {
            Some(w) => playback_watches(playbacks).push(w),
            None => playback_watches(playbacks),
        },
{
    lemma_said_one_by_one(history, seen, |item: HistoryEpisodeEntry| history_watch(item));
    lemma_said_one_by_one(ratings, rating, |item: RatedEntry| rating_watch(item));
    lemma_said_one_by_one(playbacks, playback, |item: PlaybackEntry| playback_watch(item));
}

/// The questions come in one order. After a full page of the history the next one is asked for, up
/// to the twentieth. What an answer says is added behind what is known. An error ends the reading
/// and is told, but for the last question, which then adds nothing.
pub proof fn lemma_pull_in_order(
    out: Seq<RemoteWatch>,
    page: u32,
    movies: Result<Vec<WatchedMovie>, ClientError>,
    shows: Result<Vec<WatchedShow>, ClientError>,
    history: Result<Vec<HistoryEpisodeEntry>, ClientError>,
    ratings: Result<Vec<RatedEntry>, ClientError>,
    playback: Result<Vec<PlaybackEntry>, ClientError>,
    watching: Result<Option<WatchingEntry>, ClientError>,
)
    ensures
        match (movies, advance(PullStage::Movies, out, PullReply::Movies(movies))) {
            (Ok(v), PullNext::Ask(next, o)) => next is Shows && o == out + movie_watches(v@),
            (Err(e), PullNext::Failed(why)) => why == mapped_error(e),
            _ => false,
        },
        match (shows, advance(PullStage::Shows, out, PullReply::Shows(shows))) {
            (Ok(v), PullNext::Ask(next, o)) => next == (PullStage::History { page: 1 }) && o == out
                + show_watches(v@),
            (Err(e), PullNext::Failed(why)) => why == mapped_error(e),
            _ => false,
        },
        match (history, advance(PullStage::History { page }, out, PullReply::History(history))) {
            (Ok(v), PullNext::Ask(next, o)) => {
                &&& o == out + history_watches(v@)
                &&& v@.len() >= 100 && page < 20 ==> (next matches PullStage::History { page: then }
                    && then == page + 1)
                &&& v@.len() < 100 || page >= 20 ==> next is Ratings
            },
            (Err(e), PullNext::Failed(why)) => why == mapped_error(e),
            _ => false,
        },
        match (ratings, advance(PullStage::Ratings, out, PullReply::Ratings(ratings))) {
            (Ok(v), PullNext::Ask(next, o)) => next is Playback && o == out + rating_watches(v@),
            (Err(e), PullNext::Failed(why)) => why == mapped_error(e),
            _ => false,
        },
        match (playback, advance(PullStage::Playback, out, PullReply::Playback(playback))) {
            (Ok(v), PullNext::Ask(next, o)) => next is Watching && o == out + playback_watches(v@),
            (Err(e), PullNext::Failed(why)) => why == mapped_error(e),
            _ => false,
        },
        match (watching, advance(PullStage::Watching, out, PullReply::Watching(watching))) {
            (Ok(Some(item)), PullNext::Finished(o)) => match watching_watch(item) {
                Some(w) => o == out.push(w),
                None => o == out,
            },
            (_, PullNext::Finished(o)) => o == out,
            _ => false,
        },
{
}

/// Each question is asked where Trakt answers it, and for a hundred items at once where it answers
/// page by page.
pub proof fn lemma_asked_where_answered(stage: PullStage)
    ensures
        ({
            let req = stage_request(stage);
            let (path, page): (Seq<char>, Option<u32>) = match stage {
                PullStage::Movies => ("sync/watched/movies"@, Some(1)),
                PullStage::Shows => ("sync/watched/shows"@, Some(1)),
                PullStage::History { page } => ("sync/history/episodes"@, Some(page)),
                PullStage::Ratings => ("sync/ratings"@, Some(1)),
                PullStage::Playback => ("sync/playback"@, None),
                PullStage::Watching => ("users/me/watching"@, None),
            };
            &&& req.method == Method::Get
            &&& req.body is None
            &&& req.path == path
            &&& match page {
                Some(n) => req.query.len() == 2 && req.query[0] == ("page"@, n) && req.query[1] == (
                    "limit"@,
                    100u32,
                ),
                None => req.query.len() == 0,
            }
        }),
{
}

/// A step is taken with the token and for the questions that are at hand: what is asked is sent to
/// the address of the service with the token of the user, and what is known is handed on.
pub proof fn lemma_step_as_due(r: PullStep, addon: TraktAddon, token: Seq<char>, next: PullNext)
    requires
        is_step(r, addon, token, next),
    ensures
        match (next, r) {
            (PullNext::Failed(why), PullStep::Done(Err(e))) => e@ == why,
            (PullNext::Finished(out), PullStep::Done(Ok(o))) => o@ == out,
            (PullNext::Ask(stage, out), PullStep::Ask { call, state }) => {
                &&& state.stage == stage && state.out@ == out && state.token@ == token
                &&& call.request@ == stage_request(stage)
                &&& call.client.auth.client_id@ == addon.client_id@
                &&& call.client.auth.access_token matches Some(t) && t@ == token
                &&& parsed_url(addon.base_url@) == Ok::<Seq<char>, Seq<char>>(call.client.base_url@)
            },
            (PullNext::Ask(stage, out), PullStep::Done(Ok(o))) => stage is Watching && o@ == out
                && parsed_url(addon.base_url@) is Err,
            (PullNext::Ask(stage, _), PullStep::Done(Err(e))) => !(stage is Watching) && (
            parsed_url(addon.base_url@) matches Err(why) && e@ == (ErrorView::Permanent {
                message: why,
                reauth_required: false,
            })),
            _ => false,
        },
{
}

} // verus!
