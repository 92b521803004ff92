//! Titles of the library as Trakt sees them, and the other way round.

use crate::ids::{ExternalIds, NonEmptyString};
use crate::json::JsonView;
use crate::text::join;
use crate::tracker::{
    ErrorView, MediaKind, MediaTrackerError, MediaTrackerResult, MediaTrackerTarget,
};
use crate::trakt::items::{
    episode_json, ids_from_parts, ids_of_parts, lists_json, movie_json, rated_episode_json,
    rated_movie_json, rated_show_json, show_json, RatedEpisode, RatedMovie, RatedShow, RatingsItems, ScrobbleBody,
    SyncItems, TraktEpisode, TraktItemIds, TraktMovie, TraktShow,
};
use vstd::prelude::*;

verus! {

pub open spec fn ids_of_spec(ids: ExternalIds) -> TraktItemIds {
    ids_of_parts(
        match ids.imdb {
            Some(s) => Some(s.value),
            None => None,
        },
        ids.tmdb,
        ids.tvdb,
    )
}

/// The ids of a title.
pub fn ids_of(target: &MediaTrackerTarget) -> (r: TraktItemIds)
    ensures
        r == ids_of_spec(target.ids),
{
    ids_from_parts(
        match &target.ids.imdb {
            Some(s) => Some(s.value.clone()),
            None => None,
        },
        target.ids.tmdb,
        target.ids.tvdb,
    )
}

pub open spec fn movie_of_spec(target: MediaTrackerTarget) -> TraktMovie {
    TraktMovie { title: Some(target.title), year: target.year, ids: ids_of_spec(target.ids) }
}

/// A title as a movie.
pub fn movie_of(target: &MediaTrackerTarget) -> (r: TraktMovie)
    ensures
        r == movie_of_spec(*target),
{
    TraktMovie { title: Some(target.title.clone()), year: target.year, ids: ids_of(target) }
}

/// The series that a title belongs to, or the title itself where it carries none.
pub open spec fn show_source(target: MediaTrackerTarget) -> MediaTrackerTarget {
    match target.series {
        Some(series) => *series,
        None => target,
    }
}

pub open spec fn show_of_spec(target: MediaTrackerTarget) -> TraktShow {
    let src = show_source(target);
    TraktShow { title: Some(src.title), year: src.year, ids: ids_of_spec(src.ids) }
}

/// The show that a title belongs to, or is.
pub fn show_of(target: &MediaTrackerTarget) -> (r: TraktShow)
    ensures
        r == show_of_spec(*target),
{
    let src: &MediaTrackerTarget = match &target.series {
        Some(series) => &**series,
        None => target,
    };
    TraktShow { title: Some(src.title.clone()), year: src.year, ids: ids_of(src) }
}

pub open spec fn episode_of_spec(target: MediaTrackerTarget) -> TraktEpisode {
    TraktEpisode {
        season: target.season,
        number: target.episode,
        ids: ids_of_spec(target.ids),
    }
}

/// A title as an episode.
pub fn episode_of(target: &MediaTrackerTarget) -> (r: TraktEpisode)
    ensures
        r == episode_of_spec(*target),
{
    TraktEpisode { season: target.season, number: target.episode, ids: ids_of(target) }
}

/// The refusal of a kind of media with which nothing can be done.
pub open spec fn unfit(what: Seq<char>, kind: MediaKind) -> ErrorView {
    ErrorView::permanent(what + kind.name_spec())
}

fn refuse(what: &str, kind: MediaKind) -> (r: MediaTrackerError)
    ensures
        r@ == unfit(what@, kind),
{
    MediaTrackerError::permanent(join(what, kind.name()))
}

/// What a playback of a title is reported as: a movie, or an episode of a show.
pub open spec fn scrobble_body_spec(
    target: MediaTrackerTarget,
    progress: serde_json::Value,
) -> Option<ScrobbleBody> {
    match target.kind {
        MediaKind::Movie => Some(
            ScrobbleBody { movie: Some(movie_of_spec(target)), show: None, episode: None, progress },
        ),
        MediaKind::Episode => Some(
            ScrobbleBody {
                movie: None,
                show: Some(show_of_spec(target)),
                episode: Some(episode_of_spec(target)),
                progress,
            },
        ),
        _ => None,
    }
}

/// What a playback of a title is reported as.
pub fn scrobble_body(target: &MediaTrackerTarget, progress: serde_json::Value) -> (r:
    MediaTrackerResult<ScrobbleBody>)
    ensures
        match r {
            Ok(body) => scrobble_body_spec(*target, progress) == Some(body),
            Err(e) => scrobble_body_spec(*target, progress) is None && e@ == unfit(
                "Trakt does not scrobble "@,
                target.kind,
            ),
        },
{
    match target.kind {
        MediaKind::Movie => Ok(
            ScrobbleBody { movie: Some(movie_of(target)), show: None, episode: None, progress },
        ),
        MediaKind::Episode => Ok(
            ScrobbleBody {
                movie: None,
                show: Some(show_of(target)),
                episode: Some(episode_of(target)),
                progress,
            },
        ),
        _ => Err(refuse("Trakt does not scrobble ", target.kind)),
    }
}

/// Movies, shows and episodes.
pub struct Titles {
    pub movies: Seq<TraktMovie>,
    pub shows: Seq<TraktShow>,
    pub episodes: Seq<TraktEpisode>,
}

pub open spec fn titles_json(t: Titles) -> JsonView {
    lists_json(
        t.movies.map_values(|m: TraktMovie| movie_json(m)),
        t.shows.map_values(|s: TraktShow| show_json(s)),
        t.episodes.map_values(|e: TraktEpisode| episode_json(e)),
    )
}

pub open spec fn titles_of(items: SyncItems) -> Titles {
    Titles { movies: items.movies@, shows: items.shows@, episodes: items.episodes@ }
}

/// What a title is in the history and on the watchlist: a movie, a show, or an episode together
/// with its show.
pub open spec fn sync_titles(target: MediaTrackerTarget) -> Option<Titles> {
    match target.kind {
        MediaKind::Movie => Some(
            Titles {
                movies: seq![movie_of_spec(target)],
                shows: Seq::empty(),
                episodes: Seq::empty(),
            },
        ),
        MediaKind::Episode => Some(
            Titles {
                movies: Seq::empty(),
                shows: seq![show_of_spec(target)],
                episodes: seq![episode_of_spec(target)],
            },
        ),
        MediaKind::Series => Some(
            Titles {
                movies: Seq::empty(),
                shows: seq![show_of_spec(target)],
                episodes: Seq::empty(),
            },
        ),
        _ => None,
    }
}

/// What a title is in the history and on the watchlist.
pub fn sync_items(target: &MediaTrackerTarget) -> (r: MediaTrackerResult<SyncItems>)
    ensures
        match r {
            Ok(items) => sync_titles(*target) == Some(titles_of(items)),
            Err(e) => sync_titles(*target) is None && e@ == unfit(
                "Trakt cannot sync "@,
                target.kind,
            ),
        },
{
    match target.kind {
        MediaKind::Movie => {
            let items = SyncItems {
                movies: vec![movie_of(target)],
                shows: Vec::new(),
                episodes: Vec::new(),
            };
            assert(items.movies@ =~= seq![movie_of_spec(*target)]);
            Ok(items)
        },
        MediaKind::Episode => {
            let items = SyncItems {
                movies: Vec::new(),
                shows: vec![show_of(target)],
                episodes: vec![episode_of(target)],
            };
            assert(items.shows@ =~= seq![show_of_spec(*target)]);
            assert(items.episodes@ =~= seq![episode_of_spec(*target)]);
            Ok(items)
        },
        MediaKind::Series => {
            let items = SyncItems {
                movies: Vec::new(),
                shows: vec![show_of(target)],
                episodes: Vec::new(),
            };
            assert(items.shows@ =~= seq![show_of_spec(*target)]);
            Ok(items)
        },
        _ => Err(refuse("Trakt cannot sync ", target.kind)),
    }
}

/// What a title is among the favorites: a movie or a show.
pub open spec fn favorite_titles(target: MediaTrackerTarget) -> Option<Titles> {
    match target.kind {
        MediaKind::Movie => Some(
            Titles {
                movies: seq![movie_of_spec(target)],
                shows: Seq::empty(),
                episodes: Seq::empty(),
            },
        ),
        MediaKind::Episode | MediaKind::Series => Some(
            Titles {
                movies: Seq::empty(),
                shows: seq![show_of_spec(target)],
                episodes: Seq::empty(),
            },
        ),
        _ => None,
    }
}

/// What a title is among the favorites.
pub fn favorite_items(target: &MediaTrackerTarget) -> (r: MediaTrackerResult<SyncItems>)
    ensures
        match r {
            Ok(items) => favorite_titles(*target) == Some(titles_of(items)),
            Err(e) => favorite_titles(*target) is None && e@ == unfit(
                "Trakt cannot favorite "@,
                target.kind,
            ),
        },
{
    match target.kind {
        MediaKind::Movie => {
            let items = SyncItems {
                movies: vec![movie_of(target)],
                shows: Vec::new(),
                episodes: Vec::new(),
            };
            assert(items.movies@ =~= seq![movie_of_spec(*target)]);
            Ok(items)
        },
        MediaKind::Episode | MediaKind::Series => {
            let items = SyncItems {
                movies: Vec::new(),
                shows: vec![show_of(target)],
                episodes: Vec::new(),
            };
            assert(items.shows@ =~= seq![show_of_spec(*target)]);
            Ok(items)
        },
        _ => Err(refuse("Trakt cannot favorite ", target.kind)),
    }
}

/// Movies, shows and episodes, each with a rating.
pub struct RatedTitles {
    pub movies: Seq<RatedMovie>,
    pub shows: Seq<RatedShow>,
    pub episodes: Seq<RatedEpisode>,
}

pub open spec fn rated_titles_of(items: RatingsItems) -> RatedTitles {
    RatedTitles { movies: items.movies@, shows: items.shows@, episodes: items.episodes@ }
}

pub open spec fn rated_titles_json(t: RatedTitles) -> JsonView {
    lists_json(
        t.movies.map_values(|r: RatedMovie| rated_movie_json(r)),
        t.shows.map_values(|r: RatedShow| rated_show_json(r)),
        t.episodes.map_values(|r: RatedEpisode| rated_episode_json(r)),
    )
}

/// What a title is when it is rated: a movie, a show or an episode.
pub open spec fn rated_titles(target: MediaTrackerTarget, rating: u8) -> Option<RatedTitles> {
    match target.kind {
        MediaKind::Movie => Some(
            RatedTitles {
                movies: seq![RatedMovie { rating, movie: movie_of_spec(target) }],
                shows: Seq::empty(),
                episodes: Seq::empty(),
            },
        ),
        MediaKind::Episode => Some(
            RatedTitles {
                movies: Seq::empty(),
                shows: Seq::empty(),
                episodes: seq![RatedEpisode { rating, episode: episode_of_spec(target) }],
            },
        ),
        MediaKind::Series => Some(
            RatedTitles {
                movies: Seq::empty(),
                shows: seq![RatedShow { rating, show: show_of_spec(target) }],
                episodes: Seq::empty(),
            },
        ),
        _ => None,
    }
}

/// What a title is when it is rated.
pub fn ratings_items(target: &MediaTrackerTarget, rating: u8) -> (r: MediaTrackerResult<
    RatingsItems,
>)
    ensures
        match r {
            Ok(items) => rated_titles(*target, rating) == Some(rated_titles_of(items)),
            Err(e) => rated_titles(*target, rating) is None && e@ == unfit(
                "Trakt cannot rate "@,
                target.kind,
            ),
        },
{
    match target.kind {
        MediaKind::Movie => {
            let items = RatingsItems {
                movies: vec![RatedMovie { rating, movie: movie_of(target) }],
                shows: Vec::new(),
                episodes: Vec::new(),
            };
            assert(items.movies@ =~= seq![RatedMovie { rating, movie: movie_of_spec(*target) }]);
            Ok(items)
        },
        MediaKind::Episode => {
            let items = RatingsItems {
                movies: Vec::new(),
                shows: Vec::new(),
                episodes: vec![RatedEpisode { rating, episode: episode_of(target) }],
            };
            assert(items.episodes@ =~= seq![
                RatedEpisode { rating, episode: episode_of_spec(*target) },
            ]);
            Ok(items)
        },
        MediaKind::Series => {
            let items = RatingsItems {
                movies: Vec::new(),
                shows: vec![RatedShow { rating, show: show_of(target) }],
                episodes: Vec::new(),
            };
            assert(items.shows@ =~= seq![RatedShow { rating, show: show_of_spec(*target) }]);
            Ok(items)
        },
        _ => Err(refuse("Trakt cannot rate ", target.kind)),
    }
}

/// The ids by which the library knows a title of Trakt. An empty IMDb id is none.
pub open spec fn external_ids(ids: TraktItemIds) -> ExternalIds {
    ExternalIds {
        imdb: match ids.imdb {
            Some(s) => if s@.len() > 0 {
                Some(NonEmptyString { value: s })
            } else {
                None
            },
            None => None,
        },
        tmdb: ids.tmdb,
        tvdb: ids.tvdb,
    }
}

/// The ids by which the library knows a title of Trakt.
pub fn ids_to_external(ids: &TraktItemIds) -> (r: ExternalIds)
    ensures
        r == external_ids(*ids),
        r.well_formed(),
{
    ExternalIds {
        imdb: match &ids.imdb {
            Some(s) => NonEmptyString::try_new(s.clone()),
            None => None,
        },
        tmdb: ids.tmdb,
        tvdb: ids.tvdb,
    }
}

/// The ids that are sent to Trakt with a title are the ids that are read off its answer.
pub proof fn lemma_ids_round_trip(ids: ExternalIds)
    requires
        ids.well_formed(),
    ensures
        external_ids(ids_of_spec(ids)) == ids,
{
}

/// An episode is reported under the ids of its series, whatever ids it has itself.
pub proof fn lemma_episode_under_series(
    target: MediaTrackerTarget,
    series: MediaTrackerTarget,
    progress: serde_json::Value,
)
    requires
        target.kind == MediaKind::Episode,
        target.series == Some(Box::new(series)),
    ensures
        scrobble_body_spec(target, progress) matches Some(body) && body.movie is None && body.show
            == Some(
            TraktShow {
                title: Some(series.title),
                year: series.year,
                ids: ids_of_spec(series.ids),
            },
        ) && body.episode == Some(
            TraktEpisode {
                season: target.season,
                number: target.episode,
                ids: ids_of_spec(target.ids),
            },
        ),
{
}

/// What can be scrobbled can be put on the watchlist, and what can be put there can be rated and
/// be a favorite.
pub proof fn lemma_fit_kinds(target: MediaTrackerTarget, progress: serde_json::Value, rating: u8)
    ensures
        scrobble_body_spec(target, progress) is Some ==> sync_titles(target) is Some,
        sync_titles(target) is Some <==> favorite_titles(target) is Some,
        sync_titles(target) is Some <==> rated_titles(target, rating) is Some,
{
}

/// Whether these are ids of the library, each under the name of the service that knows the title by
/// it, and no others.
pub open spec fn are_ids_of(ids: TraktItemIds, known: ExternalIds) -> bool {
    &&& ids.tmdb == known.tmdb
    &&& ids.tvdb == known.tvdb
    &&& match (ids.imdb, known.imdb) {
        (Some(s), Some(t)) => s == t.value,
        (None, None) => true,
        _ => false,
    }
    &&& ids.trakt is None
    &&& ids.slug is None
}

/// Whether this is the title as a movie.
pub open spec fn is_movie_of(m: TraktMovie, title: MediaTrackerTarget) -> bool {
    m.title == Some(title.title) && m.year == title.year && are_ids_of(m.ids, title.ids)
}

/// Whether this is the title as a show.
pub open spec fn is_show_of(s: TraktShow, title: MediaTrackerTarget) -> bool {
    s.title == Some(title.title) && s.year == title.year && are_ids_of(s.ids, title.ids)
}

/// Whether this is the show that the title belongs to: the series that it carries, and where it
/// carries none the title itself.
pub open spec fn is_show_above(s: TraktShow, title: MediaTrackerTarget) -> bool {
    &&& title.series matches Some(series) ==> is_show_of(s, *series)
    &&& title.series is None ==> is_show_of(s, title)
}

/// Whether this is the title as an episode.
pub open spec fn is_episode_of(e: TraktEpisode, title: MediaTrackerTarget) -> bool {
    e.season == title.season && e.number == title.episode && are_ids_of(e.ids, title.ids)
}

/// A title is named to Trakt by its own name, year, season, number and ids. Only as a show it goes
/// by those of the series that it carries.
pub proof fn lemma_named_as_it_is(target: MediaTrackerTarget)
    ensures
        are_ids_of(ids_of_spec(target.ids), target.ids),
        is_movie_of(movie_of_spec(target), target),
        is_show_above(show_of_spec(target), target),
        is_episode_of(episode_of_spec(target), target),
{
}

/// In the history and on the watchlist a title is what it is here: a movie is one movie and nothing
/// else, a series is one show and nothing else, an episode is one episode with its show and no
/// movie, and nothing else can be there at all.
pub proof fn lemma_synced_as_what_it_is(target: MediaTrackerTarget)
    ensures
        sync_titles(target) is None <==> target.kind is Season || target.kind is Collection,
        sync_titles(target) matches Some(t) ==> {
            &&& target.kind is Movie ==> t.movies.len() == 1 && is_movie_of(t.movies[0], target)
                && t.shows.len() == 0 && t.episodes.len() == 0
            &&& target.kind is Series ==> t.shows.len() == 1 && is_show_above(t.shows[0], target)
                && t.movies.len() == 0 && t.episodes.len() == 0
            &&& target.kind is Episode ==> t.episodes.len() == 1 && is_episode_of(
                t.episodes[0],
                target,
            ) && t.shows.len() == 1 && is_show_above(t.shows[0], target) && t.movies.len() == 0
        },
{
}

/// A movie can be a favorite, and so can a series. An episode stands for the show that it belongs
/// to. Nothing else can be one.
pub proof fn lemma_favored_as_what_it_is(target: MediaTrackerTarget)
    ensures
        favorite_titles(target) is None <==> target.kind is Season || target.kind is Collection,
        favorite_titles(target) matches Some(t) ==> {
            &&& t.episodes.len() == 0
            &&& target.kind is Movie ==> t.movies.len() == 1 && is_movie_of(t.movies[0], target)
                && t.shows.len() == 0
            &&& !(target.kind is Movie) ==> t.shows.len() == 1 && is_show_above(t.shows[0], target)
                && t.movies.len() == 0
        },
{
}

/// A movie, a series or an episode is rated as what it is, alone, and with the rating that is given.
/// Nothing else can be rated.
pub proof fn lemma_rated_as_what_it_is(target: MediaTrackerTarget, rating: u8)
    ensures
        rated_titles(target, rating) is None <==> target.kind is Season || target.kind is Collection,
        rated_titles(target, rating) matches Some(t) ==> {
            &&& t.movies.len() + t.shows.len() + t.episodes.len() == 1
            &&& target.kind is Movie ==> t.movies.len() == 1 && t.movies[0].rating == rating
                && is_movie_of(t.movies[0].movie, target)
            &&& target.kind is Series ==> t.shows.len() == 1 && t.shows[0].rating == rating
                && is_show_above(t.shows[0].show, target)
            &&& target.kind is Episode ==> t.episodes.len() == 1 && t.episodes[0].rating == rating
                && is_episode_of(t.episodes[0].episode, target)
        },
{
}

/// A playback is reported of a movie alone, or of an episode together with its show, and of nothing
/// else. How far it has got is reported as it is given.
pub proof fn lemma_reported_as_what_it_is(target: MediaTrackerTarget, progress: serde_json::Value)
    ensures
        scrobble_body_spec(target, progress) is Some <==> target.kind is Movie || target.kind
            is Episode,
        scrobble_body_spec(target, progress) matches Some(body) ==> {
            &&& body.progress == progress
            &&& target.kind is Movie ==> body.show is None && body.episode is None && (
            body.movie matches Some(m) && is_movie_of(m, target))
            &&& target.kind is Episode ==> body.movie is None && (body.show matches Some(s)
                && is_show_above(s, target)) && (body.episode matches Some(e) && is_episode_of(
                e,
                target,
            ))
        },
{
}

/// What Trakt is sent and what it answers go by the same ids: an id of a service here is the id of
/// the same service there. Trakt's own ids are not kept, nor is an empty text.
pub proof fn lemma_ids_by_service(ids: TraktItemIds)
    ensures
        external_ids(ids).tmdb == ids.tmdb,
        external_ids(ids).tvdb == ids.tvdb,
        external_ids(ids).imdb matches Some(s) ==> ids.imdb == Some(s.value) && s.value@.len() > 0,
        external_ids(ids).imdb is None ==> (ids.imdb matches Some(s) ==> s@.len() == 0),
{
}

/// A title that Trakt cannot take is refused for good, without the user having to log in again, and
/// the refusal names the kind of the title.
pub proof fn lemma_refused_by_kind(
    target: &MediaTrackerTarget,
    rating: u8,
    synced: MediaTrackerResult<SyncItems>,
    favored: MediaTrackerResult<SyncItems>,
    rated: MediaTrackerResult<RatingsItems>,
)
    requires
        call_ensures(sync_items, (target,), synced),
        call_ensures(favorite_items, (target,), favored),
        call_ensures(ratings_items, (target, rating), rated),
    ensures
        synced is Err <==> target.kind is Season || target.kind is Collection,
        favored is Err <==> target.kind is Season || target.kind is Collection,
        rated is Err <==> target.kind is Season || target.kind is Collection,
        synced matches Err(e) ==> e@ == (ErrorView::Permanent {
            message: "Trakt cannot sync "@ + target.kind.name_spec(),
            reauth_required: false,
        }),
        favored matches Err(e) ==> e@ == (ErrorView::Permanent {
            message: "Trakt cannot favorite "@ + target.kind.name_spec(),
            reauth_required: false,
        }),
        rated matches Err(e) ==> e@ == (ErrorView::Permanent {
            message: "Trakt cannot rate "@ + target.kind.name_spec(),
            reauth_required: false,
        }),
{
}

} // verus!
