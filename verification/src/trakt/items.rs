//! Titles as Trakt names them, and the lists of titles that are sent to it.

use crate::json::{
    copy_value, int_value, json, list_value, member, members, no_members, object_value, set_member,
    text_value, uint_value, JsonView,
};
use vstd::prelude::*;

verus! {

/// The ids by which Trakt finds a title.
#[derive(Debug, PartialEq, Eq)]
pub struct TraktItemIds {
    pub trakt: Option<i64>,
    pub slug: Option<String>,
    pub imdb: Option<String>,
    pub tmdb: Option<i64>,
    pub tvdb: Option<i64>,
}

#[derive(Debug, PartialEq)]
pub struct TraktMovie {
    pub title: Option<String>,
    pub year: Option<i32>,
    pub ids: TraktItemIds,
}

#[derive(Debug, PartialEq)]
pub struct TraktShow {
    pub title: Option<String>,
    pub year: Option<i32>,
    pub ids: TraktItemIds,
}

#[derive(Debug, PartialEq)]
pub struct TraktEpisode {
    pub season: Option<i64>,
    pub number: Option<i64>,
    pub ids: TraktItemIds,
}

impl Clone for TraktItemIds {
    fn clone(&self) -> (r: Self)
        ensures
            r == *self,
    {
        TraktItemIds {
            trakt: self.trakt,
            slug: self.slug.clone(),
            imdb: self.imdb.clone(),
            tmdb: self.tmdb,
            tvdb: self.tvdb,
        }
    }
}

impl Clone for TraktMovie {
    fn clone(&self) -> (r: Self)
        ensures
            r == *self,
    {
        TraktMovie { title: self.title.clone(), year: self.year, ids: self.ids.clone() }
    }
}

impl Clone for TraktShow {
    fn clone(&self) -> (r: Self)
        ensures
            r == *self,
    {
        TraktShow { title: self.title.clone(), year: self.year, ids: self.ids.clone() }
    }
}

impl Clone for TraktEpisode {
    fn clone(&self) -> (r: Self)
        ensures
            r == *self,
    {
        TraktEpisode { season: self.season, number: self.number, ids: self.ids.clone() }
    }
}

impl Default for TraktItemIds {
    fn default() -> (r: Self)
        ensures
            r == TraktItemIds::none(),
    {
        TraktItemIds { trakt: None, slug: None, imdb: None, tmdb: None, tvdb: None }
    }
}

impl Default for TraktMovie {
    fn default() -> (r: Self)
        ensures
            r == (TraktMovie { title: None, year: None, ids: TraktItemIds::none() }),
    {
        TraktMovie { title: None, year: None, ids: TraktItemIds::default() }
    }
}

impl Default for TraktShow {
    fn default() -> (r: Self)
        ensures
            r == (TraktShow { title: None, year: None, ids: TraktItemIds::none() }),
    {
        TraktShow { title: None, year: None, ids: TraktItemIds::default() }
    }
}

impl Default for TraktEpisode {
    fn default() -> (r: Self)
        ensures
            r == TraktEpisode::unnamed(),
    {
        TraktEpisode { season: None, number: None, ids: TraktItemIds::default() }
    }
}

impl TraktItemIds {
    /// No ids.
    pub open spec fn none() -> TraktItemIds {
        TraktItemIds { trakt: None, slug: None, imdb: None, tmdb: None, tvdb: None }
    }

    /// Whether there is no id at all.
    pub fn is_empty(&self) -> (r: bool)
        ensures
            r == (*self == TraktItemIds::none()),
    {
        self.trakt.is_none() && self.slug.is_none() && self.imdb.is_none() && self.tmdb.is_none()
            && self.tvdb.is_none()
    }
}

impl TraktEpisode {
    /// An episode of which nothing is known.
    pub open spec fn unnamed() -> TraktEpisode {
        TraktEpisode { season: None, number: None, ids: TraktItemIds::none() }
    }
}

/// The ids of a title of which Trakt's own are not known.
pub open spec fn ids_of_parts(imdb: Option<String>, tmdb: Option<i64>, tvdb: Option<i64>) -> TraktItemIds {
    TraktItemIds { trakt: None, slug: None, imdb, tmdb, tvdb }
}

/// The ids of a title of which Trakt's own are not known.
pub fn ids_from_parts(imdb: Option<String>, tmdb: Option<i64>, tvdb: Option<i64>) -> (r: TraktItemIds)
    ensures
        r == ids_of_parts(imdb, tmdb, tvdb),
{
    TraktItemIds { trakt: None, slug: None, imdb, tmdb, tvdb }
}

/// Titles to add to one of the user's lists, or to take off it.
#[derive(Debug, Clone)]
pub struct SyncItems {
    pub movies: Vec<TraktMovie>,
    pub shows: Vec<TraktShow>,
    pub episodes: Vec<TraktEpisode>,
}

impl Default for SyncItems {
    fn default() -> (r: Self)
        ensures
            r.movies@.len() == 0,
            r.shows@.len() == 0,
            r.episodes@.len() == 0,
    {
        SyncItems { movies: Vec::new(), shows: Vec::new(), episodes: Vec::new() }
    }
}

#[derive(Debug, Clone)]
pub struct RatedMovie {
    pub rating: u8,
    pub movie: TraktMovie,
}

#[derive(Debug, Clone)]
pub struct RatedShow {
    pub rating: u8,
    pub show: TraktShow,
}

#[derive(Debug, Clone)]
pub struct RatedEpisode {
    pub rating: u8,
    pub episode: TraktEpisode,
}

/// Titles to rate, or to take the rating off.
#[derive(Debug, Clone)]
pub struct RatingsItems {
    pub movies: Vec<RatedMovie>,
    pub shows: Vec<RatedShow>,
    pub episodes: Vec<RatedEpisode>,
}

impl Default for RatingsItems {
    fn default() -> (r: Self)
        ensures
            r.movies@.len() == 0,
            r.shows@.len() == 0,
            r.episodes@.len() == 0,
    {
        RatingsItems { movies: Vec::new(), shows: Vec::new(), episodes: Vec::new() }
    }
}

/// What a player reports of a playback.
#[derive(Debug, Clone, Copy, PartialEq, Eq, Structural)]
pub enum ScrobbleAction {
    Start,
    Pause,
    Stop,
}

impl ScrobbleAction {
    pub open spec fn path_spec(self) -> Seq<char> {
        match self {
            ScrobbleAction::Start => "scrobble/start"@,
            ScrobbleAction::Pause => "scrobble/pause"@,
            ScrobbleAction::Stop => "scrobble/stop"@,
        }
    }

    /// The path of the operation that takes the report.
    pub fn path(self) -> (r: &'static str)
        ensures
            r@ == self.path_spec(),
    {
        match self {
            ScrobbleAction::Start => "scrobble/start",
            ScrobbleAction::Pause => "scrobble/pause",
            ScrobbleAction::Stop => "scrobble/stop",
        }
    }
}

/// What is being played, and how far it has got: a JSON number of percent.
#[derive(Debug, PartialEq)]
pub struct ScrobbleBody {
    pub movie: Option<TraktMovie>,
    pub show: Option<TraktShow>,
    pub episode: Option<TraktEpisode>,
    pub progress: serde_json::Value,
}

impl Clone for ScrobbleBody {
    fn clone(&self) -> (r: Self)
        ensures
            r.movie == self.movie,
            r.show == self.show,
            r.episode == self.episode,
            json(r.progress) == json(self.progress),
    {
        ScrobbleBody {
            movie: match &self.movie {
                Some(m) => Some(m.clone()),
                None => None,
            },
            show: match &self.show {
                Some(s) => Some(s.clone()),
                None => None,
            },
            episode: match &self.episode {
                Some(e) => Some(e.clone()),
                None => None,
            },
            progress: copy_value(&self.progress),
        }
    }
}

/// How far a playback has got: a position within a running time, both in ticks of 100
/// nanoseconds.
#[derive(Debug, Clone, Copy, PartialEq, Eq, Structural)]
pub struct PlaybackProgress {
    pub position_ticks: i64,
    pub runtime_ticks: i64,
}

impl PlaybackProgress {
    /// The position is within the running time, and there is a running time.
    pub open spec fn well_formed(self) -> bool {
        0 <= self.position_ticks <= self.runtime_ticks && 0 < self.runtime_ticks
    }

    /// Whether this playback has got at most as far as the other: the fractions compared.
    pub open spec fn at_most(self, other: PlaybackProgress) -> bool {
        self.position_ticks * other.runtime_ticks <= other.position_ticks * self.runtime_ticks
    }

    /// All of it.
    pub open spec fn complete() -> PlaybackProgress {
        PlaybackProgress { position_ticks: 1, runtime_ticks: 1 }
    }

    /// Nothing of it.
    pub open spec fn nothing() -> PlaybackProgress {
        PlaybackProgress { position_ticks: 0, runtime_ticks: 1 }
    }
}

/// How far a playback has got: the position limited to the running time, and nothing where no
/// running time is known.
pub open spec fn progress_spec(position_ticks: i64, runtime_ticks: Option<i64>) -> PlaybackProgress {
    match runtime_ticks {
        Some(runtime) => if runtime > 0 {
            PlaybackProgress {
                position_ticks: if position_ticks < 0 {
                    0
                } else if position_ticks > runtime {
                    runtime
                } else {
                    position_ticks
                },
                runtime_ticks: runtime,
            }
        } else {
            PlaybackProgress::nothing()
        },
        None => PlaybackProgress::nothing(),
    }
}

/// How far a playback has got, between 0 and 100 percent: `position_ticks / runtime_ticks` of the
/// result is the hundredth part of the percentage.
pub fn playback_progress_percent(position_ticks: i64, runtime_ticks: Option<i64>) -> (r:
    PlaybackProgress)
    ensures
        r == progress_spec(position_ticks, runtime_ticks),
        r.well_formed(),
{
    match runtime_ticks {
        Some(runtime) if runtime > 0 => {
            let position: i64 = if position_ticks < 0 {
                0
            } else if position_ticks > runtime {
                runtime
            } else {
                position_ticks
            };
            PlaybackProgress { position_ticks: position, runtime_ticks: runtime }
        },
        _ => PlaybackProgress { position_ticks: 0, runtime_ticks: 1 },
    }
}

/// Playing on never lowers the progress that is reported.
pub proof fn lemma_progress_rises(earlier: i64, later: i64, runtime_ticks: Option<i64>)
    requires
        earlier <= later,
    ensures
        progress_spec(earlier, runtime_ticks).at_most(progress_spec(later, runtime_ticks)),
{
    let a = progress_spec(earlier, runtime_ticks);
    let b = progress_spec(later, runtime_ticks);
    assert(a.position_ticks <= b.position_ticks);
    assert(a.position_ticks * b.runtime_ticks <= b.position_ticks * a.runtime_ticks) by (nonlinear_arith)
        requires
            a.position_ticks <= b.position_ticks,
            a.runtime_ticks == b.runtime_ticks,
            0 < a.runtime_ticks,
    ;
}

// The form in which titles are sent. What is not known is left out.

/// Members with one more of them, where there is a value for it.
pub open spec fn with_member(
    m: Map<Seq<char>, JsonView>,
    key: Seq<char>,
    value: Option<JsonView>,
) -> Map<Seq<char>, JsonView> {
    match value {
        Some(v) => m.insert(key, v),
        None => m,
    }
}

pub open spec fn optional_int(n: Option<i64>) -> Option<JsonView> {
    match n {
        Some(n) => Some(JsonView::Int(n as int)),
        None => None,
    }
}

pub open spec fn optional_text(s: Option<String>) -> Option<JsonView> {
    match s {
        Some(s) => Some(JsonView::Text(s@)),
        None => None,
    }
}

pub open spec fn ids_json(ids: TraktItemIds) -> JsonView {
    let m = Map::<Seq<char>, JsonView>::empty();
    let m = with_member(m, "trakt"@, optional_int(ids.trakt));
    let m = with_member(m, "slug"@, optional_text(ids.slug));
    let m = with_member(m, "imdb"@, optional_text(ids.imdb));
    let m = with_member(m, "tmdb"@, optional_int(ids.tmdb));
    let m = with_member(m, "tvdb"@, optional_int(ids.tvdb));
    JsonView::Object(m)
}

/// The members of a movie or a show.
pub open spec fn title_members(title: Option<String>, year: Option<i32>, ids: TraktItemIds) -> Map<
    Seq<char>,
    JsonView,
> {
    let m = Map::<Seq<char>, JsonView>::empty();
    let m = with_member(m, "title"@, optional_text(title));
    let m = with_member(
        m,
        "year"@,
        match year {
            Some(y) => Some(JsonView::Int(y as int)),
            None => None,
        },
    );
    m.insert("ids"@, ids_json(ids))
}

pub open spec fn episode_members(e: TraktEpisode) -> Map<Seq<char>, JsonView> {
    let m = Map::<Seq<char>, JsonView>::empty();
    let m = with_member(m, "season"@, optional_int(e.season));
    let m = with_member(m, "number"@, optional_int(e.number));
    m.insert("ids"@, ids_json(e.ids))
}

pub open spec fn movie_json(m: TraktMovie) -> JsonView {
    JsonView::Object(title_members(m.title, m.year, m.ids))
}

pub open spec fn show_json(s: TraktShow) -> JsonView {
    JsonView::Object(title_members(s.title, s.year, s.ids))
}

pub open spec fn episode_json(e: TraktEpisode) -> JsonView {
    JsonView::Object(episode_members(e))
}

/// A title's members with the rating among them.
pub open spec fn rated(m: Map<Seq<char>, JsonView>, rating: u8) -> JsonView {
    JsonView::Object(m.insert("rating"@, JsonView::Int(rating as int)))
}

pub open spec fn rated_movie_json(r: RatedMovie) -> JsonView {
    rated(title_members(r.movie.title, r.movie.year, r.movie.ids), r.rating)
}

pub open spec fn rated_show_json(r: RatedShow) -> JsonView {
    rated(title_members(r.show.title, r.show.year, r.show.ids), r.rating)
}

pub open spec fn rated_episode_json(r: RatedEpisode) -> JsonView {
    rated(episode_members(r.episode), r.rating)
}

/// A list, where it is not empty.
pub open spec fn optional_list(items: Seq<JsonView>) -> Option<JsonView> {
    if items.len() == 0 {
        None
    } else {
        Some(JsonView::List(items))
    }
}

/// The three lists of a set of titles, where they are not empty.
pub open spec fn lists_json(
    movies: Seq<JsonView>,
    shows: Seq<JsonView>,
    episodes: Seq<JsonView>,
) -> JsonView {
    let m = Map::<Seq<char>, JsonView>::empty();
    let m = with_member(m, "movies"@, optional_list(movies));
    let m = with_member(m, "shows"@, optional_list(shows));
    let m = with_member(m, "episodes"@, optional_list(episodes));
    JsonView::Object(m)
}

pub open spec fn sync_items_json(items: SyncItems) -> JsonView {
    lists_json(
        items.movies@.map_values(|m: TraktMovie| movie_json(m)),
        items.shows@.map_values(|s: TraktShow| show_json(s)),
        items.episodes@.map_values(|e: TraktEpisode| episode_json(e)),
    )
}

pub open spec fn ratings_items_json(items: RatingsItems) -> JsonView {
    lists_json(
        items.movies@.map_values(|r: RatedMovie| rated_movie_json(r)),
        items.shows@.map_values(|r: RatedShow| rated_show_json(r)),
        items.episodes@.map_values(|r: RatedEpisode| rated_episode_json(r)),
    )
}

pub open spec fn scrobble_json(body: ScrobbleBody) -> JsonView {
    let m = Map::<Seq<char>, JsonView>::empty();
    let m = with_member(
        m,
        "movie"@,
        match body.movie {
            Some(x) => Some(movie_json(x)),
            None => None,
        },
    );
    let m = with_member(
        m,
        "show"@,
        match body.show {
            Some(x) => Some(show_json(x)),
            None => None,
        },
    );
    let m = with_member(
        m,
        "episode"@,
        match body.episode {
            Some(x) => Some(episode_json(x)),
            None => None,
        },
    );
    JsonView::Object(m.insert("progress"@, json(body.progress)))
}

fn set_int(m: &mut serde_json::Map<String, serde_json::Value>, key: &str, n: Option<i64>)
    ensures
        members(*final(m)) == with_member(members(*old(m)), key@, optional_int(n)),
{
    if let Some(n) = n {
        set_member(m, key, int_value(n));
    }
}

fn set_text(m: &mut serde_json::Map<String, serde_json::Value>, key: &str, s: &Option<String>)
    ensures
        members(*final(m)) == with_member(members(*old(m)), key@, optional_text(*s)),
{
    if let Some(s) = s {
        set_member(m, key, text_value(s));
    }
}

fn set_list(
    m: &mut serde_json::Map<String, serde_json::Value>,
    key: &str,
    items: Vec<serde_json::Value>,
)
    ensures
        members(*final(m)) == with_member(
            members(*old(m)),
            key@,
            optional_list(items@.map_values(|v: serde_json::Value| json(v))),
        ),
{
    if items.len() != 0 {
        set_member(m, key, list_value(items));
    }
}

/// The ids, as they are sent.
pub fn ids_value(ids: &TraktItemIds) -> (r: serde_json::Value)
    ensures
        json(r) == ids_json(*ids),
{
    let mut m = no_members();
    set_int(&mut m, "trakt", ids.trakt);
    set_text(&mut m, "slug", &ids.slug);
    set_text(&mut m, "imdb", &ids.imdb);
    set_int(&mut m, "tmdb", ids.tmdb);
    set_int(&mut m, "tvdb", ids.tvdb);
    object_value(m)
}

fn title_map(title: &Option<String>, year: Option<i32>, ids: &TraktItemIds) -> (r: serde_json::Map<
    String,
    serde_json::Value,
>)
    ensures
        members(r) == title_members(*title, year, *ids),
{
    let mut m = no_members();
    set_text(&mut m, "title", title);
    if let Some(y) = year {
        set_member(&mut m, "year", int_value(y as i64));
    }
    set_member(&mut m, "ids", ids_value(ids));
    m
}

fn episode_map(e: &TraktEpisode) -> (r: serde_json::Map<String, serde_json::Value>)
    ensures
        members(r) == episode_members(*e),
{
    let mut m = no_members();
    set_int(&mut m, "season", e.season);
    set_int(&mut m, "number", e.number);
    set_member(&mut m, "ids", ids_value(&e.ids));
    m
}

fn rated_value(m: serde_json::Map<String, serde_json::Value>, rating: u8) -> (r: serde_json::Value)
    ensures
        json(r) == rated(members(m), rating),
{
    let mut m = m;
    set_member(&mut m, "rating", uint_value(rating as u64));
    object_value(m)
}

/// A movie, as it is sent.
pub fn movie_value(m: &TraktMovie) -> (r: serde_json::Value)
    ensures
        json(r) == movie_json(*m),
{
    object_value(title_map(&m.title, m.year, &m.ids))
}

/// A show, as it is sent.
pub fn show_value(s: &TraktShow) -> (r: serde_json::Value)
    ensures
        json(r) == show_json(*s),
{
    object_value(title_map(&s.title, s.year, &s.ids))
}

/// An episode, as it is sent.
pub fn episode_value(e: &TraktEpisode) -> (r: serde_json::Value)
    ensures
        json(r) == episode_json(*e),
{
    object_value(episode_map(e))
}

fn lists_value(
    movies: Vec<serde_json::Value>,
    shows: Vec<serde_json::Value>,
    episodes: Vec<serde_json::Value>,
) -> (r: serde_json::Value)
    ensures
        json(r) == lists_json(
            movies@.map_values(|v: serde_json::Value| json(v)),
            shows@.map_values(|v: serde_json::Value| json(v)),
            episodes@.map_values(|v: serde_json::Value| json(v)),
        ),
{
    let mut m = no_members();
    set_list(&mut m, "movies", movies);
    set_list(&mut m, "shows", shows);
    set_list(&mut m, "episodes", episodes);
    object_value(m)
}

/// A set of titles, as it is sent.
pub fn sync_items_value(items: &SyncItems) -> (r: serde_json::Value)
    ensures
        json(r) == sync_items_json(*items),
{
    let mut movies: Vec<serde_json::Value> = Vec::new();
    for i in 0..items.movies.len()
        invariant
            movies@.len() == i,
            forall|k: int| 0 <= k < i ==> json(#[trigger] movies@[k]) == movie_json(items.movies@[k]),
    {
        movies.push(movie_value(&items.movies[i]));
    }
    let mut shows: Vec<serde_json::Value> = Vec::new();
    for i in 0..items.shows.len()
        invariant
            shows@.len() == i,
            forall|k: int| 0 <= k < i ==> json(#[trigger] shows@[k]) == show_json(items.shows@[k]),
    {
        shows.push(show_value(&items.shows[i]));
    }
    let mut episodes: Vec<serde_json::Value> = Vec::new();
    for i in 0..items.episodes.len()
        invariant
            episodes@.len() == i,
            forall|k: int|
                0 <= k < i ==> json(#[trigger] episodes@[k]) == episode_json(items.episodes@[k]),
    {
        episodes.push(episode_value(&items.episodes[i]));
    }
    proof {
        assert(movies@.map_values(|v: serde_json::Value| json(v)) =~= items.movies@.map_values(
            |m: TraktMovie| movie_json(m),
        ));
        assert(shows@.map_values(|v: serde_json::Value| json(v)) =~= items.shows@.map_values(
            |s: TraktShow| show_json(s),
        ));
        assert(episodes@.map_values(|v: serde_json::Value| json(v)) =~= items.episodes@.map_values(
            |e: TraktEpisode| episode_json(e),
        ));
    }
    lists_value(movies, shows, episodes)
}

/// A set of rated titles, as it is sent.
pub fn ratings_items_value(items: &RatingsItems) -> (r: serde_json::Value)
    ensures
        json(r) == ratings_items_json(*items),
{
    let mut movies: Vec<serde_json::Value> = Vec::new();
    for i in 0..items.movies.len()
        invariant
            movies@.len() == i,
            forall|k: int|
                0 <= k < i ==> json(#[trigger] movies@[k]) == rated_movie_json(items.movies@[k]),
    {
        let x = &items.movies[i];
        movies.push(rated_value(title_map(&x.movie.title, x.movie.year, &x.movie.ids), x.rating));
    }
    let mut shows: Vec<serde_json::Value> = Vec::new();
    for i in 0..items.shows.len()
        invariant
            shows@.len() == i,
            forall|k: int|
                0 <= k < i ==> json(#[trigger] shows@[k]) == rated_show_json(items.shows@[k]),
    {
        let x = &items.shows[i];
        shows.push(rated_value(title_map(&x.show.title, x.show.year, &x.show.ids), x.rating));
    }
    let mut episodes: Vec<serde_json::Value> = Vec::new();
    for i in 0..items.episodes.len()
        invariant
            episodes@.len() == i,
            forall|k: int|
                0 <= k < i ==> json(#[trigger] episodes@[k]) == rated_episode_json(
                    items.episodes@[k],
                ),
    {
        let x = &items.episodes[i];
        episodes.push(rated_value(episode_map(&x.episode), x.rating));
    }
    proof {
        assert(movies@.map_values(|v: serde_json::Value| json(v)) =~= items.movies@.map_values(
            |r: RatedMovie| rated_movie_json(r),
        ));
        assert(shows@.map_values(|v: serde_json::Value| json(v)) =~= items.shows@.map_values(
            |r: RatedShow| rated_show_json(r),
        ));
        assert(episodes@.map_values(|v: serde_json::Value| json(v)) =~= items.episodes@.map_values(
            |r: RatedEpisode| rated_episode_json(r),
        ));
    }
    lists_value(movies, shows, episodes)
}

/// A report of a playback, as it is sent.
pub fn scrobble_value(body: &ScrobbleBody) -> (r: serde_json::Value)
    ensures
        json(r) == scrobble_json(*body),
{
    let mut m = no_members();
    if let Some(x) = &body.movie {
        set_member(&mut m, "movie", movie_value(x));
    }
    if let Some(x) = &body.show {
        set_member(&mut m, "show", show_value(x));
    }
    if let Some(x) = &body.episode {
        set_member(&mut m, "episode", episode_value(x));
    }
    set_member(&mut m, "progress", copy_value(&body.progress));
    object_value(m)
}

proof fn lemma_id_names()
    ensures
        "trakt"@ != "slug"@,
        "trakt"@ != "imdb"@,
        "trakt"@ != "tmdb"@,
        "trakt"@ != "tvdb"@,
        "slug"@ != "imdb"@,
        "slug"@ != "tmdb"@,
        "slug"@ != "tvdb"@,
        "imdb"@ != "tmdb"@,
        "imdb"@ != "tvdb"@,
        "tmdb"@ != "tvdb"@,
{
    reveal_strlit("trakt");
    reveal_strlit("slug");
    reveal_strlit("imdb");
    reveal_strlit("tmdb");
    reveal_strlit("tvdb");
    assert("imdb"@.len() == 4);
    assert("imdb"@[0] == 'i');
    assert("slug"@.len() == 4);
    assert("slug"@[0] == 's');
    assert("tmdb"@.len() == 4);
    assert("tmdb"@[0] == 't');
    assert("tmdb"@[1] == 'm');
    assert("trakt"@.len() == 5);
    assert("tvdb"@.len() == 4);
    assert("tvdb"@[0] == 't');
    assert("tvdb"@[1] == 'v');
}

proof fn lemma_title_names()
    ensures
        "title"@ != "year"@,
        "title"@ != "ids"@,
        "title"@ != "rating"@,
        "year"@ != "ids"@,
        "year"@ != "rating"@,
        "ids"@ != "rating"@,
{
    reveal_strlit("title");
    reveal_strlit("year");
    reveal_strlit("ids");
    reveal_strlit("rating");
    assert("ids"@.len() == 3);
    assert("rating"@.len() == 6);
    assert("title"@.len() == 5);
    assert("year"@.len() == 4);
}

proof fn lemma_episode_names()
    ensures
        "season"@ != "number"@,
        "season"@ != "ids"@,
        "season"@ != "rating"@,
        "number"@ != "ids"@,
        "number"@ != "rating"@,
        "ids"@ != "rating"@,
{
    reveal_strlit("season");
    reveal_strlit("number");
    reveal_strlit("ids");
    reveal_strlit("rating");
    assert("ids"@.len() == 3);
    assert("number"@.len() == 6);
    assert("number"@[0] == 'n');
    assert("rating"@.len() == 6);
    assert("rating"@[0] == 'r');
    assert("season"@.len() == 6);
    assert("season"@[0] == 's');
}

proof fn lemma_list_names()
    ensures
        "movies"@ != "shows"@,
        "movies"@ != "episodes"@,
        "shows"@ != "episodes"@,
{
    reveal_strlit("movies");
    reveal_strlit("shows");
    reveal_strlit("episodes");
    assert("episodes"@.len() == 8);
    assert("movies"@.len() == 6);
    assert("shows"@.len() == 5);
}

proof fn lemma_report_names()
    ensures
        "movie"@ != "show"@,
        "movie"@ != "episode"@,
        "movie"@ != "progress"@,
        "show"@ != "episode"@,
        "show"@ != "progress"@,
        "episode"@ != "progress"@,
{
    reveal_strlit("movie");
    reveal_strlit("show");
    reveal_strlit("episode");
    reveal_strlit("progress");
    assert("episode"@.len() == 7);
    assert("movie"@.len() == 5);
    assert("progress"@.len() == 8);
    assert("show"@.len() == 4);
}

/// Whether a text is sent: as it is where there is one, and else not at all.
pub open spec fn is_sent_text(sent: Option<JsonView>, text: Option<String>) -> bool {
    match (sent, text) {
        (Some(JsonView::Text(s)), Some(t)) => s == t@,
        (None, None) => true,
        _ => false,
    }
}

/// Whether a number is sent: as it is where there is one, and else not at all.
pub open spec fn is_sent_number(sent: Option<JsonView>, n: Option<i64>) -> bool {
    match (sent, n) {
        (Some(JsonView::Int(s)), Some(n)) => s == n,
        (None, None) => true,
        _ => false,
    }
}

/// Whether these ids are sent, each under the name of the service that knows the title by it, and
/// none that is not known.
pub open spec fn are_sent_ids(sent: Option<JsonView>, ids: TraktItemIds) -> bool {
    &&& sent matches Some(JsonView::Object(_))
    &&& is_sent_number(member(sent->0, "trakt"@), ids.trakt)
    &&& is_sent_text(member(sent->0, "slug"@), ids.slug)
    &&& is_sent_text(member(sent->0, "imdb"@), ids.imdb)
    &&& is_sent_number(member(sent->0, "tmdb"@), ids.tmdb)
    &&& is_sent_number(member(sent->0, "tvdb"@), ids.tvdb)
}

/// Whether this is a movie or a show with this name, this year and these ids.
pub open spec fn is_sent_title(
    sent: JsonView,
    title: Option<String>,
    year: Option<i32>,
    ids: TraktItemIds,
) -> bool {
    &&& is_sent_text(member(sent, "title"@), title)
    &&& is_sent_number(
        member(sent, "year"@),
        match year {
            Some(y) => Some(y as i64),
            None => None,
        },
    )
    &&& are_sent_ids(member(sent, "ids"@), ids)
}

/// Whether this is an episode with this season, this number and these ids.
pub open spec fn is_sent_episode(
    sent: JsonView,
    season: Option<i64>,
    number: Option<i64>,
    ids: TraktItemIds,
) -> bool {
    &&& is_sent_number(member(sent, "season"@), season)
    &&& is_sent_number(member(sent, "number"@), number)
    &&& are_sent_ids(member(sent, "ids"@), ids)
}

proof fn lemma_ids_sent(ids: TraktItemIds)
    ensures
        are_sent_ids(Some(ids_json(ids)), ids),
{
    lemma_id_names();
}

proof fn lemma_title_sent(title: Option<String>, year: Option<i32>, ids: TraktItemIds, rating: u8)
    ensures
        is_sent_title(JsonView::Object(title_members(title, year, ids)), title, year, ids),
        is_sent_title(rated(title_members(title, year, ids), rating), title, year, ids),
        member(JsonView::Object(title_members(title, year, ids)), "rating"@) is None,
        member(rated(title_members(title, year, ids), rating), "rating"@) == Some(
            JsonView::Int(rating as int),
        ),
{
    lemma_title_names();
    lemma_ids_sent(ids);
}

proof fn lemma_episode_sent(e: TraktEpisode, rating: u8)
    ensures
        is_sent_episode(JsonView::Object(episode_members(e)), e.season, e.number, e.ids),
        is_sent_episode(rated(episode_members(e), rating), e.season, e.number, e.ids),
        member(JsonView::Object(episode_members(e)), "rating"@) is None,
        member(rated(episode_members(e), rating), "rating"@) == Some(JsonView::Int(rating as int)),
{
    lemma_episode_names();
    lemma_ids_sent(e.ids);
}

/// A title is sent with what is known of it, each part under its own name, and without what is not
/// known. A rating goes with the title and changes nothing in it.
pub proof fn lemma_sent_as_known(m: TraktMovie, s: TraktShow, e: TraktEpisode, rating: u8)
    ensures
        is_sent_title(movie_json(m), m.title, m.year, m.ids),
        is_sent_title(show_json(s), s.title, s.year, s.ids),
        is_sent_episode(episode_json(e), e.season, e.number, e.ids),
        is_sent_title(rated_movie_json(RatedMovie { rating, movie: m }), m.title, m.year, m.ids),
        is_sent_title(rated_show_json(RatedShow { rating, show: s }), s.title, s.year, s.ids),
        is_sent_episode(
            rated_episode_json(RatedEpisode { rating, episode: e }),
            e.season,
            e.number,
            e.ids,
        ),
        member(movie_json(m), "rating"@) is None,
        member(show_json(s), "rating"@) is None,
        member(episode_json(e), "rating"@) is None,
        member(rated_movie_json(RatedMovie { rating, movie: m }), "rating"@) == Some(
            JsonView::Int(rating as int),
        ),
        member(rated_show_json(RatedShow { rating, show: s }), "rating"@) == Some(
            JsonView::Int(rating as int),
        ),
        member(rated_episode_json(RatedEpisode { rating, episode: e }), "rating"@) == Some(
            JsonView::Int(rating as int),
        ),
{
    lemma_title_sent(m.title, m.year, m.ids, rating);
    lemma_title_sent(s.title, s.year, s.ids, rating);
    lemma_episode_sent(e, rating);
}

/// Whether these are sent as a list: in their order where there are any, and else not at all.
pub open spec fn is_sent_list(sent: Option<JsonView>, items: Seq<JsonView>) -> bool {
    match sent {
        Some(JsonView::List(s)) => s == items && items.len() > 0,
        None => items.len() == 0,
        _ => false,
    }
}

/// Movies, shows and episodes are sent each as a list of its own, all of them and in their order.
pub proof fn lemma_lists_sent_apart(
    movies: Seq<JsonView>,
    shows: Seq<JsonView>,
    episodes: Seq<JsonView>,
)
    ensures
        is_sent_list(member(lists_json(movies, shows, episodes), "movies"@), movies),
        is_sent_list(member(lists_json(movies, shows, episodes), "shows"@), shows),
        is_sent_list(member(lists_json(movies, shows, episodes), "episodes"@), episodes),
{
    lemma_list_names();
}

/// A report of a playback says what is played, each under its own name, and how far it has got.
pub proof fn lemma_report_sent_as_known(body: ScrobbleBody)
    ensures
        match (member(scrobble_json(body), "movie"@), body.movie) {
            (Some(sent), Some(m)) => is_sent_title(sent, m.title, m.year, m.ids),
            (None, None) => true,
            _ => false,
        },
        match (member(scrobble_json(body), "show"@), body.show) {
            (Some(sent), Some(s)) => is_sent_title(sent, s.title, s.year, s.ids),
            (None, None) => true,
            _ => false,
        },
        match (member(scrobble_json(body), "episode"@), body.episode) {
            (Some(sent), Some(e)) => is_sent_episode(sent, e.season, e.number, e.ids),
            (None, None) => true,
            _ => false,
        },
        member(scrobble_json(body), "progress"@) == Some(json(body.progress)),
{
    lemma_report_names();
    if let Some(m) = body.movie {
        lemma_title_sent(m.title, m.year, m.ids, 0);
    }
    if let Some(x) = body.show {
        lemma_title_sent(x.title, x.year, x.ids, 0);
    }
    if let Some(e) = body.episode {
        lemma_episode_sent(e, 0);
    }
}

/// How far a playback has got is the part of the running time up to the position. A position before
/// the beginning is nothing of it, and one behind the end is all of it. Where no running time is
/// known nothing has been played.
pub proof fn lemma_progress_is_the_part_played(position: i64, runtime: Option<i64>)
    ensures
        ({
            let p = progress_spec(position, runtime);
            &&& p.well_formed()
            &&& runtime is None || runtime->0 <= 0 ==> p.position_ticks == 0
            &&& runtime matches Some(r) ==> r > 0 ==> {
                &&& position <= 0 ==> p.position_ticks == 0
                &&& position >= r ==> p.position_ticks == p.runtime_ticks
                &&& 0 <= position <= r ==> p.position_ticks * r == position * p.runtime_ticks
            }
        }),
{
}

/// Each report goes to an operation of its own.
pub proof fn lemma_report_paths(action: ScrobbleAction)
    ensures
        action is Start <==> action.path_spec() == "scrobble/start"@,
        action is Pause <==> action.path_spec() == "scrobble/pause"@,
        action is Stop <==> action.path_spec() == "scrobble/stop"@,
{
    reveal_strlit("scrobble/start");
    reveal_strlit("scrobble/pause");
    reveal_strlit("scrobble/stop");
    assert("scrobble/start"@[9] == 's' && "scrobble/pause"@[9] == 'p');
    assert("scrobble/stop"@.len() == 13 && "scrobble/start"@.len() == 14);
    assert("scrobble/pause"@.len() == 14);
}

} // verus!
