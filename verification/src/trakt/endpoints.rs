//! The operations of the Trakt API.

use super::items::{
    ratings_items_json, ratings_items_value, scrobble_json, scrobble_value, sync_items_json,
    sync_items_value, RatingsItems, ScrobbleAction, ScrobbleBody, SyncItems,
};
use crate::json::{
    json, member, members, no_members, object_value, set_member, text_value, JsonView,
};
use crate::rest::{no_params, query_view, request_of, Body, Endpoint, Method, RequestView};
use crate::text::join;
use vstd::prelude::*;

verus! {

/// How many items to list.
#[derive(Debug, Clone)]
pub struct PopularParams {
    pub limit: u32,
}

/// Which page to list, and how many items it has.
#[derive(Debug, Clone, Default)]
pub struct PageParams {
    pub page: u32,
    pub limit: u32,
}

pub open spec fn popular_query(limit: u32) -> Seq<(Seq<char>, u32)> {
    seq![("limit"@, limit)]
}

pub open spec fn page_query(page: u32, limit: u32) -> Seq<(Seq<char>, u32)> {
    seq![("page"@, page), ("limit"@, limit)]
}

impl PopularParams {
    /// The parameters as they stand in a query.
    pub fn pairs(&self) -> (r: Vec<(String, u32)>)
        ensures
            query_view(r@) == popular_query(self.limit),
    {
        let r = vec![("limit".to_string(), self.limit)];
        assert(query_view(r@) =~= popular_query(self.limit));
        r
    }
}

impl PageParams {
    /// The parameters as they stand in a query.
    pub fn pairs(&self) -> (r: Vec<(String, u32)>)
        ensures
            query_view(r@) == page_query(self.page, self.limit),
    {
        let r = vec![("page".to_string(), self.page), ("limit".to_string(), self.limit)];
        assert(query_view(r@) =~= page_query(self.page, self.limit));
        r
    }
}

/// An object whose members are these texts.
pub open spec fn texts_json(pairs: Seq<(Seq<char>, Seq<char>)>) -> JsonView {
    JsonView::Object(text_members(pairs))
}

pub open spec fn text_members(pairs: Seq<(Seq<char>, Seq<char>)>) -> Map<Seq<char>, JsonView>
    decreases pairs.len(),
{
    if pairs.len() == 0 {
        Map::empty()
    } else {
        text_members(pairs.drop_last()).insert(pairs.last().0, JsonView::Text(pairs.last().1))
    }
}

pub open spec fn text_pairs(pairs: Seq<(&str, &str)>) -> Seq<(Seq<char>, Seq<char>)> {
    pairs.map_values(|p: (&str, &str)| (p.0@, p.1@))
}

fn texts_value(pairs: Vec<(&str, &str)>) -> (r: serde_json::Value)
    ensures
        json(r) == texts_json(text_pairs(pairs@)),
{
    let mut m = no_members();
    let ghost all = text_pairs(pairs@);
    for i in 0..pairs.len()
        invariant
            all == text_pairs(pairs@),
            members(m) == text_members(all.take(i as int)),
    {
        assert(all.take(i + 1).drop_last() =~= all.take(i as int));
        set_member(&mut m, pairs[i].0, text_value(pairs[i].1));
    }
    assert(all.take(all.len() as int) =~= all);
    object_value(m)
}

/// Popular movies.
#[derive(Debug, Clone)]
pub struct MoviePopularEndpoint {
    pub limit: u32,
}

impl Endpoint for MoviePopularEndpoint {
    open spec fn path_spec(&self) -> Seq<char> {
        "movies/popular"@
    }

    open spec fn query_spec(&self) -> Seq<(Seq<char>, u32)> {
        popular_query(self.limit)
    }

    fn path(&self) -> (r: String) {
        "movies/popular".to_string()
    }

    fn method(&self) -> (r: Method) {
        Method::Get
    }

    fn query_params(&self) -> (r: Vec<(String, u32)>) {
        PopularParams { limit: self.limit }.pairs()
    }

    fn body(&self) -> (r: Body) {
        Body::Empty
    }
}

/// Popular shows.
#[derive(Debug, Clone)]
pub struct ShowPopularEndpoint {
    pub limit: u32,
}

impl Endpoint for ShowPopularEndpoint {
    open spec fn path_spec(&self) -> Seq<char> {
        "shows/popular"@
    }

    open spec fn query_spec(&self) -> Seq<(Seq<char>, u32)> {
        popular_query(self.limit)
    }

    fn path(&self) -> (r: String) {
        "shows/popular".to_string()
    }

    fn method(&self) -> (r: Method) {
        Method::Get
    }

    fn query_params(&self) -> (r: Vec<(String, u32)>) {
        PopularParams { limit: self.limit }.pairs()
    }

    fn body(&self) -> (r: Body) {
        Body::Empty
    }
}

/// How a movie is received.
#[derive(Debug, Clone)]
pub struct MovieStatsEndpoint {
    pub imdb_id: String,
}

impl Endpoint for MovieStatsEndpoint {
    open spec fn path_spec(&self) -> Seq<char> {
        "movies/"@ + self.imdb_id@ + "/stats"@
    }

    fn path(&self) -> (r: String) {
        join(join("movies/", self.imdb_id.as_str()).as_str(), "/stats")
    }

    fn method(&self) -> (r: Method) {
        Method::Get
    }

    fn query_params(&self) -> (r: Vec<(String, u32)>) {
        no_params()
    }

    fn body(&self) -> (r: Body) {
        Body::Empty
    }
}

/// How a show is received.
#[derive(Debug, Clone)]
pub struct ShowStatsEndpoint {
    pub imdb_id: String,
}

impl Endpoint for ShowStatsEndpoint {
    open spec fn path_spec(&self) -> Seq<char> {
        "shows/"@ + self.imdb_id@ + "/stats"@
    }

    fn path(&self) -> (r: String) {
        join(join("shows/", self.imdb_id.as_str()).as_str(), "/stats")
    }

    fn method(&self) -> (r: Method) {
        Method::Get
    }

    fn query_params(&self) -> (r: Vec<(String, u32)>) {
        no_params()
    }

    fn body(&self) -> (r: Body) {
        Body::Empty
    }
}

/// Starts a device login.
#[derive(Debug, Clone)]
pub struct DeviceCodeEndpoint {
    pub client_id: String,
}

impl Endpoint for DeviceCodeEndpoint {
    open spec fn path_spec(&self) -> Seq<char> {
        "oauth/device/code"@
    }

    open spec fn method_spec(&self) -> Method {
        Method::Post
    }

    open spec fn body_spec(&self) -> Option<JsonView> {
        Some(texts_json(
            seq![
                ("client_id"@, self.client_id@),
            ],
        ))
    }

    fn path(&self) -> (r: String) {
        "oauth/device/code".to_string()
    }

    fn method(&self) -> (r: Method) {
        Method::Post
    }

    fn query_params(&self) -> (r: Vec<(String, u32)>) {
        no_params()
    }

    fn body(&self) -> (r: Body) {
        let pairs = vec![
            ("client_id", self.client_id.as_str()),
        ];
        assert(text_pairs(pairs@) =~= seq![
            ("client_id"@, self.client_id@),
        ]);
        Body::Json(texts_value(pairs))
    }
}

/// Asks for the tokens of a device login.
#[derive(Debug, Clone)]
pub struct DeviceTokenEndpoint {
    pub code: String,
    pub client_id: String,
    pub client_secret: String,
}

impl Endpoint for DeviceTokenEndpoint {
    open spec fn path_spec(&self) -> Seq<char> {
        "oauth/device/token"@
    }

    open spec fn method_spec(&self) -> Method {
        Method::Post
    }

    open spec fn body_spec(&self) -> Option<JsonView> {
        Some(texts_json(
            seq![
                ("code"@, self.code@),
                ("client_id"@, self.client_id@),
                ("client_secret"@, self.client_secret@),
            ],
        ))
    }

    fn path(&self) -> (r: String) {
        "oauth/device/token".to_string()
    }

    fn method(&self) -> (r: Method) {
        Method::Post
    }

    fn query_params(&self) -> (r: Vec<(String, u32)>) {
        no_params()
    }

    fn body(&self) -> (r: Body) {
        let pairs = vec![
            ("code", self.code.as_str()),
            ("client_id", self.client_id.as_str()),
            ("client_secret", self.client_secret.as_str()),
        ];
        assert(text_pairs(pairs@) =~= seq![
            ("code"@, self.code@),
            ("client_id"@, self.client_id@),
            ("client_secret"@, self.client_secret@),
        ]);
        Body::Json(texts_value(pairs))
    }
}

/// Trades a refresh token for new tokens.
#[derive(Debug, Clone)]
pub struct RefreshTokenEndpoint {
    pub refresh_token: String,
    pub client_id: String,
    pub client_secret: String,
}

impl Endpoint for RefreshTokenEndpoint {
    open spec fn path_spec(&self) -> Seq<char> {
        "oauth/token"@
    }

    open spec fn method_spec(&self) -> Method {
        Method::Post
    }

    open spec fn body_spec(&self) -> Option<JsonView> {
        Some(texts_json(
            seq![
                ("refresh_token"@, self.refresh_token@),
                ("client_id"@, self.client_id@),
                ("client_secret"@, self.client_secret@),
                ("redirect_uri"@, "urn:ietf:wg:oauth:2.0:oob"@),
                ("grant_type"@, "refresh_token"@),
            ],
        ))
    }

    fn path(&self) -> (r: String) {
        "oauth/token".to_string()
    }

    fn method(&self) -> (r: Method) {
        Method::Post
    }

    fn query_params(&self) -> (r: Vec<(String, u32)>) {
        no_params()
    }

    fn body(&self) -> (r: Body) {
        let pairs = vec![
            ("refresh_token", self.refresh_token.as_str()),
            ("client_id", self.client_id.as_str()),
            ("client_secret", self.client_secret.as_str()),
            ("redirect_uri", "urn:ietf:wg:oauth:2.0:oob"),
            ("grant_type", "refresh_token"),
        ];
        assert(text_pairs(pairs@) =~= seq![
            ("refresh_token"@, self.refresh_token@),
            ("client_id"@, self.client_id@),
            ("client_secret"@, self.client_secret@),
            ("redirect_uri"@, "urn:ietf:wg:oauth:2.0:oob"@),
            ("grant_type"@, "refresh_token"@),
        ]);
        Body::Json(texts_value(pairs))
    }
}

/// Gives up a token.
#[derive(Debug, Clone)]
pub struct RevokeEndpoint {
    pub token: String,
    pub client_id: String,
    pub client_secret: String,
}

impl Endpoint for RevokeEndpoint {
    open spec fn path_spec(&self) -> Seq<char> {
        "oauth/revoke"@
    }

    open spec fn method_spec(&self) -> Method {
        Method::Post
    }

    open spec fn body_spec(&self) -> Option<JsonView> {
        Some(texts_json(
            seq![
                ("token"@, self.token@),
                ("client_id"@, self.client_id@),
                ("client_secret"@, self.client_secret@),
            ],
        ))
    }

    fn path(&self) -> (r: String) {
        "oauth/revoke".to_string()
    }

    fn method(&self) -> (r: Method) {
        Method::Post
    }

    fn query_params(&self) -> (r: Vec<(String, u32)>) {
        no_params()
    }

    fn body(&self) -> (r: Body) {
        let pairs = vec![
            ("token", self.token.as_str()),
            ("client_id", self.client_id.as_str()),
            ("client_secret", self.client_secret.as_str()),
        ];
        assert(text_pairs(pairs@) =~= seq![
            ("token"@, self.token@),
            ("client_id"@, self.client_id@),
            ("client_secret"@, self.client_secret@),
        ]);
        Body::Json(texts_value(pairs))
    }
}

/// The settings of the user.
#[derive(Debug, Clone)]
pub struct UserSettingsEndpoint;

impl Endpoint for UserSettingsEndpoint {
    open spec fn path_spec(&self) -> Seq<char> {
        "users/settings"@
    }

    fn path(&self) -> (r: String) {
        "users/settings".to_string()
    }

    fn method(&self) -> (r: Method) {
        Method::Get
    }

    fn query_params(&self) -> (r: Vec<(String, u32)>) {
        no_params()
    }

    fn body(&self) -> (r: Body) {
        Body::Empty
    }
}

/// Reports a playback.
#[derive(Debug, Clone)]
pub struct ScrobbleEndpoint {
    pub action: ScrobbleAction,
    pub body: ScrobbleBody,
}

impl Endpoint for ScrobbleEndpoint {
    open spec fn path_spec(&self) -> Seq<char> {
        self.action.path_spec()
    }

    open spec fn method_spec(&self) -> Method {
        Method::Post
    }

    open spec fn body_spec(&self) -> Option<JsonView> {
        Some(scrobble_json(self.body))
    }

    fn path(&self) -> (r: String) {
        self.action.path().to_string()
    }

    fn method(&self) -> (r: Method) {
        Method::Post
    }

    fn query_params(&self) -> (r: Vec<(String, u32)>) {
        no_params()
    }

    fn body(&self) -> (r: Body) {
        Body::Json(scrobble_value(&self.body))
    }
}

/// Adds titles to the history, or takes them off it.
#[derive(Debug, Clone)]
pub struct SyncHistoryEndpoint {
    pub remove: bool,
    pub items: SyncItems,
}

impl Endpoint for SyncHistoryEndpoint {
    open spec fn path_spec(&self) -> Seq<char> {
        if self.remove {
            "sync/history/remove"@
        } else {
            "sync/history"@
        }
    }

    open spec fn method_spec(&self) -> Method {
        Method::Post
    }

    open spec fn body_spec(&self) -> Option<JsonView> {
        Some(sync_items_json(self.items))
    }

    fn path(&self) -> (r: String) {
        if self.remove {
            "sync/history/remove".to_string()
        } else {
            "sync/history".to_string()
        }
    }

    fn method(&self) -> (r: Method) {
        Method::Post
    }

    fn query_params(&self) -> (r: Vec<(String, u32)>) {
        no_params()
    }

    fn body(&self) -> (r: Body) {
        Body::Json(sync_items_value(&self.items))
    }
}

/// Rates titles, or takes their ratings off.
#[derive(Debug, Clone)]
pub struct SyncRatingsEndpoint {
    pub remove: bool,
    pub items: RatingsItems,
}

impl Endpoint for SyncRatingsEndpoint {
    open spec fn path_spec(&self) -> Seq<char> {
        if self.remove {
            "sync/ratings/remove"@
        } else {
            "sync/ratings"@
        }
    }

    open spec fn method_spec(&self) -> Method {
        Method::Post
    }

    open spec fn body_spec(&self) -> Option<JsonView> {
        Some(ratings_items_json(self.items))
    }

    fn path(&self) -> (r: String) {
        if self.remove {
            "sync/ratings/remove".to_string()
        } else {
            "sync/ratings".to_string()
        }
    }

    fn method(&self) -> (r: Method) {
        Method::Post
    }

    fn query_params(&self) -> (r: Vec<(String, u32)>) {
        no_params()
    }

    fn body(&self) -> (r: Body) {
        Body::Json(ratings_items_value(&self.items))
    }
}

/// Adds titles to the watchlist, or takes them off it.
#[derive(Debug, Clone)]
pub struct SyncWatchlistEndpoint {
    pub remove: bool,
    pub items: SyncItems,
}

impl Endpoint for SyncWatchlistEndpoint {
    open spec fn path_spec(&self) -> Seq<char> {
        if self.remove {
            "sync/watchlist/remove"@
        } else {
            "sync/watchlist"@
        }
    }

    open spec fn method_spec(&self) -> Method {
        Method::Post
    }

    open spec fn body_spec(&self) -> Option<JsonView> {
        Some(sync_items_json(self.items))
    }

    fn path(&self) -> (r: String) {
        if self.remove {
            "sync/watchlist/remove".to_string()
        } else {
            "sync/watchlist".to_string()
        }
    }

    fn method(&self) -> (r: Method) {
        Method::Post
    }

    fn query_params(&self) -> (r: Vec<(String, u32)>) {
        no_params()
    }

    fn body(&self) -> (r: Body) {
        Body::Json(sync_items_value(&self.items))
    }
}

/// Adds titles to the favorites, or takes them off them.
#[derive(Debug, Clone)]
pub struct SyncFavoritesEndpoint {
    pub remove: bool,
    pub items: SyncItems,
}

impl Endpoint for SyncFavoritesEndpoint {
    open spec fn path_spec(&self) -> Seq<char> {
        if self.remove {
            "sync/favorites/remove"@
        } else {
            "sync/favorites"@
        }
    }

    open spec fn method_spec(&self) -> Method {
        Method::Post
    }

    open spec fn body_spec(&self) -> Option<JsonView> {
        Some(sync_items_json(self.items))
    }

    fn path(&self) -> (r: String) {
        if self.remove {
            "sync/favorites/remove".to_string()
        } else {
            "sync/favorites".to_string()
        }
    }

    fn method(&self) -> (r: Method) {
        Method::Post
    }

    fn query_params(&self) -> (r: Vec<(String, u32)>) {
        no_params()
    }

    fn body(&self) -> (r: Body) {
        Body::Json(sync_items_value(&self.items))
    }
}

/// When the user last did something.
#[derive(Debug, Clone)]
pub struct LastActivitiesEndpoint;

impl Endpoint for LastActivitiesEndpoint {
    open spec fn path_spec(&self) -> Seq<char> {
        "sync/last_activities"@
    }

    fn path(&self) -> (r: String) {
        "sync/last_activities".to_string()
    }

    fn method(&self) -> (r: Method) {
        Method::Get
    }

    fn query_params(&self) -> (r: Vec<(String, u32)>) {
        no_params()
    }

    fn body(&self) -> (r: Body) {
        Body::Empty
    }
}

/// The movies that the user has watched.
#[derive(Debug, Clone)]
pub struct WatchedMoviesEndpoint {
    pub page: u32,
    pub limit: u32,
}

impl Endpoint for WatchedMoviesEndpoint {
    open spec fn path_spec(&self) -> Seq<char> {
        "sync/watched/movies"@
    }

    open spec fn query_spec(&self) -> Seq<(Seq<char>, u32)> {
        page_query(self.page, self.limit)
    }

    fn path(&self) -> (r: String) {
        "sync/watched/movies".to_string()
    }

    fn method(&self) -> (r: Method) {
        Method::Get
    }

    fn query_params(&self) -> (r: Vec<(String, u32)>) {
        PageParams { page: self.page, limit: self.limit }.pairs()
    }

    fn body(&self) -> (r: Body) {
        Body::Empty
    }
}

/// The shows that the user has watched.
#[derive(Debug, Clone)]
pub struct WatchedShowsEndpoint {
    pub page: u32,
    pub limit: u32,
}

impl Endpoint for WatchedShowsEndpoint {
    open spec fn path_spec(&self) -> Seq<char> {
        "sync/watched/shows"@
    }

    open spec fn query_spec(&self) -> Seq<(Seq<char>, u32)> {
        page_query(self.page, self.limit)
    }

    fn path(&self) -> (r: String) {
        "sync/watched/shows".to_string()
    }

    fn method(&self) -> (r: Method) {
        Method::Get
    }

    fn query_params(&self) -> (r: Vec<(String, u32)>) {
        PageParams { page: self.page, limit: self.limit }.pairs()
    }

    fn body(&self) -> (r: Body) {
        Body::Empty
    }
}

/// The episodes in the history of the user.
#[derive(Debug, Clone)]
pub struct HistoryEpisodesEndpoint {
    pub page: u32,
    pub limit: u32,
}

impl Endpoint for HistoryEpisodesEndpoint {
    open spec fn path_spec(&self) -> Seq<char> {
        "sync/history/episodes"@
    }

    open spec fn query_spec(&self) -> Seq<(Seq<char>, u32)> {
        page_query(self.page, self.limit)
    }

    fn path(&self) -> (r: String) {
        "sync/history/episodes".to_string()
    }

    fn method(&self) -> (r: Method) {
        Method::Get
    }

    fn query_params(&self) -> (r: Vec<(String, u32)>) {
        PageParams { page: self.page, limit: self.limit }.pairs()
    }

    fn body(&self) -> (r: Body) {
        Body::Empty
    }
}

/// The watchlist of the user.
#[derive(Debug, Clone)]
pub struct WatchlistEndpoint {
    pub page: u32,
    pub limit: u32,
}

impl Endpoint for WatchlistEndpoint {
    open spec fn path_spec(&self) -> Seq<char> {
        "sync/watchlist"@
    }

    open spec fn query_spec(&self) -> Seq<(Seq<char>, u32)> {
        page_query(self.page, self.limit)
    }

    fn path(&self) -> (r: String) {
        "sync/watchlist".to_string()
    }

    fn method(&self) -> (r: Method) {
        Method::Get
    }

    fn query_params(&self) -> (r: Vec<(String, u32)>) {
        PageParams { page: self.page, limit: self.limit }.pairs()
    }

    fn body(&self) -> (r: Body) {
        Body::Empty
    }
}

/// The ratings of the user.
#[derive(Debug, Clone)]
pub struct RatingsEndpoint {
    pub page: u32,
    pub limit: u32,
}

impl Endpoint for RatingsEndpoint {
    open spec fn path_spec(&self) -> Seq<char> {
        "sync/ratings"@
    }

    open spec fn query_spec(&self) -> Seq<(Seq<char>, u32)> {
        page_query(self.page, self.limit)
    }

    fn path(&self) -> (r: String) {
        "sync/ratings".to_string()
    }

    fn method(&self) -> (r: Method) {
        Method::Get
    }

    fn query_params(&self) -> (r: Vec<(String, u32)>) {
        PageParams { page: self.page, limit: self.limit }.pairs()
    }

    fn body(&self) -> (r: Body) {
        Body::Empty
    }
}

/// What the user has not watched to the end.
#[derive(Debug, Clone)]
pub struct PlaybackEndpoint;

impl Endpoint for PlaybackEndpoint {
    open spec fn path_spec(&self) -> Seq<char> {
        "sync/playback"@
    }

    fn path(&self) -> (r: String) {
        "sync/playback".to_string()
    }

    fn method(&self) -> (r: Method) {
        Method::Get
    }

    fn query_params(&self) -> (r: Vec<(String, u32)>) {
        no_params()
    }

    fn body(&self) -> (r: Body) {
        Body::Empty
    }
}

/// What the user is watching now.
#[derive(Debug, Clone)]
pub struct WatchingEndpoint;

impl Endpoint for WatchingEndpoint {
    open spec fn path_spec(&self) -> Seq<char> {
        "users/me/watching"@
    }

    fn path(&self) -> (r: String) {
        "users/me/watching".to_string()
    }

    fn method(&self) -> (r: Method) {
        Method::Get
    }

    fn query_params(&self) -> (r: Vec<(String, u32)>) {
        no_params()
    }

    fn body(&self) -> (r: Body) {
        Body::Empty
    }
}

proof fn lemma_text_member(pairs: Seq<(Seq<char>, Seq<char>)>, i: int)
    requires
        0 <= i < pairs.len(),
        forall|j: int| i < j < pairs.len() ==> (#[trigger] pairs[j]).0 != pairs[i].0,
    ensures
        member(texts_json(pairs), pairs[i].0) == Some(JsonView::Text(pairs[i].1)),
    decreases pairs.len(),
{
    if i < pairs.len() - 1 {
        assert(pairs.drop_last()[i] == pairs[i]);
        lemma_text_member(pairs.drop_last(), i);
    }
}

proof fn lemma_login_names()
    ensures
        "code"@ != "token"@,
        "code"@ != "refresh_token"@,
        "code"@ != "client_id"@,
        "code"@ != "client_secret"@,
        "code"@ != "redirect_uri"@,
        "code"@ != "grant_type"@,
        "token"@ != "refresh_token"@,
        "token"@ != "client_id"@,
        "token"@ != "client_secret"@,
        "token"@ != "redirect_uri"@,
        "token"@ != "grant_type"@,
        "refresh_token"@ != "client_id"@,
        "refresh_token"@ != "client_secret"@,
        "refresh_token"@ != "redirect_uri"@,
        "refresh_token"@ != "grant_type"@,
        "client_id"@ != "client_secret"@,
        "client_id"@ != "redirect_uri"@,
        "client_id"@ != "grant_type"@,
        "client_secret"@ != "redirect_uri"@,
        "client_secret"@ != "grant_type"@,
        "redirect_uri"@ != "grant_type"@,
{
    reveal_strlit("code");
    reveal_strlit("token");
    reveal_strlit("refresh_token");
    reveal_strlit("client_id");
    reveal_strlit("client_secret");
    reveal_strlit("redirect_uri");
    reveal_strlit("grant_type");
    assert("client_id"@.len() == 9);
    assert("client_secret"@.len() == 13);
    assert("client_secret"@[0] == 'c');
    assert("code"@.len() == 4);
    assert("grant_type"@.len() == 10);
    assert("redirect_uri"@.len() == 12);
    assert("refresh_token"@.len() == 13);
    assert("refresh_token"@[0] == 'r');
    assert("token"@.len() == 5);
}

/// Whether this is the text of the member of that name.
pub open spec fn says(body: Option<JsonView>, name: Seq<char>, text: Seq<char>) -> bool {
    body matches Some(b) && member(b, name) == Some(JsonView::Text(text))
}

/// A login, and what renews or ends it, is asked for where Trakt answers it, in the name of the
/// application, and with what it is about: the code of the device, the refresh token, or the token
/// that is given up. The secret of the application goes with each but the first.
pub proof fn lemma_login_requests(
    start: DeviceCodeEndpoint,
    ask: DeviceTokenEndpoint,
    renew: RefreshTokenEndpoint,
    end: RevokeEndpoint,
)
    ensures
        request_of(start).method == Method::Post && request_of(ask).method == Method::Post,
        request_of(renew).method == Method::Post && request_of(end).method == Method::Post,
        request_of(start).path == "oauth/device/code"@,
        request_of(ask).path == "oauth/device/token"@,
        request_of(renew).path == "oauth/token"@,
        request_of(end).path == "oauth/revoke"@,
        says(request_of(start).body, "client_id"@, start.client_id@),
        says(request_of(ask).body, "code"@, ask.code@),
        says(request_of(ask).body, "client_id"@, ask.client_id@),
        says(request_of(ask).body, "client_secret"@, ask.client_secret@),
        says(request_of(renew).body, "refresh_token"@, renew.refresh_token@),
        says(request_of(renew).body, "client_id"@, renew.client_id@),
        says(request_of(renew).body, "client_secret"@, renew.client_secret@),
        says(request_of(renew).body, "redirect_uri"@, "urn:ietf:wg:oauth:2.0:oob"@),
        says(request_of(renew).body, "grant_type"@, "refresh_token"@),
        says(request_of(end).body, "token"@, end.token@),
        says(request_of(end).body, "client_id"@, end.client_id@),
        says(request_of(end).body, "client_secret"@, end.client_secret@),
{
    lemma_login_names();
    let a = seq![("client_id"@, start.client_id@)];
    lemma_text_member(a, 0);
    let b = seq![
        ("code"@, ask.code@),
        ("client_id"@, ask.client_id@),
        ("client_secret"@, ask.client_secret@),
    ];
    lemma_text_member(b, 0);
    lemma_text_member(b, 1);
    lemma_text_member(b, 2);
    let c = seq![
        ("refresh_token"@, renew.refresh_token@),
        ("client_id"@, renew.client_id@),
        ("client_secret"@, renew.client_secret@),
        ("redirect_uri"@, "urn:ietf:wg:oauth:2.0:oob"@),
        ("grant_type"@, "refresh_token"@),
    ];
    lemma_text_member(c, 0);
    lemma_text_member(c, 1);
    lemma_text_member(c, 2);
    lemma_text_member(c, 3);
    lemma_text_member(c, 4);
    let d = seq![
        ("token"@, end.token@),
        ("client_id"@, end.client_id@),
        ("client_secret"@, end.client_secret@),
    ];
    lemma_text_member(d, 0);
    lemma_text_member(d, 1);
    lemma_text_member(d, 2);
}

/// Whether a request only reads, at this path, the page with this number where there are pages.
pub open spec fn reads(
    req: RequestView,
    path: Seq<char>,
    page: Option<(u32, u32)>,
) -> bool {
    &&& req.method == Method::Get
    &&& req.body is None
    &&& req.path == path
    &&& match page {
        Some((page, limit)) => req.query.len() == 2 && req.query[0] == ("page"@, page)
            && req.query[1] == ("limit"@, limit),
        None => req.query.len() == 0,
    }
}

/// What Trakt knows of a user is read where it says so, page by page where it is long. Reading
/// sends nothing and changes nothing.
pub proof fn lemma_reading_requests(page: u32, limit: u32)
    ensures
        reads(request_of(UserSettingsEndpoint), "users/settings"@, None),
        reads(request_of(LastActivitiesEndpoint), "sync/last_activities"@, None),
        reads(request_of(PlaybackEndpoint), "sync/playback"@, None),
        reads(request_of(WatchingEndpoint), "users/me/watching"@, None),
        reads(
            request_of(WatchedMoviesEndpoint { page, limit }),
            "sync/watched/movies"@,
            Some((page, limit)),
        ),
        reads(
            request_of(WatchedShowsEndpoint { page, limit }),
            "sync/watched/shows"@,
            Some((page, limit)),
        ),
        reads(
            request_of(HistoryEpisodesEndpoint { page, limit }),
            "sync/history/episodes"@,
            Some((page, limit)),
        ),
        reads(
            request_of(WatchlistEndpoint { page, limit }),
            "sync/watchlist"@,
            Some((page, limit)),
        ),
        reads(
            request_of(RatingsEndpoint { page, limit }),
            "sync/ratings"@,
            Some((page, limit)),
        ),
{
}

/// What is popular is listed up to a number, and how a title is received is asked by its id: of a
/// movie among the movies, of a show among the shows.
pub proof fn lemma_popular_requests(limit: u32, imdb_id: String)
    ensures
        request_of(MoviePopularEndpoint { limit }).path == "movies/popular"@,
        request_of(ShowPopularEndpoint { limit }).path == "shows/popular"@,
        request_of(MoviePopularEndpoint { limit }).query == seq![("limit"@, limit)],
        request_of(ShowPopularEndpoint { limit }).query == seq![("limit"@, limit)],
        reads(
            request_of(MovieStatsEndpoint { imdb_id }),
            "movies/"@ + imdb_id@ + "/stats"@,
            None,
        ),
        reads(request_of(ShowStatsEndpoint { imdb_id }), "shows/"@ + imdb_id@ + "/stats"@, None),
        request_of(MoviePopularEndpoint { limit }).method == Method::Get,
        request_of(ShowPopularEndpoint { limit }).method == Method::Get,
{
}

/// Whether a request sends this, at this path.
pub open spec fn sends(req: RequestView, path: Seq<char>, body: JsonView) -> bool {
    req.method == Method::Post && req.query.len() == 0 && req.path == path && req.body == Some(body)
}

/// Titles are added to a list of the user or taken off it, each list at a path of its own: what is
/// sent is the same, and only the path says which of the two.
pub proof fn lemma_list_requests(remove: bool, items: SyncItems, ratings: RatingsItems)
    ensures
        ({
            let history = request_of(SyncHistoryEndpoint { remove, items });
            let watchlist = request_of(SyncWatchlistEndpoint { remove, items });
            let favorites = request_of(SyncFavoritesEndpoint { remove, items });
            let rated = request_of(SyncRatingsEndpoint { remove, items: ratings });
            if remove {
                &&& sends(history, "sync/history/remove"@, sync_items_json(items))
                &&& sends(watchlist, "sync/watchlist/remove"@, sync_items_json(items))
                &&& sends(favorites, "sync/favorites/remove"@, sync_items_json(items))
                &&& sends(rated, "sync/ratings/remove"@, ratings_items_json(ratings))
            } else {
                &&& sends(history, "sync/history"@, sync_items_json(items))
                &&& sends(watchlist, "sync/watchlist"@, sync_items_json(items))
                &&& sends(favorites, "sync/favorites"@, sync_items_json(items))
                &&& sends(rated, "sync/ratings"@, ratings_items_json(ratings))
            }
        }),
{
}

} // verus!
