//! The tracker for Trakt: for each thing that it does, the request that is sent and what the answer
//! means.

use super::errors::{is_conflict, map_error, mapped_error, settle, settled};
use super::targets::{
    episode_of_spec, external_ids, favorite_items, favorite_titles, ids_to_external,
    lemma_named_as_it_is, movie_of_spec, rated_titles, rated_titles_json, ratings_items,
    scrobble_body, scrobble_body_spec, show_of_spec, sync_items, sync_titles, titles_json, unfit,
    Titles,
};
use super::tokens::{
    bad_credentials, kept_tokens, lemma_tokens_round_trip, tokens_json, StoredTokens, TokensView,
};
use crate::double::Double;
use crate::ids::ExternalIds;
use crate::json::{json, member, JsonView};
use crate::rest::{
    parsed_url, request, request_of, ClientError, Endpoint, Method, Request, RequestView,
    RestClient,
};
use crate::time::{parse_watched_at, rfc3339_instant, watched_at_spec, Timestamp};
use crate::tracker::{
    AuthFlow, DeviceAuthPoll, DeviceAuthStart, ErrorView, MediaTrackerCapabilities,
    MediaTrackerCredentials, MediaTrackerError, MediaTrackerEvent, MediaTrackerEventKind,
    MediaTrackerResult, MediaTrackerTarget, SyncDirection,
};
use crate::trakt::auth::{
    device_token_status_from_error, is_client, tells, trakt_user_client, DeviceTokenStatus,
    TraktAuth,
};
use crate::trakt::endpoints::{
    lemma_login_requests, lemma_reading_requests, reads, says, DeviceCodeEndpoint,
    DeviceTokenEndpoint, LastActivitiesEndpoint, RefreshTokenEndpoint, RevokeEndpoint,
    ScrobbleEndpoint, SyncFavoritesEndpoint, SyncHistoryEndpoint,
    SyncRatingsEndpoint, SyncWatchlistEndpoint, UserSettingsEndpoint, WatchlistEndpoint,
};
use crate::trakt::items::{
    episode_json, lemma_lists_sent_apart, lemma_progress_is_the_part_played,
    lemma_report_sent_as_known, lemma_sent_as_known, movie_json, playback_progress_percent,
    progress_spec, rated_episode_json, rated_movie_json, rated_show_json, show_json,
    PlaybackProgress, RatedEpisode, RatedMovie, RatedShow, ScrobbleAction, TraktEpisode, TraktMovie,
    TraktShow,
};
use crate::trakt::replies::{
    DeviceCodeResponse, LastActivities, TokenErrorBody, TokenResponse, WatchlistEntry,
};
use vstd::prelude::*;

verus! {

/// The tracker for Trakt, set up for an application that Trakt knows.
#[derive(Debug)]
pub struct TraktAddon {
    pub client_id: String,
    pub client_secret: String,
    pub base_url: String,
}

/// A request to Trakt, ready to be sent, and the client that sends it.
#[derive(Debug)]
pub struct TraktCall {
    pub client: RestClient<TraktAuth>,
    pub request: Request,
}

/// Whether `r` is a request to the service at the address of the addon, for its application and
/// for the user with this token, or the refusal of an address that is none.
pub open spec fn is_call(
    r: MediaTrackerResult<TraktCall>,
    addon: TraktAddon,
    token: Option<Seq<char>>,
    req: RequestView,
) -> bool {
    match r {
        Ok(call) => is_client(Ok(call.client), addon.client_id@, token, addon.base_url@)
            && call.request@ == req,
        Err(e) => parsed_url(addon.base_url@) matches Err(message) && e@ == ErrorView::permanent(
            message,
        ),
    }
}

/// Whether `r` is a request of the user whose tokens the credentials hold, or the refusal of
/// credentials that hold none.
pub open spec fn is_user_call(
    r: MediaTrackerResult<TraktCall>,
    addon: TraktAddon,
    creds: JsonView,
    req: RequestView,
) -> bool {
    match kept_tokens(creds) {
        Some(t) => is_call(r, addon, Some(t.access_token), req),
        None => r matches Err(e) && e@ == bad_credentials(creds),
    }
}

/// The kinds of events there are.
pub open spec fn all_kinds() -> Seq<MediaTrackerEventKind> {
    seq![
        MediaTrackerEventKind::PlaybackStart,
        MediaTrackerEventKind::PlaybackProgress,
        MediaTrackerEventKind::PlaybackStop,
        MediaTrackerEventKind::MarkPlayed,
        MediaTrackerEventKind::MarkUnplayed,
        MediaTrackerEventKind::MarkFavorite,
        MediaTrackerEventKind::UnmarkFavorite,
        MediaTrackerEventKind::Rating,
    ]
}

/// The kinds of events about a playback.
pub open spec fn playback_kinds() -> Seq<MediaTrackerEventKind> {
    seq![
        MediaTrackerEventKind::PlaybackStart,
        MediaTrackerEventKind::PlaybackProgress,
        MediaTrackerEventKind::PlaybackStop,
    ]
}

/// The kinds of events that Trakt takes: all of them.
pub fn all_events() -> (r: Vec<MediaTrackerEventKind>)
    ensures
        r@ == all_kinds(),
        forall|kind: MediaTrackerEventKind| r@.contains(kind),
{
    let r = vec![
        MediaTrackerEventKind::PlaybackStart,
        MediaTrackerEventKind::PlaybackProgress,
        MediaTrackerEventKind::PlaybackStop,
        MediaTrackerEventKind::MarkPlayed,
        MediaTrackerEventKind::MarkUnplayed,
        MediaTrackerEventKind::MarkFavorite,
        MediaTrackerEventKind::UnmarkFavorite,
        MediaTrackerEventKind::Rating,
    ];
    assert forall|kind: MediaTrackerEventKind| r@.contains(kind) by {
        match kind {
            MediaTrackerEventKind::PlaybackStart => assert(r@[0] == kind),
            MediaTrackerEventKind::PlaybackProgress => assert(r@[1] == kind),
            MediaTrackerEventKind::PlaybackStop => assert(r@[2] == kind),
            MediaTrackerEventKind::MarkPlayed => assert(r@[3] == kind),
            MediaTrackerEventKind::MarkUnplayed => assert(r@[4] == kind),
            MediaTrackerEventKind::MarkFavorite => assert(r@[5] == kind),
            MediaTrackerEventKind::UnmarkFavorite => assert(r@[6] == kind),
            MediaTrackerEventKind::Rating => assert(r@[7] == kind),
        }
    }
    r
}

/// Whether an event is about a playback.
pub open spec fn is_playback(kind: MediaTrackerEventKind) -> bool {
    kind == MediaTrackerEventKind::PlaybackStart || kind == MediaTrackerEventKind::PlaybackProgress
        || kind == MediaTrackerEventKind::PlaybackStop
}

/// The kinds of events about a playback.
pub fn playback_events() -> (r: Vec<MediaTrackerEventKind>)
    ensures
        r@ == playback_kinds(),
        forall|kind: MediaTrackerEventKind| r@.contains(kind) <==> is_playback(kind),
{
    let r = vec![
        MediaTrackerEventKind::PlaybackStart,
        MediaTrackerEventKind::PlaybackProgress,
        MediaTrackerEventKind::PlaybackStop,
    ];
    assert forall|kind: MediaTrackerEventKind| r@.contains(kind) <==> is_playback(kind) by {
        assert(r@[0] == MediaTrackerEventKind::PlaybackStart);
        assert(r@[1] == MediaTrackerEventKind::PlaybackProgress);
        assert(r@[2] == MediaTrackerEventKind::PlaybackStop);
    }
    r
}

/// A request that adds or removes what `body` lists.
pub open spec fn list_request(path: Seq<char>, body: JsonView) -> RequestView {
    RequestView { method: Method::Post, path, query: Seq::empty(), body: Some(body) }
}

/// What a playback is reported as, if the event is about one.
pub open spec fn event_action(event: MediaTrackerEvent) -> Option<ScrobbleAction> {
    match event {
        MediaTrackerEvent::PlaybackStart { .. } => Some(ScrobbleAction::Start),
        MediaTrackerEvent::PlaybackProgress { is_paused, .. } => if is_paused {
            Some(ScrobbleAction::Pause)
        } else {
            Some(ScrobbleAction::Start)
        },
        MediaTrackerEvent::PlaybackStop { .. } => Some(ScrobbleAction::Stop),
        _ => None,
    }
}

/// How far a title has been played: all of it where it counts as played.
pub open spec fn played_progress(
    position_ticks: i64,
    target: MediaTrackerTarget,
    played: bool,
) -> PlaybackProgress {
    if played {
        PlaybackProgress::complete()
    } else {
        progress_spec(position_ticks, target.runtime_ticks)
    }
}

/// How far a playback has got of which an event tells.
pub open spec fn event_progress(event: MediaTrackerEvent, target: MediaTrackerTarget) -> PlaybackProgress {
    match event {
        MediaTrackerEvent::PlaybackStart { position_ticks } => played_progress(
            position_ticks,
            target,
            false,
        ),
        MediaTrackerEvent::PlaybackProgress { position_ticks, .. } => played_progress(
            position_ticks,
            target,
            false,
        ),
        MediaTrackerEvent::PlaybackStop { position_ticks, played } => played_progress(
            position_ticks,
            target,
            played,
        ),
        _ => PlaybackProgress::nothing(),
    }
}

/// The request that tells Trakt of an event, or why there is none. `percent` is how far a playback
/// has got.
pub open spec fn event_request(
    event: MediaTrackerEvent,
    target: MediaTrackerTarget,
    percent: serde_json::Value,
) -> Result<RequestView, ErrorView> {
    match event {
        MediaTrackerEvent::PlaybackStart { .. }
        | MediaTrackerEvent::PlaybackProgress { .. }
        | MediaTrackerEvent::PlaybackStop { .. } => match scrobble_body_spec(target, percent) {
            Some(body) => Ok(
                request_of(ScrobbleEndpoint { action: event_action(event)->0, body }),
            ),
            None => Err(unfit("Trakt does not scrobble "@, target.kind)),
        },
        MediaTrackerEvent::MarkPlayed => match sync_titles(target) {
            Some(t) => Ok(list_request("sync/history"@, titles_json(t))),
            None => Err(unfit("Trakt cannot sync "@, target.kind)),
        },
        MediaTrackerEvent::MarkUnplayed => match sync_titles(target) {
            Some(t) => Ok(list_request("sync/history/remove"@, titles_json(t))),
            None => Err(unfit("Trakt cannot sync "@, target.kind)),
        },
        MediaTrackerEvent::MarkFavorite => match favorite_titles(target) {
            Some(t) => Ok(list_request("sync/favorites"@, titles_json(t))),
            None => Err(unfit("Trakt cannot favorite "@, target.kind)),
        },
        MediaTrackerEvent::UnmarkFavorite => match favorite_titles(target) {
            Some(t) => Ok(list_request("sync/favorites/remove"@, titles_json(t))),
            None => Err(unfit("Trakt cannot favorite "@, target.kind)),
        },
        MediaTrackerEvent::Rating { rating: None } => match rated_titles(target, 1) {
            Some(t) => Ok(list_request("sync/ratings/remove"@, rated_titles_json(t))),
            None => Err(unfit("Trakt cannot rate "@, target.kind)),
        },
        MediaTrackerEvent::Rating { rating: Some(rating) } => match rated_titles(
            target,
            rating.points(),
        ) {
            Some(t) => Ok(list_request("sync/ratings"@, rated_titles_json(t))),
            None => Err(unfit("Trakt cannot rate "@, target.kind)),
        },
    }
}

/// Whether `r` is what comes of an event: nothing for a title that nobody could match, and
/// otherwise a request of the user, or the refusal of the credentials, the title or the address.
/// `percent` turns the progress of a playback into a JSON number.
pub open spec fn is_event_call<F: Fn(PlaybackProgress) -> serde_json::Value>(
    r: MediaTrackerResult<Option<TraktCall>>,
    addon: TraktAddon,
    event: MediaTrackerEvent,
    target: MediaTrackerTarget,
    creds: JsonView,
    percent: F,
) -> bool {
    if !target.matchable() {
        r matches Ok(call) && call is None
    } else {
        match kept_tokens(creds) {
            None => r matches Err(e) && e@ == bad_credentials(creds),
            Some(t) => exists|p: serde_json::Value|
                {
                    &&& is_playback(event.kind_spec()) ==> call_ensures(
                        percent,
                        (event_progress(event, target),),
                        p,
                    )
                    &&& match #[trigger] event_request(event, target, p) {
                        Err(why) => r matches Err(e) && e@ == why,
                        Ok(req) => match r {
                            Ok(Some(call)) => is_call(Ok(call), addon, Some(t.access_token), req),
                            Ok(None) => false,
                            Err(e) => is_call(Err(e), addon, Some(t.access_token), req),
                        },
                    }
                },
        }
    }
}

fn sent(r: MediaTrackerResult<TraktCall>) -> (s: MediaTrackerResult<Option<TraktCall>>)
    ensures
        s == match r {
            Ok(call) => Ok::<Option<TraktCall>, MediaTrackerError>(Some(call)),
            Err(e) => Err(e),
        },
{
    match r {
        Ok(call) => Ok(Some(call)),
        Err(e) => Err(e),
    }
}

impl TraktAddon {
    /// The name of the addon.
    pub fn id(&self) -> (r: &'static str)
        ensures
            r@ == "trakt"@,
    {
        "trakt"
    }

    /// A client for requests of the user with this token, or of none.
    pub fn client(&self, access_token: Option<&str>) -> (r: MediaTrackerResult<
        RestClient<TraktAuth>,
    >)
        ensures
            match r {
                Ok(client) => is_client(
                    Ok(client),
                    self.client_id@,
                    match access_token {
                        Some(t) => Some(t@),
                        None => None,
                    },
                    self.base_url@,
                ),
                Err(e) => parsed_url(self.base_url@) matches Err(message) && e@
                    == ErrorView::permanent(message),
            },
    {
        match trakt_user_client(self.client_id.as_str(), access_token, self.base_url.as_str()) {
            Ok(client) => Ok(client),
            Err(e) => Err(MediaTrackerError::permanent(e.message)),
        }
    }

    /// The request that an endpoint stands for, of the user with this token or of none.
    pub fn execute<EP: Endpoint>(&self, access_token: Option<&str>, endpoint: &EP) -> (r:
        MediaTrackerResult<TraktCall>)
        ensures
            is_call(
                r,
                *self,
                match access_token {
                    Some(t) => Some(t@),
                    None => None,
                },
                request_of(*endpoint),
            ),
    {
        match self.client(access_token) {
            Ok(client) => Ok(TraktCall { client, request: request(endpoint) }),
            Err(e) => Err(e),
        }
    }

    fn execute_for<EP: Endpoint>(&self, creds: &MediaTrackerCredentials, endpoint: &EP) -> (r:
        MediaTrackerResult<TraktCall>)
        ensures
            is_user_call(r, *self, creds@, request_of(*endpoint)),
    {
        match StoredTokens::from_creds(creds) {
            Ok(stored) => self.execute(Some(stored.access_token.as_str()), endpoint),
            Err(e) => Err(e),
        }
    }

    /// How far a title has been played.
    pub fn progress(&self, position_ticks: i64, target: &MediaTrackerTarget, played: bool) -> (r:
        PlaybackProgress)
        ensures
            r == played_progress(position_ticks, *target, played),
            r.well_formed(),
    {
        if played {
            PlaybackProgress { position_ticks: 1, runtime_ticks: 1 }
        } else {
            playback_progress_percent(position_ticks, target.runtime_ticks)
        }
    }

    /// What the tracker can do. It reads the history of a user and does not write it, unless the
    /// user asks for that: a title that was marked as played because Trakt has it in the history
    /// would be added there once more.
    pub fn capabilities(&self) -> (r: MediaTrackerCapabilities)
        ensures
            r.auth_flow == AuthFlow::OAuthDeviceCode,
            r.connect_fields@.len() == 0,
            r.supported_events@ == all_kinds(),
            r.default_event_filter@ == playback_kinds(),
            r.history_import,
            r.progress_import,
            r.watch_state_sync == SyncDirection::Pull,
            r.favorites == SyncDirection::Push,
            r.ratings == SyncDirection::Both,
            r.watchlist == SyncDirection::Both,
    {
        MediaTrackerCapabilities {
            auth_flow: AuthFlow::OAuthDeviceCode,
            connect_fields: Vec::new(),
            supported_events: all_events(),
            default_event_filter: playback_events(),
            history_import: true,
            progress_import: true,
            watch_state_sync: SyncDirection::Pull,
            favorites: SyncDirection::Push,
            ratings: SyncDirection::Both,
            watchlist: SyncDirection::Both,
        }
    }

    /// Starts a device login: the request.
    pub fn begin_device_auth(&self) -> (r: MediaTrackerResult<TraktCall>)
        ensures
            is_call(
                r,
                *self,
                None,
                request_of(DeviceCodeEndpoint { client_id: self.client_id }),
            ),
    {
        self.execute(None, &DeviceCodeEndpoint { client_id: self.client_id.clone() })
    }

    /// Asks where a device login stands: the request.
    pub fn poll_device_auth(&self, poll_token: &str) -> (r: MediaTrackerResult<TraktCall>)
        ensures
            exists|code: String|
                code@ == poll_token@ && is_call(
                    r,
                    *self,
                    None,
                    #[trigger] request_of(
                        DeviceTokenEndpoint {
                            code,
                            client_id: self.client_id,
                            client_secret: self.client_secret,
                        },
                    ),
                ),
    {
        let endpoint = DeviceTokenEndpoint {
            code: poll_token.to_string(),
            client_id: self.client_id.clone(),
            client_secret: self.client_secret.clone(),
        };
        let r = self.execute(None, &endpoint);
        assert(is_call(r, *self, None, request_of(endpoint)));
        r
    }

    /// Renews the tokens of a user: the request. It carries no access token, which may have
    /// expired.
    pub fn refresh(&self, creds: &MediaTrackerCredentials) -> (r: MediaTrackerResult<TraktCall>)
        ensures
            match kept_tokens(creds@) {
                None => r matches Err(e) && e@ == bad_credentials(creds@),
                Some(t) => exists|refresh_token: String|
                    refresh_token@ == t.refresh_token && is_call(
                        r,
                        *self,
                        None,
                        #[trigger] request_of(
                            RefreshTokenEndpoint {
                                refresh_token,
                                client_id: self.client_id,
                                client_secret: self.client_secret,
                            },
                        ),
                    ),
            },
    {
        match StoredTokens::from_creds(creds) {
            Ok(stored) => {
                let endpoint = RefreshTokenEndpoint {
                    refresh_token: stored.refresh_token,
                    client_id: self.client_id.clone(),
                    client_secret: self.client_secret.clone(),
                };
                let r = self.execute(None, &endpoint);
                assert(is_call(r, *self, None, request_of(endpoint)));
                r
            },
            Err(e) => Err(e),
        }
    }

    /// Tests the tokens of a user: the request.
    pub fn verify(&self, creds: &MediaTrackerCredentials) -> (r: MediaTrackerResult<TraktCall>)
        ensures
            is_user_call(r, *self, creds@, request_of(UserSettingsEndpoint)),
    {
        self.execute_for(creds, &UserSettingsEndpoint)
    }

    /// Gives up the tokens of a user: the request.
    pub fn disconnect(&self, creds: &MediaTrackerCredentials) -> (r: MediaTrackerResult<TraktCall>)
        ensures
            match kept_tokens(creds@) {
                None => r matches Err(e) && e@ == bad_credentials(creds@),
                Some(t) => exists|token: String|
                    token@ == t.access_token && is_call(
                        r,
                        *self,
                        Some(t.access_token),
                        #[trigger] request_of(
                            RevokeEndpoint {
                                token,
                                client_id: self.client_id,
                                client_secret: self.client_secret,
                            },
                        ),
                    ),
            },
    {
        match StoredTokens::from_creds(creds) {
            Ok(stored) => {
                let endpoint = RevokeEndpoint {
                    token: stored.access_token.clone(),
                    client_id: self.client_id.clone(),
                    client_secret: self.client_secret.clone(),
                };
                let r = self.execute(Some(stored.access_token.as_str()), &endpoint);
                assert(is_call(r, *self, Some(stored.access_token@), request_of(endpoint)));
                r
            },
            Err(e) => Err(e),
        }
    }

    /// Tells Trakt of an event: the request, if there is one to send. `percent` turns the progress
    /// of a playback into a JSON number.
    pub fn on_event<F: Fn(PlaybackProgress) -> serde_json::Value>(
        &self,
        event: &MediaTrackerEvent,
        target: &MediaTrackerTarget,
        creds: &MediaTrackerCredentials,
        percent: F,
    ) -> (r: MediaTrackerResult<Option<TraktCall>>)
        requires
            forall|p: PlaybackProgress| p.well_formed() ==> #[trigger] call_requires(percent, (p,)),
        ensures
            is_event_call(r, *self, *event, *target, creds@, percent),
    {
        if !target.is_matchable() {
            return Ok(None);
        }
        let stored = match StoredTokens::from_creds(creds) {
            Ok(stored) => stored,
            Err(e) => {
                return Err(e);
            },
        };
        let token = Some(stored.access_token.as_str());
        proof {
            let p = arbitrary::<serde_json::Value>();
            let _ = event_request(*event, *target, p);
        }
        match *event {
            MediaTrackerEvent::PlaybackStart { position_ticks } => {
                let p = percent(self.progress(position_ticks, target, false));
                self.scrobble(ScrobbleAction::Start, event, target, token, p)
            },
            MediaTrackerEvent::PlaybackProgress { position_ticks, is_paused } => {
                let p = percent(self.progress(position_ticks, target, false));
                let action = if is_paused {
                    ScrobbleAction::Pause
                } else {
                    ScrobbleAction::Start
                };
                self.scrobble(action, event, target, token, p)
            },
            MediaTrackerEvent::PlaybackStop { position_ticks, played } => {
                let p = percent(self.progress(position_ticks, target, played));
                self.scrobble(ScrobbleAction::Stop, event, target, token, p)
            },
            MediaTrackerEvent::MarkPlayed => {
                match sync_items(target) {
                    Ok(items) => sent(
                        self.execute(token, &SyncHistoryEndpoint { remove: false, items }),
                    ),
                    Err(e) => Err(e),
                }
            },
            MediaTrackerEvent::MarkUnplayed => {
                match sync_items(target) {
                    Ok(items) => sent(
                        self.execute(token, &SyncHistoryEndpoint { remove: true, items }),
                    ),
                    Err(e) => Err(e),
                }
            },
            MediaTrackerEvent::MarkFavorite => {
                match favorite_items(target) {
                    Ok(items) => sent(
                        self.execute(token, &SyncFavoritesEndpoint { remove: false, items }),
                    ),
                    Err(e) => Err(e),
                }
            },
            MediaTrackerEvent::UnmarkFavorite => {
                match favorite_items(target) {
                    Ok(items) => sent(
                        self.execute(token, &SyncFavoritesEndpoint { remove: true, items }),
                    ),
                    Err(e) => Err(e),
                }
            },
            MediaTrackerEvent::Rating { rating: None } => {
                match ratings_items(target, 1) {
                    Ok(items) => sent(
                        self.execute(token, &SyncRatingsEndpoint { remove: true, items }),
                    ),
                    Err(e) => Err(e),
                }
            },
            MediaTrackerEvent::Rating { rating: Some(rating) } => {
                match ratings_items(target, rating.to_points()) {
                    Ok(items) => sent(
                        self.execute(token, &SyncRatingsEndpoint { remove: false, items }),
                    ),
                    Err(e) => Err(e),
                }
            },
        }
    }

    fn scrobble(
        &self,
        action: ScrobbleAction,
        event: &MediaTrackerEvent,
        target: &MediaTrackerTarget,
        token: Option<&str>,
        percent: serde_json::Value,
    ) -> (r: MediaTrackerResult<Option<TraktCall>>)
        requires
            event_action(*event) == Some(action),
        ensures
            match event_request(*event, *target, percent) {
                Err(why) => r matches Err(e) && e@ == why,
                Ok(req) => {
                    let t = match token {
                        Some(t) => Some(t@),
                        None => None,
                    };
                    match r {
                        Ok(Some(call)) => is_call(Ok(call), *self, t, req),
                        Ok(None) => false,
                        Err(e) => is_call(Err(e), *self, t, req),
                    }
                },
            },
    {
        match scrobble_body(target, percent) {
            Ok(body) => sent(self.execute(token, &ScrobbleEndpoint { action, body })),
            Err(e) => Err(e),
        }
    }

    /// Asks when the user last did something: the request.
    pub fn remote_activity_at(&self, creds: &MediaTrackerCredentials) -> (r: MediaTrackerResult<
        TraktCall,
    >)
        ensures
            is_user_call(r, *self, creds@, request_of(LastActivitiesEndpoint)),
    {
        self.execute_for(creds, &LastActivitiesEndpoint)
    }

    /// Asks for the watchlist: the request.
    pub fn pull_watchlist(&self, creds: &MediaTrackerCredentials) -> (r: MediaTrackerResult<
        TraktCall,
    >)
        ensures
            is_user_call(
                r,
                *self,
                creds@,
                request_of(WatchlistEndpoint { page: 1, limit: 100 }),
            ),
    {
        self.execute_for(creds, &WatchlistEndpoint { page: 1, limit: 100 })
    }

    /// Puts a title on the watchlist, or takes it off: the request.
    pub fn push_watchlist(
        &self,
        target: &MediaTrackerTarget,
        add: bool,
        creds: &MediaTrackerCredentials,
    ) -> (r: MediaTrackerResult<TraktCall>)
        ensures
            match (kept_tokens(creds@), sync_titles(*target)) {
                (None, _) => r matches Err(e) && e@ == bad_credentials(creds@),
                (Some(_), None) => r matches Err(e) && e@ == unfit(
                    "Trakt cannot sync "@,
                    target.kind,
                ),
                (Some(t), Some(titles)) => is_call(
                    r,
                    *self,
                    Some(t.access_token),
                    list_request(
                        if add {
                            "sync/watchlist"@
                        } else {
                            "sync/watchlist/remove"@
                        },
                        titles_json(titles),
                    ),
                ),
            },
    {
        let stored = match StoredTokens::from_creds(creds) {
            Ok(stored) => stored,
            Err(e) => {
                return Err(e);
            },
        };
        match sync_items(target) {
            Ok(items) => self.execute(
                Some(stored.access_token.as_str()),
                &SyncWatchlistEndpoint { remove: !add, items },
            ),
            Err(e) => Err(e),
        }
    }
}

/// The number, or 1 if it is 0.
pub open spec fn at_least_one(n: u64) -> u64 {
    if n == 0 {
        1
    } else {
        n
    }
}

/// Starts a device login: what the answer means.
pub fn device_auth_begun(reply: Result<DeviceCodeResponse, ClientError>) -> (r: MediaTrackerResult<
    DeviceAuthStart,
>)
    ensures
        match reply {
            Ok(code) => r == Ok::<DeviceAuthStart, MediaTrackerError>(
                DeviceAuthStart {
                    verification_url: code.verification_url,
                    user_code: code.user_code,
                    poll_token: code.device_code,
                    interval_secs: at_least_one(code.interval),
                    expires_in_secs: at_least_one(code.expires_in),
                },
            ),
            Err(err) => r matches Err(e) && e@ == mapped_error(err),
        },
{
    match reply {
        Ok(code) => {
            let interval: u64 = if code.interval == 0 {
                1
            } else {
                code.interval
            };
            let expires_in: u64 = if code.expires_in == 0 {
                1
            } else {
                code.expires_in
            };
            Ok(
                DeviceAuthStart {
                    verification_url: code.verification_url,
                    user_code: code.user_code,
                    poll_token: code.device_code,
                    interval_secs: interval,
                    expires_in_secs: expires_in,
                },
            )
        },
        Err(err) => Err(map_error(err)),
    }
}

pub open spec fn token_view(token: TokenResponse) -> TokensView {
    TokensView {
        access_token: token.access_token@,
        refresh_token: token.refresh_token@,
        token_type: token.token_type@,
        created_at: token.created_at,
        expires_in: token.expires_in,
    }
}

/// Whether `r` says where a device login stands that was answered with an error. `status` is what
/// the error says of the login, if anything: where it says nothing, an answer with status 400 is
/// no reason to give up.
pub open spec fn polled(
    r: MediaTrackerResult<DeviceAuthPoll>,
    err: ClientError,
    status: Option<DeviceTokenStatus>,
) -> bool {
    match status {
        Some(DeviceTokenStatus::Pending) | Some(DeviceTokenStatus::SlowDown) => r == Ok::<
            DeviceAuthPoll,
            MediaTrackerError,
        >(DeviceAuthPoll::Pending),
        Some(DeviceTokenStatus::Denied) | Some(DeviceTokenStatus::Expired) => r == Ok::<
            DeviceAuthPoll,
            MediaTrackerError,
        >(DeviceAuthPoll::Denied),
        Some(DeviceTokenStatus::Approved(_)) => false,
        None => if err matches ClientError::Http { status, .. } && status == 400 {
            r == Ok::<DeviceAuthPoll, MediaTrackerError>(DeviceAuthPoll::Pending)
        } else {
            r matches Err(e) && e@ == mapped_error(err)
        },
    }
}

/// Asks where a device login stands: what the answer means. `parse` reads the text of an error as a
/// JSON body.
pub fn device_auth_polled<F: Fn(&str) -> Option<TokenErrorBody>>(
    reply: Result<TokenResponse, ClientError>,
    parse: F,
) -> (r: MediaTrackerResult<DeviceAuthPoll>)
    requires
        forall|s: &str| #[trigger] call_requires(parse, (s,)),
    ensures
        match reply {
            Ok(token) => r matches Ok(DeviceAuthPoll::Approved(creds)) && creds@ == tokens_json(
                token_view(token),
            ),
            Err(err) => exists|status: Option<DeviceTokenStatus>| #[trigger]
                tells(err, parse, status) && polled(r, err, status),
        },
{
    match reply {
        Ok(token) => match StoredTokens::from(token).into_creds() {
            Ok(creds) => Ok(DeviceAuthPoll::Approved(creds)),
            Err(e) => Err(e),
        },
        Err(err) => {
            let status = device_token_status_from_error(&err, parse);
            match status {
                Some(DeviceTokenStatus::Pending) | Some(DeviceTokenStatus::SlowDown) => Ok(
                    DeviceAuthPoll::Pending,
                ),
                Some(DeviceTokenStatus::Denied) | Some(DeviceTokenStatus::Expired) => Ok(
                    DeviceAuthPoll::Denied,
                ),
                _ => {
                    let bad_request = match &err {
                        ClientError::Http { status, .. } => *status == 400,
                        _ => false,
                    };
                    if bad_request {
                        Ok(DeviceAuthPoll::Pending)
                    } else {
                        Err(map_error(err))
                    }
                },
            }
        },
    }
}

/// Renews the tokens of a user: what the answer means.
pub fn refreshed(reply: Result<TokenResponse, ClientError>) -> (r: MediaTrackerResult<
    MediaTrackerCredentials,
>)
    ensures
        match reply {
            Ok(token) => r matches Ok(creds) && creds@ == tokens_json(token_view(token)),
            Err(err) => r matches Err(e) && e@ == mapped_error(err),
        },
{
    match reply {
        Ok(token) => StoredTokens::from(token).into_creds(),
        Err(err) => Err(map_error(err)),
    }
}

/// Tests the tokens of a user: what the answer means.
pub fn verified(reply: Result<(), ClientError>) -> (r: MediaTrackerResult<()>)
    ensures
        match reply {
            Ok(_) => r is Ok,
            Err(err) => r matches Err(e) && e@ == mapped_error(err),
        },
{
    match reply {
        Ok(_) => Ok(()),
        Err(err) => Err(map_error(err)),
    }
}

/// Gives up the tokens of a user: what the answer means. Tokens that Trakt rejects are given up
/// already.
pub fn disconnected(reply: Result<(), ClientError>) -> (r: MediaTrackerResult<()>)
    ensures
        match reply {
            Ok(_) => r is Ok,
            Err(err) => if mapped_error(err).needs_reauth() {
                r is Ok
            } else {
                r matches Err(e) && e@ == mapped_error(err)
            },
        },
{
    match reply {
        Ok(_) => Ok(()),
        Err(err) => {
            let e = map_error(err);
            if e.requires_reauth() {
                Ok(())
            } else {
                Err(e)
            }
        },
    }
}

/// Tells Trakt of an event, or changes the watchlist: what the answer means.
pub fn delivered(reply: Result<(), ClientError>) -> (r: MediaTrackerResult<()>)
    ensures
        match r {
            Ok(_) => settled(reply) is Ok,
            Err(e) => settled(reply) == Err::<(), ErrorView>(e@),
        },
{
    settle(reply)
}

/// The text, if there is one.
pub open spec fn optional_view(s: Option<String>) -> Option<Seq<char>> {
    match s {
        Some(s) => Some(s@),
        None => None,
    }
}

/// The text, if there is one.
pub fn optional_str(s: &Option<String>) -> (r: Option<&str>)
    ensures
        match r {
            Some(t) => optional_view(*s) == Some(t@),
            None => optional_view(*s) is None,
        },
{
    match s {
        Some(s) => Some(s.as_str()),
        None => None,
    }
}

/// Asks when the user last did something: what the answer means.
pub fn remote_activity(reply: Result<LastActivities, ClientError>) -> (r: MediaTrackerResult<
    Option<Timestamp>,
>)
    ensures
        match reply {
            Ok(acts) => r == Ok::<Option<Timestamp>, MediaTrackerError>(
                watched_at_spec(optional_view(acts.all)),
            ),
            Err(err) => r matches Err(e) && e@ == mapped_error(err),
        },
{
    match reply {
        Ok(acts) => Ok(parse_watched_at(optional_str(&acts.all))),
        Err(err) => Err(map_error(err)),
    }
}

/// The ids of the titles on a watchlist, in its order. An entry names a movie or a show, and one
/// that names neither is passed over.
pub open spec fn watchlist_ids(entries: Seq<WatchlistEntry>) -> Seq<ExternalIds>
    decreases entries.len(),
{
    if entries.len() == 0 {
        Seq::empty()
    } else {
        let ids = watchlist_ids(entries.drop_last());
        match (entries.last().movie, entries.last().show) {
            (Some(m), _) => ids.push(external_ids(m.ids)),
            (None, Some(s)) => ids.push(external_ids(s.ids)),
            (None, None) => ids,
        }
    }
}

/// Asks for the watchlist: what the answer means.
pub fn watchlist_pulled(reply: Result<Vec<WatchlistEntry>, ClientError>) -> (r: MediaTrackerResult<
    Vec<ExternalIds>,
>)
    ensures
        match reply {
            Ok(entries) => r matches Ok(ids) && ids@ == watchlist_ids(entries@),
            Err(err) => r matches Err(e) && e@ == mapped_error(err),
        },
{
    match reply {
        Ok(entries) => {
            let mut out: Vec<ExternalIds> = Vec::new();
            for i in 0..entries.len()
                invariant
                    out@ == watchlist_ids(entries@.take(i as int)),
            {
                assert(entries@.take(i + 1).drop_last() =~= entries@.take(i as int));
                match &entries[i].movie {
                    Some(m) => {
                        out.push(ids_to_external(&m.ids));
                    },
                    None => match &entries[i].show {
                        Some(s) => {
                            out.push(ids_to_external(&s.ids));
                        },
                        None => {},
                    },
                }
            }
            assert(entries@.take(entries@.len() as int) =~= entries@);
            Ok(out)
        },
        Err(err) => Err(map_error(err)),
    }
}

/// A user who leaves it at the events that a tracker is told of by default has their playbacks
/// reported, and nothing else: Trakt is never asked to change their history, their favourites or
/// their ratings.
pub proof fn lemma_default_reports_playbacks_only(
    event: MediaTrackerEvent,
    target: MediaTrackerTarget,
    percent: serde_json::Value,
)
    requires
        playback_kinds().contains(event.kind_spec()),
    ensures
        is_playback(event.kind_spec()),
        event_request(event, target, percent) matches Ok(req) ==> event_action(event) is Some
            && req.path == event_action(event)->0.path_spec(),
{
    let i = choose|i: int| 0 <= i < 3 && playback_kinds()[i] == event.kind_spec();
    assert(playback_kinds()[i] == event.kind_spec());
}

/// What marks a title and what takes the mark back name the same titles, and go through or fail
/// together.
pub proof fn lemma_marks_are_undone(target: MediaTrackerTarget, percent: serde_json::Value)
    ensures
        match event_request(MediaTrackerEvent::MarkPlayed, target, percent) {
            Ok(req) => event_request(MediaTrackerEvent::MarkUnplayed, target, percent) == Ok::<
                RequestView,
                ErrorView,
            >(RequestView { path: "sync/history/remove"@, ..req }),
            Err(e) => event_request(MediaTrackerEvent::MarkUnplayed, target, percent) == Err::<
                RequestView,
                ErrorView,
            >(e),
        },
        match event_request(MediaTrackerEvent::MarkFavorite, target, percent) {
            Ok(req) => event_request(MediaTrackerEvent::UnmarkFavorite, target, percent) == Ok::<
                RequestView,
                ErrorView,
            >(RequestView { path: "sync/favorites/remove"@, ..req }),
            Err(e) => event_request(MediaTrackerEvent::UnmarkFavorite, target, percent) == Err::<
                RequestView,
                ErrorView,
            >(e),
        },
{
}

/// A request is sent to the address of the service, in the name of the application and of the user
/// with this token or of none, up to three times again. The only thing that can stand against it is
/// that the address is none, and then it is refused for good.
pub proof fn lemma_sent_in_whose_name(
    r: MediaTrackerResult<TraktCall>,
    addon: TraktAddon,
    token: Option<Seq<char>>,
    req: RequestView,
)
    requires
        is_call(r, addon, token, req),
    ensures
        r is Ok <==> parsed_url(addon.base_url@) is Ok,
        r matches Ok(call) ==> {
            &&& call.request@ == req
            &&& call.client.auth.client_id@ == addon.client_id@
            &&& token matches Some(t) ==> (call.client.auth.access_token matches Some(s) && s@ == t)
            &&& token is None ==> call.client.auth.access_token is None
            &&& parsed_url(addon.base_url@) == Ok::<Seq<char>, Seq<char>>(call.client.base_url@)
            &&& call.client.max_retries == 3
        },
        r matches Err(e) ==> e@ is Permanent && !e@.needs_reauth() && parsed_url(addon.base_url@)
            == Err::<Seq<char>, Seq<char>>(e@.message()),
{
}

/// A request of a user is sent with their access token, and without tokens not at all: then they
/// have to log in again.
pub proof fn lemma_sent_with_the_token(
    r: MediaTrackerResult<TraktCall>,
    addon: TraktAddon,
    creds: JsonView,
    req: RequestView,
)
    requires
        is_user_call(r, addon, creds, req),
    ensures
        r matches Ok(call) ==> call.request@ == req && (kept_tokens(creds) matches Some(t)
            && call.client.auth.access_token matches Some(s) && s@ == t.access_token),
        kept_tokens(creds) is None ==> (r matches Err(e) && e@.needs_reauth()),
        kept_tokens(creds) is Some && parsed_url(addon.base_url@) is Ok ==> r is Ok,
{
}

/// Each event goes to an operation of its own: a playback is reported as started, paused or stopped,
/// where one that goes on counts as started, and what is marked and what is unmarked go to the list
/// that it is about. Trakt takes reports of movies and episodes, and the rest also of series.
pub proof fn lemma_event_goes_where(
    event: MediaTrackerEvent,
    target: MediaTrackerTarget,
    percent: serde_json::Value,
)
    ensures
        match event_request(event, target, percent) {
            Ok(req) => {
                &&& req.method == Method::Post
                &&& req.query.len() == 0
                &&& req.body is Some
                &&& target.kind is Movie || target.kind is Episode || (target.kind is Series && !(
                event is PlaybackStart || event is PlaybackProgress || event is PlaybackStop))
                &&& event is PlaybackStart ==> req.path == "scrobble/start"@
                &&& event matches MediaTrackerEvent::PlaybackProgress { is_paused, .. } ==> {
                    &&& is_paused ==> req.path == "scrobble/pause"@
                    &&& !is_paused ==> req.path == "scrobble/start"@
                }
                &&& event is PlaybackStop ==> req.path == "scrobble/stop"@
                &&& event is MarkPlayed ==> req.path == "sync/history"@
                &&& event is MarkUnplayed ==> req.path == "sync/history/remove"@
                &&& event is MarkFavorite ==> req.path == "sync/favorites"@
                &&& event is UnmarkFavorite ==> req.path == "sync/favorites/remove"@
                &&& event matches MediaTrackerEvent::Rating { rating } ==> {
                    &&& rating is Some ==> req.path == "sync/ratings"@
                    &&& rating is None ==> req.path == "sync/ratings/remove"@
                }
            },
            Err(e) => {
                &&& e is Permanent && !e.needs_reauth()
                &&& target.kind is Season || target.kind is Collection || (target.kind is Series
                    && (event is PlaybackStart || event is PlaybackProgress || event
                    is PlaybackStop))
            },
        },
{
}

/// Whether these ids are sent, each under the name of its service, and no others.
pub open spec fn carries_ids(sent: Option<JsonView>, ids: ExternalIds) -> bool {
    &&& sent matches Some(JsonView::Object(_))
    &&& match (member(sent->0, "imdb"@), ids.imdb) {
        (Some(JsonView::Text(s)), Some(t)) => s == t.value@,
        (None, None) => true,
        _ => false,
    }
    &&& match (member(sent->0, "tmdb"@), ids.tmdb) {
        (Some(JsonView::Int(s)), Some(n)) => s == n,
        (None, None) => true,
        _ => false,
    }
    &&& match (member(sent->0, "tvdb"@), ids.tvdb) {
        (Some(JsonView::Int(s)), Some(n)) => s == n,
        (None, None) => true,
        _ => false,
    }
    &&& member(sent->0, "trakt"@) is None && member(sent->0, "slug"@) is None
}

/// Whether the title is sent with its name, its year where it is known, and its ids.
pub open spec fn carries_title(sent: JsonView, title: MediaTrackerTarget) -> bool {
    &&& member(sent, "title"@) == Some(JsonView::Text(title.title@))
    &&& match (member(sent, "year"@), title.year) {
        (Some(JsonView::Int(y)), Some(n)) => y == n,
        (None, None) => true,
        _ => false,
    }
    &&& carries_ids(member(sent, "ids"@), title.ids)
}

/// Whether the show is sent that the title belongs to: the series that it carries, and where it
/// carries none the title itself.
pub open spec fn carries_show(sent: JsonView, title: MediaTrackerTarget) -> bool {
    &&& title.series matches Some(series) ==> carries_title(sent, *series)
    &&& title.series is None ==> carries_title(sent, title)
}

/// Whether the title is sent with its season, its number and its ids.
pub open spec fn carries_episode(sent: JsonView, title: MediaTrackerTarget) -> bool {
    &&& match (member(sent, "season"@), title.season) {
        (Some(JsonView::Int(s)), Some(n)) => s == n,
        (None, None) => true,
        _ => false,
    }
    &&& match (member(sent, "number"@), title.episode) {
        (Some(JsonView::Int(s)), Some(n)) => s == n,
        (None, None) => true,
        _ => false,
    }
    &&& carries_ids(member(sent, "ids"@), title.ids)
}

proof fn lemma_carried(target: MediaTrackerTarget, rating: u8)
    ensures
        carries_title(movie_json(movie_of_spec(target)), target),
        carries_show(show_json(show_of_spec(target)), target),
        carries_episode(episode_json(episode_of_spec(target)), target),
        ({
            let m = rated_movie_json(RatedMovie { rating, movie: movie_of_spec(target) });
            let s = rated_show_json(RatedShow { rating, show: show_of_spec(target) });
            let e = rated_episode_json(RatedEpisode { rating, episode: episode_of_spec(target) });
            &&& carries_title(m, target)
            &&& carries_show(s, target)
            &&& carries_episode(e, target)
            &&& member(m, "rating"@) == Some(JsonView::Int(rating as int))
            &&& member(s, "rating"@) == Some(JsonView::Int(rating as int))
            &&& member(e, "rating"@) == Some(JsonView::Int(rating as int))
        }),
{
    lemma_sent_as_known(
        movie_of_spec(target),
        show_of_spec(target),
        episode_of_spec(target),
        rating,
    );
    lemma_named_as_it_is(target);
}

/// Whether just one item is sent in the list of that name.
pub open spec fn is_only_item(body: JsonView, name: Seq<char>, x: JsonView) -> bool {
    member(body, name) matches Some(JsonView::List(s)) && s.len() == 1 && s[0] == x
}

/// Whether a title is sent as what it is: a movie as one movie, a series as one show, an episode as
/// one episode together with its show, and as nothing else.
pub open spec fn carries_as_it_is(body: JsonView, target: MediaTrackerTarget) -> bool {
    &&& target.kind is Movie ==> {
        &&& exists|x: JsonView| #[trigger] is_only_item(body, "movies"@, x) && carries_title(x, target)
        &&& member(body, "shows"@) is None && member(body, "episodes"@) is None
    }
    &&& target.kind is Series ==> {
        &&& exists|x: JsonView| #[trigger] is_only_item(body, "shows"@, x) && carries_show(x, target)
        &&& member(body, "movies"@) is None && member(body, "episodes"@) is None
    }
    &&& target.kind is Episode ==> {
        &&& exists|x: JsonView| #[trigger] is_only_item(body, "shows"@, x) && carries_show(x, target)
        &&& exists|x: JsonView| #[trigger]
            is_only_item(body, "episodes"@, x) && carries_episode(x, target)
        &&& member(body, "movies"@) is None
    }
}

proof fn lemma_titles_carried(target: MediaTrackerTarget, titles: Titles)
    requires
        sync_titles(target) == Some(titles),
    ensures
        carries_as_it_is(titles_json(titles), target),
{
    lemma_carried(target, 0);
    let movies = titles.movies.map_values(|m: TraktMovie| movie_json(m));
    let shows = titles.shows.map_values(|s: TraktShow| show_json(s));
    let episodes = titles.episodes.map_values(|e: TraktEpisode| episode_json(e));
    lemma_lists_sent_apart(movies, shows, episodes);
    let body = titles_json(titles);
    if target.kind is Movie {
        assert(is_only_item(body, "movies"@, movie_json(movie_of_spec(target))));
    }
    if target.kind is Series || target.kind is Episode {
        assert(is_only_item(body, "shows"@, show_json(show_of_spec(target))));
    }
    if target.kind is Episode {
        assert(is_only_item(body, "episodes"@, episode_json(episode_of_spec(target))));
    }
}

/// What marks a title as played or unplayed names the title as what it is, by its name and its ids:
/// Trakt marks this title and no other.
pub proof fn lemma_marks_name_the_title(target: MediaTrackerTarget, percent: serde_json::Value)
    ensures
        event_request(MediaTrackerEvent::MarkPlayed, target, percent) matches Ok(req)
            ==> carries_as_it_is(req.body->0, target),
        event_request(MediaTrackerEvent::MarkUnplayed, target, percent) matches Ok(req)
            ==> carries_as_it_is(req.body->0, target),
{
    if let Some(titles) = sync_titles(target) {
        lemma_titles_carried(target, titles);
    }
}

/// What makes a title a favorite, or takes that back, names a movie as what it is, and of anything
/// else the show that it belongs to.
pub proof fn lemma_favorites_name_the_title(target: MediaTrackerTarget, percent: serde_json::Value)
    ensures
        event_request(MediaTrackerEvent::MarkFavorite, target, percent) matches Ok(req) ==> {
            let body = req.body->0;
            &&& member(body, "episodes"@) is None
            &&& target.kind is Movie ==> member(body, "shows"@) is None && exists|x: JsonView|
                #[trigger]
                is_only_item(body, "movies"@, x) && carries_title(x, target)
            &&& !(target.kind is Movie) ==> member(body, "movies"@) is None && exists|x: JsonView|
                #[trigger]
                is_only_item(body, "shows"@, x) && carries_show(x, target)
        },
        event_request(MediaTrackerEvent::MarkFavorite, target, percent) matches Ok(req) ==> (
        event_request(MediaTrackerEvent::UnmarkFavorite, target, percent) matches Ok(undone)
            && undone.body == req.body),
{
    if let Some(titles) = favorite_titles(target) {
        lemma_carried(target, 0);
        let movies = titles.movies.map_values(|m: TraktMovie| movie_json(m));
        let shows = titles.shows.map_values(|s: TraktShow| show_json(s));
        let episodes = titles.episodes.map_values(|e: TraktEpisode| episode_json(e));
        lemma_lists_sent_apart(movies, shows, episodes);
        let body = titles_json(titles);
        if target.kind is Movie {
            assert(is_only_item(body, "movies"@, movie_json(movie_of_spec(target))));
        } else {
            assert(is_only_item(body, "shows"@, show_json(show_of_spec(target))));
        }
    }
}

/// A rating is sent with the title as what it is, alone, and as the nearest of the points that Trakt
/// takes.
pub proof fn lemma_rating_names_the_title(
    target: MediaTrackerTarget,
    rating: Double,
    percent: serde_json::Value,
)
    ensures
        event_request(MediaTrackerEvent::Rating { rating: Some(rating) }, target, percent)
            matches Ok(req) ==> {
            let body = req.body->0;
            let points = Some(JsonView::Int(rating.points() as int));
            &&& target.kind is Movie ==> member(body, "shows"@) is None && member(
                body,
                "episodes"@,
            ) is None && exists|x: JsonView| #[trigger]
                is_only_item(body, "movies"@, x) && carries_title(x, target) && member(
                    x,
                    "rating"@,
                ) == points
            &&& target.kind is Series ==> member(body, "movies"@) is None && member(
                body,
                "episodes"@,
            ) is None && exists|x: JsonView| #[trigger]
                is_only_item(body, "shows"@, x) && carries_show(x, target) && member(
                    x,
                    "rating"@,
                ) == points
            &&& target.kind is Episode ==> member(body, "movies"@) is None && member(
                body,
                "shows"@,
            ) is None && exists|x: JsonView| #[trigger]
                is_only_item(body, "episodes"@, x) && carries_episode(x, target) && member(
                    x,
                    "rating"@,
                ) == points
        },
{
    lemma_rated_carried(target, rating.points());
}

proof fn lemma_rated_carried(target: MediaTrackerTarget, rating: u8)
    ensures
        rated_titles(target, rating) matches Some(t) ==> {
            let body = rated_titles_json(t);
            let points = Some(JsonView::Int(rating as int));
            &&& target.kind is Movie ==> member(body, "shows"@) is None && member(
                body,
                "episodes"@,
            ) is None && exists|x: JsonView| #[trigger]
                is_only_item(body, "movies"@, x) && carries_title(x, target) && member(
                    x,
                    "rating"@,
                ) == points
            &&& target.kind is Series ==> member(body, "movies"@) is None && member(
                body,
                "episodes"@,
            ) is None && exists|x: JsonView| #[trigger]
                is_only_item(body, "shows"@, x) && carries_show(x, target) && member(
                    x,
                    "rating"@,
                ) == points
            &&& target.kind is Episode ==> member(body, "movies"@) is None && member(
                body,
                "shows"@,
            ) is None && exists|x: JsonView| #[trigger]
                is_only_item(body, "episodes"@, x) && carries_episode(x, target) && member(
                    x,
                    "rating"@,
                ) == points
        },
{
    if let Some(t) = rated_titles(target, rating) {
        lemma_carried(target, rating);
        let movies = t.movies.map_values(|r: RatedMovie| rated_movie_json(r));
        let shows = t.shows.map_values(|r: RatedShow| rated_show_json(r));
        let episodes = t.episodes.map_values(|r: RatedEpisode| rated_episode_json(r));
        lemma_lists_sent_apart(movies, shows, episodes);
        let body = rated_titles_json(t);
        if target.kind is Movie {
            let x = rated_movie_json(RatedMovie { rating, movie: movie_of_spec(target) });
            assert(is_only_item(body, "movies"@, x));
        }
        if target.kind is Series {
            let x = rated_show_json(RatedShow { rating, show: show_of_spec(target) });
            assert(is_only_item(body, "shows"@, x));
        }
        if target.kind is Episode {
            let x = rated_episode_json(RatedEpisode { rating, episode: episode_of_spec(target) });
            assert(is_only_item(body, "episodes"@, x));
        }
    }
}

/// To take a rating back, the title is named as what it is. The rating that goes with it is one that
/// Trakt takes.
pub proof fn lemma_unrating_names_the_title(target: MediaTrackerTarget, percent: serde_json::Value)
    ensures
        event_request(MediaTrackerEvent::Rating { rating: None }, target, percent) matches Ok(req)
            ==> {
            let body = req.body->0;
            &&& target.kind is Movie ==> exists|x: JsonView| #[trigger]
                is_only_item(body, "movies"@, x) && carries_title(x, target)
            &&& target.kind is Series ==> exists|x: JsonView| #[trigger]
                is_only_item(body, "shows"@, x) && carries_show(x, target)
            &&& target.kind is Episode ==> exists|x: JsonView| #[trigger]
                is_only_item(body, "episodes"@, x) && carries_episode(x, target)
        },
{
    lemma_rated_carried(target, 1);
}

/// A report of a playback names the movie, or the episode together with its show, and says how far
/// it has got.
pub proof fn lemma_report_names_the_title(
    event: MediaTrackerEvent,
    target: MediaTrackerTarget,
    percent: serde_json::Value,
)
    requires
        event is PlaybackStart || event is PlaybackProgress || event is PlaybackStop,
    ensures
        event_request(event, target, percent) matches Ok(req) ==> {
            let body = req.body->0;
            &&& member(body, "progress"@) == Some(json(percent))
            &&& target.kind is Movie ==> (member(body, "movie"@) matches Some(x) && carries_title(
                x,
                target,
            )) && member(body, "show"@) is None && member(body, "episode"@) is None
            &&& target.kind is Episode ==> (member(body, "show"@) matches Some(x) && carries_show(
                x,
                target,
            )) && (member(body, "episode"@) matches Some(y) && carries_episode(y, target))
                && member(body, "movie"@) is None
        },
{
    if let Some(body) = scrobble_body_spec(target, percent) {
        lemma_report_sent_as_known(body);
        lemma_named_as_it_is(target);
    }
}

/// How far a playback has got is the part of the running time up to its position, and all of it
/// where the title counts as played when the playback stops. Whether a playback is paused makes no
/// difference, nor does it where it is reported as started, going on or stopped.
pub proof fn lemma_progress_as_told(
    position: i64,
    paused: bool,
    target: MediaTrackerTarget,
)
    ensures
        ({
            let started = event_progress(
                MediaTrackerEvent::PlaybackStart { position_ticks: position },
                target,
            );
            let going_on = event_progress(
                MediaTrackerEvent::PlaybackProgress { position_ticks: position, is_paused: paused },
                target,
            );
            let stopped = event_progress(
                MediaTrackerEvent::PlaybackStop { position_ticks: position, played: false },
                target,
            );
            let played = event_progress(
                MediaTrackerEvent::PlaybackStop { position_ticks: position, played: true },
                target,
            );
            &&& started == going_on && started == stopped
            &&& played.position_ticks == played.runtime_ticks && played.runtime_ticks > 0
            &&& started.well_formed()
            &&& match target.runtime_ticks {
                Some(r) => r > 0 && 0 <= position <= r ==> started.position_ticks * r == position
                    * started.runtime_ticks,
                None => started.position_ticks == 0,
            }
            &&& target.runtime_ticks matches Some(r) ==> r > 0 && position > r
                ==> started.position_ticks == started.runtime_ticks
            &&& target.runtime_ticks matches Some(r) ==> r <= 0 || position <= 0
                ==> started.position_ticks == 0
        }),
{
    lemma_progress_is_the_part_played(position, target.runtime_ticks);
}

/// Trakt is told of an event if the title can be matched and the user has tokens. It is told with
/// their token, and of this event: what is sent is the request for it. A title that cannot be
/// matched is passed over, and without tokens the user has to log in again.
pub proof fn lemma_told_of_the_event<F: Fn(PlaybackProgress) -> serde_json::Value>(
    r: MediaTrackerResult<Option<TraktCall>>,
    addon: TraktAddon,
    event: MediaTrackerEvent,
    target: MediaTrackerTarget,
    creds: JsonView,
    percent: F,
)
    requires
        is_event_call(r, addon, event, target, creds, percent),
    ensures
        !target.matchable() ==> r == Ok::<Option<TraktCall>, MediaTrackerError>(None),
        target.matchable() ==> !(r matches Ok(None)),
        target.matchable() && kept_tokens(creds) is None ==> (r matches Err(e)
            && e@.needs_reauth()),
        r matches Err(e) ==> {
            ||| kept_tokens(creds) is None && e@ == bad_credentials(creds)
            ||| exists|p: serde_json::Value| #[trigger]
                event_request(event, target, p) == Err::<RequestView, ErrorView>(e@)
            ||| parsed_url(addon.base_url@) == Err::<Seq<char>, Seq<char>>(e@.message()) && e@
                is Permanent && !e@.needs_reauth()
        },
        r matches Ok(Some(call)) ==> {
            &&& kept_tokens(creds) matches Some(t) && (
            call.client.auth.access_token matches Some(s) && s@ == t.access_token)
            &&& exists|p: serde_json::Value|
                (event_request(event, target, p) matches Ok(req) && call.request@ == req) && (
                event is PlaybackStart || event is PlaybackProgress || event is PlaybackStop
                    ==> #[trigger] call_ensures(percent, (event_progress(event, target),), p))
        },
{
    if let Ok(Some(call)) = r {
        let p = choose|p: serde_json::Value|
            {
                &&& is_playback(event.kind_spec()) ==> call_ensures(
                    percent,
                    (event_progress(event, target),),
                    p,
                )
                &&& match #[trigger] event_request(event, target, p) {
                    Err(why) => r matches Err(e) && e@ == why,
                    Ok(req) => match r {
                        Ok(Some(call)) => is_call(
                            Ok(call),
                            addon,
                            Some(kept_tokens(creds)->0.access_token),
                            req,
                        ),
                        Ok(None) => false,
                        Err(e) => is_call(
                            Err(e),
                            addon,
                            Some(kept_tokens(creds)->0.access_token),
                            req,
                        ),
                    },
                }
            };
        let _ = call_ensures(percent, (event_progress(event, target),), p);
    }
}

/// A title is put on the watchlist, or taken off it, as what it is, with the token of the user.
pub proof fn lemma_watchlist_names_the_title(
    addon: &TraktAddon,
    target: &MediaTrackerTarget,
    add: bool,
    creds: &MediaTrackerCredentials,
    r: MediaTrackerResult<TraktCall>,
)
    requires
        call_ensures(TraktAddon::push_watchlist, (addon, target, add, creds), r),
    ensures
        r matches Ok(call) ==> {
            &&& call.request@.method == Method::Post
            &&& add ==> call.request@.path == "sync/watchlist"@
            &&& !add ==> call.request@.path == "sync/watchlist/remove"@
            &&& call.request@.body matches Some(body) && carries_as_it_is(body, *target)
            &&& kept_tokens(creds@) matches Some(t) && (
            call.client.auth.access_token matches Some(s) && s@ == t.access_token)
        },
        kept_tokens(creds@) is None ==> (r matches Err(e) && e@.needs_reauth()),
        target.kind is Season || target.kind is Collection ==> r is Err,
        kept_tokens(creds@) is Some && parsed_url(addon.base_url@) is Ok && (target.kind is Movie
            || target.kind is Series || target.kind is Episode) ==> r is Ok,
{
    if let Some(titles) = sync_titles(*target) {
        lemma_titles_carried(*target, titles);
    }
}

/// Logging in is asked for in the name of the application and without a token: with its id, and to
/// learn how a login stands with the code of the device.
pub proof fn lemma_login_is_asked_for(
    addon: &TraktAddon,
    poll_token: &str,
    begun: MediaTrackerResult<TraktCall>,
    asked: MediaTrackerResult<TraktCall>,
)
    requires
        call_ensures(TraktAddon::begin_device_auth, (addon,), begun),
        call_ensures(TraktAddon::poll_device_auth, (addon, poll_token), asked),
    ensures
        begun matches Ok(call) ==> {
            &&& call.request@.path == "oauth/device/code"@
            &&& says(call.request@.body, "client_id"@, addon.client_id@)
            &&& call.client.auth.access_token is None
        },
        asked matches Ok(call) ==> {
            &&& call.request@.path == "oauth/device/token"@
            &&& says(call.request@.body, "code"@, poll_token@)
            &&& says(call.request@.body, "client_id"@, addon.client_id@)
            &&& says(call.request@.body, "client_secret"@, addon.client_secret@)
            &&& call.client.auth.access_token is None
        },
        parsed_url(addon.base_url@) is Ok ==> begun is Ok && asked is Ok,
{
    let code = choose|code: String|
        code@ == poll_token@ && is_call(
            asked,
            *addon,
            None,
            #[trigger] request_of(
                DeviceTokenEndpoint {
                    code,
                    client_id: addon.client_id,
                    client_secret: addon.client_secret,
                },
            ),
        );
    lemma_login_requests(
        DeviceCodeEndpoint { client_id: addon.client_id },
        DeviceTokenEndpoint {
            code,
            client_id: addon.client_id,
            client_secret: addon.client_secret,
        },
        arbitrary(),
        arbitrary(),
    );
}

/// Tokens are renewed with the refresh token that is kept, and without the access token. They are
/// given up by the access token, in the name of the user.
pub proof fn lemma_tokens_are_renewed_and_given_up(
    addon: &TraktAddon,
    creds: &MediaTrackerCredentials,
    t: TokensView,
    renewed: MediaTrackerResult<TraktCall>,
    ended: MediaTrackerResult<TraktCall>,
)
    requires
        kept_tokens(creds@) == Some(t),
        call_ensures(TraktAddon::refresh, (addon, creds), renewed),
        call_ensures(TraktAddon::disconnect, (addon, creds), ended),
    ensures
        renewed matches Ok(call) ==> {
            &&& call.request@.path == "oauth/token"@
            &&& says(call.request@.body, "refresh_token"@, t.refresh_token)
            &&& says(call.request@.body, "grant_type"@, "refresh_token"@)
            &&& says(call.request@.body, "client_id"@, addon.client_id@)
            &&& says(call.request@.body, "client_secret"@, addon.client_secret@)
            &&& call.client.auth.access_token is None
        },
        ended matches Ok(call) ==> {
            &&& call.request@.path == "oauth/revoke"@
            &&& says(call.request@.body, "token"@, t.access_token)
            &&& says(call.request@.body, "client_id"@, addon.client_id@)
            &&& says(call.request@.body, "client_secret"@, addon.client_secret@)
            &&& call.client.auth.access_token matches Some(s) && s@ == t.access_token
        },
        parsed_url(addon.base_url@) is Ok ==> renewed is Ok && ended is Ok,
{
    let refresh_token = choose|refresh_token: String|
        refresh_token@ == t.refresh_token && is_call(
            renewed,
            *addon,
            None,
            #[trigger] request_of(
                RefreshTokenEndpoint {
                    refresh_token,
                    client_id: addon.client_id,
                    client_secret: addon.client_secret,
                },
            ),
        );
    let token = choose|token: String|
        token@ == t.access_token && is_call(
            ended,
            *addon,
            Some(t.access_token),
            #[trigger] request_of(
                RevokeEndpoint {
                    token,
                    client_id: addon.client_id,
                    client_secret: addon.client_secret,
                },
            ),
        );
    lemma_login_requests(
        arbitrary(),
        arbitrary(),
        RefreshTokenEndpoint {
            refresh_token,
            client_id: addon.client_id,
            client_secret: addon.client_secret,
        },
        RevokeEndpoint { token, client_id: addon.client_id, client_secret: addon.client_secret },
    );
}

/// Without tokens nothing is renewed and nothing is given up: the user has to log in again.
pub proof fn lemma_no_tokens_to_renew(
    addon: &TraktAddon,
    creds: &MediaTrackerCredentials,
    renewed: MediaTrackerResult<TraktCall>,
    ended: MediaTrackerResult<TraktCall>,
)
    requires
        kept_tokens(creds@) is None,
        call_ensures(TraktAddon::refresh, (addon, creds), renewed),
        call_ensures(TraktAddon::disconnect, (addon, creds), ended),
    ensures
        renewed matches Err(e) && e@.needs_reauth(),
        ended matches Err(e) && e@.needs_reauth(),
{
}

/// What is asked of Trakt for a user is asked where it answers: their settings, when they last did
/// something, and their watchlist.
pub proof fn lemma_asked_for_the_user(
    addon: &TraktAddon,
    creds: &MediaTrackerCredentials,
    verified: MediaTrackerResult<TraktCall>,
    activity: MediaTrackerResult<TraktCall>,
    watchlist: MediaTrackerResult<TraktCall>,
)
    requires
        call_ensures(TraktAddon::verify, (addon, creds), verified),
        call_ensures(TraktAddon::remote_activity_at, (addon, creds), activity),
        call_ensures(TraktAddon::pull_watchlist, (addon, creds), watchlist),
    ensures
        verified matches Ok(call) ==> reads(call.request@, "users/settings"@, None),
        activity matches Ok(call) ==> reads(call.request@, "sync/last_activities"@, None),
        watchlist matches Ok(call) ==> reads(call.request@, "sync/watchlist"@, Some((1, 100))),
        kept_tokens(creds@) is Some && parsed_url(addon.base_url@) is Ok ==> verified is Ok
            && activity is Ok && watchlist is Ok,
        kept_tokens(creds@) is None ==> verified is Err && activity is Err && watchlist is Err,
{
    lemma_reading_requests(1, 100);
}

/// A login that was started is handed on as Trakt says: where the user enters which code, the code
/// of the device, and how long to wait, which is a second at least.
pub proof fn lemma_login_begun_as_told(
    reply: Result<DeviceCodeResponse, ClientError>,
    r: MediaTrackerResult<DeviceAuthStart>,
)
    requires
        call_ensures(device_auth_begun, (reply,), r),
    ensures
        match (reply, r) {
            (Ok(code), Ok(start)) => {
                &&& start.verification_url == code.verification_url
                &&& start.user_code == code.user_code
                &&& start.poll_token == code.device_code
                &&& start.interval_secs >= 1 && start.expires_in_secs >= 1
                &&& code.interval >= 1 ==> start.interval_secs == code.interval
                &&& code.interval == 0 ==> start.interval_secs == 1
                &&& code.expires_in >= 1 ==> start.expires_in_secs == code.expires_in
                &&& code.expires_in == 0 ==> start.expires_in_secs == 1
            },
            (Err(err), Err(e)) => e@ == mapped_error(err),
            _ => false,
        },
{
}

/// Tokens that Trakt gives are kept so that they are read back as it gave them, whether the user has
/// just logged in or their tokens were renewed.
pub proof fn lemma_given_tokens_are_kept(
    token: TokenResponse,
    renewed: MediaTrackerResult<MediaTrackerCredentials>,
)
    requires
        call_ensures(refreshed, (Ok(token),), renewed),
    ensures
        renewed matches Ok(creds) && kept_tokens(creds@) == Some(
            TokensView {
                access_token: token.access_token@,
                refresh_token: token.refresh_token@,
                token_type: token.token_type@,
                created_at: token.created_at,
                expires_in: token.expires_in,
            },
        ),
{
    lemma_tokens_round_trip(token_view(token));
}

/// A login stands as the error says: it goes on while Trakt waits for the user, and is over once the
/// user has refused or the time is up. An error with status 400 that says nothing is no reason to
/// give up, and any other error is told.
pub proof fn lemma_login_stands_as_told(
    r: MediaTrackerResult<DeviceAuthPoll>,
    err: ClientError,
    status: Option<DeviceTokenStatus>,
)
    requires
        polled(r, err, status),
    ensures
        !(r matches Ok(DeviceAuthPoll::Approved(_))),
        status matches Some(DeviceTokenStatus::Pending) ==> (r matches Ok(poll) && poll is Pending),
        status matches Some(DeviceTokenStatus::SlowDown) ==> (r matches Ok(poll) && poll
            is Pending),
        status matches Some(DeviceTokenStatus::Denied) ==> (r matches Ok(poll) && poll is Denied),
        status matches Some(DeviceTokenStatus::Expired) ==> (r matches Ok(poll) && poll is Denied),
        status is None && (err matches ClientError::Http { status, .. } && status == 400) ==> (
        r matches Ok(poll) && poll is Pending),
        status is None && !(err matches ClientError::Http { status, .. } && status == 400) ==> (
        r matches Err(e) && e@ == mapped_error(err)),
{
}

/// What Trakt answers is told as it is: that tokens are good, that they are given up, which they are
/// too where Trakt rejects them, that an event was taken, or what went wrong.
pub proof fn lemma_answers_as_told(
    reply: Result<(), ClientError>,
    good: MediaTrackerResult<()>,
    ended: MediaTrackerResult<()>,
    taken: MediaTrackerResult<()>,
)
    requires
        call_ensures(verified, (reply,), good),
        call_ensures(disconnected, (reply,), ended),
        call_ensures(delivered, (reply,), taken),
    ensures
        reply is Ok ==> good is Ok && ended is Ok && taken is Ok,
        reply matches Err(err) ==> {
            &&& good matches Err(e) && e@ == mapped_error(err)
            &&& err is Unauthorized ==> ended is Ok
            &&& !(err is Unauthorized) ==> (ended matches Err(e) && e@ == mapped_error(err))
            &&& taken matches Err(e) ==> e@ == mapped_error(err)
            &&& taken is Ok <==> is_conflict(mapped_error(err))
        },
{
}

/// The watchlist is read entry by entry and in its order: an entry goes by the ids of its movie or,
/// failing that, of its show, and one that names neither is passed over.
pub proof fn lemma_watchlist_one_by_one(entries: Seq<WatchlistEntry>, x: WatchlistEntry)
    ensures
        watchlist_ids(Seq::empty()).len() == 0,
        x.movie is None && x.show is None ==> watchlist_ids(entries.push(x)) == watchlist_ids(
            entries,
        ),
        x.movie is Some || x.show is Some ==> {
            let before = watchlist_ids(entries);
            let all = watchlist_ids(entries.push(x));
            let told = match x.movie {
                Some(m) => m.ids,
                None => x.show->0.ids,
            };
            &&& all.len() == before.len() + 1
            &&& before.is_prefix_of(all)
            &&& all.last().tmdb == told.tmdb && all.last().tvdb == told.tvdb
            &&& all.last().imdb matches Some(s) ==> told.imdb == Some(s.value)
            &&& all.last().imdb is None ==> (told.imdb matches Some(s) ==> s@.len() == 0)
        },
{
    assert(entries.push(x).drop_last() =~= entries);
}

/// When the user last did something is the time that Trakt names.
pub proof fn lemma_activity_as_told(
    reply: Result<LastActivities, ClientError>,
    r: MediaTrackerResult<Option<Timestamp>>,
)
    requires
        call_ensures(remote_activity, (reply,), r),
    ensures
        match (reply, r) {
            (Ok(acts), Ok(at)) => match acts.all {
                None => at is None,
                Some(text) => rfc3339_instant(text@) matches Some(p) ==> at == Some(
                    Timestamp { secs: p.0, nanos: p.1 },
                ),
            },
            (Err(err), Err(e)) => e@ == mapped_error(err),
            _ => false,
        },
{
}

/// What the tracker can do: a user connects it by a code on another device, it takes every event and
/// is told of playbacks by default, it reads the history and does not write it unless asked to, and
/// ratings and the watchlist go both ways.
pub proof fn lemma_what_the_tracker_can_do(
    addon: &TraktAddon,
    r: MediaTrackerCapabilities,
    kind: MediaTrackerEventKind,
)
    requires
        call_ensures(TraktAddon::capabilities, (addon,), r),
    ensures
        r.auth_flow is OAuthDeviceCode,
        r.connect_fields@.len() == 0,
        r.supported_events@.contains(kind),
        r.default_event_filter@.contains(kind) <==> kind is PlaybackStart || kind
            is PlaybackProgress || kind is PlaybackStop,
        r.history_import && r.progress_import,
        r.watch_state_sync is Pull && r.favorites is Push && r.ratings is Both && r.watchlist is Both,
{
    let all = all_kinds();
    assert(all[0] is PlaybackStart && all[1] is PlaybackProgress && all[2] is PlaybackStop && all[3]
        is MarkPlayed && all[4] is MarkUnplayed && all[5] is MarkFavorite && all[6]
        is UnmarkFavorite && all[7] is Rating);
    assert(all[0] == kind || all[1] == kind || all[2] == kind || all[3] == kind || all[4] == kind
        || all[5] == kind || all[6] == kind || all[7] == kind);
    let some = playback_kinds();
    assert(some[0] is PlaybackStart && some[1] is PlaybackProgress && some[2] is PlaybackStop);
}

} // verus!
