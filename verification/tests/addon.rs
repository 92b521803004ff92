use remux_trackers::addon::calls::{
    all_events, delivered, device_auth_begun, device_auth_polled, disconnected, refreshed,
    remote_activity, verified, watchlist_pulled, TraktAddon, TraktCall,
};
use remux_trackers::addon::errors::{ignore_conflict, map_error};
use remux_trackers::addon::preset::{ConfigError, TraktPreset};
use remux_trackers::addon::pull::{PullReply, PullStage, PullState, PullStep};
use remux_trackers::addon::targets::{
    favorite_items, ids_of, ids_to_external, ratings_items, scrobble_body, sync_items,
};
use remux_trackers::addon::tokens::StoredTokens;
use remux_trackers::double::Double;
use remux_trackers::ids::{ExternalIds, NonEmptyString};
use remux_trackers::rest::{Body, ClientError, Method};
use remux_trackers::time::Timestamp;
use remux_trackers::tracker::{
    AuthFlow, DeviceAuthPoll, MediaKind, MediaTrackerCredentials, MediaTrackerError,
    MediaTrackerEvent, MediaTrackerEventKind, MediaTrackerTarget, RemoteWatch, SyncDirection,
};
use remux_trackers::trakt::items::{
    ids_from_parts, PlaybackProgress, TraktEpisode, TraktItemIds, TraktMovie, TraktShow,
};
use remux_trackers::trakt::replies::{
    DeviceCodeResponse, HistoryEpisodeEntry, LastActivities, PlaybackEntry, RatedEntry,
    TokenErrorBody, TokenResponse, WatchedEpisode, WatchedMovie, WatchedSeason, WatchedShow,
    WatchingEntry, WatchlistEntry,
};
use serde_json::Value;

fn value(text: &str) -> Value {
    serde_json::from_str(text).unwrap()
}

fn cfg() -> Value {
    value(r#"{"client_id":"id","client_secret":"secret","base_url":"https://example.test"}"#)
}

fn addon() -> TraktAddon {
    TraktPreset.from_cfg(&cfg()).unwrap()
}

fn no_parse(_raw: &str) -> Option<TokenErrorBody> {
    None
}

fn percent(p: PlaybackProgress) -> Value {
    Value::from(p.position_ticks as f64 / p.runtime_ticks as f64 * 100.0)
}

fn double(x: f64) -> Double {
    Double { bits: x.to_bits() }
}

fn token() -> TokenResponse {
    TokenResponse {
        access_token: "at".into(),
        token_type: "bearer".into(),
        expires_in: 60,
        refresh_token: "rt".into(),
        scope: "public".into(),
        created_at: 1,
    }
}

fn creds() -> MediaTrackerCredentials {
    StoredTokens::from(token()).into_creds().unwrap()
}

fn http(status: u16, message: &str) -> ClientError {
    ClientError::Http {
        status,
        message: message.to_string(),
        endpoint: None,
        body: None,
    }
}

fn json_body(call: &TraktCall) -> &Value {
    match &call.request.body {
        Body::Json(v) => v,
        Body::Empty => panic!("no body"),
    }
}

fn series() -> MediaTrackerTarget {
    MediaTrackerTarget {
        kind: MediaKind::Series,
        title: "The Wire".into(),
        year: Some(2002),
        ids: ExternalIds {
            imdb: NonEmptyString::try_new("tt0306414".to_string()),
            tmdb: Some(1438),
            ..ExternalIds::default()
        },
        series: None,
        season: None,
        episode: None,
        runtime_ticks: None,
    }
}

fn episode() -> MediaTrackerTarget {
    MediaTrackerTarget {
        kind: MediaKind::Episode,
        title: "The Target".into(),
        year: None,
        ids: ExternalIds::default(),
        series: Some(Box::new(series())),
        season: Some(1),
        episode: Some(1),
        runtime_ticks: Some(10_000_0000),
    }
}

fn movie() -> MediaTrackerTarget {
    MediaTrackerTarget {
        kind: MediaKind::Movie,
        title: "Heat".into(),
        year: Some(1995),
        ids: ExternalIds {
            tmdb: Some(949),
            ..ExternalIds::default()
        },
        series: None,
        season: None,
        episode: None,
        runtime_ticks: Some(200),
    }
}

fn unfit_error(e: MediaTrackerError, text: &str) {
    match e {
        MediaTrackerError::Permanent {
            message,
            reauth_required,
        } => {
            assert_eq!(message, text);
            assert!(!reauth_required);
        }
        other => panic!("{other:?}"),
    }
}

#[test]
fn preset_requires_client_credentials() {
    let err = TraktPreset.from_cfg(&value("{}"));
    assert!(err.is_err());
}

#[test]
fn preset_wires_media_tracker_capability() {
    let tracker = TraktPreset.from_cfg(&cfg()).unwrap();
    let declared = tracker.capabilities();
    assert_eq!(declared.auth_flow, AuthFlow::OAuthDeviceCode);
    assert!(declared.history_import);
    assert!(declared.supports(MediaTrackerEventKind::PlaybackStop));
    assert_eq!(declared.watchlist, SyncDirection::Both);
    assert_eq!(declared.watch_state_sync, SyncDirection::Pull);
    assert!(!declared
        .default_event_filter
        .contains(&MediaTrackerEventKind::MarkPlayed));
}

#[test]
fn preset_names_what_is_missing() {
    let err = TraktPreset.from_cfg(&value("{}")).err().unwrap();
    assert_eq!(err, ConfigError::MissingClientId);
    assert_eq!(err.message(), "Trakt client_id is required");
    let err = TraktPreset
        .from_cfg(&value(r#"{"client_id":" a ","client_secret":"  "}"#))
        .err()
        .unwrap();
    assert_eq!(err, ConfigError::MissingClientSecret);
    assert_eq!(err.message(), "Trakt client_secret is required");
    assert!(TraktPreset
        .from_cfg(&value(r#"{"client_id":5,"client_secret":"s"}"#))
        .is_err());
}

#[test]
fn preset_trims_what_is_filled_in() {
    let a = TraktPreset
        .from_cfg(&value(
            r#"{"client_id":" a ","client_secret":"\ts\n","base_url":" https://x.test// "}"#,
        ))
        .unwrap();
    assert_eq!(a.client_id, "a");
    assert_eq!(a.client_secret, "s");
    assert_eq!(a.base_url, "https://x.test");
    let a = TraktPreset
        .from_cfg(&value(
            r#"{"client_id":"a","client_secret":"s","base_url":""}"#,
        ))
        .unwrap();
    assert_eq!(a.base_url, "https://api.trakt.tv");
    assert_eq!(a.id(), "trakt");
}

#[test]
fn preset_metadata() {
    let m = TraktPreset.metadata();
    assert_eq!(TraktPreset.id(), "trakt");
    assert_eq!(m.id, "trakt");
    assert_eq!(m.display_name, "Trakt");
    assert!(m.description.contains("https://trakt.tv/oauth/applications"));
    assert!(m.icon.is_none());
    let ids: Vec<(&str, bool)> = m
        .options
        .iter()
        .map(|o| (o.id.as_str(), o.required))
        .collect();
    assert_eq!(
        ids,
        vec![
            ("client_id", true),
            ("client_secret", true),
            ("base_url", false)
        ]
    );
    assert_eq!(
        m.options[2].default,
        Some(Value::from("https://api.trakt.tv"))
    );
    assert_eq!(
        m.supported_types,
        vec![MediaKind::Movie, MediaKind::Series, MediaKind::Episode]
    );
}

#[test]
fn scrobble_body_for_episode_uses_series_ids() {
    let body = scrobble_body(&episode(), Value::from(10.0)).unwrap();
    assert_eq!(
        body.show.unwrap().ids.imdb.as_deref(),
        Some("tt0306414")
    );
    assert_eq!(body.episode.unwrap().season, Some(1));
    assert!(body.movie.is_none());
}

#[test]
fn stored_tokens_round_trip_through_secret() {
    let creds = StoredTokens::from(token()).into_creds().unwrap();
    let stored = StoredTokens::from_creds(&creds).unwrap();
    assert_eq!(stored.access_token, "at");
    assert_eq!(stored.refresh_token, "rt");
    assert_eq!(
        creds.secret,
        value(
            r#"{"access_token":"at","refresh_token":"rt","token_type":"bearer",
                "created_at":1,"expires_in":60}"#
        )
    );
}

#[test]
fn tokens_are_read_from_what_trakt_answers() {
    let json = r#"{
            "access_token": "at",
            "token_type": "bearer",
            "expires_in": 7200,
            "refresh_token": "rt",
            "scope": "public",
            "created_at": 1700000000
        }"#;
    let token = StoredTokens::from_creds(&MediaTrackerCredentials::new(value(json))).unwrap();
    assert_eq!(token.access_token, "at");
    assert_eq!(token.refresh_token, "rt");
    assert_eq!(token.expires_in, 7200);
}

#[test]
fn tokens_that_are_none_ask_for_a_login() {
    let read = |text: &str| StoredTokens::from_creds(&MediaTrackerCredentials::new(value(text)));
    let message = |text: &str| match read(text) {
        Err(e) => {
            assert!(e.requires_reauth());
            e.message()
        }
        Ok(t) => panic!("{t:?}"),
    };
    assert_eq!(
        message("{}"),
        "invalid stored Trakt credentials: missing field `access_token`"
    );
    assert_eq!(
        message(r#"{"refresh_token":"r","other":1}"#),
        "invalid stored Trakt credentials: missing field `access_token`"
    );
    assert_eq!(
        message(r#"{"access_token":"a"}"#),
        "invalid stored Trakt credentials: missing field `refresh_token`"
    );
    for (text, fault) in [
        ("null", "invalid type: null, expected struct StoredTokens"),
        ("true", "invalid type: boolean `true`, expected struct StoredTokens"),
        ("7", "invalid type: integer `7`, expected struct StoredTokens"),
        (r#""x""#, r#"invalid type: string "x", expected struct StoredTokens"#),
        (
            r#"{"access_token":1,"refresh_token":"r"}"#,
            "invalid type: integer `1`, expected a string",
        ),
        (r#"{"access_token":true}"#, "invalid type: boolean `true`, expected a string"),
        (r#"{"refresh_token":[],"expires_in":"x"}"#, r#"invalid type: string "x", expected u64"#),
        (r#"{"refresh_token":[],"token_type":1}"#, "invalid type: sequence, expected a string"),
        (
            r#"{"access_token":"a","refresh_token":"r","token_type":null}"#,
            "invalid type: null, expected a string",
        ),
        (
            r#"{"access_token":"a","refresh_token":"r","created_at":-1}"#,
            "invalid value: integer `-1`, expected u64",
        ),
        (
            r#"{"access_token":"a","refresh_token":"r","expires_in":1.5}"#,
            "invalid type: floating point `1.5`, expected u64",
        ),
        ("[]", "invalid length 0, expected struct StoredTokens with 5 elements"),
        (r#"["a"]"#, "invalid length 1, expected struct StoredTokens with 5 elements"),
        ("[{}]", "invalid type: map, expected a string"),
        (r#"["a","r","bearer",null,{},7]"#, "invalid type: null, expected u64"),
        (r#"["a","r","bearer",5,6,7]"#, "invalid length 6, expected fewer elements in array"),
    ] {
        assert_eq!(
            message(text),
            format!("invalid stored Trakt credentials: {fault}")
        );
    }
    let t = read(r#"{"access_token":"a","refresh_token":"r","other":[]}"#).unwrap();
    assert_eq!((t.created_at, t.expires_in), (0, 0));
    assert_eq!(t.token_type, "");
    let t = read(r#"["a","r","bearer",5]"#).unwrap();
    assert_eq!(t.access_token, "a");
    assert_eq!((t.created_at, t.expires_in), (5, 0));
}

#[test]
fn tokens_are_renewed_an_hour_early() {
    let t = StoredTokens {
        access_token: "a".into(),
        refresh_token: "r".into(),
        token_type: String::new(),
        created_at: 1000,
        expires_in: 7200,
    };
    assert!(!t.needs_refresh_at(4599));
    assert!(t.needs_refresh_at(4600));
    assert!(t.needs_refresh());
}

#[test]
fn errors_of_requests() {
    let e = map_error(ClientError::Unauthorized);
    assert!(e.requires_reauth());
    assert_eq!(e.message(), "Trakt rejected the token");
    match map_error(ClientError::RateLimited {
        retry_after_secs: 7,
    }) {
        MediaTrackerError::Retryable {
            message,
            retry_after_secs,
        } => {
            assert_eq!(message, "Trakt rate limited");
            assert_eq!(retry_after_secs, Some(7));
        }
        other => panic!("{other:?}"),
    }
    let e = map_error(http(409, "x"));
    assert_eq!(e.message(), "trakt conflict \u{2014} treated as success");
    assert!(ignore_conflict(Err(e)).is_ok());
    unfit_error(
        map_error(http(404, "no such movie")),
        "Trakt could not match item: no such movie",
    );
    for err in [
        http(500, "broken"),
        ClientError::Transport("broken".into()),
        ClientError::Decode("broken".into()),
    ] {
        match map_error(err) {
            MediaTrackerError::Retryable {
                message,
                retry_after_secs,
            } => {
                assert_eq!(message, "broken");
                assert_eq!(retry_after_secs, None);
            }
            other => panic!("{other:?}"),
        }
    }
}

#[test]
fn only_conflicts_that_may_pass_are_ignored() {
    assert!(ignore_conflict(Ok(())).is_ok());
    let permanent = MediaTrackerError::permanent("a conflict".into());
    assert!(ignore_conflict(Err(permanent)).is_err());
    let other = MediaTrackerError::retryable("offline".into());
    assert!(ignore_conflict(Err(other)).is_err());
    assert!(delivered(Err(http(409, ""))).is_ok());
    assert!(delivered(Err(http(500, "edit conflict"))).is_ok());
    assert!(delivered(Err(http(500, "down"))).is_err());
    assert!(delivered(Ok(())).is_ok());
}

#[test]
fn ids_survive_the_way_to_trakt_and_back() {
    let t = series();
    assert_eq!(ids_to_external(&ids_of(&t)), t.ids);
    let empty = ids_from_parts(Some(String::new()), None, Some(4));
    let back = ids_to_external(&empty);
    assert!(back.imdb.is_none());
    assert_eq!(back.tvdb, Some(4));
}

#[test]
fn titles_that_trakt_does_not_take() {
    let mut season = series();
    season.kind = MediaKind::Season;
    unfit_error(
        scrobble_body(&series(), Value::from(1.0)).err().unwrap(),
        "Trakt does not scrobble Series",
    );
    unfit_error(
        sync_items(&season).err().unwrap(),
        "Trakt cannot sync Season",
    );
    unfit_error(
        favorite_items(&season).err().unwrap(),
        "Trakt cannot favorite Season",
    );
    unfit_error(
        ratings_items(&season, 3).err().unwrap(),
        "Trakt cannot rate Season",
    );
}

#[test]
fn titles_in_lists() {
    let items = sync_items(&episode()).unwrap();
    assert_eq!(items.shows.len(), 1);
    assert_eq!(items.episodes.len(), 1);
    assert!(items.movies.is_empty());
    let items = favorite_items(&episode()).unwrap();
    assert_eq!(items.shows[0].title.as_deref(), Some("The Wire"));
    assert!(items.episodes.is_empty());
    let items = ratings_items(&episode(), 4).unwrap();
    assert_eq!(items.episodes[0].rating, 4);
    assert_eq!(items.episodes[0].episode.number, Some(1));
    assert!(items.shows.is_empty());
    let items = ratings_items(&series(), 5).unwrap();
    assert_eq!(items.shows[0].show.year, Some(2002));
}

fn call_of(event: MediaTrackerEvent, target: &MediaTrackerTarget) -> TraktCall {
    addon()
        .on_event(&event, target, &creds(), percent)
        .unwrap()
        .unwrap()
}

#[test]
fn playbacks_are_scrobbled() {
    let call = call_of(
        MediaTrackerEvent::PlaybackStart { position_ticks: 50 },
        &movie(),
    );
    assert_eq!(call.request.path, "scrobble/start");
    assert_eq!(call.request.method, Method::Post);
    assert_eq!(call.client.base_url, "https://example.test/");
    assert_eq!(call.client.auth.client_id, "id");
    assert_eq!(call.client.auth.access_token.as_deref(), Some("at"));
    assert_eq!(
        *json_body(&call),
        value(
            r#"{"movie":{"title":"Heat","year":1995,"ids":{"tmdb":949}},"progress":25.0}"#
        )
    );
    let progress = |is_paused| MediaTrackerEvent::PlaybackProgress {
        position_ticks: 100,
        is_paused,
    };
    let call = call_of(progress(true), &movie());
    assert_eq!(call.request.path, "scrobble/pause");
    let call = call_of(progress(false), &movie());
    assert_eq!(call.request.path, "scrobble/start");
    assert_eq!(json_body(&call)["progress"], 50.0);
    let stop = |played| MediaTrackerEvent::PlaybackStop {
        position_ticks: 100,
        played,
    };
    let call = call_of(stop(true), &movie());
    assert_eq!(call.request.path, "scrobble/stop");
    assert_eq!(json_body(&call)["progress"], 100.0);
    let call = call_of(stop(false), &movie());
    assert_eq!(json_body(&call)["progress"], 50.0);
}

#[test]
fn marks_and_ratings_are_sent() {
    let titles = value(r#"{"movies":[{"title":"Heat","year":1995,"ids":{"tmdb":949}}]}"#);
    for (event, path) in [
        (MediaTrackerEvent::MarkPlayed, "sync/history"),
        (MediaTrackerEvent::MarkUnplayed, "sync/history/remove"),
        (MediaTrackerEvent::MarkFavorite, "sync/favorites"),
        (MediaTrackerEvent::UnmarkFavorite, "sync/favorites/remove"),
    ] {
        let call = call_of(event, &movie());
        assert_eq!(call.request.path, path);
        assert_eq!(*json_body(&call), titles);
    }
    let rate = |rating: Option<f64>| MediaTrackerEvent::Rating {
        rating: rating.map(double),
    };
    let call = call_of(rate(Some(7.5)), &movie());
    assert_eq!(call.request.path, "sync/ratings");
    assert_eq!(json_body(&call)["movies"][0]["rating"], 8);
    let call = call_of(rate(Some(0.0)), &movie());
    assert_eq!(json_body(&call)["movies"][0]["rating"], 1);
    let call = call_of(rate(None), &movie());
    assert_eq!(call.request.path, "sync/ratings/remove");
    assert_eq!(json_body(&call)["movies"][0]["rating"], 1);
}

#[test]
fn events_that_cannot_be_sent() {
    let mut unknown = movie();
    unknown.ids = ExternalIds::default();
    let event = MediaTrackerEvent::MarkPlayed;
    let r = addon().on_event(&event, &unknown, &creds(), percent);
    assert!(r.unwrap().is_none());
    let bad = MediaTrackerCredentials::new(Value::Null);
    let e = addon()
        .on_event(&event, &movie(), &bad, percent)
        .err()
        .unwrap();
    assert!(e.requires_reauth());
    let lost = TraktAddon {
        client_id: "id".into(),
        client_secret: "s".into(),
        base_url: "nowhere".into(),
    };
    unfit_error(
        lost.on_event(&event, &movie(), &creds(), percent)
            .err()
            .unwrap(),
        "relative URL without a base",
    );
    let mut collection = movie();
    collection.kind = MediaKind::Collection;
    unfit_error(
        lost.on_event(&event, &collection, &creds(), percent)
            .err()
            .unwrap(),
        "Trakt cannot sync Collection",
    );
}

#[test]
fn logins_begin_with_a_code() {
    let call = addon().begin_device_auth().unwrap();
    assert_eq!(call.request.path, "oauth/device/code");
    assert_eq!(*json_body(&call), value(r#"{"client_id":"id"}"#));
    assert!(call.client.auth.access_token.is_none());
    let code = |expires_in, interval| DeviceCodeResponse {
        device_code: "dc".into(),
        user_code: "uc".into(),
        verification_url: "https://trakt.tv/activate".into(),
        expires_in,
        interval,
    };
    let start = device_auth_begun(Ok(code(600, 0))).unwrap();
    assert_eq!(start.poll_token, "dc");
    assert_eq!(start.user_code, "uc");
    assert_eq!(start.verification_url, "https://trakt.tv/activate");
    assert_eq!((start.interval_secs, start.expires_in_secs), (1, 600));
    let start = device_auth_begun(Ok(code(0, 5))).unwrap();
    assert_eq!((start.interval_secs, start.expires_in_secs), (5, 1));
    assert!(device_auth_begun(Err(ClientError::Unauthorized)).is_err());
}

#[test]
fn logins_are_polled() {
    let call = addon().poll_device_auth("dc").unwrap();
    assert_eq!(call.request.path, "oauth/device/token");
    assert_eq!(
        *json_body(&call),
        value(r#"{"code":"dc","client_id":"id","client_secret":"secret"}"#)
    );
    match device_auth_polled(Ok(token()), no_parse).unwrap() {
        DeviceAuthPoll::Approved(c) => assert_eq!(c.secret, creds().secret),
        other => panic!("{other:?}"),
    }
    let polled = |status, text| device_auth_polled(Err(http(status, text)), no_parse);
    for (status, text) in [
        (400, "authorization_pending"),
        (418, "slow_down"),
        (400, ""),
    ] {
        assert!(matches!(
            polled(status, text).unwrap(),
            DeviceAuthPoll::Pending
        ));
    }
    for (status, text) in [
        (400, "access_denied"),
        (400, "expired_token"),
        (404, "whatever"),
    ] {
        assert!(matches!(
            polled(status, text).unwrap(),
            DeviceAuthPoll::Denied
        ));
    }
    assert!(polled(500, "access_denied").is_err());
    assert!(polled(418, "teapot").is_err());
}

#[test]
fn tokens_are_renewed_tested_and_revoked() {
    let call = addon().refresh(&creds()).unwrap();
    assert_eq!(call.request.path, "oauth/token");
    assert_eq!(json_body(&call)["refresh_token"], "rt");
    assert!(call.client.auth.access_token.is_none());
    assert_eq!(refreshed(Ok(token())).unwrap().secret, creds().secret);
    assert!(refreshed(Err(ClientError::Unauthorized))
        .err()
        .unwrap()
        .requires_reauth());
    let call = addon().verify(&creds()).unwrap();
    assert_eq!(call.request.path, "users/settings");
    assert_eq!(call.client.auth.access_token.as_deref(), Some("at"));
    assert!(verified(Ok(())).is_ok());
    assert!(verified(Err(http(500, "down"))).is_err());
    let call = addon().disconnect(&creds()).unwrap();
    assert_eq!(call.request.path, "oauth/revoke");
    assert_eq!(json_body(&call)["token"], "at");
    assert!(disconnected(Ok(())).is_ok());
    assert!(disconnected(Err(ClientError::Unauthorized)).is_ok());
    assert!(disconnected(Err(http(500, "down"))).is_err());
}

#[test]
fn activity_and_watchlist() {
    let call = addon().remote_activity_at(&creds()).unwrap();
    assert_eq!(call.request.path, "sync/last_activities");
    let acts = LastActivities {
        all: Some("1970-01-01T00:01:00Z".into()),
    };
    assert_eq!(
        remote_activity(Ok(acts)).unwrap(),
        Some(Timestamp { secs: 60, nanos: 0 })
    );
    assert_eq!(
        remote_activity(Ok(LastActivities { all: None })).unwrap(),
        None
    );
    assert!(remote_activity(Err(http(500, "down"))).is_err());
    let call = addon().pull_watchlist(&creds()).unwrap();
    assert_eq!(call.request.path, "sync/watchlist");
    assert_eq!(call.request.method, Method::Get);
    let entry = |m: Option<i64>, s: Option<i64>| WatchlistEntry {
        kind: "movie".into(),
        movie: m.map(|id| TraktMovie {
            ids: ids_from_parts(None, Some(id), None),
            ..TraktMovie::default()
        }),
        show: s.map(|id| TraktShow {
            ids: ids_from_parts(None, Some(id), None),
            ..TraktShow::default()
        }),
    };
    let ids = watchlist_pulled(Ok(vec![
        entry(Some(1), Some(2)),
        entry(None, None),
        entry(None, Some(3)),
    ]))
    .unwrap();
    let ids: Vec<Option<i64>> = ids.iter().map(|i| i.tmdb).collect();
    assert_eq!(ids, vec![Some(1), Some(3)]);
    let call = addon().push_watchlist(&movie(), true, &creds()).unwrap();
    assert_eq!(call.request.path, "sync/watchlist");
    assert_eq!(call.request.method, Method::Post);
    let call = addon().push_watchlist(&movie(), false, &creds()).unwrap();
    assert_eq!(call.request.path, "sync/watchlist/remove");
    assert_eq!(all_events().len(), 8);
}

fn ids(tmdb: i64) -> TraktItemIds {
    ids_from_parts(None, Some(tmdb), None)
}

fn show(tmdb: i64) -> TraktShow {
    TraktShow {
        ids: ids(tmdb),
        ..TraktShow::default()
    }
}

fn trakt_movie(tmdb: i64) -> TraktMovie {
    TraktMovie {
        ids: ids(tmdb),
        ..TraktMovie::default()
    }
}

fn trakt_episode(season: Option<i64>, number: Option<i64>, tmdb: i64) -> TraktEpisode {
    TraktEpisode {
        season,
        number,
        ids: ids(tmdb),
    }
}

fn asked(step: PullStep, path: &str) -> PullState {
    match step {
        PullStep::Ask { call, state } => {
            assert_eq!(call.request.path, path);
            assert_eq!(call.request.method, Method::Get);
            assert_eq!(call.client.auth.access_token.as_deref(), Some("at"));
            state
        }
        PullStep::Done(r) => panic!("{:?}", r.map(|o| o.len())),
    }
}

fn done(step: PullStep) -> Vec<RemoteWatch> {
    match step {
        PullStep::Done(r) => r.unwrap(),
        PullStep::Ask { .. } => panic!("not done"),
    }
}

fn history(n: usize) -> Vec<HistoryEpisodeEntry> {
    (0..n)
        .map(|i| HistoryEpisodeEntry {
            watched_at: None,
            show: Some(show(5)),
            episode: Some(trakt_episode(Some(1), Some(i as i64), 9)),
        })
        .collect()
}

#[test]
fn all_that_trakt_knows_is_read() {
    let a = addon();
    let state = asked(a.import_history(&creds()), "sync/watched/movies");
    let movies = vec![
        WatchedMovie {
            plays: 2,
            last_watched_at: Some("1970-01-01T00:00:09Z".into()),
            movie: trakt_movie(1),
        },
        WatchedMovie {
            plays: 0,
            last_watched_at: None,
            movie: trakt_movie(2),
        },
    ];
    let step = a.pull_resume(state, PullReply::Movies(Ok(movies)));
    let state = asked(step, "sync/watched/shows");
    let shows = vec![WatchedShow {
        plays: 1,
        last_watched_at: None,
        show: show(3),
        seasons: vec![WatchedSeason {
            number: 4,
            episodes: vec![WatchedEpisode {
                number: 5,
                last_watched_at: None,
            }],
        }],
    }];
    let step = a.pull_resume(state, PullReply::Shows(Ok(shows)));
    let state = asked(step, "sync/history/episodes");
    let mut page = history(1);
    page.push(HistoryEpisodeEntry {
        watched_at: None,
        show: None,
        episode: Some(trakt_episode(Some(1), Some(1), 9)),
    });
    page.push(HistoryEpisodeEntry {
        watched_at: None,
        show: Some(show(5)),
        episode: Some(trakt_episode(None, Some(1), 9)),
    });
    let step = a.pull_resume(state, PullReply::History(Ok(page)));
    let state = asked(step, "sync/ratings");
    let rated = |kind: &str| RatedEntry {
        rating: 7,
        kind: kind.into(),
        movie: Some(trakt_movie(10)),
        show: Some(show(11)),
        episode: Some(trakt_episode(Some(2), Some(3), 12)),
    };
    let step = a.pull_resume(
        state,
        PullReply::Ratings(Ok(vec![
            rated("movie"),
            rated("show"),
            rated("season"),
            rated("episode"),
        ])),
    );
    let state = asked(step, "sync/playback");
    let played = |kind: &str, s: Option<TraktShow>| PlaybackEntry {
        progress: double(40.0),
        kind: kind.into(),
        movie: None,
        show: s,
        episode: Some(trakt_episode(Some(6), Some(7), 14)),
    };
    let step = a.pull_resume(
        state,
        PullReply::Playback(Ok(vec![
            played("movie", None),
            played("episode", Some(show(13))),
            played("episode", None),
        ])),
    );
    let state = asked(step, "users/me/watching");
    let watching = WatchingEntry {
        kind: "episode".into(),
        progress: None,
        movie: None,
        show: Some(show(15)),
        episode: None,
    };
    let out = done(a.pull_resume(state, PullReply::Watching(Ok(Some(watching)))));
    let seen: Vec<(Option<i64>, Option<i64>, Option<i64>, bool)> = out
        .iter()
        .map(|w| (w.ids.tmdb, w.season, w.episode, w.watched))
        .collect();
    assert_eq!(
        seen,
        vec![
            (Some(1), None, None, true),
            (Some(2), None, None, false),
            (Some(3), Some(4), Some(5), true),
            (Some(5), Some(1), Some(0), true),
            (Some(10), None, None, false),
            (Some(11), None, None, false),
            (Some(12), Some(2), Some(3), false),
            (Some(13), Some(6), Some(7), false),
            (Some(14), Some(6), Some(7), false),
            (Some(15), None, None, false),
        ]
    );
    assert_eq!(out[0].watched_at, Some(Timestamp { secs: 9, nanos: 0 }));
    assert_eq!(out[4].rating, Some(double(7.0)));
    assert_eq!(out[7].progress_percent, Some(double(40.0)));
    assert_eq!(out[9].progress_percent, Some(double(1.0)));
}

fn at(stage: PullStage) -> PullState {
    PullState {
        token: "at".into(),
        stage,
        out: Vec::new(),
    }
}

#[test]
fn the_history_is_read_to_its_end_or_for_twenty_pages() {
    let a = addon();
    let mut state = at(PullStage::History { page: 1 });
    for page in 2..=20 {
        let step = a.pull_resume(state, PullReply::History(Ok(history(100))));
        state = asked(step, "sync/history/episodes");
        assert_eq!(state.stage, PullStage::History { page });
    }
    let step = a.pull_resume(state, PullReply::History(Ok(history(100))));
    let state = asked(step, "sync/ratings");
    assert_eq!(state.out.len(), 2000);
    for n in [0, 99] {
        let state = at(PullStage::History { page: 1 });
        let step = a.pull_resume(state, PullReply::History(Ok(history(n))));
        assert_eq!(asked(step, "sync/ratings").out.len(), n);
    }
}

#[test]
fn only_the_current_playback_may_fail() {
    let a = addon();
    let failed = |step: PullStep| match step {
        PullStep::Done(Err(e)) => assert_eq!(e.message(), "down"),
        _ => panic!("not failed"),
    };
    let down = || http(500, "down");
    failed(a.pull_resume(at(PullStage::Movies), PullReply::Movies(Err(down()))));
    failed(a.pull_resume(at(PullStage::Shows), PullReply::Shows(Err(down()))));
    failed(a.pull_resume(
        at(PullStage::History { page: 3 }),
        PullReply::History(Err(down())),
    ));
    failed(a.pull_resume(at(PullStage::Ratings), PullReply::Ratings(Err(down()))));
    failed(a.pull_resume(
        at(PullStage::Playback),
        PullReply::Playback(Err(down())),
    ));
    let step = a.pull_resume(
        at(PullStage::Watching),
        PullReply::Watching(Err(down())),
    );
    assert!(done(step).is_empty());
    match a.pull_changes(&MediaTrackerCredentials::new(Value::Null)) {
        PullStep::Done(Err(e)) => assert!(e.requires_reauth()),
        _ => panic!("not failed"),
    }
}

#[test]
fn what_is_watched_now_counts_with_an_id() {
    let a = addon();
    let watch = |entry: WatchingEntry| {
        done(a.pull_resume(
            at(PullStage::Watching),
            PullReply::Watching(Ok(Some(entry))),
        ))
    };
    let entry = |kind: &str, movie: Option<TraktMovie>| WatchingEntry {
        kind: kind.into(),
        progress: Some(double(33.0)),
        movie,
        show: None,
        episode: None,
    };
    let out = watch(entry("movie", Some(trakt_movie(4))));
    assert_eq!(out.len(), 1);
    assert_eq!(out[0].progress_percent, Some(double(33.0)));
    assert!(watch(entry("movie", None)).is_empty());
    assert!(watch(entry("movie", Some(TraktMovie::default()))).is_empty());
    assert!(watch(entry("episode", None)).is_empty());
    assert!(watch(entry("podcast", Some(trakt_movie(4)))).is_empty());
    let step = a.pull_resume(at(PullStage::Watching), PullReply::Watching(Ok(None)));
    assert!(done(step).is_empty());
}
