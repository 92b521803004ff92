use remux_trackers::rest::{request, Body, ClientError, Endpoint, Method, RestClient};
use remux_trackers::trakt::auth::{
    device_token_status, device_token_status_from_error, trakt_client, trakt_user_client,
    DeviceTokenStatus, TraktAuth, DEFAULT_BASE_URL,
};
use remux_trackers::trakt::endpoints::{
    DeviceCodeEndpoint, DeviceTokenEndpoint, HistoryEpisodesEndpoint, LastActivitiesEndpoint,
    MoviePopularEndpoint, MovieStatsEndpoint, PlaybackEndpoint, RatingsEndpoint,
    RefreshTokenEndpoint, RevokeEndpoint, ScrobbleEndpoint, ShowPopularEndpoint, ShowStatsEndpoint,
    SyncFavoritesEndpoint, SyncHistoryEndpoint, SyncRatingsEndpoint, SyncWatchlistEndpoint,
    UserSettingsEndpoint, WatchedMoviesEndpoint, WatchedShowsEndpoint, WatchingEndpoint,
    WatchlistEndpoint,
};
use remux_trackers::trakt::items::{
    ids_from_parts, playback_progress_percent, ratings_items_value, scrobble_value,
    sync_items_value, PlaybackProgress, RatedEpisode, RatedMovie, RatedShow, RatingsItems,
    ScrobbleAction, ScrobbleBody, SyncItems, TraktEpisode, TraktItemIds, TraktMovie, TraktShow,
};
use remux_trackers::trakt::replies::{
    next_up_after_watched, SyncResult, TokenErrorBody, WatchedEpisode, WatchedSeason, WatchedShow,
};
use serde_json::Value;

fn value(text: &str) -> Value {
    serde_json::from_str(text).unwrap()
}

fn parse(raw: &str) -> Option<TokenErrorBody> {
    let v: Value = serde_json::from_str(raw).ok()?;
    Some(TokenErrorBody {
        error: v.get("error")?.as_str()?.to_string(),
        error_description: None,
    })
}

fn http(status: u16, message: &str, body: Option<&str>) -> ClientError {
    ClientError::Http {
        status,
        message: message.to_string(),
        endpoint: None,
        body: body.map(|b| b.to_string()),
    }
}

fn percent(p: PlaybackProgress) -> f64 {
    p.position_ticks as f64 / p.runtime_ticks as f64 * 100.0
}

#[test]
fn progress_is_percent_of_runtime() {
    assert_eq!(
        percent(playback_progress_percent(5_000_0000, Some(10_000_0000))),
        50.0
    );
    assert_eq!(
        percent(playback_progress_percent(0, Some(10_000_0000))),
        0.0
    );
    assert_eq!(
        percent(playback_progress_percent(20_000_0000, Some(10_000_0000))),
        100.0
    );
    assert_eq!(percent(playback_progress_percent(1, None)), 0.0);
    assert_eq!(percent(playback_progress_percent(1, Some(0))), 0.0);
}

#[test]
fn progress_is_limited_on_both_sides() {
    let p = playback_progress_percent(-5, Some(10));
    assert_eq!((p.position_ticks, p.runtime_ticks), (0, 10));
    let p = playback_progress_percent(3, Some(8));
    assert_eq!((p.position_ticks, p.runtime_ticks), (3, 8));
    assert_eq!(percent(p), 37.5);
    assert_eq!(percent(playback_progress_percent(1, Some(-3))), 0.0);
}

#[test]
fn device_pending_is_not_a_hard_failure() {
    let err = http(400, r#"{"error":"authorization_pending"}"#, None);
    assert_eq!(
        device_token_status_from_error(&err, parse),
        Some(DeviceTokenStatus::Pending)
    );
}

#[test]
fn device_denied_and_expired_are_terminal() {
    let denied = http(400, r#"{"error":"access_denied"}"#, None);
    let expired = http(400, r#"{"error":"expired_token"}"#, None);
    assert_eq!(
        device_token_status_from_error(&denied, parse),
        Some(DeviceTokenStatus::Denied)
    );
    assert_eq!(
        device_token_status_from_error(&expired, parse),
        Some(DeviceTokenStatus::Expired)
    );
}

#[test]
fn device_errors_are_read_from_the_body_first() {
    let err = http(400, "access_denied", Some(r#"{"error":"slow_down"}"#));
    assert_eq!(
        device_token_status_from_error(&err, parse),
        Some(DeviceTokenStatus::SlowDown)
    );
    let err = http(418, "access_denied", Some(""));
    assert_eq!(
        device_token_status_from_error(&err, parse),
        Some(DeviceTokenStatus::Denied)
    );
    let err = http(404, "no such code", None);
    assert_eq!(
        device_token_status_from_error(&err, parse),
        Some(DeviceTokenStatus::Expired)
    );
    assert_eq!(
        device_token_status_from_error(&http(400, "no such code", None), parse),
        None
    );
    assert_eq!(
        device_token_status_from_error(&http(500, "access_denied", None), parse),
        None
    );
    assert_eq!(
        device_token_status_from_error(&ClientError::Unauthorized, parse),
        None
    );
}

#[test]
fn device_status_of_each_error() {
    assert_eq!(
        device_token_status(400, "invalid_grant"),
        Some(DeviceTokenStatus::Expired)
    );
    assert_eq!(
        device_token_status(418, "slow_down"),
        Some(DeviceTokenStatus::SlowDown)
    );
    assert_eq!(device_token_status(400, "something else"), None);
}

#[test]
fn scrobble_movie_body_omits_empty_ids() {
    let body = ScrobbleBody {
        movie: Some(TraktMovie {
            title: Some("Heat".into()),
            year: Some(1995),
            ids: ids_from_parts(Some("tt0113277".into()), Some(949), None),
        }),
        show: None,
        episode: None,
        progress: Value::from(12.5),
    };
    let json = scrobble_value(&body);
    assert_eq!(json["progress"], 12.5);
    assert_eq!(json["movie"]["ids"]["imdb"], "tt0113277");
    assert_eq!(json["movie"]["ids"]["tmdb"], 949);
    assert!(json["movie"]["ids"].get("tvdb").is_none());
    assert!(json.get("episode").is_none());
    assert_eq!(
        json,
        value(
            r#"{"movie":{"title":"Heat","year":1995,"ids":{"imdb":"tt0113277","tmdb":949}},
                "progress":12.5}"#
        )
    );
}

#[test]
fn scrobble_episode_body() {
    let body = ScrobbleBody {
        movie: None,
        show: Some(TraktShow {
            title: Some("The Wire".into()),
            year: None,
            ids: ids_from_parts(None, None, Some(79126)),
        }),
        episode: Some(TraktEpisode {
            season: Some(1),
            number: Some(-2),
            ids: TraktItemIds::default(),
        }),
        progress: Value::from(0.0),
    };
    assert_eq!(
        scrobble_value(&body),
        value(
            r#"{"show":{"title":"The Wire","ids":{"tvdb":79126}},
                "episode":{"season":1,"number":-2,"ids":{}},"progress":0.0}"#
        )
    );
}

#[test]
fn lists_without_items_are_left_out() {
    let movie = TraktMovie {
        title: None,
        year: None,
        ids: ids_from_parts(Some("tt1".into()), None, None),
    };
    let items = SyncItems {
        movies: vec![movie.clone(), TraktMovie::default()],
        ..SyncItems::default()
    };
    assert_eq!(
        sync_items_value(&items),
        value(r#"{"movies":[{"ids":{"imdb":"tt1"}},{"ids":{}}]}"#)
    );
    assert_eq!(sync_items_value(&SyncItems::default()), value("{}"));
    let rated = RatingsItems {
        movies: vec![RatedMovie { rating: 7, movie }],
        shows: vec![RatedShow {
            rating: 8,
            show: TraktShow::default(),
        }],
        episodes: vec![RatedEpisode {
            rating: 9,
            episode: TraktEpisode {
                season: Some(1),
                number: None,
                ids: TraktItemIds::default(),
            },
        }],
    };
    assert_eq!(
        ratings_items_value(&rated),
        value(
            r#"{"movies":[{"rating":7,"ids":{"imdb":"tt1"}}],
                "shows":[{"rating":8,"ids":{}}],
                "episodes":[{"rating":9,"season":1,"ids":{}}]}"#
        )
    );
}

#[test]
fn next_up_is_episode_after_last_watched() {
    let show = WatchedShow {
        plays: 3,
        last_watched_at: None,
        show: TraktShow::default(),
        seasons: vec![WatchedSeason {
            number: 1,
            episodes: vec![
                WatchedEpisode {
                    number: 1,
                    last_watched_at: None,
                },
                WatchedEpisode {
                    number: 2,
                    last_watched_at: None,
                },
            ],
        }],
    };
    assert_eq!(next_up_after_watched(&show), Some((1, 3)));
}

fn show_with(seasons: &[(i64, &[i64])]) -> WatchedShow {
    WatchedShow {
        plays: 1,
        last_watched_at: None,
        show: TraktShow::default(),
        seasons: seasons
            .iter()
            .map(|(number, episodes)| WatchedSeason {
                number: *number,
                episodes: episodes
                    .iter()
                    .map(|n| WatchedEpisode {
                        number: *n,
                        last_watched_at: None,
                    })
                    .collect(),
            })
            .collect(),
    }
}

#[test]
fn next_up_follows_the_last_watched_episode() {
    assert_eq!(
        next_up_after_watched(&show_with(&[(2, &[4, 1]), (1, &[9])])),
        Some((2, 5))
    );
    // A season of which nothing was watched does not count.
    assert_eq!(
        next_up_after_watched(&show_with(&[(1, &[1]), (2, &[])])),
        Some((1, 2))
    );
    // Of two seasons with the same number the one with the later episode counts.
    assert_eq!(
        next_up_after_watched(&show_with(&[(1, &[3]), (1, &[7])])),
        Some((1, 8))
    );
    assert_eq!(
        next_up_after_watched(&show_with(&[(1, &[7, 2]), (1, &[3])])),
        Some((1, 8))
    );
}

#[test]
fn nothing_is_next_where_nothing_was_watched() {
    assert_eq!(next_up_after_watched(&show_with(&[])), None);
    assert_eq!(
        next_up_after_watched(&show_with(&[(1, &[]), (2, &[])])),
        None
    );
}

#[test]
fn requests_and_answers_can_be_copied() {
    let e = ScrobbleEndpoint {
        action: ScrobbleAction::Stop,
        body: ScrobbleBody {
            movie: Some(TraktMovie {
                title: Some("Heat".into()),
                year: Some(1995),
                ids: ids_from_parts(None, Some(949), None),
            }),
            show: None,
            episode: None,
            progress: Value::from(12.5),
        },
    };
    let copy = e.clone();
    assert_eq!(copy.action, e.action);
    assert_eq!(copy.body, e.body);
    let result = SyncResult {
        added: Some(value(r#"{"movies":1}"#)),
        deleted: None,
    };
    let copy = result.clone();
    assert_eq!(copy.added, result.added);
    assert_eq!(copy.deleted, None);
    let show = show_with(&[(1, &[2])]);
    assert_eq!(next_up_after_watched(&show.clone()), Some((1, 3)));
}

#[test]
fn ids_are_empty_only_without_any() {
    assert!(TraktItemIds::default().is_empty());
    assert!(!ids_from_parts(None, None, Some(1)).is_empty());
    let slug = TraktItemIds {
        slug: Some("heat".into()),
        ..TraktItemIds::default()
    };
    assert!(!slug.is_empty());
}

#[test]
fn requests_carry_the_key_and_the_token() {
    let auth = TraktAuth {
        client_id: "key".into(),
        access_token: Some("at".into()),
    };
    let r = auth.apply();
    let headers: Vec<(&str, &str)> = r
        .headers
        .iter()
        .map(|(n, v)| (n.as_str(), v.as_str()))
        .collect();
    assert_eq!(
        headers,
        vec![
            ("trakt-api-key", "key"),
            ("trakt-api-version", "2"),
            ("User-Agent", "remux/1.0"),
        ]
    );
    assert_eq!(r.bearer.as_deref(), Some("at"));
}

#[test]
fn clients_take_absolute_addresses_only() {
    let client = trakt_user_client("key", Some("at"), DEFAULT_BASE_URL).unwrap();
    assert_eq!(client.base_url, "https://api.trakt.tv/");
    assert_eq!(client.max_retries, 3);
    assert_eq!(client.auth.client_id, "key");
    assert_eq!(client.auth.access_token.as_deref(), Some("at"));
    let client = trakt_client("key", "HTTP://Example.Test/a/../b").unwrap();
    assert_eq!(client.base_url, "http://example.test/b");
    assert!(client.auth.access_token.is_none());
    let err = trakt_client("key", "not a url").unwrap_err();
    assert_eq!(err.message, "relative URL without a base");
    assert_eq!(RestClient::new(DEFAULT_BASE_URL).unwrap().max_retries, 0);
}

fn body_of<E: Endpoint>(e: &E) -> Value {
    match e.body() {
        Body::Json(v) => v,
        Body::Empty => panic!("no body"),
    }
}

#[test]
fn login_endpoints() {
    let e = DeviceCodeEndpoint {
        client_id: "id".into(),
    };
    let r = request(&e);
    assert_eq!(r.path, "oauth/device/code");
    assert_eq!(r.method, Method::Post);
    assert_eq!(body_of(&e), value(r#"{"client_id":"id"}"#));
    let e = DeviceTokenEndpoint {
        code: "c".into(),
        client_id: "id".into(),
        client_secret: "s".into(),
    };
    assert_eq!(e.path(), "oauth/device/token");
    assert_eq!(
        body_of(&e),
        value(r#"{"code":"c","client_id":"id","client_secret":"s"}"#)
    );
    let e = RefreshTokenEndpoint {
        refresh_token: "rt".into(),
        client_id: "id".into(),
        client_secret: "s".into(),
    };
    assert_eq!(e.path(), "oauth/token");
    assert_eq!(
        body_of(&e),
        value(
            r#"{"refresh_token":"rt","client_id":"id","client_secret":"s",
                "redirect_uri":"urn:ietf:wg:oauth:2.0:oob","grant_type":"refresh_token"}"#
        )
    );
    let e = RevokeEndpoint {
        token: "at".into(),
        client_id: "id".into(),
        client_secret: "s".into(),
    };
    assert_eq!(e.path(), "oauth/revoke");
    assert_eq!(
        body_of(&e),
        value(r#"{"token":"at","client_id":"id","client_secret":"s"}"#)
    );
}

#[test]
fn reading_endpoints() {
    let r = request(&MoviePopularEndpoint { limit: 4 });
    assert_eq!(r.method, Method::Get);
    assert_eq!(r.path, "movies/popular");
    assert_eq!(r.query, vec![("limit".to_string(), 4)]);
    assert!(matches!(r.body, Body::Empty));
    assert_eq!(ShowPopularEndpoint { limit: 1 }.path(), "shows/popular");
    let e = MovieStatsEndpoint {
        imdb_id: "tt1".into(),
    };
    assert_eq!(e.path(), "movies/tt1/stats");
    let e = ShowStatsEndpoint {
        imdb_id: "tt2".into(),
    };
    assert_eq!(e.path(), "shows/tt2/stats");
    assert!(e.query_params().is_empty());
    assert_eq!(UserSettingsEndpoint.path(), "users/settings");
    assert_eq!(LastActivitiesEndpoint.path(), "sync/last_activities");
    let r = request(&WatchedMoviesEndpoint { page: 1, limit: 100 });
    assert_eq!(r.path, "sync/watched/movies");
    assert_eq!(
        r.query,
        vec![("page".to_string(), 1), ("limit".to_string(), 100)]
    );
    assert_eq!(
        WatchedShowsEndpoint { page: 1, limit: 100 }.path(),
        "sync/watched/shows"
    );
    assert_eq!(
        HistoryEpisodesEndpoint { page: 2, limit: 100 }.path(),
        "sync/history/episodes"
    );
    assert_eq!(
        WatchlistEndpoint { page: 1, limit: 100 }.path(),
        "sync/watchlist"
    );
    assert_eq!(
        RatingsEndpoint { page: 1, limit: 100 }.path(),
        "sync/ratings"
    );
    assert_eq!(PlaybackEndpoint.path(), "sync/playback");
    assert_eq!(WatchingEndpoint.path(), "users/me/watching");
}

#[test]
fn writing_endpoints() {
    let body = || ScrobbleBody {
        movie: None,
        show: None,
        episode: None,
        progress: Value::from(1.0),
    };
    for (action, path) in [
        (ScrobbleAction::Start, "scrobble/start"),
        (ScrobbleAction::Pause, "scrobble/pause"),
        (ScrobbleAction::Stop, "scrobble/stop"),
    ] {
        let e = ScrobbleEndpoint {
            action,
            body: body(),
        };
        assert_eq!(e.path(), path);
        assert_eq!(e.method(), Method::Post);
        assert_eq!(body_of(&e), value(r#"{"progress":1.0}"#));
    }
    for (remove, suffix) in [(false, ""), (true, "/remove")] {
        let e = SyncHistoryEndpoint {
            remove,
            items: SyncItems::default(),
        };
        assert_eq!(e.path(), format!("sync/history{suffix}"));
        let e = SyncWatchlistEndpoint {
            remove,
            items: SyncItems::default(),
        };
        assert_eq!(e.path(), format!("sync/watchlist{suffix}"));
        let e = SyncFavoritesEndpoint {
            remove,
            items: SyncItems::default(),
        };
        assert_eq!(e.path(), format!("sync/favorites{suffix}"));
        let e = SyncRatingsEndpoint {
            remove,
            items: RatingsItems::default(),
        };
        assert_eq!(e.path(), format!("sync/ratings{suffix}"));
        assert_eq!(e.method(), Method::Post);
        assert_eq!(body_of(&e), value("{}"));
    }
}
