use remux_trackers::credentials::{
    credentials_refreshed, credentials_stored, creds_expiring, creds_expiring_at,
    ensure_fresh_credentials, ensure_fresh_credentials_at, is_expiring, FreshStep,
};
use remux_trackers::double::Double;
use remux_trackers::ids::{ExternalIds, NonEmptyString};
use remux_trackers::media::{
    describe, resolve_target, series_among, series_loaded, series_of, Media, SeriesStep,
};
use remux_trackers::text::{contains_text, decimal_text, digits_text, join, same_text, trim};
use remux_trackers::time::{
    first_instant, parse_watched_at, seconds_or_zero, year_of, Timestamp,
};
use remux_trackers::tracker::{
    MediaKind, MediaTrackerCredentials, MediaTrackerError, ServiceError, UserMediaTracker,
};
use serde_json::Value;

fn creds(text: &str) -> MediaTrackerCredentials {
    MediaTrackerCredentials::new(serde_json::from_str::<Value>(text).unwrap())
}

fn double(x: f64) -> Double {
    Double { bits: x.to_bits() }
}

fn media(id: u128, kind: MediaKind) -> Media {
    Media {
        id,
        title: "title".into(),
        kind,
        released_at: None,
        external_ids: ExternalIds::default(),
        parent_idx: None,
        idx: None,
        runtime: None,
        grandparent_id: None,
    }
}

#[test]
fn texts() {
    assert!(same_text("ab", "ab"));
    assert!(!same_text("ab", "abc"));
    assert_eq!(join("ab", "cd"), "abcd");
    assert_eq!(trim(" \t a b\u{a0}\u{2003}\n"), "a b");
    assert!(contains_text("a conflict here", "conflict"));
    assert!(contains_text("abc", ""));
    assert!(!contains_text("conflic", "conflict"));
    assert_eq!(decimal_text(i64::MIN), i64::MIN.to_string());
    assert_eq!(decimal_text(0), "0");
    assert_eq!(digits_text(u64::MAX), u64::MAX.to_string());
}

#[test]
fn doubles_agree_with_floating_point() {
    let cases = [
        0.0, -0.0, 1e-310, 0.4, 1.0, 1.49999, 1.5, 2.4999999, 2.5, 3.5, 4.49, 4.5, 5.5, 6.5, 7.5,
        8.49, 8.5, 9.499999, 9.5, 10.0, 11.0, 250.0, -3.0, f64::INFINITY, f64::NEG_INFINITY,
        f64::NAN, -f64::NAN,
    ];
    for x in cases {
        assert_eq!(double(x).is_positive(), x > 0.0, "{x}");
        assert_eq!(double(x).to_points(), x.clamp(1.0, 10.0).round() as u8, "{x}");
    }
    assert_eq!(Double::one(), double(1.0));
    for n in 0..=u8::MAX {
        assert_eq!(Double::from_natural(n), double(n as f64));
    }
    for n in 1..=10 {
        assert_eq!(Double::from_natural(n).to_points(), n);
    }
}

#[test]
fn watched_at_is_read_as_rfc3339() {
    let at = parse_watched_at(Some("2026-07-15T17:43:00.250Z")).unwrap();
    assert_eq!((at.secs, at.nanos), (1_784_137_380, 250_000_000));
    let at = parse_watched_at(Some("2026-07-15T19:43:00+02:00")).unwrap();
    assert_eq!((at.secs, at.nanos), (1_784_137_380, 0));
    // Not RFC 3339: the day has one digit only.
    let at = parse_watched_at(Some("2026-7-5T17:43:00Z")).unwrap();
    assert_eq!((at.secs, at.nanos), (1_783_273_380, 0));
    assert_eq!(parse_watched_at(Some("yesterday")), None);
    assert_eq!(parse_watched_at(None), None);
}

#[test]
fn the_first_reading_counts() {
    let a = Some((1, 2));
    let b = Some((3, 4));
    let at = first_instant(a, b).unwrap();
    assert_eq!((at.secs, at.nanos), (1, 2));
    let at = first_instant(None, b).unwrap();
    assert_eq!((at.secs, at.nanos), (3, 4));
    assert_eq!(first_instant(None, None), None);
}

#[test]
fn a_clock_before_the_epoch_shows_zero() {
    assert_eq!(seconds_or_zero(Some(1_784_137_380)), 1_784_137_380);
    assert_eq!(seconds_or_zero(None), 0);
}

#[test]
fn years_of_instants() {
    let year = |secs: i64| year_of(&Timestamp { secs, nanos: 0 });
    assert_eq!(year(0), Some(1970));
    assert_eq!(year(-1), Some(1969));
    assert_eq!(year(951_868_800), Some(2000));
    assert_eq!(year(978_307_199), Some(2000));
    assert_eq!(year(978_307_200), Some(2001));
    assert_eq!(year(i64::MAX), None);
    assert_eq!(
        year_of(&Timestamp {
            secs: 0,
            nanos: 2_000_000_000
        }),
        None
    );
}

#[test]
fn years_at_the_ends_of_the_calendar() {
    let year = |secs: i64, nanos: u32| year_of(&Timestamp { secs, nanos });
    assert_eq!(year(-8_334_601_228_800, 0), Some(-262_143));
    assert_eq!(year(-8_334_601_228_801, 0), None);
    assert_eq!(year(8_210_266_876_799, 0), Some(262_142));
    assert_eq!(year(8_210_266_876_800, 0), None);
    // A leap second.
    assert_eq!(year(59, 1_500_000_000), Some(1970));
    assert_eq!(year(60, 1_500_000_000), None);
}

#[test]
fn white_space_is_that_of_unicode() {
    for c in '\0'..=char::MAX {
        assert_eq!(trim(&c.to_string()).is_empty(), c.is_whitespace(), "{c:?}");
    }
}

#[test]
fn credentials_expire_an_hour_early() {
    assert!(!is_expiring(1000, 7200, 4599));
    assert!(is_expiring(1000, 7200, 4600));
    // Not known since when, or for how long.
    assert!(!is_expiring(0, 3601, 1000));
    assert!(is_expiring(0, 3600, 1000));
    assert!(!is_expiring(1000, 0, 1000));
    assert!(is_expiring(1000, 0, 1000 + 604_800 - 3600));
    assert!(is_expiring(u64::MAX, u64::MAX, u64::MAX));
}

#[test]
fn credentials_are_read_from_the_secret() {
    let c = creds(r#"{"created_at":1000,"expires_in":7200}"#);
    assert!(!creds_expiring_at(&c, 4599));
    assert!(creds_expiring_at(&c, 4600));
    assert!(creds_expiring(&c));
    // What is missing or no unsigned integer does not count.
    let c = creds(r#"{"created_at":"1000","expires_in":-5}"#);
    assert!(!creds_expiring_at(&c, 4600));
    assert!(!creds_expiring(&c));
    assert!(!creds_expiring(&creds("null")));
}

fn tracker(credentials: MediaTrackerCredentials) -> UserMediaTracker {
    UserMediaTracker::new(1, 2, 3, credentials, Vec::new())
}

#[test]
fn fresh_credentials_are_left_alone() {
    let text = r#"{"created_at":1000,"expires_in":7200}"#;
    let t = tracker(creds(text));
    match ensure_fresh_credentials_at(&t, 2000) {
        FreshStep::Ready(c) => assert_eq!(c.secret, creds(text).secret),
        other => panic!("{other:?}"),
    }
    match ensure_fresh_credentials(&t) {
        FreshStep::Refresh(c) => assert_eq!(c.secret, creds(text).secret),
        other => panic!("{other:?}"),
    }
}

#[test]
fn renewed_credentials_are_stored_before_use() {
    let new = match credentials_refreshed(Ok(creds(r#""new""#))) {
        FreshStep::Store(c) => c,
        other => panic!("{other:?}"),
    };
    match credentials_stored(new, Ok(())) {
        FreshStep::Ready(c) => assert_eq!(c.secret, Value::from("new")),
        other => panic!("{other:?}"),
    }
    match credentials_stored(creds("1"), Err("disk full".into())) {
        FreshStep::Failed(ServiceError::Other(text)) => assert_eq!(text, "disk full"),
        other => panic!("{other:?}"),
    }
    let failed = credentials_refreshed(Err(MediaTrackerError::reauth("no".into())));
    match failed {
        FreshStep::Failed(e) => assert_eq!(e.message(), "no"),
        other => panic!("{other:?}"),
    }
}

/// The walk to the series follows the rows above, which an episode saved without a season row
/// above it does not have.
#[test]
fn a_flat_episode_still_reaches_its_series() {
    let mut series = media(7, MediaKind::Series);
    series.title = "The Wire".into();
    series.external_ids = ExternalIds {
        imdb: NonEmptyString::try_new("tt0306414".to_string()),
        tmdb: Some(1438),
        ..ExternalIds::default()
    };
    let mut episode = media(8, MediaKind::Episode);
    episode.title = "The Target".into();
    episode.grandparent_id = Some(series.id);
    episode.idx = Some(1);
    episode.parent_idx = Some(1);
    episode.external_ids = ExternalIds {
        imdb: NonEmptyString::try_new("tt0749451".to_string()),
        tvdb: Some(299034),
        ..ExternalIds::default()
    };
    assert!(matches!(series_of(&episode), SeriesStep::Ancestors));
    let id = match series_among(&episode, &Vec::new()) {
        SeriesStep::Load(id) => id,
        other => panic!("{other:?}"),
    };
    assert_eq!(id, series.id);
    let found = match series_loaded(Some(series)) {
        SeriesStep::Found(found) => found,
        other => panic!("{other:?}"),
    };
    let target = resolve_target(&episode, found.as_ref(), None)
        .unwrap()
        .expect("an episode alone identifies nothing");
    assert_eq!(
        target
            .series
            .expect("no season row is not no series")
            .ids
            .tmdb,
        Some(1438)
    );
}

#[test]
fn the_closest_series_is_found() {
    let mut episode = media(1, MediaKind::Episode);
    episode.grandparent_id = Some(9);
    let rows = vec![
        media(2, MediaKind::Season),
        media(3, MediaKind::Series),
        media(4, MediaKind::Series),
    ];
    match series_among(&episode, &rows) {
        SeriesStep::Found(Some(m)) => assert_eq!(m.id, 3),
        other => panic!("{other:?}"),
    }
    episode.grandparent_id = None;
    assert!(matches!(
        series_among(&episode, &vec![media(2, MediaKind::Season)]),
        SeriesStep::Found(None)
    ));
    assert!(matches!(
        series_of(&media(1, MediaKind::Movie)),
        SeriesStep::Found(None)
    ));
    assert!(matches!(
        series_loaded(Some(media(2, MediaKind::Season))),
        SeriesStep::Found(None)
    ));
    assert!(matches!(series_loaded(None), SeriesStep::Found(None)));
}

#[test]
fn completion_fails_only_what_nothing_matches() {
    let mut movie = media(1, MediaKind::Movie);
    assert!(resolve_target(&movie, None, None).unwrap().is_none());
    assert_eq!(
        resolve_target(&movie, None, Some("offline".into())).unwrap_err(),
        "offline"
    );
    movie.external_ids.tmdb = Some(949);
    let target = resolve_target(&movie, None, Some("offline".into()))
        .unwrap()
        .unwrap();
    assert_eq!(target.ids.tmdb, Some(949));
}

#[test]
fn rows_are_described() {
    let mut movie = media(1, MediaKind::Movie);
    movie.title = "Heat".into();
    movie.released_at = Some(Timestamp {
        secs: 819_000_000,
        nanos: 0,
    });
    movie.runtime = Some(100);
    movie.parent_idx = Some(2);
    movie.idx = Some(3);
    let t = describe(&movie, None);
    assert_eq!(t.kind, MediaKind::Movie);
    assert_eq!(t.title, "Heat");
    assert_eq!(t.year, Some(1995));
    assert_eq!((t.season, t.episode), (Some(2), Some(3)));
    assert_eq!(t.runtime_ticks, Some(100));
    assert!(t.series.is_none());
    assert!(!t.is_matchable());
}
