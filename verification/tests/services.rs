use remux_trackers::double::Double;
use remux_trackers::ids::ExternalIds;
use remux_trackers::import::{
    apply_remote_watches, effects, import_resume, position, Effect, Import, ImportReply,
    ImportStage, ImportStep, Lookup, LookupReply, Position, INCREMENTAL_NEW_TITLES_PER_SYNC,
};
use remux_trackers::media::Media;
use remux_trackers::subscriber::{
    DeliveryMode, DeliveryReply, Event, EventType, Handling, HandlingReply, MarkInfo,
    MediaTrackerSubscriber, PlaybackContext, RatingInfo, Stage, TrackerAddons,
};
use remux_trackers::sync::{MediaTrackerSyncTask, SyncReply, SyncRun, SyncStage, SyncStep, TaskCategory};
use remux_trackers::time::Timestamp;
use remux_trackers::tracker::{
    AuthFlow, MediaKind, MediaTrackerCapabilities, MediaTrackerCredentials, MediaTrackerError,
    MediaTrackerEvent, MediaTrackerEventKind, MediaTrackerStatus, MediaTrackerTarget, RemoteWatch,
    ServiceError, SyncDirection, UserMediaTracker,
};
use serde_json::Value;

const USER: u128 = 11;
const MOVIE: u128 = 22;

fn double(x: f64) -> Double {
    Double { bits: x.to_bits() }
}

fn capabilities(supported_events: Vec<MediaTrackerEventKind>) -> MediaTrackerCapabilities {
    MediaTrackerCapabilities {
        auth_flow: AuthFlow::ConnectFields,
        connect_fields: Vec::new(),
        supported_events,
        default_event_filter: Vec::new(),
        history_import: false,
        progress_import: false,
        watch_state_sync: SyncDirection::Off,
        favorites: SyncDirection::Off,
        ratings: SyncDirection::Off,
        watchlist: SyncDirection::Off,
    }
}

fn everything() -> Vec<MediaTrackerEventKind> {
    vec![
        MediaTrackerEventKind::PlaybackStart,
        MediaTrackerEventKind::PlaybackProgress,
        MediaTrackerEventKind::PlaybackStop,
        MediaTrackerEventKind::MarkPlayed,
        MediaTrackerEventKind::MarkUnplayed,
        MediaTrackerEventKind::MarkFavorite,
        MediaTrackerEventKind::UnmarkFavorite,
        MediaTrackerEventKind::Rating,
    ]
}

fn addons() -> TrackerAddons {
    TrackerAddons {
        entries: vec![(1, capabilities(everything())), (2, capabilities(everything()))],
    }
}

fn secret(text: &str) -> MediaTrackerCredentials {
    MediaTrackerCredentials::new(Value::from(text))
}

fn tracker(
    id: u128,
    addon_id: u128,
    status: MediaTrackerStatus,
    filters: Vec<MediaTrackerEventKind>,
) -> UserMediaTracker {
    let mut t = UserMediaTracker::new(id, USER, addon_id, secret("old"), filters);
    t.status = status;
    t
}

fn movie() -> Media {
    Media {
        id: MOVIE,
        title: "Heat".into(),
        kind: MediaKind::Movie,
        released_at: None,
        external_ids: ExternalIds {
            tmdb: Some(949),
            ..ExternalIds::default()
        },
        parent_idx: None,
        idx: None,
        runtime: Some(1000),
        grandparent_id: None,
    }
}

fn target() -> MediaTrackerTarget {
    MediaTrackerTarget {
        kind: MediaKind::Movie,
        title: "Heat".into(),
        year: None,
        ids: movie().external_ids,
        series: None,
        season: None,
        episode: None,
        runtime_ticks: None,
    }
}

fn mark_played() -> Event {
    Event::MarkPlayed(MarkInfo {
        user_id: USER,
        media_id: MOVIE,
    })
}

fn resume(state: Handling, reply: HandlingReply) -> Handling {
    MediaTrackerSubscriber.resume(state, &addons(), reply)
}

fn deliver(state: Handling, reply: DeliveryReply) -> Handling {
    resume(state, HandlingReply::Delivery(reply))
}

fn stage(state: &Handling) -> (usize, &Stage) {
    match state {
        Handling::Delivering(d) => (d.index, &d.stage),
        other => panic!("{other:?}"),
    }
}

/// Handles an event up to where the trackers are told.
fn delivering(event: Event, trackers: Vec<UserMediaTracker>) -> Handling {
    let state = MediaTrackerSubscriber.handle(event, &addons());
    match &state {
        Handling::Listing { notice } => {
            assert_eq!((notice.user_id, notice.media_id), (USER, MOVIE));
        }
        other => panic!("{other:?}"),
    }
    let state = resume(state, HandlingReply::Listed(Ok(trackers)));
    let state = resume(state, HandlingReply::Loaded(Ok(Some(movie()))));
    assert!(matches!(state, Handling::Resolving { .. }));
    resume(state, HandlingReply::Resolved(Ok(Some(target()))))
}

fn connected(id: u128, addon_id: u128) -> UserMediaTracker {
    tracker(
        id,
        addon_id,
        MediaTrackerStatus::Connected,
        vec![MediaTrackerEventKind::MarkPlayed],
    )
}

#[test]
fn subscriber_delivers_to_connected_trackers() {
    let state = delivering(mark_played(), vec![connected(5, 1)]);
    assert!(matches!(stage(&state), (0, Stage::Looking)));
    let state = deliver(state, DeliveryReply::Found(true));
    match stage(&state) {
        (0, Stage::Delivering(c)) => assert_eq!(c.secret, Value::from("old")),
        other => panic!("{other:?}"),
    }
    match &state {
        Handling::Delivering(d) => assert_eq!(d.event, MediaTrackerEvent::MarkPlayed),
        other => panic!("{other:?}"),
    }
    let state = deliver(state, DeliveryReply::Delivered(Ok(())));
    assert!(matches!(stage(&state), (0, Stage::Marking)));
    let result = deliver(state, DeliveryReply::Marked);
    assert!(matches!(result, Handling::Done(Ok(()))));
}

#[test]
fn subscriber_ignores_playback_progress_for_mark_played_tracker() {
    let event = Event::PlaybackProgress(PlaybackContext {
        user_id: USER,
        media_id: MOVIE,
        position_ticks: 1000,
        is_paused: false,
        played: false,
    });
    let state = MediaTrackerSubscriber.handle(event, &addons());
    let result = resume(state, HandlingReply::Listed(Ok(vec![connected(5, 1)])));
    assert!(matches!(result, Handling::Done(Ok(()))));
}

#[test]
fn subscriber_says_what_it_is() {
    assert_eq!(MediaTrackerSubscriber.key(), "media_tracker");
    assert_eq!(
        MediaTrackerSubscriber.delivery_mode(),
        DeliveryMode::Persistent {
            max_retries: Some(12)
        }
    );
    assert_eq!(
        MediaTrackerSubscriber.events(),
        vec![
            EventType::PlaybackStarted,
            EventType::PlaybackProgress,
            EventType::PlaybackStopped,
            EventType::MarkPlayed,
            EventType::MarkUnplayed,
            EventType::MarkFavorite,
            EventType::UnmarkFavorite,
            EventType::Rating,
        ]
    );
}

#[test]
fn events_become_what_trackers_are_told() {
    let playback = PlaybackContext {
        user_id: USER,
        media_id: MOVIE,
        position_ticks: 7,
        is_paused: true,
        played: true,
    };
    let info = MarkInfo {
        user_id: USER,
        media_id: MOVIE,
    };
    let cases = [
        (
            Event::PlaybackStarted(playback),
            MediaTrackerEvent::PlaybackStart { position_ticks: 7 },
        ),
        (
            Event::PlaybackProgress(playback),
            MediaTrackerEvent::PlaybackProgress {
                position_ticks: 7,
                is_paused: true,
            },
        ),
        (
            Event::PlaybackStopped(playback),
            MediaTrackerEvent::PlaybackStop {
                position_ticks: 7,
                played: true,
            },
        ),
        (Event::MarkUnplayed(info), MediaTrackerEvent::MarkUnplayed),
        (Event::MarkFavorite(info), MediaTrackerEvent::MarkFavorite),
        (
            Event::UnmarkFavorite(info),
            MediaTrackerEvent::UnmarkFavorite,
        ),
        (
            Event::Rating(RatingInfo {
                user_id: USER,
                media_id: MOVIE,
                rating: Some(double(8.0)),
            }),
            MediaTrackerEvent::Rating {
                rating: Some(double(8.0)),
            },
        ),
    ];
    for (event, told) in cases {
        match MediaTrackerSubscriber.handle(event, &addons()) {
            Handling::Listing { notice } => assert_eq!(notice.event, told),
            other => panic!("{other:?}"),
        }
    }
    let none = TrackerAddons {
        entries: Vec::new(),
    };
    assert!(matches!(
        MediaTrackerSubscriber.handle(Event::Other, &addons()),
        Handling::Done(Ok(()))
    ));
    assert!(matches!(
        MediaTrackerSubscriber.handle(mark_played(), &none),
        Handling::Done(Ok(()))
    ));
}

#[test]
fn only_wanted_trackers_are_told() {
    let failing = tracker(
        1,
        1,
        MediaTrackerStatus::Failing,
        vec![MediaTrackerEventKind::MarkPlayed],
    );
    let trackers = vec![
        failing,
        tracker(
            2,
            1,
            MediaTrackerStatus::Connected,
            vec![MediaTrackerEventKind::Rating],
        ),
        connected(3, 9),
        connected(4, 2),
        connected(5, 1),
    ];
    let some = TrackerAddons {
        entries: vec![
            (1, capabilities(everything())),
            (2, capabilities(vec![MediaTrackerEventKind::Rating])),
            (2, capabilities(everything())),
        ],
    };
    let state = MediaTrackerSubscriber.handle(mark_played(), &some);
    let state = MediaTrackerSubscriber.resume(state, &some, HandlingReply::Listed(Ok(trackers)));
    match state {
        Handling::Loading { wanted, .. } => {
            let ids: Vec<u128> = wanted.iter().map(|t| t.id).collect();
            assert_eq!(ids, vec![5]);
        }
        other => panic!("{other:?}"),
    }
}

#[test]
fn events_without_a_title_are_dropped() {
    let listed = || {
        let state = MediaTrackerSubscriber.handle(mark_played(), &addons());
        resume(state, HandlingReply::Listed(Ok(vec![connected(5, 1)])))
    };
    let state = resume(listed(), HandlingReply::Loaded(Ok(None)));
    assert!(matches!(state, Handling::Done(Ok(()))));
    let state = resume(listed(), HandlingReply::Loaded(Err("db".into())));
    assert!(matches!(state, Handling::Done(Err(ServiceError::Other(_)))));
    let loaded = || resume(listed(), HandlingReply::Loaded(Ok(Some(movie()))));
    let state = resume(loaded(), HandlingReply::Resolved(Ok(None)));
    assert!(matches!(state, Handling::Done(Ok(()))));
    let state = resume(loaded(), HandlingReply::Resolved(Err("offline".into())));
    match state {
        Handling::Done(Err(e)) => assert_eq!(e.message(), "offline"),
        other => panic!("{other:?}"),
    }
    let state = MediaTrackerSubscriber.handle(mark_played(), &addons());
    let state = resume(state, HandlingReply::Listed(Err("db".into())));
    assert!(matches!(state, Handling::Done(Err(_))));
}

#[test]
fn refused_credentials_are_renewed_once() {
    let state = delivering(mark_played(), vec![connected(5, 1)]);
    let state = deliver(state, DeliveryReply::Found(true));
    let refused = || MediaTrackerError::reauth("rejected".into());
    let state = deliver(state, DeliveryReply::Delivered(Err(refused())));
    match stage(&state) {
        (0, Stage::Renewing(c)) => assert_eq!(c.secret, Value::from("old")),
        other => panic!("{other:?}"),
    }
    let state = deliver(state, DeliveryReply::Refreshed(Ok(secret("new"))));
    assert!(matches!(stage(&state), (0, Stage::Restoring(_))));
    // Whether or not they can be stored the event is delivered with them.
    let state = deliver(state, DeliveryReply::Stored(Err("disk full".into())));
    match stage(&state) {
        (0, Stage::Redelivering(c)) => assert_eq!(c.secret, Value::from("new")),
        other => panic!("{other:?}"),
    }
    let state = deliver(state, DeliveryReply::Delivered(Err(refused())));
    match state {
        Handling::Done(Err(e)) => assert_eq!(e.message(), "rejected"),
        other => panic!("{other:?}"),
    }
}

#[test]
fn credentials_that_end_soon_are_renewed_first() {
    let mut t = connected(5, 1);
    let text = r#"{"created_at":1,"expires_in":60}"#;
    t.credentials = MediaTrackerCredentials::new(serde_json::from_str(text).unwrap());
    let state = delivering(mark_played(), vec![t]);
    let state = deliver(state, DeliveryReply::Found(true));
    assert!(matches!(stage(&state), (0, Stage::Refreshing(_))));
    let state = deliver(state, DeliveryReply::Refreshed(Ok(secret("new"))));
    assert!(matches!(stage(&state), (0, Stage::Storing(_))));
    let state = deliver(state, DeliveryReply::Stored(Ok(())));
    match stage(&state) {
        (0, Stage::Delivering(c)) => assert_eq!(c.secret, Value::from("new")),
        other => panic!("{other:?}"),
    }
}

#[test]
fn a_failure_does_not_keep_the_others_from_being_told() {
    let state = delivering(
        mark_played(),
        vec![connected(5, 1), connected(6, 2), connected(7, 1)],
    );
    let state = deliver(state, DeliveryReply::Found(true));
    let down = MediaTrackerError::retryable("down".into());
    let state = deliver(state, DeliveryReply::Delivered(Err(down)));
    assert!(matches!(stage(&state), (1, Stage::Looking)));
    // The addon is gone.
    let state = deliver(state, DeliveryReply::Found(false));
    assert!(matches!(stage(&state), (2, Stage::Looking)));
    let state = deliver(state, DeliveryReply::Found(true));
    let state = deliver(state, DeliveryReply::Delivered(Ok(())));
    match deliver(state, DeliveryReply::Marked) {
        Handling::Done(Err(e)) => assert_eq!(e.message(), "down"),
        other => panic!("{other:?}"),
    }
}

fn watch(tmdb: i64) -> RemoteWatch {
    RemoteWatch {
        ids: ExternalIds {
            tmdb: Some(tmdb),
            ..ExternalIds::default()
        },
        season: None,
        episode: None,
        watched: false,
        position_ticks: None,
        progress_percent: None,
        watched_at: None,
        favorite: None,
        rating: None,
    }
}

fn go(step: ImportStep) -> Import {
    match step {
        ImportStep::Go(s) => s,
        ImportStep::Done(r) => panic!("{r:?}"),
    }
}

fn count(step: ImportStep) -> usize {
    match step {
        ImportStep::Done(r) => r.unwrap(),
        ImportStep::Go(_) => panic!("not done"),
    }
}

fn start(watches: Vec<RemoteWatch>, max_new_titles: usize) -> ImportStep {
    import_resume(
        apply_remote_watches(watches, max_new_titles),
        ImportReply::User(Ok(true)),
    )
}

fn found_id(s: Import, id: Option<u128>) -> ImportStep {
    import_resume(s, ImportReply::Lookup(LookupReply::Id(id)))
}

fn found_row(s: Import, row: Option<Media>) -> ImportStep {
    import_resume(s, ImportReply::Lookup(LookupReply::Row(Ok(row))))
}

fn applied(s: Import) -> ImportStep {
    import_resume(s, ImportReply::Applied(Ok(true)))
}

fn effect(s: &Import) -> Effect {
    match &s.stage {
        ImportStage::Applying { effects, next, .. } => effects[*next],
        other => panic!("{other:?}"),
    }
}

#[test]
fn import_stamps_trakt_watched_at_not_now() {
    // 2026-07-15 17:43:00
    let watched_at = Timestamp {
        secs: 1_784_137_380,
        nanos: 0,
    };
    let mut w = watch(1438);
    w.season = Some(1);
    w.episode = Some(1);
    w.watched = true;
    w.watched_at = Some(watched_at);
    let s = go(start(vec![w], usize::MAX));
    assert!(matches!(
        s.stage,
        ImportStage::Lookup {
            again: false,
            at: Lookup::SeriesOf {
                season: 1,
                episode: 1
            }
        }
    ));
    let s = go(found_id(s, Some(70)));
    match &s.stage {
        ImportStage::Lookup { at, .. } => assert_eq!(
            *at,
            Lookup::Episode {
                series_id: 70,
                season: 1,
                episode: 1
            }
        ),
        other => panic!("{other:?}"),
    }
    let s = go(found_row(s, Some(movie())));
    assert_eq!(effect(&s), Effect::MarkPlayed);
    let s = go(applied(s));
    assert_eq!(effect(&s), Effect::Stamp(watched_at));
    assert_eq!(count(applied(s)), 1);
}

#[test]
fn import_without_a_user_does_nothing() {
    let s = apply_remote_watches(vec![watch(1)], 5);
    assert_eq!(count(import_resume(s, ImportReply::User(Ok(false)))), 0);
    let s = apply_remote_watches(vec![watch(1)], 5);
    match import_resume(s, ImportReply::User(Err("db".into()))) {
        ImportStep::Done(r) => assert_eq!(r.unwrap_err(), "db"),
        ImportStep::Go(_) => panic!("not done"),
    }
    assert_eq!(count(start(Vec::new(), 5)), 0);
}

#[test]
fn all_that_is_said_of_a_title_is_done_in_order() {
    let at = Timestamp { secs: 5, nanos: 0 };
    let mut w = watch(949);
    w.watched = true;
    w.watched_at = Some(at);
    w.progress_percent = Some(double(25.0));
    w.favorite = Some(true);
    w.rating = Some(double(7.5));
    let all = effects(&w, Some(1000));
    assert_eq!(
        all,
        vec![
            Effect::MarkPlayed,
            Effect::UpdatePlayback(Position::Share {
                percent: double(25.0),
                runtime: 1000
            }),
            Effect::SetFavorite(true),
            Effect::SetRating(double(7.5)),
            Effect::Stamp(at),
        ]
    );
    let s = go(start(vec![w, watch(1)], 5));
    let s = go(found_id(s, Some(MOVIE)));
    let s = go(found_id(s, None));
    let mut s = go(found_row(s, Some(movie())));
    for e in all {
        assert_eq!(effect(&s), e);
        // The library does not take the rating.
        let taken = e != Effect::SetRating(double(7.5));
        s = go(import_resume(s, ImportReply::Applied(Ok(taken))));
    }
    assert_eq!((s.index, s.applied), (1, 3));
    let s = go(found_id(s, None));
    assert_eq!(count(found_id(s, None)), 3);
}

#[test]
fn positions_of_titles() {
    let mut w = watch(1);
    assert_eq!(position(&w, Some(100)), None);
    w.position_ticks = Some(9_999);
    assert_eq!(position(&w, None), None);
    w.position_ticks = Some(10_000);
    assert_eq!(position(&w, None), Some(Position::Ticks(10_000)));
    w.progress_percent = Some(double(0.0));
    assert_eq!(position(&w, None), Some(Position::Ticks(10_000)));
    w.position_ticks = Some(3);
    w.progress_percent = Some(double(0.5));
    assert_eq!(position(&w, Some(100)), Some(Position::Ticks(3)));
    w.position_ticks = None;
    assert_eq!(position(&w, None), Some(Position::Ticks(10_000_000)));
    assert_eq!(
        position(&w, Some(100)),
        Some(Position::Share {
            percent: double(0.5),
            runtime: 100
        })
    );
}

/// Looks for a movie that is nowhere.
fn nowhere(s: Import) -> ImportStep {
    let s = go(found_id(s, None));
    found_id(s, None)
}

#[test]
fn missing_titles_are_added_once_and_up_to_the_limit() {
    let seen = |tmdb| {
        let mut w = watch(tmdb);
        w.watched = true;
        w
    };
    let mut unwatched = watch(8);
    unwatched.rating = Some(double(3.0));
    let mut no_id = seen(0);
    no_id.ids = ExternalIds::default();
    let s = go(start(
        vec![unwatched, no_id, seen(1), seen(1), seen(2), seen(3)],
        2,
    ));
    // Not watched: not added.
    let s = go(nowhere(s));
    assert_eq!(s.index, 1);
    // No id by which it could be added: looked for once more.
    let s = go(nowhere(s));
    assert!(matches!(s.stage, ImportStage::Lookup { again: true, .. }));
    let s = go(nowhere(s));
    assert_eq!(s.index, 2);
    let s = go(nowhere(s));
    assert!(matches!(
        s.stage,
        ImportStage::Known {
            tmdb: 1,
            kind: MediaKind::Movie
        }
    ));
    let s = go(import_resume(s, ImportReply::Known(None)));
    match &s.stage {
        ImportStage::Persisting { tmdb, stub } => {
            assert_eq!(*tmdb, 1);
            assert_eq!(stub.title, "tmdb:1");
            assert_eq!(stub.kind, MediaKind::Movie);
            assert_eq!(stub.external_ids.tmdb, Some(1));
        }
        other => panic!("{other:?}"),
    }
    let s = go(import_resume(s, ImportReply::Persisted));
    assert_eq!(s.persisted, 1);
    assert!(matches!(s.stage, ImportStage::Lookup { again: true, .. }));
    let s = go(nowhere(s));
    assert_eq!(s.index, 3);
    // Tried already.
    let s = go(nowhere(s));
    assert!(matches!(s.stage, ImportStage::Lookup { again: true, .. }));
    let s = go(nowhere(s));
    let s = go(nowhere(s));
    assert!(matches!(s.stage, ImportStage::Known { tmdb: 2, .. }));
    let s = go(import_resume(s, ImportReply::Known(None)));
    let s = go(import_resume(s, ImportReply::Persisted));
    let s = go(nowhere(s));
    assert_eq!((s.index, s.persisted), (5, 2));
    // No room for another.
    let s = go(nowhere(s));
    assert!(matches!(s.stage, ImportStage::Lookup { again: true, .. }));
    assert_eq!(count(nowhere(s)), 0);
}

#[test]
fn titles_known_under_another_kind_are_not_added() {
    let mut w = watch(1);
    w.watched = true;
    w.season = Some(2);
    let s = go(start(vec![w], 5));
    let s = go(nowhere(s));
    assert!(matches!(
        s.stage,
        ImportStage::Known {
            tmdb: 1,
            kind: MediaKind::Series
        }
    ));
    let s = go(import_resume(s, ImportReply::Known(Some(3))));
    assert_eq!(s.persisted, 0);
    let s = go(found_id(s, None));
    let s = go(found_id(s, Some(3)));
    assert!(matches!(
        s.stage,
        ImportStage::Lookup {
            again: true,
            at: Lookup::Row { id: 3 }
        }
    ));
    match import_resume(s, ImportReply::Lookup(LookupReply::Row(Err("db".into())))) {
        ImportStep::Done(r) => assert_eq!(r.unwrap_err(), "db"),
        ImportStep::Go(_) => panic!("not done"),
    }
}

#[test]
fn an_error_of_the_library_ends_the_import() {
    let mut w = watch(949);
    w.favorite = Some(false);
    let s = go(start(vec![w], 5));
    let s = go(found_id(s, Some(MOVIE)));
    let s = go(found_id(s, Some(99)));
    let s = go(found_row(s, Some(movie())));
    assert_eq!(effect(&s), Effect::SetFavorite(false));
    match import_resume(s, ImportReply::Applied(Err("disk full".into()))) {
        ImportStep::Done(r) => assert_eq!(r.unwrap_err(), "disk full"),
        ImportStep::Go(_) => panic!("not done"),
    }
}

fn sync_go(step: SyncStep) -> SyncRun {
    match step {
        SyncStep::Go(s) => s,
        SyncStep::Done(r) => panic!("{r:?}"),
    }
}

fn next(s: SyncRun, reply: SyncReply) -> SyncStep {
    MediaTrackerSyncTask.resume(s, reply)
}

#[test]
fn sync_task_says_what_it_is() {
    let task = MediaTrackerSyncTask;
    assert_eq!(task.key(), "MediaTrackerSync");
    assert_eq!(task.name(), "Sync Media Trackers");
    assert!(task.description().starts_with("Pulls Trakt last_activities"));
    assert_eq!(task.short_description(), "Keeps Trakt watch state in sync");
    assert_eq!(task.category(), TaskCategory::Users);
}

#[test]
fn sync_without_trackers_is_done() {
    let task = MediaTrackerSyncTask;
    assert!(matches!(task.run(Ok(Vec::new())), SyncStep::Done(Ok(()))));
    assert!(matches!(
        task.run(Err("db".into())),
        SyncStep::Done(Err(_))
    ));
}

#[test]
fn the_first_sync_reads_all() {
    let s = sync_go(MediaTrackerSyncTask.run(Ok(vec![connected(5, 1)])));
    assert!(matches!(s.stage, SyncStage::Looking));
    let s = sync_go(next(s, SyncReply::Found(true)));
    assert!(matches!(s.stage, SyncStage::Importing(_)));
    let s = sync_go(next(s, SyncReply::Imported(Ok(vec![watch(1)]))));
    match &s.stage {
        SyncStage::Applying {
            watches,
            max_new_titles,
        } => {
            assert_eq!(watches.len(), 1);
            assert_eq!(*max_new_titles, usize::MAX);
        }
        other => panic!("{other:?}"),
    }
    let s = sync_go(next(s, SyncReply::Applied(Ok(1))));
    assert!(matches!(s.stage, SyncStage::Succeeded));
    assert!(matches!(
        next(s, SyncReply::Marked),
        SyncStep::Done(Ok(()))
    ));
}

#[test]
fn a_later_sync_reads_what_has_changed() {
    let at = |secs| Timestamp { secs, nanos: 0 };
    let begin = || {
        let mut t = connected(5, 1);
        t.last_success_at = Some(at(100));
        let s = sync_go(MediaTrackerSyncTask.run(Ok(vec![t, connected(6, 2)])));
        let s = sync_go(next(s, SyncReply::Found(true)));
        assert!(matches!(s.stage, SyncStage::Activity(_)));
        s
    };
    let s = sync_go(next(begin(), SyncReply::Activity(Ok(Some(at(100))))));
    assert_eq!(s.index, 1);
    assert!(matches!(s.stage, SyncStage::Looking));
    let down = MediaTrackerError::retryable("down".into());
    for reply in [Ok(Some(at(101))), Ok(None), Err(down)] {
        let s = sync_go(next(begin(), SyncReply::Activity(reply)));
        assert_eq!(s.index, 0);
        let s = sync_go(next(s, SyncReply::Imported(Ok(Vec::new()))));
        match &s.stage {
            SyncStage::Applying { max_new_titles, .. } => {
                assert_eq!(*max_new_titles, INCREMENTAL_NEW_TITLES_PER_SYNC);
                assert_eq!(*max_new_titles, 5);
            }
            other => panic!("{other:?}"),
        }
    }
}

#[test]
fn a_tracker_that_fails_does_not_stop_the_sync() {
    let mut old = connected(4, 1);
    let text = r#"{"created_at":1,"expires_in":60}"#;
    old.credentials = MediaTrackerCredentials::new(serde_json::from_str(text).unwrap());
    let trackers = vec![old, connected(5, 1), connected(6, 2), connected(7, 2)];
    let s = sync_go(MediaTrackerSyncTask.run(Ok(trackers)));
    let s = sync_go(next(s, SyncReply::Found(true)));
    assert!(matches!(s.stage, SyncStage::Refreshing(_)));
    let no = MediaTrackerError::reauth("no".into());
    let s = sync_go(next(s, SyncReply::Refreshed(Err(no))));
    assert_eq!(s.index, 1);
    let s = sync_go(next(s, SyncReply::Found(true)));
    let down = MediaTrackerError::retryable("down".into());
    let s = sync_go(next(s, SyncReply::Imported(Err(down))));
    match &s.stage {
        SyncStage::Failed(e) => assert_eq!(e.message(), "down"),
        other => panic!("{other:?}"),
    }
    let s = sync_go(next(s, SyncReply::Marked));
    let s = sync_go(next(s, SyncReply::Found(false)));
    assert_eq!(s.index, 3);
    let s = sync_go(next(s, SyncReply::Found(true)));
    let s = sync_go(next(s, SyncReply::Imported(Ok(Vec::new()))));
    match next(s, SyncReply::Applied(Err("disk full".into()))) {
        SyncStep::Done(r) => assert_eq!(r.unwrap_err(), "disk full"),
        SyncStep::Go(s) => panic!("{s:?}"),
    }
}

#[test]
fn renewed_credentials_are_used_for_the_sync() {
    let mut old = connected(4, 1);
    let text = r#"{"created_at":1,"expires_in":60}"#;
    old.credentials = MediaTrackerCredentials::new(serde_json::from_str(text).unwrap());
    let s = sync_go(MediaTrackerSyncTask.run(Ok(vec![old])));
    let s = sync_go(next(s, SyncReply::Found(true)));
    let s = sync_go(next(s, SyncReply::Refreshed(Ok(secret("new")))));
    assert!(matches!(s.stage, SyncStage::Storing(_)));
    let s = sync_go(next(s, SyncReply::Stored(Ok(()))));
    match &s.stage {
        SyncStage::Importing(c) => assert_eq!(c.secret, Value::from("new")),
        other => panic!("{other:?}"),
    }
}
