use remux_trackers::addon::calls::TraktAddon;
use remux_trackers::api::{
    begin_device_auth, device_auth_begun, disconnect_media_tracker, disconnect_resume,
    list_media_trackers, media_trackers_listed, poll_device_auth, poll_resume,
    require_self_or_admin, sync_media_tracker, sync_resume, ApiError, Disconnecting,
    DisconnectingReply, MediaTrackerDto, MediaTrackerSyncDto, Polling, PollingReply,
    Session, Syncing, SyncingReply,
};
use remux_trackers::dashboard::{timer_millis, AddonDto, PageState, Shown};
use remux_trackers::remux;
use remux_trackers::rest::{Body, Endpoint, Method};
use remux_trackers::time::Timestamp;
use remux_trackers::tracker::{
    DeviceAuthPoll, DeviceAuthStart, MediaTrackerCredentials, MediaTrackerError,
    MediaTrackerEventKind, MediaTrackerStatus, UserMediaTracker,
};
use serde_json::Value;

const ME: u128 = 1;
const OTHER: u128 = 2;
const ADDON: u128 = 3;

fn session(is_admin: bool) -> Session {
    Session {
        user_id: ME,
        is_admin,
    }
}

fn forbidden() -> ApiError {
    ApiError::Unauthorized("forbidden".into())
}

fn not_enabled() -> ApiError {
    ApiError::NotFound("Trakt addon is not enabled".into())
}

fn secret(text: &str) -> MediaTrackerCredentials {
    MediaTrackerCredentials::new(Value::from(text))
}

fn row() -> UserMediaTracker {
    let mut row = UserMediaTracker::new(9, ME, ADDON, secret("s"), Vec::new());
    row.last_success_at = Some(Timestamp { secs: 4, nanos: 0 });
    row.last_error = Some("oops".into());
    row.status = MediaTrackerStatus::Failing;
    row
}

fn trakt() -> TraktAddon {
    TraktAddon {
        client_id: "id".into(),
        client_secret: "s".into(),
        base_url: "https://example.test".into(),
    }
}

fn poll(user_id: u128, is_enabled: bool) -> Polling {
    let capabilities = if is_enabled {
        Some(trakt().capabilities())
    } else {
        None
    };
    poll_device_auth(9, user_id, ADDON, &session(false), capabilities)
}

#[test]
fn users_see_to_their_own_trackers() {
    assert!(require_self_or_admin(ME, &session(false)).is_ok());
    assert!(require_self_or_admin(OTHER, &session(true)).is_ok());
    assert_eq!(
        require_self_or_admin(OTHER, &session(false)).unwrap_err(),
        forbidden()
    );
}

#[test]
fn requests_about_others_are_refused_before_anything_is_done() {
    let s = session(false);
    assert_eq!(list_media_trackers(OTHER, &s).unwrap_err(), forbidden());
    for enabled in [true, false] {
        assert_eq!(
            begin_device_auth(OTHER, &s, enabled).unwrap_err(),
            forbidden()
        );
        match poll(OTHER, enabled) {
            Polling::Done(Err(e)) => assert_eq!(e, forbidden()),
            other => panic!("{other:?}"),
        }
        match sync_media_tracker(OTHER, &s, enabled) {
            Syncing::Done(Err(e)) => assert_eq!(e, forbidden()),
            other => panic!("{other:?}"),
        }
    }
    match disconnect_media_tracker(OTHER, &s) {
        Disconnecting::Done(Err(e)) => assert_eq!(e, forbidden()),
        other => panic!("{other:?}"),
    }
}

#[test]
fn requests_about_an_addon_that_is_not_set_up() {
    let s = session(false);
    assert_eq!(
        begin_device_auth(ME, &s, false).unwrap_err(),
        not_enabled()
    );
    assert!(begin_device_auth(ME, &s, true).is_ok());
    match poll(ME, false) {
        Polling::Done(Err(e)) => assert_eq!(e, not_enabled()),
        other => panic!("{other:?}"),
    }
    match sync_media_tracker(ME, &s, false) {
        Syncing::Done(Err(e)) => assert_eq!(e, not_enabled()),
        other => panic!("{other:?}"),
    }
}

#[test]
fn trackers_are_listed_without_their_credentials() {
    assert!(list_media_trackers(ME, &session(false)).is_ok());
    let out = media_trackers_listed(Ok(vec![row()])).unwrap();
    assert_eq!(out.len(), 1);
    assert_eq!((out[0].id, out[0].addon_id), (9, ADDON));
    assert_eq!(out[0].status, MediaTrackerStatus::Failing);
    assert_eq!(out[0].last_success_at, Some(Timestamp { secs: 4, nanos: 0 }));
    assert_eq!(out[0].last_error.as_deref(), Some("oops"));
    assert_eq!(
        media_trackers_listed(Err("db".into())).unwrap_err(),
        ApiError::Internal("db".into())
    );
    assert_eq!(MediaTrackerDto::from(row()).id, 9);
}

#[test]
fn device_logins_are_started() {
    let start = DeviceAuthStart {
        verification_url: "u".into(),
        user_code: "c".into(),
        poll_token: "t".into(),
        interval_secs: 5,
        expires_in_secs: 600,
    };
    let dto = device_auth_begun(Ok(start)).unwrap();
    assert_eq!(dto.verification_url, "u");
    assert_eq!(dto.user_code, "c");
    assert_eq!(dto.poll_token, "t");
    assert_eq!((dto.interval_seconds, dto.expires_in_seconds), (5, 600));
    let e = MediaTrackerError::retryable("down".into());
    assert_eq!(
        device_auth_begun(Err(e)).unwrap_err(),
        ApiError::Internal("down".into())
    );
}

fn asked(reply: Result<DeviceAuthPoll, MediaTrackerError>) -> Polling {
    let state = poll(ME, true);
    assert!(matches!(state, Polling::Asking { .. }));
    poll_resume(state, PollingReply::Asked(reply))
}

#[test]
fn logins_that_are_not_approved_change_nothing() {
    for (reply, status) in [
        (DeviceAuthPoll::Pending, "pending"),
        (DeviceAuthPoll::Denied, "denied"),
    ] {
        match asked(Ok(reply)) {
            Polling::Done(Ok(dto)) => {
                assert_eq!(dto.status, status);
                assert!(dto.connection.is_none());
            }
            other => panic!("{other:?}"),
        }
    }
    match asked(Err(MediaTrackerError::retryable("down".into()))) {
        Polling::Done(Err(e)) => assert_eq!(e, ApiError::Internal("down".into())),
        other => panic!("{other:?}"),
    }
}

#[test]
fn an_approved_login_is_a_connection() {
    let approved = || asked(Ok(DeviceAuthPoll::Approved(secret("s"))));
    match approved() {
        Polling::Storing { row } => {
            assert_eq!((row.id, row.user_id, row.addon_id), (9, ME, ADDON));
            assert_eq!(row.status, MediaTrackerStatus::Connected);
            assert_eq!(row.credentials.secret, Value::from("s"));
            assert_eq!(
                row.event_filter,
                vec![
                    MediaTrackerEventKind::PlaybackStart,
                    MediaTrackerEventKind::PlaybackProgress,
                    MediaTrackerEventKind::PlaybackStop,
                ]
            );
        }
        other => panic!("{other:?}"),
    }
    match poll_resume(approved(), PollingReply::Stored(Err("db".into()))) {
        Polling::Done(Err(e)) => assert_eq!(e, ApiError::Internal("db".into())),
        other => panic!("{other:?}"),
    }
    let answered = |state: Polling| match state {
        Polling::Done(Ok(dto)) => {
            assert_eq!(dto.status, "approved");
            assert_eq!(dto.connection.unwrap().id, 9);
        }
        other => panic!("{other:?}"),
    };
    let stored = || poll_resume(approved(), PollingReply::Stored(Ok(())));
    assert!(matches!(stored(), Polling::Importing { .. }));
    let e = MediaTrackerError::retryable("down".into());
    answered(poll_resume(stored(), PollingReply::Imported(Err(e))));
    let imported = || poll_resume(stored(), PollingReply::Imported(Ok(Vec::new())));
    match imported() {
        Polling::Applying { max_new_titles, .. } => assert_eq!(max_new_titles, usize::MAX),
        other => panic!("{other:?}"),
    }
    answered(poll_resume(imported(), PollingReply::Applied(Ok(3))));
    answered(poll_resume(
        imported(),
        PollingReply::Applied(Err("db".into())),
    ));
}

#[test]
fn a_user_synchronises() {
    let begin = || sync_media_tracker(ME, &session(false), true);
    assert!(matches!(begin(), Syncing::Loading));
    let failed = |state: Syncing, e: ApiError| match state {
        Syncing::Done(r) => assert_eq!(r.unwrap_err(), e),
        other => panic!("{other:?}"),
    };
    failed(
        sync_resume(begin(), SyncingReply::Loaded(Ok(None))),
        ApiError::NotFound("Trakt is not connected for this user".into()),
    );
    failed(
        sync_resume(begin(), SyncingReply::Loaded(Err("db".into()))),
        ApiError::Internal("db".into()),
    );
    let loaded = || sync_resume(begin(), SyncingReply::Loaded(Ok(Some(row()))));
    assert!(matches!(loaded(), Syncing::Importing { .. }));
    let e = MediaTrackerError::reauth("no".into());
    failed(
        sync_resume(loaded(), SyncingReply::Imported(Err(e))),
        ApiError::Internal("no".into()),
    );
    let imported = || sync_resume(loaded(), SyncingReply::Imported(Ok(Vec::new())));
    match imported() {
        Syncing::Applying { max_new_titles, .. } => assert_eq!(max_new_titles, usize::MAX),
        other => panic!("{other:?}"),
    }
    failed(
        sync_resume(imported(), SyncingReply::Applied(Err("db".into()))),
        ApiError::Internal("db".into()),
    );
    match sync_resume(imported(), SyncingReply::Applied(Ok(4))) {
        Syncing::Done(r) => assert_eq!(r.unwrap(), MediaTrackerSyncDto { applied: 4 }),
        other => panic!("{other:?}"),
    }
}

#[test]
fn a_connection_is_ended() {
    let begin = || disconnect_media_tracker(ME, &session(false));
    assert!(matches!(begin(), Disconnecting::Loading));
    let loaded = |enabled, reply| {
        disconnect_resume(begin(), enabled, DisconnectingReply::Loaded(reply))
    };
    assert!(matches!(
        loaded(true, Ok(None)),
        Disconnecting::Done(Ok(()))
    ));
    assert!(matches!(
        loaded(true, Err("db".into())),
        Disconnecting::Done(Err(_))
    ));
    assert!(matches!(
        loaded(false, Ok(Some(row()))),
        Disconnecting::Deleting { id: 9 }
    ));
    let e = MediaTrackerError::retryable("down".into());
    let state = disconnect_resume(
        loaded(true, Ok(Some(row()))),
        true,
        DisconnectingReply::Told(Err(e)),
    );
    assert!(matches!(state, Disconnecting::Deleting { id: 9 }));
    let state = disconnect_resume(state, true, DisconnectingReply::Deleted(Ok(())));
    assert!(matches!(state, Disconnecting::Done(Ok(()))));
    let state = disconnect_resume(
        Disconnecting::Deleting { id: 9 },
        true,
        DisconnectingReply::Deleted(Err("db".into())),
    );
    match state {
        Disconnecting::Done(r) => assert_eq!(r.unwrap_err(), ApiError::Internal("db".into())),
        other => panic!("{other:?}"),
    }
}

fn json(body: Body) -> Value {
    match body {
        Body::Json(v) => v,
        Body::Empty => panic!("no body"),
    }
}

#[test]
fn requests_to_the_server() {
    let user_id = 0x0123_4567_89ab_cdef_0123_4567_89ab_cdef;
    let addon_id = 5;
    let user = "01234567-89ab-cdef-0123-456789abcdef";
    let addon = "00000000-0000-0000-0000-000000000005";
    let e = remux::ListMediaTrackers { user_id };
    assert_eq!(e.path(), format!("/users/{user}/mediatrackers"));
    assert_eq!(e.method(), Method::Get);
    assert!(matches!(e.body(), Body::Empty));
    let e = remux::BeginMediaTrackerDeviceAuth { user_id, addon_id };
    assert_eq!(
        e.path(),
        format!("/users/{user}/mediatrackers/{addon}/deviceauth")
    );
    assert_eq!(e.method(), Method::Post);
    assert_eq!(json(e.body()), serde_json::from_str::<Value>("{}").unwrap());
    let e = remux::PollMediaTrackerDeviceAuth {
        user_id,
        addon_id,
        poll_token: "t".into(),
    };
    assert_eq!(
        e.path(),
        format!("/users/{user}/mediatrackers/{addon}/deviceauth/poll")
    );
    assert_eq!(
        json(e.body()),
        serde_json::from_str::<Value>(r#"{"pollToken":"t"}"#).unwrap()
    );
    let e = remux::SyncMediaTracker { user_id, addon_id };
    assert_eq!(
        e.path(),
        format!("/users/{user}/mediatrackers/{addon}/sync")
    );
    assert!(e.query_params().is_empty());
}

fn connection(status: &str) -> remux::MediaTrackerDto {
    remux::MediaTrackerDto {
        id: 1,
        addon_id: 7,
        status: status.into(),
        last_success_at: None,
        last_error: None,
    }
}

fn addons() -> Vec<AddonDto> {
    ["tmdb", "trakt", "trakt"]
        .iter()
        .enumerate()
        .map(|(i, kind)| AddonDto {
            id: 6 + i as u128,
            kind: kind.to_string(),
        })
        .collect()
}

fn loaded(connections: Vec<remux::MediaTrackerDto>) -> PageState {
    let mut page = PageState::new();
    page.load();
    assert_eq!(page.shown(), Shown::Loading);
    assert_eq!(page.user_found(Ok(ME)), Some(ME));
    page.lists_loaded(Ok(addons()), Ok(connections));
    page
}

#[test]
fn the_page_shows_what_can_be_done() {
    let page = loaded(vec![connection("failing"), connection("connected")]);
    assert_eq!(
        page.shown(),
        Shown::Connected {
            addon_id: 7,
            syncing: false
        }
    );
    let page = loaded(vec![connection("failing")]);
    assert_eq!(
        page.shown(),
        Shown::Connect {
            addon_id: 7,
            connecting: false
        }
    );
    let mut page = PageState::new();
    page.lists_loaded(Ok(Vec::new()), Ok(vec![connection("connected")]));
    assert_eq!(page.shown(), Shown::NoAddon);
}

#[test]
fn the_page_shows_errors() {
    let mut page = PageState::new();
    assert_eq!(page.user_found(Err("who".into())), None);
    assert_eq!(page.error.as_deref(), Some("who"));
    assert!(!page.loading);
    let mut page = PageState::new();
    page.lists_loaded(Err("a".into()), Err("b".into()));
    assert_eq!(page.error.as_deref(), Some("a"));
    page.lists_loaded(Ok(addons()), Err("b".into()));
    assert_eq!(page.error.as_deref(), Some("b"));
    assert!(page.addons.is_empty());
    page.lists_loaded(Ok(addons()), Ok(Vec::new()));
    assert!(page.error.is_none());
}

#[test]
fn the_page_synchronises() {
    let mut nobody = PageState::new();
    assert_eq!(nobody.sync_clicked(), None);
    assert!(!nobody.syncing);
    let mut page = loaded(vec![connection("connected")]);
    assert_eq!(page.sync_clicked(), Some(ME));
    assert!(page.syncing);
    page.synced(Ok(12));
    assert_eq!(page.error.as_deref(), Some("Imported 12 items"));
    assert!(!page.syncing);
    assert_eq!(page.refresh, 1);
    page.synced(Err("down".into()));
    assert_eq!(page.error.as_deref(), Some("down"));
    assert_eq!(page.refresh, 2);
}

fn login(interval_seconds: u64) -> (PageState, String, u64) {
    let mut page = loaded(Vec::new());
    assert_eq!(page.connect_clicked(), Some(ME));
    assert!(page.connecting);
    let start = remux::DeviceAuthStartDto {
        verification_url: "u".into(),
        user_code: "c".into(),
        poll_token: "t".into(),
        interval_seconds,
        expires_in_seconds: 600,
    };
    let (token, interval) = page.login_begun(Ok(start)).unwrap();
    (page, token, interval)
}

#[test]
fn the_page_waits_for_the_login() {
    let (mut page, token, interval) = login(1);
    assert_eq!((token.as_str(), interval), ("t", 5));
    assert_eq!(login(8).2, 8);
    assert_eq!(timer_millis(interval), 5000);
    assert_eq!(timer_millis(0x1_0000_0007), 7000);
    assert_eq!(
        page.shown(),
        Shown::Code {
            code: "c".into(),
            url: Some("u".into())
        }
    );
    assert!(page.login_polled(Ok("pending".into())));
    assert!(page.connecting);
    assert!(!page.login_polled(Ok("approved".into())));
    assert!(!page.connecting);
    assert!(page.user_code.is_none());
    assert_eq!(page.refresh, 1);
    let (mut page, _, _) = login(5);
    assert!(!page.login_polled(Ok("denied".into())));
    assert_eq!(
        page.error.as_deref(),
        Some("Trakt login was denied or expired.")
    );
    assert!(page.user_code.is_none());
    assert_eq!(page.refresh, 0);
    let (mut page, _, _) = login(5);
    assert!(!page.login_polled(Err("down".into())));
    assert_eq!(page.error.as_deref(), Some("down"));
    assert_eq!(page.user_code.as_deref(), Some("c"));
    let mut page = loaded(Vec::new());
    page.connect_clicked();
    assert!(page.login_begun(Err("down".into())).is_none());
    assert!(!page.connecting);
    assert_eq!(PageState::new().connect_clicked(), None);
}
