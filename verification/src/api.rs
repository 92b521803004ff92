//! The requests that users make about their trackers.

use crate::time::Timestamp;
use crate::tracker::{
    DeviceAuthPoll, DeviceAuthStart, MediaTrackerCapabilities, MediaTrackerCredentials,
    MediaTrackerEventKind, MediaTrackerResult, MediaTrackerStatus, RemoteWatch, UserMediaTracker,
};
use vstd::prelude::*;

verus! {

/// Who makes a request.
#[derive(Debug, Clone, Copy, PartialEq, Eq, Structural)]
pub struct Session {
    pub user_id: u128,
    pub is_admin: bool,
}

/// Why a request is not answered.
#[derive(Debug, PartialEq, Eq)]
pub enum ApiError {
    Unauthorized(String),
    NotFound(String),
    Internal(String),
}

pub enum ApiErrorView {
    Unauthorized(Seq<char>),
    NotFound(Seq<char>),
    Internal(Seq<char>),
}

impl View for ApiError {
    type V = ApiErrorView;

    open spec fn view(&self) -> ApiErrorView {
        match self {
            ApiError::Unauthorized(text) => ApiErrorView::Unauthorized(text@),
            ApiError::NotFound(text) => ApiErrorView::NotFound(text@),
            ApiError::Internal(text) => ApiErrorView::Internal(text@),
        }
    }
}

/// Users see to their own trackers, and administrators to those of all.
pub open spec fn allowed(target_id: u128, session: Session) -> bool {
    target_id == session.user_id || session.is_admin
}

/// What a request is answered that is not allowed.
pub open spec fn forbidden() -> ApiErrorView {
    ApiErrorView::Unauthorized("forbidden"@)
}

/// What a request is answered that is about a tracker that is not set up.
pub open spec fn not_enabled() -> ApiErrorView {
    ApiErrorView::NotFound("Trakt addon is not enabled"@)
}

/// What a request is answered that is about a tracker that the user is not connected with.
pub open spec fn not_connected() -> ApiErrorView {
    ApiErrorView::NotFound("Trakt is not connected for this user"@)
}

/// Refuses a request that is not allowed.
pub fn require_self_or_admin(target_id: u128, session: &Session) -> (r: Result<(), ApiError>)
    ensures
        r is Ok <==> allowed(target_id, *session),
        r matches Err(e) ==> e@ == forbidden(),
{
    if target_id != session.user_id && !session.is_admin {
        return Err(ApiError::Unauthorized("forbidden".to_string()));
    }
    Ok(())
}

/// What stands against a request about a tracker: that it is not allowed, or that the tracker is
/// not set up.
pub open spec fn objection(
    target_id: u128,
    session: Session,
    addon_is_enabled: bool,
) -> Option<ApiErrorView> {
    if !allowed(target_id, session) {
        Some(forbidden())
    } else if !addon_is_enabled {
        Some(not_enabled())
    } else {
        None
    }
}

fn require_addon(target_id: u128, session: &Session, addon_is_enabled: bool) -> (r: Result<
    (),
    ApiError,
>)
    ensures
        match objection(target_id, *session, addon_is_enabled) {
            Some(why) => r matches Err(e) && e@ == why,
            None => r is Ok,
        },
{
    require_self_or_admin(target_id, session)?;
    if addon_is_enabled {
        Ok(())
    } else {
        Err(ApiError::NotFound("Trakt addon is not enabled".to_string()))
    }
}

/// A connection as users see it. It does not hold the credentials.
#[derive(Debug)]
pub struct MediaTrackerDto {
    pub id: u128,
    pub addon_id: u128,
    pub status: MediaTrackerStatus,
    pub last_success_at: Option<Timestamp>,
    pub last_error: Option<String>,
}

/// A connection as users see it.
pub open spec fn dto_of(row: UserMediaTracker) -> MediaTrackerDto {
    MediaTrackerDto {
        id: row.id,
        addon_id: row.addon_id,
        status: row.status,
        last_success_at: row.last_success_at,
        last_error: row.last_error,
    }
}

impl From<UserMediaTracker> for MediaTrackerDto {
    fn from(row: UserMediaTracker) -> (r: Self) {
        MediaTrackerDto {
            id: row.id,
            addon_id: row.addon_id,
            status: row.status,
            last_success_at: row.last_success_at,
            last_error: row.last_error,
        }
    }
}

impl vstd::std_specs::convert::FromSpecImpl<UserMediaTracker> for MediaTrackerDto {
    open spec fn obeys_from_spec() -> bool {
        true
    }

    open spec fn from_spec(row: UserMediaTracker) -> Self {
        dto_of(row)
    }
}

/// Begins to list the trackers of a user: refuses to, or the connections are to be read.
pub fn list_media_trackers(user_id: u128, session: &Session) -> (r: Result<(), ApiError>)
    ensures
        r is Ok <==> allowed(user_id, *session),
        r matches Err(e) ==> e@ == forbidden(),
{
    require_self_or_admin(user_id, session)
}

/// Lists the trackers of a user when the connections have been read.
pub fn media_trackers_listed(rows: Result<Vec<UserMediaTracker>, String>) -> (r: Result<
    Vec<MediaTrackerDto>,
    ApiError,
>)
    ensures
        match rows {
            Ok(rows) => r matches Ok(out) && out@ == rows@.map_values(
                |row: UserMediaTracker| dto_of(row),
            ),
            Err(text) => r matches Err(e) && e@ == ApiErrorView::Internal(text@),
        },
{
    let rows = match rows {
        Ok(rows) => rows,
        Err(text) => {
            return Err(ApiError::Internal(text));
        },
    };
    let ghost all = rows@;
    let mut out: Vec<MediaTrackerDto> = Vec::new();
    for row in it: rows
        invariant
            it.seq() == all,
            out@ == all.take(it.index() as int).map_values(|row: UserMediaTracker| dto_of(row)),
    {
        out.push(MediaTrackerDto::from(row));
        assert(out@ =~= all.take(it.index() + 1).map_values(|row: UserMediaTracker| dto_of(row)));
    }
    assert(all.take(all.len() as int) =~= all);
    Ok(out)
}

/// A device login that has been started, as users see it.
#[derive(Debug, PartialEq, Eq)]
pub struct DeviceAuthStartDto {
    pub verification_url: String,
    pub user_code: String,
    pub poll_token: String,
    pub interval_seconds: u64,
    pub expires_in_seconds: u64,
}

/// Begins to connect a user with a tracker: refuses to, or the tracker is to be asked for a device
/// login.
pub fn begin_device_auth(user_id: u128, session: &Session, addon_is_enabled: bool) -> (r: Result<
    (),
    ApiError,
>)
    ensures
        match objection(user_id, *session, addon_is_enabled) {
            Some(why) => r matches Err(e) && e@ == why,
            None => r is Ok,
        },
{
    require_addon(user_id, session, addon_is_enabled)
}

/// Goes on when the tracker has been asked for a device login.
pub fn device_auth_begun(reply: MediaTrackerResult<DeviceAuthStart>) -> (r: Result<
    DeviceAuthStartDto,
    ApiError,
>)
    ensures
        match reply {
            Ok(start) => r == Ok::<DeviceAuthStartDto, ApiError>(
                (DeviceAuthStartDto {
                    verification_url: start.verification_url,
                    user_code: start.user_code,
                    poll_token: start.poll_token,
                    interval_seconds: start.interval_secs,
                    expires_in_seconds: start.expires_in_secs,
                }),
            ),
            Err(why) => r matches Err(e) && e@ == ApiErrorView::Internal(why@.message()),
        },
{
    match reply {
        Ok(start) => Ok(
            DeviceAuthStartDto {
                verification_url: start.verification_url,
                user_code: start.user_code,
                poll_token: start.poll_token,
                interval_seconds: start.interval_secs,
                expires_in_seconds: start.expires_in_secs,
            },
        ),
        Err(e) => Err(ApiError::Internal(e.message())),
    }
}

/// The question how a device login stands.
#[derive(Debug, PartialEq, Eq)]
pub struct DeviceAuthPollRequest {
    pub poll_token: String,
}

/// How a device login stands, as users see it, and the connection once there is one.
#[derive(Debug)]
pub struct DeviceAuthPollDto {
    pub status: String,
    pub connection: Option<MediaTrackerDto>,
}

pub struct DeviceAuthPollView {
    pub status: Seq<char>,
    pub connection: Option<MediaTrackerDto>,
}

impl View for DeviceAuthPollDto {
    type V = DeviceAuthPollView;

    open spec fn view(&self) -> DeviceAuthPollView {
        DeviceAuthPollView { status: self.status@, connection: self.connection }
    }
}

/// A connection that is made for a user: which id it has, whom it connects with which tracker, and
/// which events the tracker is told of.
#[derive(Debug)]
pub struct NewConnection {
    pub id: u128,
    pub user_id: u128,
    pub addon_id: u128,
    pub event_filter: Vec<MediaTrackerEventKind>,
}

/// The answer to the question how a device login stands, under way: what is being done, or the
/// answer.
#[derive(Debug)]
pub enum Polling {
    /// The tracker is asked. This connection is made if it approves.
    Asking { new: NewConnection },
    /// The connection is being stored.
    Storing { row: UserMediaTracker },
    /// What the tracker knows is being read.
    Importing { row: UserMediaTracker },
    /// It is being brought into the library. At most so many titles are added.
    Applying { row: UserMediaTracker, watches: Vec<RemoteWatch>, max_new_titles: usize },
    Done(Result<DeviceAuthPollDto, ApiError>),
}

pub enum PollingView {
    Asking { new: NewConnection },
    Storing { row: UserMediaTracker },
    Importing { row: UserMediaTracker },
    Applying { row: UserMediaTracker, watches: Seq<RemoteWatch>, max_new_titles: int },
    Done(Result<DeviceAuthPollView, ApiErrorView>),
}

impl View for Polling {
    type V = PollingView;

    open spec fn view(&self) -> PollingView {
        match self {
            Polling::Asking { new } => PollingView::Asking { new: *new },
            Polling::Storing { row } => PollingView::Storing { row: *row },
            Polling::Importing { row } => PollingView::Importing { row: *row },
            Polling::Applying { row, watches, max_new_titles } => PollingView::Applying {
                row: *row,
                watches: watches@,
                max_new_titles: *max_new_titles as int,
            },
            Polling::Done(Ok(dto)) => PollingView::Done(Ok(dto@)),
            Polling::Done(Err(e)) => PollingView::Done(Err(e@)),
        }
    }
}

/// How something that was done for the answer ended.
#[derive(Debug)]
pub enum PollingReply {
    Asked(MediaTrackerResult<DeviceAuthPoll>),
    Stored(Result<(), String>),
    Imported(MediaTrackerResult<Vec<RemoteWatch>>),
    Applied(Result<usize, String>),
}

impl PollingReply {
    /// Whether this is how it can end.
    pub open spec fn fits(self, state: PollingView) -> bool {
        match state {
            PollingView::Asking { .. } => self is Asked,
            PollingView::Storing { .. } => self is Stored,
            PollingView::Importing { .. } => self is Imported,
            PollingView::Applying { .. } => self is Applied,
            PollingView::Done(_) => false,
        }
    }
}

/// The connection that is made with these credentials.
pub open spec fn connection(new: NewConnection, credentials: MediaTrackerCredentials) ->
    UserMediaTracker {
    UserMediaTracker {
        id: new.id,
        user_id: new.user_id,
        addon_id: new.addon_id,
        status: MediaTrackerStatus::Connected,
        credentials,
        event_filter: new.event_filter,
        last_success_at: None,
        last_error: None,
    }
}

/// The answer that says no more than how the login stands.
pub open spec fn plain_answer(status: Seq<char>) -> PollingView {
    PollingView::Done(Ok(DeviceAuthPollView { status, connection: None }))
}

/// The answer that the login is approved, with the connection that was made.
pub open spec fn approved_answer(row: UserMediaTracker) -> PollingView {
    PollingView::Done(
        Ok(DeviceAuthPollView { status: "approved"@, connection: Some(dto_of(row)) }),
    )
}

/// How the answer goes on. A connection is made only once the login is approved. What the tracker
/// knows is then brought into the library, but the answer does not depend on that.
pub open spec fn polling_next(state: PollingView, reply: PollingReply) -> PollingView {
    match (state, reply) {
        (PollingView::Asking { new }, PollingReply::Asked(reply)) => match reply {
            Err(e) => PollingView::Done(Err(ApiErrorView::Internal(e@.message()))),
            Ok(DeviceAuthPoll::Pending) => plain_answer("pending"@),
            Ok(DeviceAuthPoll::Denied) => plain_answer("denied"@),
            Ok(DeviceAuthPoll::Approved(creds)) => PollingView::Storing {
                row: connection(new, creds),
            },
        },
        (PollingView::Storing { row }, PollingReply::Stored(reply)) => match reply {
            Err(text) => PollingView::Done(Err(ApiErrorView::Internal(text@))),
            Ok(_) => PollingView::Importing { row },
        },
        (PollingView::Importing { row }, PollingReply::Imported(reply)) => match reply {
            Err(_) => approved_answer(row),
            Ok(watches) => PollingView::Applying {
                row,
                watches: watches@,
                max_new_titles: usize::MAX as int,
            },
        },
        (PollingView::Applying { row, .. }, PollingReply::Applied(_)) => approved_answer(row),
        _ => arbitrary(),
    }
}

/// Begins to answer how a device login stands: refuses to, or the tracker is to be asked.
/// `capabilities` is what the tracker can do, if it is set up. If the login is approved, a
/// connection with this id is made, and the tracker is told of the events that it is told of by
/// default.
pub fn poll_device_auth(
    id: u128,
    user_id: u128,
    addon_id: u128,
    session: &Session,
    capabilities: Option<MediaTrackerCapabilities>,
) -> (r: Polling)
    ensures
        match objection(user_id, *session, capabilities is Some) {
            Some(why) => r@ == PollingView::Done(Err(why)),
            None => r@ == (PollingView::Asking {
                new: NewConnection {
                    id,
                    user_id,
                    addon_id,
                    event_filter: capabilities->0.default_event_filter,
                },
            }),
        },
{
    match require_addon(user_id, session, capabilities.is_some()) {
        Ok(_) => {},
        Err(e) => {
            return Polling::Done(Err(e));
        },
    }
    match capabilities {
        Some(c) => Polling::Asking {
            new: NewConnection { id, user_id, addon_id, event_filter: c.default_event_filter },
        },
        None => Polling::Done(
            Err(ApiError::NotFound("Trakt addon is not enabled".to_string())),
        ),
    }
}

fn approve(row: UserMediaTracker) -> (r: Polling)
    ensures
        r@ == approved_answer(row),
{
    Polling::Done(
        Ok(
            DeviceAuthPollDto {
                status: "approved".to_string(),
                connection: Some(MediaTrackerDto::from(row)),
            },
        ),
    )
}

/// Goes on answering how a device login stands.
pub fn poll_resume(state: Polling, reply: PollingReply) -> (r: Polling)
    requires
        reply.fits(state@),
    ensures
        r@ == polling_next(state@, reply),
{
    match (state, reply) {
        (Polling::Asking { new }, PollingReply::Asked(reply)) => match reply {
            Err(e) => Polling::Done(Err(ApiError::Internal(e.message()))),
            Ok(DeviceAuthPoll::Pending) => Polling::Done(
                Ok(DeviceAuthPollDto { status: "pending".to_string(), connection: None }),
            ),
            Ok(DeviceAuthPoll::Denied) => Polling::Done(
                Ok(DeviceAuthPollDto { status: "denied".to_string(), connection: None }),
            ),
            Ok(DeviceAuthPoll::Approved(creds)) => Polling::Storing {
                row: UserMediaTracker::new(
                    new.id,
                    new.user_id,
                    new.addon_id,
                    creds,
                    new.event_filter,
                ),
            },
        },
        (Polling::Storing { row }, PollingReply::Stored(reply)) => match reply {
            Err(text) => Polling::Done(Err(ApiError::Internal(text))),
            Ok(_) => Polling::Importing { row },
        },
        (Polling::Importing { row }, PollingReply::Imported(reply)) => match reply {
            Err(_) => approve(row),
            Ok(watches) => Polling::Applying { row, watches, max_new_titles: usize::MAX },
        },
        (Polling::Applying { row, .. }, _) => approve(row),
        (state, _) => state,
    }
}

/// How much was brought into the library.
#[derive(Debug, Clone, Copy, PartialEq, Eq, Structural)]
pub struct MediaTrackerSyncDto {
    pub applied: usize,
}

/// The answer to the request to synchronise, under way: what is being done, or the answer.
#[derive(Debug)]
pub enum Syncing {
    /// The connection is being read.
    Loading,
    /// What the tracker knows is being read.
    Importing { row: UserMediaTracker },
    /// It is being brought into the library. At most so many titles are added.
    Applying { watches: Vec<RemoteWatch>, max_new_titles: usize },
    Done(Result<MediaTrackerSyncDto, ApiError>),
}

pub enum SyncingView {
    Loading,
    Importing { row: UserMediaTracker },
    Applying { watches: Seq<RemoteWatch>, max_new_titles: int },
    Done(Result<MediaTrackerSyncDto, ApiErrorView>),
}

impl View for Syncing {
    type V = SyncingView;

    open spec fn view(&self) -> SyncingView {
        match self {
            Syncing::Loading => SyncingView::Loading,
            Syncing::Importing { row } => SyncingView::Importing { row: *row },
            Syncing::Applying { watches, max_new_titles } => SyncingView::Applying {
                watches: watches@,
                max_new_titles: *max_new_titles as int,
            },
            Syncing::Done(Ok(dto)) => SyncingView::Done(Ok(*dto)),
            Syncing::Done(Err(e)) => SyncingView::Done(Err(e@)),
        }
    }
}

/// How something that was done for the answer ended.
#[derive(Debug)]
pub enum SyncingReply {
    Loaded(Result<Option<UserMediaTracker>, String>),
    Imported(MediaTrackerResult<Vec<RemoteWatch>>),
    Applied(Result<usize, String>),
}

impl SyncingReply {
    /// Whether this is how it can end.
    pub open spec fn fits(self, state: SyncingView) -> bool {
        match state {
            SyncingView::Loading => self is Loaded,
            SyncingView::Importing { .. } => self is Imported,
            SyncingView::Applying { .. } => self is Applied,
            SyncingView::Done(_) => false,
        }
    }
}

/// How the answer goes on.
pub open spec fn syncing_next(state: SyncingView, reply: SyncingReply) -> SyncingView {
    match (state, reply) {
        (SyncingView::Loading, SyncingReply::Loaded(reply)) => match reply {
            Err(text) => SyncingView::Done(Err(ApiErrorView::Internal(text@))),
            Ok(None) => SyncingView::Done(Err(not_connected())),
            Ok(Some(row)) => SyncingView::Importing { row },
        },
        (SyncingView::Importing { .. }, SyncingReply::Imported(reply)) => match reply {
            Err(e) => SyncingView::Done(Err(ApiErrorView::Internal(e@.message()))),
            Ok(watches) => SyncingView::Applying {
                watches: watches@,
                max_new_titles: usize::MAX as int,
            },
        },
        (SyncingView::Applying { .. }, SyncingReply::Applied(reply)) => match reply {
            Err(text) => SyncingView::Done(Err(ApiErrorView::Internal(text@))),
            Ok(applied) => SyncingView::Done(Ok(MediaTrackerSyncDto { applied })),
        },
        _ => arbitrary(),
    }
}

/// Begins to synchronise a user with a tracker: refuses to, or the connection is to be read.
pub fn sync_media_tracker(user_id: u128, session: &Session, addon_is_enabled: bool) -> (r: Syncing)
    ensures
        r@ == match objection(user_id, *session, addon_is_enabled) {
            Some(why) => SyncingView::Done(Err(why)),
            None => SyncingView::Loading,
        },
{
    match require_addon(user_id, session, addon_is_enabled) {
        Ok(_) => Syncing::Loading,
        Err(e) => Syncing::Done(Err(e)),
    }
}

/// Goes on synchronising a user with a tracker.
pub fn sync_resume(state: Syncing, reply: SyncingReply) -> (r: Syncing)
    requires
        reply.fits(state@),
    ensures
        r@ == syncing_next(state@, reply),
{
    match reply {
        SyncingReply::Loaded(reply) => match reply {
            Err(text) => Syncing::Done(Err(ApiError::Internal(text))),
            Ok(None) => Syncing::Done(
                Err(ApiError::NotFound("Trakt is not connected for this user".to_string())),
            ),
            Ok(Some(row)) => Syncing::Importing { row },
        },
        SyncingReply::Imported(reply) => match reply {
            Err(e) => Syncing::Done(Err(ApiError::Internal(e.message()))),
            Ok(watches) => Syncing::Applying { watches, max_new_titles: usize::MAX },
        },
        SyncingReply::Applied(reply) => match reply {
            Err(text) => Syncing::Done(Err(ApiError::Internal(text))),
            Ok(applied) => Syncing::Done(Ok(MediaTrackerSyncDto { applied })),
        },
    }
}

/// The end of a connection under way: what is being done, or how it went.
#[derive(Debug)]
pub enum Disconnecting {
    /// The connection is being read.
    Loading,
    /// The tracker is being told.
    Telling { row: UserMediaTracker },
    /// The connection is being deleted.
    Deleting { id: u128 },
    Done(Result<(), ApiError>),
}

pub enum DisconnectingView {
    Loading,
    Telling { row: UserMediaTracker },
    Deleting { id: u128 },
    Done(Result<(), ApiErrorView>),
}

impl View for Disconnecting {
    type V = DisconnectingView;

    open spec fn view(&self) -> DisconnectingView {
        match self {
            Disconnecting::Loading => DisconnectingView::Loading,
            Disconnecting::Telling { row } => DisconnectingView::Telling { row: *row },
            Disconnecting::Deleting { id } => DisconnectingView::Deleting { id: *id },
            Disconnecting::Done(Ok(_)) => DisconnectingView::Done(Ok(())),
            Disconnecting::Done(Err(e)) => DisconnectingView::Done(Err(e@)),
        }
    }
}

/// How something that was done to end a connection ended.
#[derive(Debug)]
pub enum DisconnectingReply {
    Loaded(Result<Option<UserMediaTracker>, String>),
    Told(MediaTrackerResult<()>),
    Deleted(Result<(), String>),
}

impl DisconnectingReply {
    /// Whether this is how it can end.
    pub open spec fn fits(self, state: DisconnectingView) -> bool {
        match state {
            DisconnectingView::Loading => self is Loaded,
            DisconnectingView::Telling { .. } => self is Told,
            DisconnectingView::Deleting { .. } => self is Deleted,
            DisconnectingView::Done(_) => false,
        }
    }
}

/// How the end of a connection goes on. A tracker that is set up is told, but the connection is
/// deleted whatever it says.
pub open spec fn disconnecting_next(
    state: DisconnectingView,
    addon_is_enabled: bool,
    reply: DisconnectingReply,
) -> DisconnectingView {
    match (state, reply) {
        (DisconnectingView::Loading, DisconnectingReply::Loaded(reply)) => match reply {
            Err(text) => DisconnectingView::Done(Err(ApiErrorView::Internal(text@))),
            Ok(None) => DisconnectingView::Done(Ok(())),
            Ok(Some(row)) => if addon_is_enabled {
                DisconnectingView::Telling { row }
            } else {
                DisconnectingView::Deleting { id: row.id }
            },
        },
        (DisconnectingView::Telling { row }, DisconnectingReply::Told(_)) =>
            DisconnectingView::Deleting { id: row.id },
        (DisconnectingView::Deleting { .. }, DisconnectingReply::Deleted(reply)) => match reply {
            Err(text) => DisconnectingView::Done(Err(ApiErrorView::Internal(text@))),
            Ok(_) => DisconnectingView::Done(Ok(())),
        },
        _ => arbitrary(),
    }
}

/// Begins to end the connection of a user with a tracker: refuses to, or the connection is to be
/// read.
pub fn disconnect_media_tracker(user_id: u128, session: &Session) -> (r: Disconnecting)
    ensures
        r@ == if allowed(user_id, *session) {
            DisconnectingView::Loading
        } else {
            DisconnectingView::Done(Err(forbidden()))
        },
{
    match require_self_or_admin(user_id, session) {
        Ok(_) => Disconnecting::Loading,
        Err(e) => Disconnecting::Done(Err(e)),
    }
}

/// Goes on ending the connection of a user with a tracker.
pub fn disconnect_resume(
    state: Disconnecting,
    addon_is_enabled: bool,
    reply: DisconnectingReply,
) -> (r: Disconnecting)
    requires
        reply.fits(state@),
    ensures
        r@ == disconnecting_next(state@, addon_is_enabled, reply),
{
    match (state, reply) {
        (Disconnecting::Loading, DisconnectingReply::Loaded(reply)) => match reply {
            Err(text) => Disconnecting::Done(Err(ApiError::Internal(text))),
            Ok(None) => Disconnecting::Done(Ok(())),
            Ok(Some(row)) => {
                if addon_is_enabled {
                    Disconnecting::Telling { row }
                } else {
                    Disconnecting::Deleting { id: row.id }
                }
            },
        },
        (Disconnecting::Telling { row }, DisconnectingReply::Told(_)) => Disconnecting::Deleting {
            id: row.id,
        },
        (Disconnecting::Deleting { .. }, DisconnectingReply::Deleted(reply)) => match reply {
            Err(text) => Disconnecting::Done(Err(ApiError::Internal(text))),
            Ok(_) => Disconnecting::Done(Ok(())),
        },
        (state, _) => state,
    }
}

/// A user who is no administrator can do nothing about the trackers of another: every request is
/// refused before anything is read or written, whether or not the tracker is set up.
pub proof fn lemma_others_are_refused(target_id: u128, session: Session, addon_is_enabled: bool)
    requires
        target_id != session.user_id,
        !session.is_admin,
    ensures
        !allowed(target_id, session),
        objection(target_id, session, addon_is_enabled) == Some(forbidden()),
{
}

/// A connection is stored only once the login is approved, for that user and that tracker, and
/// with the credentials that the tracker gave.
pub proof fn lemma_connected_once_approved(new: NewConnection, reply: PollingReply)
    requires
        reply.fits(PollingView::Asking { new }),
    ensures
        match polling_next(PollingView::Asking { new }, reply) {
            PollingView::Storing { row } => row.user_id == new.user_id && row.addon_id
                == new.addon_id && row.status is Connected && row.event_filter == new.event_filter
                && (reply matches PollingReply::Asked(Ok(DeviceAuthPoll::Approved(creds)))
                && row.credentials == creds),
            PollingView::Done(_) => !(reply matches PollingReply::Asked(
                Ok(DeviceAuthPoll::Approved(_)),
            )),
            _ => false,
        },
{
}

/// Once the connection is stored the answer is that the login is approved, whether or not what the
/// tracker knows can be brought into the library.
pub proof fn lemma_approval_stands(
    row: UserMediaTracker,
    imported: MediaTrackerResult<Vec<RemoteWatch>>,
    applied: Result<usize, String>,
)
    ensures
        ({
            let state = polling_next(
                PollingView::Importing { row },
                PollingReply::Imported(imported),
            );
            state == approved_answer(row) || (state is Applying && polling_next(
                state,
                PollingReply::Applied(applied),
            ) == approved_answer(row))
        }),
{
}

/// A connection is deleted whatever the tracker says when it is told.
pub proof fn lemma_disconnected_whatever_is_said(
    row: UserMediaTracker,
    addon_is_enabled: bool,
    told: MediaTrackerResult<()>,
)
    ensures
        ({
            let state = disconnecting_next(
                DisconnectingView::Loading,
                addon_is_enabled,
                DisconnectingReply::Loaded(Ok(Some(row))),
            );
            state == (DisconnectingView::Deleting { id: row.id }) || disconnecting_next(
                state,
                addon_is_enabled,
                DisconnectingReply::Told(told),
            ) == (DisconnectingView::Deleting { id: row.id })
        }),
{
}

/// A request is allowed if it is about the trackers of the one who makes it, or if that is an
/// administrator. One that is not allowed is refused as such even where the tracker is not set up.
pub proof fn lemma_who_may(
    target_id: u128,
    session: &Session,
    addon_is_enabled: bool,
    listed: Result<(), ApiError>,
    begun: Result<(), ApiError>,
    syncing: Syncing,
    ending: Disconnecting,
)
    requires
        call_ensures(list_media_trackers, (target_id, session), listed),
        call_ensures(begin_device_auth, (target_id, session, addon_is_enabled), begun),
        call_ensures(sync_media_tracker, (target_id, session, addon_is_enabled), syncing),
        call_ensures(disconnect_media_tracker, (target_id, session), ending),
    ensures
        ({
            let may = target_id == session.user_id || session.is_admin;
            let refused = ApiErrorView::Unauthorized("forbidden"@);
            let missing = ApiErrorView::NotFound("Trakt addon is not enabled"@);
            &&& listed is Ok <==> may
            &&& begun is Ok <==> may && addon_is_enabled
            &&& syncing@ is Loading <==> may && addon_is_enabled
            &&& ending@ is Loading <==> may
            &&& !may ==> {
                &&& listed matches Err(e) && e@ == refused
                &&& begun matches Err(e) && e@ == refused
                &&& syncing@ == SyncingView::Done(Err(refused))
                &&& ending@ == DisconnectingView::Done(Err(refused))
            }
            &&& may && !addon_is_enabled ==> {
                &&& begun matches Err(e) && e@ == missing
                &&& syncing@ == SyncingView::Done(Err(missing))
            }
        }),
{
}

/// To learn how a login stands is allowed to the same. A connection that comes of it is of that user
/// with that tracker, under that id, and tells the tracker of the events that it is told of by
/// default.
pub proof fn lemma_whose_login(
    id: u128,
    user_id: u128,
    addon_id: u128,
    session: &Session,
    capabilities: Option<MediaTrackerCapabilities>,
    r: Polling,
)
    requires
        call_ensures(poll_device_auth, (id, user_id, addon_id, session, capabilities), r),
    ensures
        ({
            let may = user_id == session.user_id || session.is_admin;
            match r@ {
                PollingView::Asking { new } => {
                    &&& may && capabilities is Some
                    &&& new.id == id && new.user_id == user_id && new.addon_id == addon_id
                    &&& new.event_filter == capabilities->0.default_event_filter
                },
                PollingView::Done(Err(e)) => {
                    &&& !may ==> e == ApiErrorView::Unauthorized("forbidden"@)
                    &&& may ==> capabilities is None && e == ApiErrorView::NotFound(
                        "Trakt addon is not enabled"@,
                    )
                },
                _ => false,
            }
        }),
{
}

/// Whether this is what users see of a connection: all but the credentials and the user.
pub open spec fn is_seen_of(dto: MediaTrackerDto, row: UserMediaTracker) -> bool {
    dto.id == row.id && dto.addon_id == row.addon_id && dto.status == row.status
        && dto.last_success_at == row.last_success_at && dto.last_error == row.last_error
}

/// Users see each of their connections, in the order in which they are read, and of each how it is
/// doing. What goes wrong with reading them is told.
pub proof fn lemma_listed_as_they_are(
    rows: Result<Vec<UserMediaTracker>, String>,
    r: Result<Vec<MediaTrackerDto>, ApiError>,
)
    requires
        call_ensures(media_trackers_listed, (rows,), r),
    ensures
        match (rows, r) {
            (Ok(rows), Ok(out)) => out@.len() == rows@.len() && forall|i: int|
                0 <= i < rows@.len() ==> is_seen_of(#[trigger] out@[i], rows@[i]),
            (Err(text), Err(e)) => e@ == ApiErrorView::Internal(text@),
            _ => false,
        },
{
}

/// A login that was started is shown as the tracker says, and an error as it says too.
pub proof fn lemma_login_shown_as_told(
    reply: MediaTrackerResult<DeviceAuthStart>,
    r: Result<DeviceAuthStartDto, ApiError>,
)
    requires
        call_ensures(device_auth_begun, (reply,), r),
    ensures
        match (reply, r) {
            (Ok(start), Ok(dto)) => dto.verification_url == start.verification_url && dto.user_code
                == start.user_code && dto.poll_token == start.poll_token && dto.interval_seconds
                == start.interval_secs && dto.expires_in_seconds == start.expires_in_secs,
            (Err(why), Err(e)) => e@ == ApiErrorView::Internal(why@.message()),
            _ => false,
        },
{
}

/// While the user has not answered a login is pending, and one that was refused is denied: no
/// connection is made of either. What the tracker says went wrong is told.
pub proof fn lemma_login_answered_as_it_stands(
    new: NewConnection,
    reply: MediaTrackerResult<DeviceAuthPoll>,
)
    ensures
        match (reply, polling_next(PollingView::Asking { new }, PollingReply::Asked(reply))) {
            (Ok(DeviceAuthPoll::Pending), PollingView::Done(Ok(dto))) => dto.status == "pending"@
                && dto.connection is None,
            (Ok(DeviceAuthPoll::Denied), PollingView::Done(Ok(dto))) => dto.status == "denied"@
                && dto.connection is None,
            (Ok(DeviceAuthPoll::Approved(creds)), PollingView::Storing { row }) => {
                &&& row.id == new.id && row.user_id == new.user_id && row.addon_id == new.addon_id
                &&& row.credentials == creds
                &&& row.event_filter == new.event_filter
                &&& row.status is Connected
                &&& row.last_success_at is None && row.last_error is None
            },
            (Err(why), PollingView::Done(Err(e))) => e == ApiErrorView::Internal(why@.message()),
            _ => false,
        },
{
}

/// A connection that is stored is shown to the user as approved, with all that the tracker knows
/// brought into the library before, as far as it can be and without a limit. Without it there is no
/// approval.
pub proof fn lemma_approved_once_stored(
    row: UserMediaTracker,
    watches: Seq<RemoteWatch>,
    limit: int,
    stored: Result<(), String>,
    imported: MediaTrackerResult<Vec<RemoteWatch>>,
    applied: Result<usize, String>,
)
    ensures
        match (stored, polling_next(PollingView::Storing { row }, PollingReply::Stored(stored))) {
            (Ok(_), PollingView::Importing { row: kept }) => kept == row,
            (Err(text), PollingView::Done(Err(e))) => e == ApiErrorView::Internal(text@),
            _ => false,
        },
        match (
            imported,
            polling_next(PollingView::Importing { row }, PollingReply::Imported(imported)),
        ) {
            (Ok(v), PollingView::Applying { row: kept, watches: w, max_new_titles }) => kept == row
                && w == v@ && max_new_titles == usize::MAX,
            (Err(_), PollingView::Done(Ok(dto))) => dto.status == "approved"@ && (
            dto.connection matches Some(seen) && is_seen_of(seen, row)),
            _ => false,
        },
        polling_next(
            PollingView::Applying { row, watches, max_new_titles: limit },
            PollingReply::Applied(applied),
        ) matches PollingView::Done(Ok(dto)) && dto.status == "approved"@ && (
        dto.connection matches Some(seen) && is_seen_of(seen, row)),
{
}

/// A user who asks to synchronise is answered how much was done, once all that the tracker knows has
/// been brought into the library, without a limit on new titles. Without a connection nothing is
/// done. What goes wrong is told.
pub proof fn lemma_synchronised_as_told(
    row: UserMediaTracker,
    watches: Seq<RemoteWatch>,
    limit: int,
    loaded: Result<Option<UserMediaTracker>, String>,
    imported: MediaTrackerResult<Vec<RemoteWatch>>,
    applied: Result<usize, String>,
)
    ensures
        match (loaded, syncing_next(SyncingView::Loading, SyncingReply::Loaded(loaded))) {
            (Ok(Some(found)), SyncingView::Importing { row: kept }) => kept == found,
            (Ok(None), SyncingView::Done(Err(e))) => e == ApiErrorView::NotFound(
                "Trakt is not connected for this user"@,
            ),
            (Err(text), SyncingView::Done(Err(e))) => e == ApiErrorView::Internal(text@),
            _ => false,
        },
        match (
            imported,
            syncing_next(SyncingView::Importing { row }, SyncingReply::Imported(imported)),
        ) {
            (Ok(v), SyncingView::Applying { watches: w, max_new_titles }) => w == v@
                && max_new_titles == usize::MAX,
            (Err(why), SyncingView::Done(Err(e))) => e == ApiErrorView::Internal(why@.message()),
            _ => false,
        },
        match (
            applied,
            syncing_next(
                SyncingView::Applying { watches, max_new_titles: limit },
                SyncingReply::Applied(applied),
            ),
        ) {
            (Ok(n), SyncingView::Done(Ok(dto))) => dto.applied == n,
            (Err(text), SyncingView::Done(Err(e))) => e == ApiErrorView::Internal(text@),
            _ => false,
        },
{
}

/// A connection ends in this order: it is read, a tracker that is set up is told, and it is deleted,
/// this one and no other. Where there is none, nothing has to be done. What goes wrong with the
/// library is told.
pub proof fn lemma_disconnected_in_order(
    row: UserMediaTracker,
    id: u128,
    addon_is_enabled: bool,
    loaded: Result<Option<UserMediaTracker>, String>,
    told: MediaTrackerResult<()>,
    deleted: Result<(), String>,
)
    ensures
        match (
            loaded,
            disconnecting_next(
                DisconnectingView::Loading,
                addon_is_enabled,
                DisconnectingReply::Loaded(loaded),
            ),
        ) {
            (Ok(Some(found)), DisconnectingView::Telling { row: kept }) => kept == found
                && addon_is_enabled,
            (Ok(Some(found)), DisconnectingView::Deleting { id }) => id == found.id
                && !addon_is_enabled,
            (Ok(None), DisconnectingView::Done(r)) => r is Ok,
            (Err(text), DisconnectingView::Done(r)) => r == Err::<(), ApiErrorView>(
                ApiErrorView::Internal(text@),
            ),
            _ => false,
        },
        disconnecting_next(
            DisconnectingView::Telling { row },
            addon_is_enabled,
            DisconnectingReply::Told(told),
        ) == (DisconnectingView::Deleting { id: row.id }),
        match (
            deleted,
            disconnecting_next(
                DisconnectingView::Deleting { id },
                addon_is_enabled,
                DisconnectingReply::Deleted(deleted),
            ),
        ) {
            (Ok(_), DisconnectingView::Done(r)) => r is Ok,
            (Err(text), DisconnectingView::Done(r)) => r == Err::<(), ApiErrorView>(
                ApiErrorView::Internal(text@),
            ),
            _ => false,
        },
{
}

} // verus!
