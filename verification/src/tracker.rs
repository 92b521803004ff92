//! What a media tracker is: the events it is told of, what it can do, how it fails, and what it
//! knows of a user.

use crate::double::Double;
use crate::ids::ExternalIds;
use crate::json::{copy_value, json, JsonView};
use crate::time::Timestamp;
use vstd::prelude::*;

verus! {

/// A kind of media in the library.
#[derive(Debug, Clone, Copy, PartialEq, Eq, Structural)]
pub enum MediaKind {
    Movie,
    Series,
    Season,
    Episode,
    Collection,
}

impl MediaKind {
    pub open spec fn name_spec(self) -> Seq<char> {
        match self {
            MediaKind::Movie => "Movie"@,
            MediaKind::Series => "Series"@,
            MediaKind::Season => "Season"@,
            MediaKind::Episode => "Episode"@,
            MediaKind::Collection => "Collection"@,
        }
    }

    /// The name of the kind.
    pub fn name(&self) -> (r: &'static str)
        ensures
            r@ == self.name_spec(),
    {
        match self {
            MediaKind::Movie => "Movie",
            MediaKind::Series => "Series",
            MediaKind::Season => "Season",
            MediaKind::Episode => "Episode",
            MediaKind::Collection => "Collection",
        }
    }
}

/// A kind of event that a tracker can be told of.
#[derive(Debug, Clone, Copy, PartialEq, Eq, Structural)]
pub enum MediaTrackerEventKind {
    PlaybackStart,
    PlaybackProgress,
    PlaybackStop,
    MarkPlayed,
    MarkUnplayed,
    MarkFavorite,
    UnmarkFavorite,
    Rating,
}

/// An event that a tracker can be told of.
#[derive(Debug, Clone, Copy, PartialEq, Eq, Structural)]
pub enum MediaTrackerEvent {
    PlaybackStart { position_ticks: i64 },
    PlaybackProgress { position_ticks: i64, is_paused: bool },
    PlaybackStop { position_ticks: i64, played: bool },
    MarkPlayed,
    MarkUnplayed,
    MarkFavorite,
    UnmarkFavorite,
    Rating { rating: Option<Double> },
}

impl MediaTrackerEvent {
    pub open spec fn kind_spec(self) -> MediaTrackerEventKind {
        match self {
            MediaTrackerEvent::PlaybackStart { .. } => MediaTrackerEventKind::PlaybackStart,
            MediaTrackerEvent::PlaybackProgress { .. } => MediaTrackerEventKind::PlaybackProgress,
            MediaTrackerEvent::PlaybackStop { .. } => MediaTrackerEventKind::PlaybackStop,
            MediaTrackerEvent::MarkPlayed => MediaTrackerEventKind::MarkPlayed,
            MediaTrackerEvent::MarkUnplayed => MediaTrackerEventKind::MarkUnplayed,
            MediaTrackerEvent::MarkFavorite => MediaTrackerEventKind::MarkFavorite,
            MediaTrackerEvent::UnmarkFavorite => MediaTrackerEventKind::UnmarkFavorite,
            MediaTrackerEvent::Rating { .. } => MediaTrackerEventKind::Rating,
        }
    }

    /// The kind of the event.
    pub fn kind(&self) -> (r: MediaTrackerEventKind)
        ensures
            r == self.kind_spec(),
    {
        match self {
            MediaTrackerEvent::PlaybackStart { .. } => MediaTrackerEventKind::PlaybackStart,
            MediaTrackerEvent::PlaybackProgress { .. } => MediaTrackerEventKind::PlaybackProgress,
            MediaTrackerEvent::PlaybackStop { .. } => MediaTrackerEventKind::PlaybackStop,
            MediaTrackerEvent::MarkPlayed => MediaTrackerEventKind::MarkPlayed,
            MediaTrackerEvent::MarkUnplayed => MediaTrackerEventKind::MarkUnplayed,
            MediaTrackerEvent::MarkFavorite => MediaTrackerEventKind::MarkFavorite,
            MediaTrackerEvent::UnmarkFavorite => MediaTrackerEventKind::UnmarkFavorite,
            MediaTrackerEvent::Rating { .. } => MediaTrackerEventKind::Rating,
        }
    }
}

/// Whether a kind is among the kinds.
pub fn has_kind(kinds: &Vec<MediaTrackerEventKind>, kind: MediaTrackerEventKind) -> (r: bool)
    ensures
        r == kinds@.contains(kind),
{
    for i in 0..kinds.len()
        invariant
            forall|k: int| 0 <= k < i ==> kinds@[k] != kind,
    {
        if kinds[i] == kind {
            return true;
        }
    }
    false
}

/// A title as a tracker needs to see it. An episode carries its series.
#[derive(Debug)]
pub struct MediaTrackerTarget {
    pub kind: MediaKind,
    pub title: String,
    pub year: Option<i32>,
    pub ids: ExternalIds,
    pub series: Option<Box<MediaTrackerTarget>>,
    pub season: Option<i64>,
    pub episode: Option<i64>,
    pub runtime_ticks: Option<i64>,
}

impl MediaTrackerTarget {
    /// Whether something about the title carries an id that one could match on: the title itself,
    /// or its series.
    pub open spec fn matchable(self) -> bool {
        self.ids.some_id() || (self.series matches Some(s) && s.ids.some_id())
    }

    /// Whether something about the title carries an id that one could match on.
    pub fn is_matchable(&self) -> (r: bool)
        ensures
            r == self.matchable(),
    {
        self.ids.has_id() || match &self.series {
            Some(s) => s.ids.has_id(),
            None => false,
        }
    }
}

/// What goes wrong with a tracker.
#[derive(Debug)]
pub enum MediaTrackerError {
    /// It may go well another time.
    Retryable { message: String, retry_after_secs: Option<u64> },
    /// It will not go well: not at all, or not before the user has logged in again.
    Permanent { message: String, reauth_required: bool },
}

pub enum ErrorView {
    Retryable { message: Seq<char>, retry_after_secs: Option<u64> },
    Permanent { message: Seq<char>, reauth_required: bool },
}

impl View for MediaTrackerError {
    type V = ErrorView;

    open spec fn view(&self) -> ErrorView {
        match self {
            MediaTrackerError::Retryable { message, retry_after_secs } => ErrorView::Retryable {
                message: message@,
                retry_after_secs: *retry_after_secs,
            },
            MediaTrackerError::Permanent { message, reauth_required } => ErrorView::Permanent {
                message: message@,
                reauth_required: *reauth_required,
            },
        }
    }
}

impl ErrorView {
    /// An error after which the user has to log in again.
    pub open spec fn reauth(message: Seq<char>) -> ErrorView {
        ErrorView::Permanent { message, reauth_required: true }
    }

    pub open spec fn permanent(message: Seq<char>) -> ErrorView {
        ErrorView::Permanent { message, reauth_required: false }
    }

    pub open spec fn retryable(message: Seq<char>) -> ErrorView {
        ErrorView::Retryable { message, retry_after_secs: None }
    }

    pub open spec fn message(self) -> Seq<char> {
        match self {
            ErrorView::Retryable { message, .. } => message,
            ErrorView::Permanent { message, .. } => message,
        }
    }

    pub open spec fn needs_reauth(self) -> bool {
        self matches ErrorView::Permanent { reauth_required, .. } && reauth_required
    }
}

pub type MediaTrackerResult<T> = Result<T, MediaTrackerError>;

impl MediaTrackerError {
    /// An error after which the user has to log in again.
    pub fn reauth(message: String) -> (r: MediaTrackerError)
        ensures
            r@ == ErrorView::reauth(message@),
    {
        MediaTrackerError::Permanent { message, reauth_required: true }
    }

    pub fn permanent(message: String) -> (r: MediaTrackerError)
        ensures
            r@ == ErrorView::permanent(message@),
    {
        MediaTrackerError::Permanent { message, reauth_required: false }
    }

    pub fn retryable(message: String) -> (r: MediaTrackerError)
        ensures
            r@ == ErrorView::retryable(message@),
    {
        MediaTrackerError::Retryable { message, retry_after_secs: None }
    }

    /// An error after which one has to wait.
    pub fn retry_after(message: String, secs: u64) -> (r: MediaTrackerError)
        ensures
            r@ == (ErrorView::Retryable { message: message@, retry_after_secs: Some(secs) }),
    {
        MediaTrackerError::Retryable { message, retry_after_secs: Some(secs) }
    }

    /// Whether the user has to log in again.
    pub fn requires_reauth(&self) -> (r: bool)
        ensures
            r == self@.needs_reauth(),
    {
        match self {
            MediaTrackerError::Permanent { reauth_required, .. } => *reauth_required,
            MediaTrackerError::Retryable { .. } => false,
        }
    }

    /// What the error says.
    pub fn message(&self) -> (r: String)
        ensures
            r@ == self@.message(),
    {
        match self {
            MediaTrackerError::Retryable { message, .. } => message.clone(),
            MediaTrackerError::Permanent { message, .. } => message.clone(),
        }
    }
}

/// What goes wrong where a tracker is used: with the tracker, or with something else.
#[derive(Debug)]
pub enum ServiceError {
    Tracker(MediaTrackerError),
    Other(String),
}

pub enum ServiceErrorView {
    Tracker(ErrorView),
    Other(Seq<char>),
}

impl View for ServiceError {
    type V = ServiceErrorView;

    open spec fn view(&self) -> ServiceErrorView {
        match self {
            ServiceError::Tracker(e) => ServiceErrorView::Tracker(e@),
            ServiceError::Other(text) => ServiceErrorView::Other(text@),
        }
    }
}

impl ServiceErrorView {
    pub open spec fn message(self) -> Seq<char> {
        match self {
            ServiceErrorView::Tracker(e) => e.message(),
            ServiceErrorView::Other(text) => text,
        }
    }
}

impl ServiceError {
    /// What the error says.
    pub fn message(&self) -> (r: String)
        ensures
            r@ == self@.message(),
    {
        match self {
            ServiceError::Tracker(e) => e.message(),
            ServiceError::Other(text) => text.clone(),
        }
    }
}

/// What a tracker has to remember of a user in order to act for them.
#[derive(Debug)]
pub struct MediaTrackerCredentials {
    pub secret: serde_json::Value,
}

impl View for MediaTrackerCredentials {
    type V = JsonView;

    open spec fn view(&self) -> JsonView {
        json(self.secret)
    }
}

impl MediaTrackerCredentials {
    pub fn new(secret: serde_json::Value) -> (r: MediaTrackerCredentials)
        ensures
            r@ == json(secret),
    {
        MediaTrackerCredentials { secret }
    }

    pub fn expose(&self) -> (r: &serde_json::Value)
        ensures
            json(*r) == self@,
    {
        &self.secret
    }
}

impl Clone for MediaTrackerCredentials {
    fn clone(&self) -> (r: Self)
        ensures
            r@ == self@,
    {
        MediaTrackerCredentials { secret: copy_value(&self.secret) }
    }
}

/// How a user connects a tracker.
#[derive(Debug, Clone, Copy, PartialEq, Eq, Structural)]
pub enum AuthFlow {
    /// The user fills in a form.
    ConnectFields,
    /// The user enters a code on a page of the service.
    OAuthDeviceCode,
}

/// Which way something is kept in step.
#[derive(Debug, Clone, Copy, PartialEq, Eq, Structural)]
pub enum SyncDirection {
    Off,
    Pull,
    Push,
    Both,
}

/// What a tracker can do.
#[derive(Debug)]
pub struct MediaTrackerCapabilities {
    pub auth_flow: AuthFlow,
    pub connect_fields: Vec<String>,
    pub supported_events: Vec<MediaTrackerEventKind>,
    pub default_event_filter: Vec<MediaTrackerEventKind>,
    pub history_import: bool,
    pub progress_import: bool,
    pub watch_state_sync: SyncDirection,
    pub favorites: SyncDirection,
    pub ratings: SyncDirection,
    pub watchlist: SyncDirection,
}

impl MediaTrackerCapabilities {
    /// Whether the tracker takes events of this kind.
    pub fn supports(&self, kind: MediaTrackerEventKind) -> (r: bool)
        ensures
            r == self.supported_events@.contains(kind),
    {
        has_kind(&self.supported_events, kind)
    }
}

/// A device login that has been started: where the user enters which code, and how long to wait
/// between two questions and in all.
#[derive(Debug)]
pub struct DeviceAuthStart {
    pub verification_url: String,
    pub user_code: String,
    pub poll_token: String,
    pub interval_secs: u64,
    pub expires_in_secs: u64,
}

/// Where a device login stands.
#[derive(Debug)]
pub enum DeviceAuthPoll {
    Approved(MediaTrackerCredentials),
    Pending,
    Denied,
}

/// What a tracker knows of a title: that it was watched, how far, when, and how it was liked.
#[derive(Debug)]
pub struct RemoteWatch {
    pub ids: ExternalIds,
    pub season: Option<i64>,
    pub episode: Option<i64>,
    pub watched: bool,
    pub position_ticks: Option<i64>,
    pub progress_percent: Option<Double>,
    pub watched_at: Option<Timestamp>,
    pub favorite: Option<bool>,
    pub rating: Option<Double>,
}

/// How the connection of a user with a tracker is doing.
#[derive(Debug, Clone, Copy, PartialEq, Eq, Structural)]
pub enum MediaTrackerStatus {
    Connected,
    ReauthRequired,
    Failing,
}

/// The connection of a user with a tracker.
#[derive(Debug)]
pub struct UserMediaTracker {
    pub id: u128,
    pub user_id: u128,
    pub addon_id: u128,
    pub status: MediaTrackerStatus,
    pub credentials: MediaTrackerCredentials,
    pub event_filter: Vec<MediaTrackerEventKind>,
    pub last_success_at: Option<Timestamp>,
    pub last_error: Option<String>,
}

impl UserMediaTracker {
    /// A connection that has just been made.
    pub fn new(
        id: u128,
        user_id: u128,
        addon_id: u128,
        credentials: MediaTrackerCredentials,
        event_filter: Vec<MediaTrackerEventKind>,
    ) -> (r: UserMediaTracker)
        ensures
            r == (UserMediaTracker {
                id,
                user_id,
                addon_id,
                status: MediaTrackerStatus::Connected,
                credentials,
                event_filter,
                last_success_at: None,
                last_error: None,
            }),
    {
        UserMediaTracker {
            id,
            user_id,
            addon_id,
            status: MediaTrackerStatus::Connected,
            credentials,
            event_filter,
            last_success_at: None,
            last_error: None,
        }
    }

    /// Whether the user wants the tracker to be told of events of this kind.
    pub fn wants(&self, kind: MediaTrackerEventKind) -> (r: bool)
        ensures
            r == self.event_filter@.contains(kind),
    {
        has_kind(&self.event_filter, kind)
    }
}

/// The kind of an event is that of what happened: no two kinds are mixed up.
pub proof fn lemma_kind_of_event(event: MediaTrackerEvent)
    ensures
        event is PlaybackStart <==> event.kind_spec() is PlaybackStart,
        event is PlaybackProgress <==> event.kind_spec() is PlaybackProgress,
        event is PlaybackStop <==> event.kind_spec() is PlaybackStop,
        event is MarkPlayed <==> event.kind_spec() is MarkPlayed,
        event is MarkUnplayed <==> event.kind_spec() is MarkUnplayed,
        event is MarkFavorite <==> event.kind_spec() is MarkFavorite,
        event is UnmarkFavorite <==> event.kind_spec() is UnmarkFavorite,
        event is Rating <==> event.kind_spec() is Rating,
{
}

/// A title can be matched if and only if one of the services that the library knows has an id for
/// it, or for the series that it carries.
pub proof fn lemma_matchable_by_an_id(target: MediaTrackerTarget)
    ensures
        target.matchable() <==> {
            ||| target.ids.imdb is Some || target.ids.tmdb is Some || target.ids.tvdb is Some
            ||| target.series matches Some(s) && (s.ids.imdb is Some || s.ids.tmdb is Some
                || s.ids.tvdb is Some)
        },
{
}

/// Only an error that says so sends a user back to the login, and such an error will not go well
/// another time. Each error keeps what it says.
pub proof fn lemma_who_logs_in_again(message: Seq<char>, e: ErrorView)
    ensures
        ErrorView::reauth(message).needs_reauth(),
        !ErrorView::permanent(message).needs_reauth(),
        !ErrorView::retryable(message).needs_reauth(),
        e.needs_reauth() ==> e is Permanent,
        ErrorView::permanent(message) is Permanent && ErrorView::retryable(message) is Retryable,
        ErrorView::retryable(message)->retry_after_secs is None,
        ErrorView::reauth(message).message() == message,
        ErrorView::permanent(message).message() == message,
        ErrorView::retryable(message).message() == message,
        ServiceErrorView::Tracker(e).message() == e.message(),
        ServiceErrorView::Other(message).message() == message,
{
}

/// Each kind of media goes by the name that it has here.
pub proof fn lemma_names_of_kinds(kind: MediaKind)
    ensures
        kind is Movie ==> kind.name_spec() == "Movie"@,
        kind is Series ==> kind.name_spec() == "Series"@,
        kind is Season ==> kind.name_spec() == "Season"@,
        kind is Episode ==> kind.name_spec() == "Episode"@,
        kind is Collection ==> kind.name_spec() == "Collection"@,
{
}

} // verus!
