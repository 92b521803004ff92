//! How long the credentials of a tracker are good for.

use crate::json::{as_uint, get_member, member, value_uint, JsonView};
use crate::time::{clock_shows, unix_now};
use crate::tracker::{
    ErrorView, MediaTrackerCredentials, MediaTrackerResult, ServiceError, ServiceErrorView,
    UserMediaTracker,
};
use vstd::prelude::*;

verus! {

/// How long credentials are good for where nothing is said about it: a week, in seconds.
pub const DEFAULT_TTL_SECS: u64 = 604_800;

/// How long before their end credentials are renewed: an hour, in seconds.
pub const REFRESH_MARGIN_SECS: u64 = 3600;

/// The sum, or the greatest number there is.
pub open spec fn saturating_sum(a: u64, b: u64) -> int {
    if a + b > u64::MAX {
        u64::MAX as int
    } else {
        a + b
    }
}

/// Whether credentials made at `created_at` and good for `expires_in` seconds have less than an
/// hour left at `now`. A 0 says that the one or the other is not known: they are then taken to be
/// made now, and to be good for a week.
pub open spec fn expiring(created_at: u64, expires_in: u64, now: u64) -> bool {
    let created = if created_at == 0 {
        now
    } else {
        created_at
    };
    let ttl = if expires_in == 0 {
        DEFAULT_TTL_SECS
    } else {
        expires_in
    };
    saturating_sum(now, REFRESH_MARGIN_SECS) >= saturating_sum(created, ttl)
}

/// Whether credentials have less than an hour left.
pub fn is_expiring(created_at: u64, expires_in: u64, now: u64) -> (r: bool)
    ensures
        r == expiring(created_at, expires_in, now),
{
    let created: u64 = if created_at == 0 {
        now
    } else {
        created_at
    };
    let ttl: u64 = if expires_in == 0 {
        DEFAULT_TTL_SECS
    } else {
        expires_in
    };
    now.saturating_add(REFRESH_MARGIN_SECS) >= created.saturating_add(ttl)
}

/// A member of an object that is an unsigned integer, or the number that stands for it.
pub open spec fn uint_member(v: JsonView, key: Seq<char>, default: u64) -> u64 {
    match member(v, key) {
        Some(w) => match as_uint(w) {
            Some(n) => n,
            None => default,
        },
        None => default,
    }
}

fn read_uint(v: &serde_json::Value, key: &str, default: u64) -> (r: u64)
    ensures
        r == uint_member(crate::json::json(*v), key@, default),
{
    match get_member(v, key) {
        Some(w) => match value_uint(w) {
            Some(n) => n,
            None => default,
        },
        None => default,
    }
}

/// Whether credentials of these contents have less than an hour left at `now`.
pub open spec fn secret_expiring(secret: JsonView, now: u64) -> bool {
    expiring(
        uint_member(secret, "created_at"@, 0),
        uint_member(secret, "expires_in"@, DEFAULT_TTL_SECS),
        now,
    )
}

/// Whether the credentials have less than an hour left at `now`.
pub fn creds_expiring_at(creds: &MediaTrackerCredentials, now: u64) -> (r: bool)
    ensures
        r == secret_expiring(creds@, now),
{
    let v = creds.expose();
    let created_at: u64 = read_uint(v, "created_at", 0);
    let expires_in: u64 = read_uint(v, "expires_in", DEFAULT_TTL_SECS);
    is_expiring(created_at, expires_in, now)
}

/// Whether the credentials have less than an hour left, by the clock.
pub fn creds_expiring(creds: &MediaTrackerCredentials) -> (r: bool)
    ensures
        exists|now: u64| #[trigger] clock_shows(now) && r == secret_expiring(creds@, now),
{
    let now: u64 = unix_now();
    creds_expiring_at(creds, now)
}

/// What is to be done next in order to have credentials that are good for a while.
#[derive(Debug)]
pub enum FreshStep {
    /// These credentials are good for a while: nothing.
    Ready(MediaTrackerCredentials),
    /// To have the tracker renew these.
    Refresh(MediaTrackerCredentials),
    /// To store these.
    Store(MediaTrackerCredentials),
    /// There are none: nothing.
    Failed(ServiceError),
}

pub enum FreshStepView {
    Ready(JsonView),
    Refresh(JsonView),
    Store(JsonView),
    Failed(ServiceErrorView),
}

impl View for FreshStep {
    type V = FreshStepView;

    open spec fn view(&self) -> FreshStepView {
        match self {
            FreshStep::Ready(c) => FreshStepView::Ready(c@),
            FreshStep::Refresh(c) => FreshStepView::Refresh(c@),
            FreshStep::Store(c) => FreshStepView::Store(c@),
            FreshStep::Failed(e) => FreshStepView::Failed(e@),
        }
    }
}

/// What is to be done first, at `now`.
pub open spec fn fresh_start(secret: JsonView, now: u64) -> FreshStepView {
    if secret_expiring(secret, now) {
        FreshStepView::Refresh(secret)
    } else {
        FreshStepView::Ready(secret)
    }
}

/// What is to be done when the tracker has answered.
pub open spec fn fresh_refreshed(reply: Result<JsonView, ErrorView>) -> FreshStepView {
    match reply {
        Ok(new) => FreshStepView::Store(new),
        Err(e) => FreshStepView::Failed(ServiceErrorView::Tracker(e)),
    }
}

/// What is to be done when the new credentials have been stored, or not.
pub open spec fn fresh_stored(new: JsonView, reply: Result<(), String>) -> FreshStepView {
    match reply {
        Ok(_) => FreshStepView::Ready(new),
        Err(text) => FreshStepView::Failed(ServiceErrorView::Other(text@)),
    }
}

/// The answer of a tracker that was asked for credentials, by its views.
pub open spec fn creds_reply(reply: MediaTrackerResult<MediaTrackerCredentials>) -> Result<
    JsonView,
    ErrorView,
> {
    match reply {
        Ok(c) => Ok(c@),
        Err(e) => Err(e@),
    }
}

/// Begins to see to it that the credentials of the user are good for a while, at `now`.
pub fn ensure_fresh_credentials_at(tracker: &UserMediaTracker, now: u64) -> (r: FreshStep)
    ensures
        r@ == fresh_start(tracker.credentials@, now),
{
    let creds = tracker.credentials.clone();
    if creds_expiring_at(&creds, now) {
        FreshStep::Refresh(creds)
    } else {
        FreshStep::Ready(creds)
    }
}

/// Begins to see to it that the credentials of the user are good for a while, by the clock.
pub fn ensure_fresh_credentials(tracker: &UserMediaTracker) -> (r: FreshStep)
    ensures
        exists|now: u64| #[trigger]
            clock_shows(now) && r@ == fresh_start(tracker.credentials@, now),
{
    let now: u64 = unix_now();
    ensure_fresh_credentials_at(tracker, now)
}

/// Goes on when the tracker was asked to renew the credentials.
pub fn credentials_refreshed(reply: MediaTrackerResult<MediaTrackerCredentials>) -> (r: FreshStep)
    ensures
        r@ == fresh_refreshed(creds_reply(reply)),
{
    match reply {
        Ok(new) => FreshStep::Store(new),
        Err(e) => FreshStep::Failed(ServiceError::Tracker(e)),
    }
}

/// Goes on when the new credentials were to be stored.
pub fn credentials_stored(new: MediaTrackerCredentials, reply: Result<(), String>) -> (r: FreshStep)
    ensures
        r@ == fresh_stored(new@, reply),
{
    match reply {
        Ok(_) => FreshStep::Ready(new),
        Err(text) => FreshStep::Failed(ServiceError::Other(text)),
    }
}

/// Credentials that are good for a while are left alone, and those that are renewed are in use
/// only once they are stored.
pub proof fn lemma_fresh_credentials(
    secret: JsonView,
    now: u64,
    new: JsonView,
    stored: Result<(), String>,
)
    ensures
        fresh_start(secret, now) is Ready <==> !secret_expiring(secret, now),
        fresh_start(secret, now) matches FreshStepView::Ready(c) ==> c == secret,
        fresh_refreshed(Ok(new)) == FreshStepView::Store(new),
        fresh_stored(new, stored) is Ready <==> stored is Ok,
        fresh_stored(new, stored) matches FreshStepView::Ready(c) ==> c == new,
{
}

/// Credentials that say when they were made and have less than an hour left do not get better
/// with time.
pub proof fn lemma_expiring_stays(created_at: u64, expires_in: u64, now: u64, later: u64)
    requires
        created_at != 0,
        now <= later,
        expiring(created_at, expires_in, now),
    ensures
        expiring(created_at, expires_in, later),
{
}

/// Credentials that do not say when they were made are renewed if and only if they are good for
/// an hour at most, whatever the clock shows, unless it shows the end of time.
pub proof fn lemma_unknown_age(expires_in: u64, now: u64)
    requires
        expires_in != 0,
        now + expires_in <= u64::MAX,
        now + REFRESH_MARGIN_SECS <= u64::MAX,
    ensures
        expiring(0, expires_in, now) == (expires_in <= REFRESH_MARGIN_SECS),
{
}

/// Credentials end when their time has passed since they were made, and are renewed in the last
/// hour. Where it is not said how long they are good for it is a week, and where it is not said when
/// they were made it is now. Nothing but these times matters, and no sum runs over.
pub proof fn lemma_renewed_in_the_last_hour(created_at: u64, expires_in: u64, now: u64)
    ensures
        ({
            let made = if created_at == 0 {
                now as int
            } else {
                created_at as int
            };
            let good_for = if expires_in == 0 {
                604_800int
            } else {
                expires_in as int
            };
            &&& made + good_for <= u64::MAX && now + 3600 <= u64::MAX ==> (expiring(
                created_at,
                expires_in,
                now,
            ) <==> made + good_for - now <= 3600)
            &&& now + 3600 > u64::MAX ==> expiring(created_at, expires_in, now)
            &&& made + good_for > u64::MAX && now + 3600 < u64::MAX ==> !expiring(
                created_at,
                expires_in,
                now,
            )
        }),
{
}

/// The times are read off the members of these names, where they are whole numbers that are not
/// negative. Credentials in which they are missing, or are something else, are taken to be made now
/// and to be good for a week.
pub proof fn lemma_times_in_credentials(secret: JsonView, now: u64, created: u64, good_for: u64)
    ensures
        member(secret, "created_at"@) == Some(JsonView::Int(created as int)) && member(
            secret,
            "expires_in"@,
        ) == Some(JsonView::Int(good_for as int)) ==> secret_expiring(secret, now) == expiring(
            created,
            good_for,
            now,
        ),
        member(secret, "created_at"@) is None && member(secret, "expires_in"@) == Some(
            JsonView::Int(good_for as int),
        ) ==> secret_expiring(secret, now) == expiring(now, good_for, now),
        member(secret, "created_at"@) == Some(JsonView::Int(created as int)) && member(
            secret,
            "expires_in"@,
        ) is None ==> secret_expiring(secret, now) == expiring(created, 604_800, now),
        !(secret is Object) ==> secret_expiring(secret, now) == expiring(now, 604_800, now),
{
}

/// A renewal that fails, and new credentials that cannot be stored, leave no credentials to go on
/// with, and it is told why.
pub proof fn lemma_failed_renewal_is_told(why: ErrorView, new: JsonView, text: String)
    ensures
        fresh_refreshed(Err(why)) == FreshStepView::Failed(ServiceErrorView::Tracker(why)),
        fresh_stored(new, Err(text)) == FreshStepView::Failed(ServiceErrorView::Other(text@)),
        forall|secret: JsonView, now: u64| #[trigger]
            secret_expiring(secret, now) ==> fresh_start(secret, now) == FreshStepView::Refresh(
                secret,
            ),
{
}

} // verus!
