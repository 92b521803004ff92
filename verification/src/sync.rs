//! The task that keeps the library in step with the trackers.

use crate::credentials::{
    creds_reply, credentials_refreshed, credentials_stored, ensure_fresh_credentials_at,
    fresh_refreshed, fresh_start, fresh_stored, secret_expiring, FreshStep, FreshStepView,
};
use crate::import::INCREMENTAL_NEW_TITLES_PER_SYNC;
use crate::json::JsonView;
use crate::time::{clock_shows, unix_now, Timestamp};
use crate::tracker::{
    ErrorView, MediaTrackerCredentials, MediaTrackerError, MediaTrackerResult, RemoteWatch,
    UserMediaTracker,
};
use vstd::prelude::*;

verus! {

/// What a task has to do with.
#[derive(Debug, Clone, Copy, PartialEq, Eq, Structural)]
pub enum TaskCategory {
    Library,
    Maintenance,
    Users,
}

/// The task that keeps the library in step with the trackers.
#[derive(Debug)]
pub struct MediaTrackerSyncTask;

/// What is being done for a tracker. The credentials are those with which it is done, or which are
/// to be stored.
#[derive(Debug)]
pub enum SyncStage {
    /// The addon is being looked up.
    Looking,
    /// The credentials end soon and are being renewed.
    Refreshing(MediaTrackerCredentials),
    /// The renewed credentials are being stored.
    Storing(MediaTrackerCredentials),
    /// The tracker is asked when anything has changed last.
    Activity(MediaTrackerCredentials),
    /// What the tracker knows is being read.
    Importing(MediaTrackerCredentials),
    /// It is being brought into the library. At most so many titles are added.
    Applying { watches: Vec<RemoteWatch>, max_new_titles: usize },
    /// It is being noted that the tracker does well.
    Succeeded,
    /// It is being noted that the tracker does not do well.
    Failed(MediaTrackerError),
}

pub enum SyncStageView {
    Looking,
    Refreshing(JsonView),
    Storing(JsonView),
    Activity(JsonView),
    Importing(JsonView),
    Applying { watches: Seq<RemoteWatch>, max_new_titles: int },
    Succeeded,
    Failed(ErrorView),
}

impl View for SyncStage {
    type V = SyncStageView;

    open spec fn view(&self) -> SyncStageView {
        match self {
            SyncStage::Looking => SyncStageView::Looking,
            SyncStage::Refreshing(c) => SyncStageView::Refreshing(c@),
            SyncStage::Storing(c) => SyncStageView::Storing(c@),
            SyncStage::Activity(c) => SyncStageView::Activity(c@),
            SyncStage::Importing(c) => SyncStageView::Importing(c@),
            SyncStage::Applying { watches, max_new_titles } => SyncStageView::Applying {
                watches: watches@,
                max_new_titles: *max_new_titles as int,
            },
            SyncStage::Succeeded => SyncStageView::Succeeded,
            SyncStage::Failed(e) => SyncStageView::Failed(e@),
        }
    }
}

/// How a step for a tracker ended.
#[derive(Debug)]
pub enum SyncReply {
    /// Whether the addon is set up.
    Found(bool),
    Refreshed(MediaTrackerResult<MediaTrackerCredentials>),
    Stored(Result<(), String>),
    Activity(MediaTrackerResult<Option<Timestamp>>),
    Imported(MediaTrackerResult<Vec<RemoteWatch>>),
    /// How much was done.
    Applied(Result<usize, String>),
    Marked,
}

impl SyncReply {
    /// Whether this is how such a step can end.
    pub open spec fn fits(self, stage: SyncStageView) -> bool {
        match stage {
            SyncStageView::Looking => self is Found,
            SyncStageView::Refreshing(_) => self is Refreshed,
            SyncStageView::Storing(_) => self is Stored,
            SyncStageView::Activity(_) => self is Activity,
            SyncStageView::Importing(_) => self is Imported,
            SyncStageView::Applying { .. } => self is Applied,
            SyncStageView::Succeeded => self is Marked,
            SyncStageView::Failed(_) => self is Marked,
        }
    }
}

/// What comes of a step: another one, the tracker is done with, or the task fails.
#[derive(Debug)]
pub enum SyncAfter {
    Go(SyncStage),
    Over,
    Abort(String),
}

pub enum SyncAfterView {
    Go(SyncStageView),
    Over,
    Abort(String),
}

impl View for SyncAfter {
    type V = SyncAfterView;

    open spec fn view(&self) -> SyncAfterView {
        match self {
            SyncAfter::Go(stage) => SyncAfterView::Go(stage@),
            SyncAfter::Over => SyncAfterView::Over,
            SyncAfter::Abort(text) => SyncAfterView::Abort(*text),
        }
    }
}

/// What is done with credentials that are good for a while. The first time all is read. Later it
/// is read only if something has changed.
pub open spec fn with_creds(last_success_at: Option<Timestamp>, c: JsonView) -> SyncStageView {
    if last_success_at is None {
        SyncStageView::Importing(c)
    } else {
        SyncStageView::Activity(c)
    }
}

/// How many titles may be added: any number the first time.
pub open spec fn title_limit(last_success_at: Option<Timestamp>) -> int {
    if last_success_at is None {
        usize::MAX as int
    } else {
        INCREMENTAL_NEW_TITLES_PER_SYNC as int
    }
}

/// Whether nothing has changed since the tracker was read last.
pub open spec fn up_to_date(
    last_success_at: Option<Timestamp>,
    activity: MediaTrackerResult<Option<Timestamp>>,
) -> bool {
    match (last_success_at, activity) {
        (Some(local), Ok(Some(remote))) => remote.not_after(local),
        _ => false,
    }
}

/// What is done next on the way to credentials that are good for a while. Without them the tracker
/// is left alone.
pub open spec fn sync_on_the_way(
    last_success_at: Option<Timestamp>,
    step: FreshStepView,
) -> SyncAfterView {
    match step {
        FreshStepView::Ready(c) => SyncAfterView::Go(with_creds(last_success_at, c)),
        FreshStepView::Refresh(c) => SyncAfterView::Go(SyncStageView::Refreshing(c)),
        FreshStepView::Store(c) => SyncAfterView::Go(SyncStageView::Storing(c)),
        FreshStepView::Failed(_) => SyncAfterView::Over,
    }
}

/// What comes of a step for a tracker with which the user has the credentials `secret` and which
/// was read last at `last`, at `now`.
pub open spec fn sync_after(
    stage: SyncStageView,
    secret: JsonView,
    last: Option<Timestamp>,
    reply: SyncReply,
    now: u64,
) -> SyncAfterView {
    match (stage, reply) {
        (SyncStageView::Looking, SyncReply::Found(there)) => if there {
            sync_on_the_way(last, fresh_start(secret, now))
        } else {
            SyncAfterView::Over
        },
        (SyncStageView::Refreshing(_), SyncReply::Refreshed(reply)) => sync_on_the_way(
            last,
            fresh_refreshed(creds_reply(reply)),
        ),
        (SyncStageView::Storing(new), SyncReply::Stored(reply)) => sync_on_the_way(
            last,
            fresh_stored(new, reply),
        ),
        (SyncStageView::Activity(c), SyncReply::Activity(reply)) => if up_to_date(last, reply) {
            SyncAfterView::Over
        } else {
            SyncAfterView::Go(SyncStageView::Importing(c))
        },
        (SyncStageView::Importing(_), SyncReply::Imported(reply)) => match reply {
            Ok(watches) => SyncAfterView::Go(
                SyncStageView::Applying { watches: watches@, max_new_titles: title_limit(last) },
            ),
            Err(e) => SyncAfterView::Go(SyncStageView::Failed(e@)),
        },
        (SyncStageView::Applying { .. }, SyncReply::Applied(reply)) => match reply {
            Ok(_) => SyncAfterView::Go(SyncStageView::Succeeded),
            Err(text) => SyncAfterView::Abort(text),
        },
        (_, SyncReply::Marked) => SyncAfterView::Over,
        _ => arbitrary(),
    }
}

fn sync_go_on(last: Option<Timestamp>, step: FreshStep) -> (r: SyncAfter)
    ensures
        r@ == sync_on_the_way(last, step@),
{
    match step {
        FreshStep::Ready(c) => {
            if last.is_none() {
                SyncAfter::Go(SyncStage::Importing(c))
            } else {
                SyncAfter::Go(SyncStage::Activity(c))
            }
        },
        FreshStep::Refresh(c) => SyncAfter::Go(SyncStage::Refreshing(c)),
        FreshStep::Store(c) => SyncAfter::Go(SyncStage::Storing(c)),
        FreshStep::Failed(_) => SyncAfter::Over,
    }
}

/// What comes of a step for a tracker.
pub fn sync_after_step(
    stage: SyncStage,
    tracker: &UserMediaTracker,
    reply: SyncReply,
    now: u64,
) -> (r: SyncAfter)
    requires
        reply.fits(stage@),
    ensures
        r@ == sync_after(stage@, tracker.credentials@, tracker.last_success_at, reply, now),
{
    let last = tracker.last_success_at;
    match (stage, reply) {
        (SyncStage::Looking, SyncReply::Found(there)) => {
            if there {
                sync_go_on(last, ensure_fresh_credentials_at(tracker, now))
            } else {
                SyncAfter::Over
            }
        },
        (SyncStage::Refreshing(_), SyncReply::Refreshed(reply)) => sync_go_on(
            last,
            credentials_refreshed(reply),
        ),
        (SyncStage::Storing(new), SyncReply::Stored(reply)) => sync_go_on(
            last,
            credentials_stored(new, reply),
        ),
        (SyncStage::Activity(c), SyncReply::Activity(reply)) => {
            if let Ok(Some(remote_at)) = reply {
                if let Some(local_at) = last {
                    if remote_at.is_not_after(&local_at) {
                        return SyncAfter::Over;
                    }
                }
            }
            SyncAfter::Go(SyncStage::Importing(c))
        },
        (SyncStage::Importing(_), SyncReply::Imported(reply)) => match reply {
            Ok(watches) => {
                let max_new_titles: usize = if last.is_none() {
                    usize::MAX
                } else {
                    INCREMENTAL_NEW_TITLES_PER_SYNC
                };
                SyncAfter::Go(SyncStage::Applying { watches, max_new_titles })
            },
            Err(e) => SyncAfter::Go(SyncStage::Failed(e)),
        },
        (SyncStage::Applying { .. }, SyncReply::Applied(reply)) => match reply {
            Ok(_) => SyncAfter::Go(SyncStage::Succeeded),
            Err(text) => SyncAfter::Abort(text),
        },
        _ => SyncAfter::Over,
    }
}

/// The task under way: the trackers, which of them it is the turn of, and what is being done.
#[derive(Debug)]
pub struct SyncRun {
    pub trackers: Vec<UserMediaTracker>,
    pub index: usize,
    pub stage: SyncStage,
}

pub struct SyncView {
    pub trackers: Seq<UserMediaTracker>,
    pub index: int,
    pub stage: SyncStageView,
}

impl View for SyncRun {
    type V = SyncView;

    open spec fn view(&self) -> SyncView {
        SyncView { trackers: self.trackers@, index: self.index as int, stage: self.stage@ }
    }
}

impl SyncView {
    /// It is the turn of one of the trackers.
    pub open spec fn well_formed(self) -> bool {
        0 <= self.index < self.trackers.len()
    }
}

/// What is to be done next, or how the task ended.
#[derive(Debug)]
pub enum SyncStep {
    Go(SyncRun),
    Done(Result<(), String>),
}

pub enum SyncNext {
    Go(SyncView),
    Done(Result<(), String>),
}

impl View for SyncStep {
    type V = SyncNext;

    open spec fn view(&self) -> SyncNext {
        match self {
            SyncStep::Go(s) => SyncNext::Go(s@),
            SyncStep::Done(r) => SyncNext::Done(*r),
        }
    }
}

/// How the task goes on when it is the turn of the tracker at `index`.
pub open spec fn sync_turn(trackers: Seq<UserMediaTracker>, index: int) -> SyncNext {
    if index < trackers.len() {
        SyncNext::Go(SyncView { trackers, index, stage: SyncStageView::Looking })
    } else {
        SyncNext::Done(Ok(()))
    }
}

/// How the task begins when the trackers have been listed.
pub open spec fn sync_start(listed: Result<Vec<UserMediaTracker>, String>) -> SyncNext {
    match listed {
        Ok(trackers) => sync_turn(trackers@, 0),
        Err(text) => SyncNext::Done(Err(text)),
    }
}

/// How the task goes on.
pub open spec fn sync_next(s: SyncView, reply: SyncReply, now: u64) -> SyncNext {
    let tracker = s.trackers[s.index];
    match sync_after(s.stage, tracker.credentials@, tracker.last_success_at, reply, now) {
        SyncAfterView::Go(stage) => SyncNext::Go(SyncView { stage, ..s }),
        SyncAfterView::Over => sync_turn(s.trackers, s.index + 1),
        SyncAfterView::Abort(text) => SyncNext::Done(Err(text)),
    }
}

impl MediaTrackerSyncTask {
    pub fn key(&self) -> (r: &'static str)
        ensures
            r@ == "MediaTrackerSync"@,
    {
        "MediaTrackerSync"
    }

    pub fn name(&self) -> (r: &'static str)
        ensures
            r@ == "Sync Media Trackers"@,
    {
        "Sync Media Trackers"
    }

    pub fn description(&self) -> (r: &'static str)
        ensures
            r@
                == "Pulls Trakt last_activities, history, playback, and watching into local Next Up."@,
    {
        "Pulls Trakt last_activities, history, playback, and watching into local Next Up."
    }

    pub fn short_description(&self) -> (r: &'static str)
        ensures
            r@ == "Keeps Trakt watch state in sync"@,
    {
        "Keeps Trakt watch state in sync"
    }

    pub fn category(&self) -> (r: TaskCategory)
        ensures
            r == TaskCategory::Users,
    {
        TaskCategory::Users
    }

    /// Begins the task when the trackers of all users have been listed.
    pub fn run(&self, listed: Result<Vec<UserMediaTracker>, String>) -> (r: SyncStep)
        ensures
            r@ == sync_start(listed),
            r@ matches SyncNext::Go(s) ==> s.well_formed(),
    {
        match listed {
            Ok(trackers) => {
                if trackers.len() > 0 {
                    SyncStep::Go(SyncRun { trackers, index: 0, stage: SyncStage::Looking })
                } else {
                    SyncStep::Done(Ok(()))
                }
            },
            Err(text) => SyncStep::Done(Err(text)),
        }
    }

    /// Goes on with the task, at `now`.
    pub fn resume_at(&self, s: SyncRun, reply: SyncReply, now: u64) -> (r: SyncStep)
        requires
            s@.well_formed(),
            reply.fits(s@.stage),
        ensures
            r@ == sync_next(s@, reply, now),
            r@ matches SyncNext::Go(t) ==> t.well_formed(),
    {
        let SyncRun { trackers, index, stage } = s;
        match sync_after_step(stage, &trackers[index], reply, now) {
            SyncAfter::Go(stage) => SyncStep::Go(SyncRun { trackers, index, stage }),
            SyncAfter::Over => {
                if index < trackers.len() - 1 {
                    SyncStep::Go(SyncRun { trackers, index: index + 1, stage: SyncStage::Looking })
                } else {
                    SyncStep::Done(Ok(()))
                }
            },
            SyncAfter::Abort(text) => SyncStep::Done(Err(text)),
        }
    }

    /// Goes on with the task, by the clock.
    pub fn resume(&self, s: SyncRun, reply: SyncReply) -> (r: SyncStep)
        requires
            s@.well_formed(),
            reply.fits(s@.stage),
        ensures
            exists|now: u64| #[trigger] clock_shows(now) && r@ == sync_next(s@, reply, now),
            r@ matches SyncNext::Go(t) ==> t.well_formed(),
    {
        let now: u64 = unix_now();
        self.resume_at(s, reply, now)
    }
}

/// The first time, all that the tracker knows is read, whatever has changed, and any number of
/// titles may be added.
pub proof fn lemma_first_sync_is_full(c: JsonView, secret: JsonView, reply: SyncReply, now: u64)
    requires
        reply.fits(SyncStageView::Importing(c)),
    ensures
        with_creds(None, c) == SyncStageView::Importing(c),
        reply matches SyncReply::Imported(Ok(watches)) ==> sync_after(
            SyncStageView::Importing(c),
            secret,
            None,
            reply,
            now,
        ) == SyncAfterView::Go(
            SyncStageView::Applying { watches: watches@, max_new_titles: usize::MAX as int },
        ),
{
}

/// Later, a tracker is passed over if and only if it says that nothing has changed since, and at
/// most five titles are added.
pub proof fn lemma_later_sync_is_incremental(
    c: JsonView,
    secret: JsonView,
    last: Timestamp,
    activity: MediaTrackerResult<Option<Timestamp>>,
    watches: Vec<RemoteWatch>,
    now: u64,
)
    ensures
        with_creds(Some(last), c) == SyncStageView::Activity(c),
        sync_after(
            SyncStageView::Activity(c),
            secret,
            Some(last),
            SyncReply::Activity(activity),
            now,
        ) == SyncAfterView::Over <==> (activity matches Ok(Some(at)) && at.not_after(last)),
        sync_after(
            SyncStageView::Activity(c),
            secret,
            Some(last),
            SyncReply::Activity(activity),
            now,
        ) != SyncAfterView::Over ==> sync_after(
            SyncStageView::Activity(c),
            secret,
            Some(last),
            SyncReply::Activity(activity),
            now,
        ) == SyncAfterView::Go(SyncStageView::Importing(c)),
        sync_after(
            SyncStageView::Importing(c),
            secret,
            Some(last),
            SyncReply::Imported(Ok(watches)),
            now,
        ) == SyncAfterView::Go(
            SyncStageView::Applying { watches: watches@, max_new_titles: 5 },
        ),
{
}

/// What goes wrong with a tracker does not keep the others from being read. Only what goes wrong
/// with the library ends the task.
pub proof fn lemma_one_tracker_stops_nothing(s: SyncView, reply: SyncReply, now: u64)
    requires
        s.well_formed(),
        reply.fits(s.stage),
    ensures
        match sync_next(s, reply, now) {
            SyncNext::Go(t) => t.trackers == s.trackers && (t.index == s.index || (t.index
                == s.index + 1 && t.stage is Looking)),
            SyncNext::Done(Ok(_)) => s.index + 1 == s.trackers.len(),
            SyncNext::Done(Err(text)) => s.stage is Applying && reply == SyncReply::Applied(
                Err::<usize, String>(text),
            ),
        },
{
}

/// A tracker is noted to do well only after what it knows has been brought into the library, and
/// not to do well only after it could not be read.
pub proof fn lemma_marks_are_earned(s: SyncView, reply: SyncReply, now: u64)
    requires
        s.well_formed(),
        reply.fits(s.stage),
        sync_next(s, reply, now) is Go,
    ensures
        sync_next(s, reply, now)->Go_0.stage is Succeeded ==> s.stage is Applying && (
        reply matches SyncReply::Applied(Ok(_))),
        sync_next(s, reply, now)->Go_0.stage matches SyncStageView::Failed(why) ==> s.stage
            is Importing && (reply matches SyncReply::Imported(Err(e)) && e@ == why),
{
}

/// The order in which the steps for a tracker come.
pub open spec fn sync_rank(stage: SyncStageView) -> int {
    match stage {
        SyncStageView::Looking => 0,
        SyncStageView::Refreshing(_) => 1,
        SyncStageView::Storing(_) => 2,
        SyncStageView::Activity(_) => 3,
        SyncStageView::Importing(_) => 4,
        SyncStageView::Applying { .. } => 5,
        SyncStageView::Succeeded => 6,
        SyncStageView::Failed(_) => 6,
    }
}

/// How many steps are left at most: seven for each tracker.
pub open spec fn sync_steps_left(s: SyncView) -> int {
    7 * (s.trackers.len() - s.index) - sync_rank(s.stage)
}

/// The task ends: each step leaves fewer of them.
pub proof fn lemma_sync_ends(s: SyncView, reply: SyncReply, now: u64)
    requires
        s.well_formed(),
        reply.fits(s.stage),
    ensures
        sync_next(s, reply, now) matches SyncNext::Go(t) ==> 0 < sync_steps_left(t)
            < sync_steps_left(s),
{
}

/// What the task comes to after a series of replies, each with the time at which it comes.
pub open spec fn sync_run(s: SyncView, replies: Seq<(SyncReply, u64)>) -> SyncNext
    decreases replies.len(),
{
    if replies.len() == 0 {
        SyncNext::Go(s)
    } else {
        match sync_next(s, replies[0].0, replies[0].1) {
            SyncNext::Go(t) => sync_run(t, replies.drop_first()),
            end => end,
        }
    }
}

/// Whether each reply answers what is being done when it comes.
pub open spec fn sync_replies_fit(s: SyncView, replies: Seq<(SyncReply, u64)>) -> bool
    decreases replies.len(),
{
    replies.len() == 0 || (replies[0].0.fits(s.stage) && match sync_next(
        s,
        replies[0].0,
        replies[0].1,
    ) {
        SyncNext::Go(t) => sync_replies_fit(t, replies.drop_first()),
        SyncNext::Done(_) => replies.len() == 1,
    })
}

/// Whether it is the turn of the tracker at `i` of these.
pub open spec fn is_sync_turn_of(next: SyncNext, all: Seq<UserMediaTracker>, i: int) -> bool {
    next matches SyncNext::Go(s) && s.trackers == all && s.index == i && s.stage is Looking
}

/// By the time that the task ends well each tracker has had its turn.
pub proof fn lemma_every_tracker_is_synchronised(
    s: SyncView,
    replies: Seq<(SyncReply, u64)>,
    i: int,
)
    requires
        s.well_formed(),
        sync_replies_fit(s, replies),
        sync_run(s, replies) == SyncNext::Done(Ok::<(), String>(())),
        s.index < i < s.trackers.len(),
    ensures
        exists|k: int|
            0 <= k <= replies.len() && is_sync_turn_of(
                #[trigger] sync_run(s, replies.take(k)),
                s.trackers,
                i,
            ),
    decreases replies.len(),
{
    let rest = replies.drop_first();
    assert(sync_next(s, replies[0].0, replies[0].1) is Go);
    let t = sync_next(s, replies[0].0, replies[0].1)->Go_0;
    if t.index == i {
        let one = replies.take(1);
        assert(one.drop_first().len() == 0);
        assert(sync_run(t, one.drop_first()) == SyncNext::Go(t));
        assert(is_sync_turn_of(sync_run(s, replies.take(1)), s.trackers, i));
    } else {
        lemma_every_tracker_is_synchronised(t, rest, i);
        let k = choose|k: int|
            0 <= k <= rest.len() && is_sync_turn_of(
                #[trigger] sync_run(t, rest.take(k)),
                s.trackers,
                i,
            );
        assert(replies.take(k + 1).drop_first() =~= rest.take(k));
        assert(is_sync_turn_of(sync_run(s, replies.take(k + 1)), s.trackers, i));
    }
}

/// A tracker is read with the credentials that the user has with it, unless these have less than an
/// hour left: then with new ones, and only once they are stored. Without credentials to go on with,
/// and where the addon is not set up, the tracker is left alone and nothing is noted.
pub proof fn lemma_read_with_which_credentials(
    secret: JsonView,
    c: JsonView,
    last: Option<Timestamp>,
    there: bool,
    renewed: MediaTrackerResult<MediaTrackerCredentials>,
    stored: Result<(), String>,
    now: u64,
)
    ensures
        match sync_after(SyncStageView::Looking, secret, last, SyncReply::Found(there), now) {
            SyncAfterView::Go(SyncStageView::Importing(with)) => there && with == secret && last
                is None && !secret_expiring(secret, now),
            SyncAfterView::Go(SyncStageView::Activity(with)) => there && with == secret && last
                is Some && !secret_expiring(secret, now),
            SyncAfterView::Go(SyncStageView::Refreshing(with)) => there && with == secret
                && secret_expiring(secret, now),
            SyncAfterView::Over => !there,
            _ => false,
        },
        match (
            renewed,
            sync_after(
                SyncStageView::Refreshing(c),
                secret,
                last,
                SyncReply::Refreshed(renewed),
                now,
            ),
        ) {
            (Ok(new), SyncAfterView::Go(SyncStageView::Storing(with))) => with == new@,
            (Err(_), SyncAfterView::Over) => true,
            _ => false,
        },
        match (
            stored,
            sync_after(SyncStageView::Storing(c), secret, last, SyncReply::Stored(stored), now),
        ) {
            (Ok(_), SyncAfterView::Go(SyncStageView::Importing(with))) => with == c && last is None,
            (Ok(_), SyncAfterView::Go(SyncStageView::Activity(with))) => with == c && last is Some,
            (Err(_), SyncAfterView::Over) => true,
            _ => false,
        },
{
}

/// A tracker that was read before is read again unless it says that nothing has happened since. Where
/// it does not say when anything happened, or cannot be asked, it is read.
pub proof fn lemma_read_unless_nothing_happened(
    secret: JsonView,
    c: JsonView,
    last: Timestamp,
    activity: MediaTrackerResult<Option<Timestamp>>,
    now: u64,
)
    ensures
        match sync_after(
            SyncStageView::Activity(c),
            secret,
            Some(last),
            SyncReply::Activity(activity),
            now,
        ) {
            SyncAfterView::Over => activity matches Ok(Some(at)) && (at.secs < last.secs || (at.secs
                == last.secs && at.nanos <= last.nanos)),
            SyncAfterView::Go(SyncStageView::Importing(with)) => with == c && !(
            activity matches Ok(Some(at)) && (at.secs < last.secs || (at.secs == last.secs
                && at.nanos <= last.nanos))),
            _ => false,
        },
{
}

/// All that was read is brought into the library, any number of new titles the first time and five
/// at most later. The tracker is noted to do well once that is done, and what could not be read is
/// noted as it is told. What goes wrong with the library ends the task.
pub proof fn lemma_brought_in_as_read(
    secret: JsonView,
    c: JsonView,
    last: Option<Timestamp>,
    imported: MediaTrackerResult<Vec<RemoteWatch>>,
    watches: Seq<RemoteWatch>,
    limit: int,
    applied: Result<usize, String>,
    why: ErrorView,
    now: u64,
)
    ensures
        match (
            imported,
            sync_after(
                SyncStageView::Importing(c),
                secret,
                last,
                SyncReply::Imported(imported),
                now,
            ),
        ) {
            (Ok(v), SyncAfterView::Go(SyncStageView::Applying { watches: w, max_new_titles })) => w
                == v@ && (last is None ==> max_new_titles == usize::MAX) && (last is Some
                ==> max_new_titles == 5),
            (Err(e), SyncAfterView::Go(SyncStageView::Failed(told))) => told == e@,
            _ => false,
        },
        match (
            applied,
            sync_after(
                SyncStageView::Applying { watches, max_new_titles: limit },
                secret,
                last,
                SyncReply::Applied(applied),
                now,
            ),
        ) {
            (Ok(_), SyncAfterView::Go(next)) => next is Succeeded,
            (Err(text), SyncAfterView::Abort(told)) => told == text,
            _ => false,
        },
        sync_after(SyncStageView::Succeeded, secret, last, SyncReply::Marked, now)
            == SyncAfterView::Over,
        sync_after(SyncStageView::Failed(why), secret, last, SyncReply::Marked, now)
            == SyncAfterView::Over,
{
}

/// The task begins with the first tracker, if there is one, and what goes wrong with listing them
/// ends it.
pub proof fn lemma_sync_begins(listed: Result<Vec<UserMediaTracker>, String>)
    ensures
        match (listed, sync_start(listed)) {
            (Ok(all), SyncNext::Go(s)) => s.trackers == all@ && s.index == 0 && s.stage is Looking
                && all@.len() > 0,
            (Ok(all), SyncNext::Done(r)) => r is Ok && all@.len() == 0,
            (Err(text), SyncNext::Done(r)) => r == Err::<(), String>(text),
            _ => false,
        },
{
}

} // verus!
