//! Telling the trackers of a user what the user does.

use crate::addon::calls::{is_playback, playback_kinds};
use crate::credentials::{
    creds_reply, credentials_refreshed, credentials_stored, ensure_fresh_credentials_at,
    fresh_refreshed, fresh_start, fresh_stored, secret_expiring, FreshStep, FreshStepView,
};
use crate::double::Double;
use crate::json::JsonView;
use crate::media::Media;
use crate::time::{clock_shows, unix_now};
use crate::tracker::{
    MediaTrackerCapabilities, MediaTrackerCredentials, MediaTrackerEvent, MediaTrackerEventKind,
    MediaTrackerResult, MediaTrackerStatus, MediaTrackerTarget, ServiceError, ServiceErrorView,
    UserMediaTracker,
};
use vstd::prelude::*;

verus! {

/// A kind of event in the server.
#[derive(Debug, Clone, Copy, PartialEq, Eq, Structural)]
pub enum EventType {
    PlaybackStarted,
    PlaybackProgress,
    PlaybackStopped,
    MarkPlayed,
    MarkUnplayed,
    MarkFavorite,
    UnmarkFavorite,
    Rating,
    Other,
}

/// A playback of a title by a user.
#[derive(Debug, Clone, Copy, PartialEq, Eq, Structural)]
pub struct PlaybackContext {
    pub user_id: u128,
    pub media_id: u128,
    pub position_ticks: i64,
    pub is_paused: bool,
    pub played: bool,
}

/// A title that a user has marked.
#[derive(Debug, Clone, Copy, PartialEq, Eq, Structural)]
pub struct MarkInfo {
    pub user_id: u128,
    pub media_id: u128,
}

/// A title that a user has rated, or whose rating they have taken back.
#[derive(Debug, Clone, Copy, PartialEq, Eq, Structural)]
pub struct RatingInfo {
    pub user_id: u128,
    pub media_id: u128,
    pub rating: Option<Double>,
}

/// An event in the server.
#[derive(Debug, Clone, Copy, PartialEq, Eq, Structural)]
pub enum Event {
    PlaybackStarted(PlaybackContext),
    PlaybackProgress(PlaybackContext),
    PlaybackStopped(PlaybackContext),
    MarkPlayed(MarkInfo),
    MarkUnplayed(MarkInfo),
    MarkFavorite(MarkInfo),
    UnmarkFavorite(MarkInfo),
    Rating(RatingInfo),
    /// An event that no tracker is told of.
    Other,
}

impl Event {
    /// The kind of the event.
    pub open spec fn event_type(self) -> EventType {
        match self {
            Event::PlaybackStarted(_) => EventType::PlaybackStarted,
            Event::PlaybackProgress(_) => EventType::PlaybackProgress,
            Event::PlaybackStopped(_) => EventType::PlaybackStopped,
            Event::MarkPlayed(_) => EventType::MarkPlayed,
            Event::MarkUnplayed(_) => EventType::MarkUnplayed,
            Event::MarkFavorite(_) => EventType::MarkFavorite,
            Event::UnmarkFavorite(_) => EventType::UnmarkFavorite,
            Event::Rating(_) => EventType::Rating,
            Event::Other => EventType::Other,
        }
    }
}

/// How events come to a subscriber.
#[derive(Debug, Clone, Copy, PartialEq, Eq, Structural)]
pub enum DeliveryMode {
    Transient,
    /// Events are kept, and come again after a failure, at most so often.
    Persistent { max_retries: Option<u32> },
}

/// Who did something, with what, and what the trackers are told of it.
#[derive(Debug, Clone, Copy, PartialEq, Eq, Structural)]
pub struct Notice {
    pub user_id: u128,
    pub media_id: u128,
    pub event: MediaTrackerEvent,
}

pub open spec fn mark_notice(i: MarkInfo, event: MediaTrackerEvent) -> Option<Notice> {
    Some(Notice { user_id: i.user_id, media_id: i.media_id, event })
}

pub open spec fn playback_notice(i: PlaybackContext, event: MediaTrackerEvent) -> Option<Notice> {
    Some(Notice { user_id: i.user_id, media_id: i.media_id, event })
}

/// What the trackers are told of an event.
pub open spec fn notice_of(event: Event) -> Option<Notice> {
    match event {
        Event::PlaybackStarted(i) => playback_notice(
            i,
            MediaTrackerEvent::PlaybackStart { position_ticks: i.position_ticks },
        ),
        Event::PlaybackProgress(i) => playback_notice(
            i,
            MediaTrackerEvent::PlaybackProgress {
                position_ticks: i.position_ticks,
                is_paused: i.is_paused,
            },
        ),
        Event::PlaybackStopped(i) => playback_notice(
            i,
            MediaTrackerEvent::PlaybackStop { position_ticks: i.position_ticks, played: i.played },
        ),
        Event::MarkPlayed(i) => mark_notice(i, MediaTrackerEvent::MarkPlayed),
        Event::MarkUnplayed(i) => mark_notice(i, MediaTrackerEvent::MarkUnplayed),
        Event::MarkFavorite(i) => mark_notice(i, MediaTrackerEvent::MarkFavorite),
        Event::UnmarkFavorite(i) => mark_notice(i, MediaTrackerEvent::UnmarkFavorite),
        Event::Rating(i) => Some(
            Notice {
                user_id: i.user_id,
                media_id: i.media_id,
                event: MediaTrackerEvent::Rating { rating: i.rating },
            },
        ),
        Event::Other => None,
    }
}

/// What the trackers are told of an event.
pub fn notice(event: Event) -> (r: Option<Notice>)
    ensures
        r == notice_of(event),
{
    let (user_id, media_id, event) = match event {
        Event::PlaybackStarted(i) => (
            i.user_id,
            i.media_id,
            MediaTrackerEvent::PlaybackStart { position_ticks: i.position_ticks },
        ),
        Event::PlaybackProgress(i) => (
            i.user_id,
            i.media_id,
            MediaTrackerEvent::PlaybackProgress {
                position_ticks: i.position_ticks,
                is_paused: i.is_paused,
            },
        ),
        Event::PlaybackStopped(i) => (
            i.user_id,
            i.media_id,
            MediaTrackerEvent::PlaybackStop { position_ticks: i.position_ticks, played: i.played },
        ),
        Event::MarkPlayed(i) => (i.user_id, i.media_id, MediaTrackerEvent::MarkPlayed),
        Event::MarkUnplayed(i) => (i.user_id, i.media_id, MediaTrackerEvent::MarkUnplayed),
        Event::MarkFavorite(i) => (i.user_id, i.media_id, MediaTrackerEvent::MarkFavorite),
        Event::UnmarkFavorite(i) => (i.user_id, i.media_id, MediaTrackerEvent::UnmarkFavorite),
        Event::Rating(i) => (
            i.user_id,
            i.media_id,
            MediaTrackerEvent::Rating { rating: i.rating },
        ),
        Event::Other => {
            return None;
        },
    };
    Some(Notice { user_id, media_id, event })
}

/// The trackers that are set up: the id of each addon, and what it can do.
pub struct TrackerAddons {
    pub entries: Vec<(u128, MediaTrackerCapabilities)>,
}

impl TrackerAddons {
    /// Whether an addon is set up, and takes events of this kind.
    pub open spec fn supported(self, addon_id: u128, kind: MediaTrackerEventKind) -> bool {
        first_supports(self.entries@, addon_id, kind)
    }

    /// Whether an addon is set up, and takes events of this kind.
    pub fn supports(&self, addon_id: u128, kind: MediaTrackerEventKind) -> (r: bool)
        ensures
            r == self.supported(addon_id, kind),
    {
        assert(self.entries@.skip(0) =~= self.entries@);
        for i in 0..self.entries.len()
            invariant
                self.supported(addon_id, kind) == first_supports(
                    self.entries@.skip(i as int),
                    addon_id,
                    kind,
                ),
        {
            if self.entries[i].0 == addon_id {
                return self.entries[i].1.supports(kind);
            }
            assert(self.entries@.skip(i as int).drop_first() =~= self.entries@.skip(i + 1));
        }
        false
    }
}

/// Whether the first entry of an addon takes events of this kind.
pub open spec fn first_supports(
    entries: Seq<(u128, MediaTrackerCapabilities)>,
    addon_id: u128,
    kind: MediaTrackerEventKind,
) -> bool
    decreases entries.len(),
{
    if entries.len() == 0 {
        false
    } else if entries[0].0 == addon_id {
        entries[0].1.supported_events@.contains(kind)
    } else {
        first_supports(entries.drop_first(), addon_id, kind)
    }
}

/// Whether a tracker is told of events of this kind: the user is connected with it and wants it
/// to be told, and it takes them.
pub open spec fn is_wanted(
    tracker: UserMediaTracker,
    addons: TrackerAddons,
    kind: MediaTrackerEventKind,
) -> bool {
    &&& tracker.status == MediaTrackerStatus::Connected
    &&& tracker.event_filter@.contains(kind)
    &&& addons.supported(tracker.addon_id, kind)
}

/// The trackers that are told of events of this kind.
pub open spec fn wanted_spec(
    trackers: Seq<UserMediaTracker>,
    addons: TrackerAddons,
    kind: MediaTrackerEventKind,
) -> Seq<UserMediaTracker> {
    trackers.filter(|t: UserMediaTracker| is_wanted(t, addons, kind))
}

/// The trackers that are told of events of this kind.
pub fn wanted_trackers(
    trackers: Vec<UserMediaTracker>,
    addons: &TrackerAddons,
    kind: MediaTrackerEventKind,
) -> (r: Vec<UserMediaTracker>)
    ensures
        r@ == wanted_spec(trackers@, *addons, kind),
{
    let ghost all = trackers@;
    let ghost pred = |t: UserMediaTracker| is_wanted(t, *addons, kind);
    let mut out: Vec<UserMediaTracker> = Vec::new();
    proof {
        reveal(Seq::filter);
    }
    for t in it: trackers
        invariant
            it.seq() == all,
            pred == |t: UserMediaTracker| is_wanted(t, *addons, kind),
            out@ == all.take(it.index() as int).filter(pred),
    {
        proof {
            reveal(Seq::filter);
            assert(all.take(it.index() + 1).drop_last() =~= all.take(it.index() as int));
        }
        if t.status == MediaTrackerStatus::Connected && t.wants(kind) && addons.supports(
            t.addon_id,
            kind,
        ) {
            out.push(t);
        }
    }
    assert(all.take(all.len() as int) =~= all);
    out
}

/// What is being done for a tracker. Each step carries the credentials with which it is done, or
/// which are to be stored.
#[derive(Debug)]
pub enum Stage {
    /// The addon is being looked up.
    Looking,
    /// The credentials end soon and are being renewed.
    Refreshing(MediaTrackerCredentials),
    /// The renewed credentials are being stored.
    Storing(MediaTrackerCredentials),
    /// The event is being delivered.
    Delivering(MediaTrackerCredentials),
    /// The credentials were refused and are being renewed.
    Renewing(MediaTrackerCredentials),
    /// The credentials that take their place are being stored.
    Restoring(MediaTrackerCredentials),
    /// The event is being delivered once more.
    Redelivering(MediaTrackerCredentials),
    /// It is being noted that the tracker does well.
    Marking,
}

pub enum StageView {
    Looking,
    Refreshing(JsonView),
    Storing(JsonView),
    Delivering(JsonView),
    Renewing(JsonView),
    Restoring(JsonView),
    Redelivering(JsonView),
    Marking,
}

impl View for Stage {
    type V = StageView;

    open spec fn view(&self) -> StageView {
        match self {
            Stage::Looking => StageView::Looking,
            Stage::Refreshing(c) => StageView::Refreshing(c@),
            Stage::Storing(c) => StageView::Storing(c@),
            Stage::Delivering(c) => StageView::Delivering(c@),
            Stage::Renewing(c) => StageView::Renewing(c@),
            Stage::Restoring(c) => StageView::Restoring(c@),
            Stage::Redelivering(c) => StageView::Redelivering(c@),
            Stage::Marking => StageView::Marking,
        }
    }
}

/// How a step for a tracker ended.
#[derive(Debug)]
pub enum DeliveryReply {
    /// Whether the addon is set up.
    Found(bool),
    Refreshed(MediaTrackerResult<MediaTrackerCredentials>),
    Stored(Result<(), String>),
    Delivered(MediaTrackerResult<()>),
    Marked,
}

impl DeliveryReply {
    /// Whether this is how such a step can end.
    pub open spec fn fits(self, stage: StageView) -> bool {
        match stage {
            StageView::Looking => self is Found,
            StageView::Refreshing(_) => self is Refreshed,
            StageView::Storing(_) => self is Stored,
            StageView::Delivering(_) => self is Delivered,
            StageView::Renewing(_) => self is Refreshed,
            StageView::Restoring(_) => self is Stored,
            StageView::Redelivering(_) => self is Delivered,
            StageView::Marking => self is Marked,
        }
    }
}

/// What comes of a step: another one, or the tracker is done with, with an error or without.
#[derive(Debug)]
pub enum After {
    Go(Stage),
    Over(Option<ServiceError>),
}

pub enum AfterView {
    Go(StageView),
    Over(Option<ServiceErrorView>),
}

impl View for After {
    type V = AfterView;

    open spec fn view(&self) -> AfterView {
        match self {
            After::Go(stage) => AfterView::Go(stage@),
            After::Over(None) => AfterView::Over(None),
            After::Over(Some(e)) => AfterView::Over(Some(e@)),
        }
    }
}

/// What is done next on the way to credentials that are good for a while.
pub open spec fn on_the_way(step: FreshStepView) -> AfterView {
    match step {
        FreshStepView::Ready(c) => AfterView::Go(StageView::Delivering(c)),
        FreshStepView::Refresh(c) => AfterView::Go(StageView::Refreshing(c)),
        FreshStepView::Store(c) => AfterView::Go(StageView::Storing(c)),
        FreshStepView::Failed(e) => AfterView::Over(Some(e)),
    }
}

/// What an error of a tracker says, and nothing more of it.
pub open spec fn told(e: crate::tracker::ErrorView) -> Option<ServiceErrorView> {
    Some(ServiceErrorView::Other(e.message()))
}

/// What comes of a step for a tracker with which the user has the credentials `secret`, at `now`.
pub open spec fn after(
    stage: StageView,
    secret: JsonView,
    reply: DeliveryReply,
    now: u64,
) -> AfterView {
    match (stage, reply) {
        (StageView::Looking, DeliveryReply::Found(there)) => if there {
            on_the_way(fresh_start(secret, now))
        } else {
            AfterView::Over(None)
        },
        (StageView::Refreshing(_), DeliveryReply::Refreshed(reply)) => on_the_way(
            fresh_refreshed(creds_reply(reply)),
        ),
        (StageView::Storing(new), DeliveryReply::Stored(reply)) => on_the_way(
            fresh_stored(new, reply),
        ),
        (StageView::Delivering(c), DeliveryReply::Delivered(reply)) => match reply {
            Ok(_) => AfterView::Go(StageView::Marking),
            Err(e) => if e@.needs_reauth() {
                AfterView::Go(StageView::Renewing(c))
            } else {
                AfterView::Over(told(e@))
            },
        },
        (StageView::Renewing(_), DeliveryReply::Refreshed(reply)) => match reply {
            Ok(new) => AfterView::Go(StageView::Restoring(new@)),
            Err(e) => AfterView::Over(told(e@)),
        },
        (StageView::Restoring(new), DeliveryReply::Stored(_)) => AfterView::Go(
            StageView::Redelivering(new),
        ),
        (StageView::Redelivering(_), DeliveryReply::Delivered(reply)) => match reply {
            Ok(_) => AfterView::Go(StageView::Marking),
            Err(e) => AfterView::Over(told(e@)),
        },
        (StageView::Marking, DeliveryReply::Marked) => AfterView::Over(None),
        _ => arbitrary(),
    }
}

fn go_on(step: FreshStep) -> (r: After)
    ensures
        r@ == on_the_way(step@),
{
    match step {
        FreshStep::Ready(c) => After::Go(Stage::Delivering(c)),
        FreshStep::Refresh(c) => After::Go(Stage::Refreshing(c)),
        FreshStep::Store(c) => After::Go(Stage::Storing(c)),
        FreshStep::Failed(e) => After::Over(Some(e)),
    }
}

/// What comes of a step for a tracker.
pub fn after_step(stage: Stage, tracker: &UserMediaTracker, reply: DeliveryReply, now: u64) -> (r:
    After)
    requires
        reply.fits(stage@),
    ensures
        r@ == after(stage@, tracker.credentials@, reply, now),
{
    match (stage, reply) {
        (Stage::Looking, DeliveryReply::Found(there)) => {
            if there {
                go_on(ensure_fresh_credentials_at(tracker, now))
            } else {
                After::Over(None)
            }
        },
        (Stage::Refreshing(_), DeliveryReply::Refreshed(reply)) => go_on(
            credentials_refreshed(reply),
        ),
        (Stage::Storing(new), DeliveryReply::Stored(reply)) => go_on(
            credentials_stored(new, reply),
        ),
        (Stage::Delivering(c), DeliveryReply::Delivered(reply)) => match reply {
            Ok(_) => After::Go(Stage::Marking),
            Err(e) => {
                if e.requires_reauth() {
                    After::Go(Stage::Renewing(c))
                } else {
                    After::Over(Some(ServiceError::Other(e.message())))
                }
            },
        },
        (Stage::Renewing(_), DeliveryReply::Refreshed(reply)) => match reply {
            Ok(new) => After::Go(Stage::Restoring(new)),
            Err(e) => After::Over(Some(ServiceError::Other(e.message()))),
        },
        (Stage::Restoring(new), DeliveryReply::Stored(_)) => After::Go(Stage::Redelivering(new)),
        (Stage::Redelivering(_), DeliveryReply::Delivered(reply)) => match reply {
            Ok(_) => After::Go(Stage::Marking),
            Err(e) => After::Over(Some(ServiceError::Other(e.message()))),
        },
        _ => After::Over(None),
    }
}

/// The order in which the steps for a tracker come.
pub open spec fn stage_rank(stage: StageView) -> int {
    match stage {
        StageView::Looking => 0,
        StageView::Refreshing(_) => 1,
        StageView::Storing(_) => 2,
        StageView::Delivering(_) => 3,
        StageView::Renewing(_) => 4,
        StageView::Restoring(_) => 5,
        StageView::Redelivering(_) => 6,
        StageView::Marking => 7,
    }
}

/// No step is done twice for a tracker: it is told of the event at most twice, and its
/// credentials are renewed at most twice, once before and once after the first delivery.
pub proof fn lemma_steps_in_order(
    stage: StageView,
    secret: JsonView,
    reply: DeliveryReply,
    now: u64,
)
    requires
        reply.fits(stage),
    ensures
        after(stage, secret, reply, now) matches AfterView::Go(next) ==> stage_rank(next)
            > stage_rank(stage),
{
}

/// The event is delivered once more only after credentials were refused, and with new ones.
pub proof fn lemma_second_delivery(
    c: JsonView,
    secret: JsonView,
    first: MediaTrackerResult<()>,
    renewed: MediaTrackerResult<MediaTrackerCredentials>,
    stored: Result<(), String>,
    now: u64,
)
    ensures
        after(StageView::Delivering(c), secret, DeliveryReply::Delivered(first), now)
            == AfterView::Go(StageView::Renewing(c)) <==> (first matches Err(e)
            && e@.needs_reauth()),
        after(StageView::Renewing(c), secret, DeliveryReply::Refreshed(renewed), now) is Go
            <==> renewed is Ok,
        renewed matches Ok(new) ==> after(
            StageView::Renewing(c),
            secret,
            DeliveryReply::Refreshed(renewed),
            now,
        ) == AfterView::Go(StageView::Restoring(new@)) && after(
            StageView::Restoring(new@),
            secret,
            DeliveryReply::Stored(stored),
            now,
        ) == AfterView::Go(StageView::Redelivering(new@)),
{
}

/// The delivery of an event under way: the trackers that are told of it, which of them is the
/// one being told, what is being done for it, and what has gone wrong so far.
#[derive(Debug)]
pub struct Delivery {
    pub event: MediaTrackerEvent,
    pub target: MediaTrackerTarget,
    pub wanted: Vec<UserMediaTracker>,
    pub index: usize,
    pub stage: Stage,
    pub errors: Vec<ServiceError>,
}

/// The handling of an event under way: what is being done, or how it ended.
#[derive(Debug)]
pub enum Handling {
    /// The trackers of the user are being listed.
    Listing { notice: Notice },
    /// The row of the title is being read.
    Loading { notice: Notice, wanted: Vec<UserMediaTracker> },
    /// The row is being resolved.
    Resolving { event: MediaTrackerEvent, wanted: Vec<UserMediaTracker>, media: Media },
    /// The trackers are being told.
    Delivering(Delivery),
    Done(Result<(), ServiceError>),
}

pub enum HandlingView {
    Listing { notice: Notice },
    Loading { notice: Notice, wanted: Seq<UserMediaTracker> },
    Resolving { event: MediaTrackerEvent, wanted: Seq<UserMediaTracker>, media: Media },
    Delivering {
        event: MediaTrackerEvent,
        target: MediaTrackerTarget,
        wanted: Seq<UserMediaTracker>,
        index: int,
        stage: StageView,
        errors: Seq<ServiceErrorView>,
    },
    Done(Result<(), ServiceErrorView>),
}

/// The views of errors.
pub open spec fn error_views(errors: Seq<ServiceError>) -> Seq<ServiceErrorView> {
    errors.map_values(|e: ServiceError| e@)
}

impl View for Handling {
    type V = HandlingView;

    open spec fn view(&self) -> HandlingView {
        match self {
            Handling::Listing { notice } => HandlingView::Listing { notice: *notice },
            Handling::Loading { notice, wanted } => HandlingView::Loading {
                notice: *notice,
                wanted: wanted@,
            },
            Handling::Resolving { event, wanted, media } => HandlingView::Resolving {
                event: *event,
                wanted: wanted@,
                media: *media,
            },
            Handling::Delivering(d) => HandlingView::Delivering {
                event: d.event,
                target: d.target,
                wanted: d.wanted@,
                index: d.index as int,
                stage: d.stage@,
                errors: error_views(d.errors@),
            },
            Handling::Done(Ok(_)) => HandlingView::Done(Ok(())),
            Handling::Done(Err(e)) => HandlingView::Done(Err(e@)),
        }
    }
}

impl HandlingView {
    /// While trackers are being told, it is the turn of one of them.
    pub open spec fn well_formed(self) -> bool {
        self matches HandlingView::Delivering { wanted, index, .. } ==> 0 <= index < wanted.len()
    }
}

/// How something that was done for the handling of an event ended.
#[derive(Debug)]
pub enum HandlingReply {
    Listed(Result<Vec<UserMediaTracker>, String>),
    Loaded(Result<Option<Media>, String>),
    Resolved(Result<Option<MediaTrackerTarget>, String>),
    Delivery(DeliveryReply),
}

impl HandlingReply {
    /// Whether this is how it can end.
    pub open spec fn fits(self, state: HandlingView) -> bool {
        match state {
            HandlingView::Listing { .. } => self is Listed,
            HandlingView::Loading { .. } => self is Loaded,
            HandlingView::Resolving { .. } => self is Resolved,
            HandlingView::Delivering { stage, .. } => self matches HandlingReply::Delivery(r)
                && r.fits(stage),
            HandlingView::Done(_) => false,
        }
    }
}

/// How an event begins to be handled.
pub open spec fn handling_start(event: Event, addons: TrackerAddons) -> HandlingView {
    match notice_of(event) {
        Some(notice) => if addons.entries@.len() > 0 {
            HandlingView::Listing { notice }
        } else {
            HandlingView::Done(Ok(()))
        },
        None => HandlingView::Done(Ok(())),
    }
}

/// What the handling comes to where these errors are all there were: the first of them.
pub open spec fn verdict(errors: Seq<ServiceErrorView>) -> Result<(), ServiceErrorView> {
    if errors.len() == 0 {
        Ok(())
    } else {
        Err(errors[0])
    }
}

/// What comes next when a tracker is done with: the next one, whatever went wrong.
pub open spec fn next_tracker(
    event: MediaTrackerEvent,
    target: MediaTrackerTarget,
    wanted: Seq<UserMediaTracker>,
    index: int,
    errors: Seq<ServiceErrorView>,
) -> HandlingView {
    if index + 1 < wanted.len() {
        HandlingView::Delivering {
            event,
            target,
            wanted,
            index: index + 1,
            stage: StageView::Looking,
            errors,
        }
    } else {
        HandlingView::Done(verdict(errors))
    }
}

/// The errors so far, and another one where there is one.
pub open spec fn with_error(
    errors: Seq<ServiceErrorView>,
    e: Option<ServiceErrorView>,
) -> Seq<ServiceErrorView> {
    match e {
        Some(e) => errors.push(e),
        None => errors,
    }
}

/// How an event goes on being handled.
pub open spec fn handling_next(
    state: HandlingView,
    addons: TrackerAddons,
    reply: HandlingReply,
    now: u64,
) -> HandlingView {
    match (state, reply) {
        (HandlingView::Listing { notice }, HandlingReply::Listed(reply)) => match reply {
            Err(text) => HandlingView::Done(Err(ServiceErrorView::Other(text@))),
            Ok(trackers) => {
                let wanted = wanted_spec(trackers@, addons, notice.event.kind_spec());
                if wanted.len() == 0 {
                    HandlingView::Done(Ok(()))
                } else {
                    HandlingView::Loading { notice, wanted }
                }
            },
        },
        (HandlingView::Loading { notice, wanted }, HandlingReply::Loaded(reply)) => match reply {
            Err(text) => HandlingView::Done(Err(ServiceErrorView::Other(text@))),
            Ok(None) => HandlingView::Done(Ok(())),
            Ok(Some(media)) => HandlingView::Resolving { event: notice.event, wanted, media },
        },
        (
            HandlingView::Resolving { event, wanted, .. },
            HandlingReply::Resolved(reply),
        ) => match reply {
            Err(text) => HandlingView::Done(Err(ServiceErrorView::Other(text@))),
            Ok(None) => HandlingView::Done(Ok(())),
            Ok(Some(target)) => next_tracker(event, target, wanted, -1, Seq::empty()),
        },
        (
            HandlingView::Delivering { event, target, wanted, index, stage, errors },
            HandlingReply::Delivery(reply),
        ) => match after(stage, wanted[index].credentials@, reply, now) {
            AfterView::Go(stage) => HandlingView::Delivering {
                event,
                target,
                wanted,
                index,
                stage,
                errors,
            },
            AfterView::Over(e) => next_tracker(
                event,
                target,
                wanted,
                index,
                with_error(errors, e),
            ),
        },
        _ => arbitrary(),
    }
}

fn first_error(errors: Vec<ServiceError>) -> (r: Handling)
    ensures
        r@ == HandlingView::Done(verdict(error_views(errors@))),
{
    let ghost all = errors@;
    let mut errors = errors;
    if errors.len() == 0 {
        Handling::Done(Ok(()))
    } else {
        let e = errors.remove(0);
        assert(error_views(all)[0] == e@);
        Handling::Done(Err(e))
    }
}

/// Tells the trackers of a user what the user does.
#[derive(Debug)]
pub struct MediaTrackerSubscriber;

/// The kinds of events that trackers are told of.
pub open spec fn subscribed() -> Seq<EventType> {
    seq![
        EventType::PlaybackStarted,
        EventType::PlaybackProgress,
        EventType::PlaybackStopped,
        EventType::MarkPlayed,
        EventType::MarkUnplayed,
        EventType::MarkFavorite,
        EventType::UnmarkFavorite,
        EventType::Rating,
    ]
}

impl MediaTrackerSubscriber {
    /// The name of the subscriber.
    pub fn key(&self) -> (r: &'static str)
        ensures
            r@ == "media_tracker"@,
    {
        "media_tracker"
    }

    /// The kinds of events that trackers are told of.
    pub fn events(&self) -> (r: Vec<EventType>)
        ensures
            r@ == subscribed(),
    {
        vec![
            EventType::PlaybackStarted,
            EventType::PlaybackProgress,
            EventType::PlaybackStopped,
            EventType::MarkPlayed,
            EventType::MarkUnplayed,
            EventType::MarkFavorite,
            EventType::UnmarkFavorite,
            EventType::Rating,
        ]
    }

    /// An event that could not be handled comes again, at most twelve times.
    pub fn delivery_mode(&self) -> (r: DeliveryMode)
        ensures
            r == (DeliveryMode::Persistent { max_retries: Some(12) }),
    {
        DeliveryMode::Persistent { max_retries: Some(12) }
    }

    /// Begins to handle an event.
    pub fn handle(&self, event: Event, addons: &TrackerAddons) -> (r: Handling)
        ensures
            r@ == handling_start(event, *addons),
            r@.well_formed(),
    {
        match notice(event) {
            Some(notice) => {
                if addons.entries.len() > 0 {
                    Handling::Listing { notice }
                } else {
                    Handling::Done(Ok(()))
                }
            },
            None => Handling::Done(Ok(())),
        }
    }

    /// Goes on handling an event, at `now`.
    pub fn resume_at(
        &self,
        state: Handling,
        addons: &TrackerAddons,
        reply: HandlingReply,
        now: u64,
    ) -> (r: Handling)
        requires
            state@.well_formed(),
            reply.fits(state@),
        ensures
            r@ == handling_next(state@, *addons, reply, now),
            r@.well_formed(),
    {
        match (state, reply) {
            (Handling::Listing { notice }, HandlingReply::Listed(reply)) => match reply {
                Err(text) => Handling::Done(Err(ServiceError::Other(text))),
                Ok(trackers) => {
                    let wanted = wanted_trackers(trackers, addons, notice.event.kind());
                    if wanted.len() == 0 {
                        Handling::Done(Ok(()))
                    } else {
                        Handling::Loading { notice, wanted }
                    }
                },
            },
            (Handling::Loading { notice, wanted }, HandlingReply::Loaded(reply)) => match reply {
                Err(text) => Handling::Done(Err(ServiceError::Other(text))),
                Ok(None) => Handling::Done(Ok(())),
                Ok(Some(media)) => Handling::Resolving { event: notice.event, wanted, media },
            },
            (
                Handling::Resolving { event, wanted, .. },
                HandlingReply::Resolved(reply),
            ) => match reply {
                Err(text) => Handling::Done(Err(ServiceError::Other(text))),
                Ok(None) => Handling::Done(Ok(())),
                Ok(Some(target)) => {
                    let errors: Vec<ServiceError> = Vec::new();
                    assert(error_views(errors@) =~= Seq::empty());
                    if wanted.len() > 0 {
                        Handling::Delivering(
                            Delivery {
                                event,
                                target,
                                wanted,
                                index: 0,
                                stage: Stage::Looking,
                                errors,
                            },
                        )
                    } else {
                        Handling::Done(Ok(()))
                    }
                },
            },
            (Handling::Delivering(d), HandlingReply::Delivery(reply)) => {
                let Delivery { event, target, wanted, index, stage, errors } = d;
                let mut errors = errors;
                match after_step(stage, &wanted[index], reply, now) {
                    After::Go(stage) => Handling::Delivering(
                        Delivery { event, target, wanted, index, stage, errors },
                    ),
                    After::Over(e) => {
                        let ghost before = errors@;
                        if let Some(e) = e {
                            errors.push(e);
                            assert(error_views(errors@) =~= error_views(before).push(e@));
                        }
                        if index < wanted.len() - 1 {
                            Handling::Delivering(
                                Delivery {
                                    event,
                                    target,
                                    wanted,
                                    index: index + 1,
                                    stage: Stage::Looking,
                                    errors,
                                },
                            )
                        } else {
                            first_error(errors)
                        }
                    },
                }
            },
            _ => Handling::Done(Ok(())),
        }
    }

    /// Goes on handling an event, by the clock.
    pub fn resume(&self, state: Handling, addons: &TrackerAddons, reply: HandlingReply) -> (r:
        Handling)
        requires
            state@.well_formed(),
            reply.fits(state@),
        ensures
            exists|now: u64| #[trigger]
                clock_shows(now) && r@ == handling_next(state@, *addons, reply, now),
            r@.well_formed(),
    {
        let now: u64 = unix_now();
        self.resume_at(state, addons, reply, now)
    }
}

/// The events that are handled are those of the kinds that are subscribed to, where a tracker is
/// set up at all.
pub proof fn lemma_handles_what_is_subscribed(event: Event, addons: TrackerAddons)
    ensures
        handling_start(event, addons) is Listing <==> subscribed().contains(event.event_type())
            && addons.entries@.len() > 0,
        !(handling_start(event, addons) is Listing) ==> handling_start(event, addons)
            == HandlingView::Done(Ok::<(), ServiceErrorView>(())),
{
    let s = subscribed();
    assert(s[0] is PlaybackStarted && s[1] is PlaybackProgress && s[2] is PlaybackStopped
        && s[3] is MarkPlayed && s[4] is MarkUnplayed && s[5] is MarkFavorite
        && s[6] is UnmarkFavorite && s[7] is Rating);
    assert(s.contains(event.event_type()) <==> !(event is Other)) by {
        if event is Other {
            if s.contains(EventType::Other) {
                let i = choose|i: int| 0 <= i < s.len() && s[i] == EventType::Other;
                assert(s[i] is Other);
            }
        } else {
            assert(s[0] == event.event_type() || s[1] == event.event_type() || s[2]
                == event.event_type() || s[3] == event.event_type() || s[4] == event.event_type()
                || s[5] == event.event_type() || s[6] == event.event_type() || s[7]
                == event.event_type());
        }
    }
}

proof fn lemma_filter_keeps(
    trackers: Seq<UserMediaTracker>,
    pred: spec_fn(UserMediaTracker) -> bool,
    i: int,
)
    requires
        0 <= i < trackers.filter(pred).len(),
    ensures
        trackers.contains(trackers.filter(pred)[i]),
    decreases trackers.len(),
{
    reveal(Seq::filter);
    if trackers.len() > 0 {
        let rest = trackers.drop_last();
        if i < rest.filter(pred).len() {
            lemma_filter_keeps(rest, pred, i);
            let k = choose|k: int| 0 <= k < rest.len() && rest[k] == rest.filter(pred)[i];
            assert(trackers[k] == rest[k]);
        } else {
            assert(trackers[trackers.len() - 1] == trackers.last());
        }
    }
}

/// Trackers that are not connected, or that the user does not want to be told, or that do not
/// take such events, are told nothing: only the others are kept, in their order.
pub proof fn lemma_only_wanted_are_told(
    trackers: Seq<UserMediaTracker>,
    addons: TrackerAddons,
    kind: MediaTrackerEventKind,
    i: int,
)
    requires
        0 <= i < wanted_spec(trackers, addons, kind).len(),
    ensures
        is_wanted(wanted_spec(trackers, addons, kind)[i], addons, kind),
        trackers.contains(wanted_spec(trackers, addons, kind)[i]),
{
    let pred = |t: UserMediaTracker| is_wanted(t, addons, kind);
    let out = trackers.filter(pred);
    broadcast use vstd::seq_lib::group_filter_ensures;

    assert(pred(out[i]));
    lemma_filter_keeps(trackers, pred, i);
}

/// A tracker that is connected, that the user wants to be told, and that takes such events, is
/// told.
pub proof fn lemma_all_wanted_are_told(
    trackers: Seq<UserMediaTracker>,
    addons: TrackerAddons,
    kind: MediaTrackerEventKind,
    i: int,
)
    requires
        0 <= i < trackers.len(),
        is_wanted(trackers[i], addons, kind),
    ensures
        wanted_spec(trackers, addons, kind).contains(trackers[i]),
{
    broadcast use vstd::seq_lib::group_filter_ensures;

    let pred = |t: UserMediaTracker| is_wanted(t, addons, kind);
    assert(pred(trackers[i]));
    assert(trackers.filter(pred).contains(trackers[i]));
}

/// What goes wrong with a tracker does not keep the others from being told: when a tracker is done
/// with, it is the turn of the next, and an error is kept behind those that came before.
pub proof fn lemma_failure_stops_nothing(
    state: HandlingView,
    addons: TrackerAddons,
    reply: HandlingReply,
    now: u64,
)
    requires
        state is Delivering,
        state.well_formed(),
        reply.fits(state),
        state->index + 1 < state->Delivering_wanted.len(),
    ensures
        handling_next(state, addons, reply, now) matches HandlingView::Delivering {
            event,
            target,
            wanted,
            index,
            stage,
            errors,
        } && event == state->Delivering_event && target == state->target && wanted
            == state->Delivering_wanted && state->errors.is_prefix_of(errors) && (index
            == state->index || (index == state->index + 1 && stage is Looking)),
{
}

/// What the handling comes to: an error if and only if there was one, and then the first.
pub proof fn lemma_first_error_is_told(
    state: HandlingView,
    addons: TrackerAddons,
    reply: HandlingReply,
    now: u64,
)
    requires
        state is Delivering,
        state.well_formed(),
        reply.fits(state),
        handling_next(state, addons, reply, now) is Done,
    ensures
        state->errors.len() > 0 ==> handling_next(state, addons, reply, now) == HandlingView::Done(
            Err::<(), ServiceErrorView>(state->errors[0]),
        ),
        state->errors.len() == 0 ==> (handling_next(state, addons, reply, now)
            == HandlingView::Done(Ok::<(), ServiceErrorView>(())) <==> after(
            state->stage,
            state->Delivering_wanted[state->index].credentials@,
            reply->Delivery_0,
            now,
        ) == AfterView::Over(None)),
{
}

/// How many steps are left at most.
pub open spec fn steps_left(state: HandlingView) -> int {
    match state {
        HandlingView::Delivering { wanted, index, stage, .. } => 8 * (wanted.len() - index)
            - stage_rank(stage),
        _ => 0,
    }
}

/// The delivery ends: each step leaves fewer of them.
pub proof fn lemma_delivery_ends(
    state: HandlingView,
    addons: TrackerAddons,
    reply: HandlingReply,
    now: u64,
)
    requires
        state is Delivering,
        state.well_formed(),
        reply.fits(state),
    ensures
        0 <= steps_left(handling_next(state, addons, reply, now)) < steps_left(state),
{
}

/// What the handling comes to after a series of replies, each with the time at which it comes.
pub open spec fn handling_run(
    state: HandlingView,
    addons: TrackerAddons,
    replies: Seq<(HandlingReply, u64)>,
) -> HandlingView
    decreases replies.len(),
{
    if replies.len() == 0 {
        state
    } else {
        handling_run(
            handling_next(state, addons, replies[0].0, replies[0].1),
            addons,
            replies.drop_first(),
        )
    }
}

/// Whether each reply answers what is being done when it comes.
pub open spec fn replies_fit(
    state: HandlingView,
    addons: TrackerAddons,
    replies: Seq<(HandlingReply, u64)>,
) -> bool
    decreases replies.len(),
{
    replies.len() == 0 || (replies[0].0.fits(state) && replies_fit(
        handling_next(state, addons, replies[0].0, replies[0].1),
        addons,
        replies.drop_first(),
    ))
}

/// Whether it is the turn of the tracker at `i` of these.
pub open spec fn is_turn_of(state: HandlingView, all: Seq<UserMediaTracker>, i: int) -> bool {
    state matches HandlingView::Delivering { wanted, index, stage, .. } && wanted == all && index
        == i && stage is Looking
}

/// By the time that the handling ends each tracker that is to be told has had its turn, whatever
/// went wrong with the others.
pub proof fn lemma_every_tracker_has_its_turn(
    state: HandlingView,
    addons: TrackerAddons,
    replies: Seq<(HandlingReply, u64)>,
    i: int,
)
    requires
        state is Delivering,
        state.well_formed(),
        replies_fit(state, addons, replies),
        handling_run(state, addons, replies) is Done,
        state->index < i < state->Delivering_wanted.len(),
    ensures
        exists|k: int|
            0 <= k <= replies.len() && is_turn_of(
                #[trigger] handling_run(state, addons, replies.take(k)),
                state->Delivering_wanted,
                i,
            ),
    decreases replies.len(),
{
    let next = handling_next(state, addons, replies[0].0, replies[0].1);
    let rest = replies.drop_first();
    let all = state->Delivering_wanted;
    assert(next is Delivering);
    if next->index == i {
        let one = replies.take(1);
        assert(one.drop_first().len() == 0);
        assert(handling_run(next, addons, one.drop_first()) == next);
        assert(is_turn_of(handling_run(state, addons, replies.take(1)), all, i));
    } else {
        lemma_every_tracker_has_its_turn(next, addons, rest, i);
        let k = choose|k: int|
            0 <= k <= rest.len() && is_turn_of(
                #[trigger] handling_run(next, addons, rest.take(k)),
                all,
                i,
            );
        assert(replies.take(k + 1).drop_first() =~= rest.take(k));
        assert(is_turn_of(handling_run(state, addons, replies.take(k + 1)), all, i));
    }
}

/// A connection that leaves it at the events that Trakt is told of by default has Trakt told of
/// playbacks, and of nothing else.
pub proof fn lemma_default_tells_playbacks_only(
    tracker: UserMediaTracker,
    addons: TrackerAddons,
    kind: MediaTrackerEventKind,
)
    requires
        tracker.event_filter@ == playback_kinds(),
        is_wanted(tracker, addons, kind),
    ensures
        is_playback(kind),
{
    let i = choose|i: int| 0 <= i < 3 && playback_kinds()[i] == kind;
    assert(playback_kinds()[i] == kind);
}

/// The trackers are told what the user did, of whom and with what: where a playback is, whether it
/// is paused, whether the title counts as played when it stops, what was marked or unmarked, and
/// which rating was given, or that it was taken back.
pub proof fn lemma_told_as_done(
    addons: TrackerAddons,
    i: PlaybackContext,
    mark: MarkInfo,
    rating: RatingInfo,
)
    requires
        addons.entries@.len() > 0,
    ensures
        handling_start(Event::PlaybackStarted(i), addons) matches HandlingView::Listing { notice }
            && notice.user_id == i.user_id && notice.media_id == i.media_id
            && notice.event == (MediaTrackerEvent::PlaybackStart {
            position_ticks: i.position_ticks,
        }),
        handling_start(Event::PlaybackProgress(i), addons) matches HandlingView::Listing { notice }
            && notice.user_id == i.user_id && notice.media_id == i.media_id
            && notice.event == (MediaTrackerEvent::PlaybackProgress {
            position_ticks: i.position_ticks,
            is_paused: i.is_paused,
        }),
        handling_start(Event::PlaybackStopped(i), addons) matches HandlingView::Listing { notice }
            && notice.user_id == i.user_id && notice.media_id == i.media_id
            && notice.event == (MediaTrackerEvent::PlaybackStop {
            position_ticks: i.position_ticks,
            played: i.played,
        }),
        handling_start(Event::MarkPlayed(mark), addons) matches HandlingView::Listing { notice }
            && notice.user_id == mark.user_id && notice.media_id == mark.media_id && notice.event
            is MarkPlayed,
        handling_start(Event::MarkUnplayed(mark), addons) matches HandlingView::Listing { notice }
            && notice.user_id == mark.user_id && notice.media_id == mark.media_id && notice.event
            is MarkUnplayed,
        handling_start(Event::MarkFavorite(mark), addons) matches HandlingView::Listing { notice }
            && notice.user_id == mark.user_id && notice.media_id == mark.media_id && notice.event
            is MarkFavorite,
        handling_start(Event::UnmarkFavorite(mark), addons) matches HandlingView::Listing { notice }
            && notice.user_id == mark.user_id && notice.media_id == mark.media_id && notice.event
            is UnmarkFavorite,
        handling_start(Event::Rating(rating), addons) matches HandlingView::Listing { notice }
            && notice.user_id == rating.user_id && notice.media_id == rating.media_id
            && notice.event == (MediaTrackerEvent::Rating { rating: rating.rating }),
{
}

/// What the trackers are told of an event does not depend on which trackers there are, and two
/// events of which they are told are told apart, but for whether a playback is paused or counts as
/// played where that says nothing.
pub proof fn lemma_events_are_told_apart(a: Event, b: Event)
    requires
        notice_of(a) is Some,
        notice_of(a) == notice_of(b),
    ensures
        a.event_type() == b.event_type(),
        a matches Event::PlaybackStopped(i) ==> (b matches Event::PlaybackStopped(j) && i.played
            == j.played && i.position_ticks == j.position_ticks && i.user_id == j.user_id
            && i.media_id == j.media_id),
        a matches Event::PlaybackProgress(i) ==> (b matches Event::PlaybackProgress(j)
            && i.is_paused == j.is_paused && i.position_ticks == j.position_ticks && i.user_id
            == j.user_id && i.media_id == j.media_id),
        !(a is PlaybackStarted || a is PlaybackProgress || a is PlaybackStopped) ==> a == b,
{
}

/// Whether the tracker at `i` of these is the first with this id.
pub open spec fn is_first_addon(
    entries: Seq<(u128, MediaTrackerCapabilities)>,
    addon_id: u128,
    i: int,
) -> bool {
    &&& 0 <= i < entries.len()
    &&& entries[i].0 == addon_id
    &&& forall|j: int| 0 <= j < i ==> (#[trigger] entries[j]).0 != addon_id
}

proof fn lemma_first_addon_decides(
    entries: Seq<(u128, MediaTrackerCapabilities)>,
    addon_id: u128,
    kind: MediaTrackerEventKind,
)
    ensures
        forall|i: int| #[trigger]
            is_first_addon(entries, addon_id, i) ==> (first_supports(entries, addon_id, kind)
                <==> entries[i].1.supported_events@.contains(kind)),
        (forall|i: int| 0 <= i < entries.len() ==> (#[trigger] entries[i]).0 != addon_id)
            ==> !first_supports(entries, addon_id, kind),
    decreases entries.len(),
{
    if entries.len() > 0 && entries[0].0 != addon_id {
        let rest = entries.drop_first();
        lemma_first_addon_decides(rest, addon_id, kind);
        assert(forall|j: int| 0 <= j < rest.len() ==> rest[j] == entries[j + 1]);
        assert forall|i: int| #[trigger] is_first_addon(entries, addon_id, i) implies (
        first_supports(entries, addon_id, kind) <==> entries[i].1.supported_events@.contains(
            kind,
        )) by {
            assert(is_first_addon(rest, addon_id, i - 1));
        }
    } else if entries.len() > 0 {
        assert forall|i: int| #[trigger] is_first_addon(entries, addon_id, i) implies i == 0 by {
            if i > 0 {
                assert(entries[0].0 != addon_id);
            }
        }
    }
}

/// A tracker is told of an event if and only if the user is connected with it, wants it to be told
/// of such events, and the addon with its id is set up and takes them.
pub proof fn lemma_who_is_told(
    tracker: UserMediaTracker,
    addons: TrackerAddons,
    kind: MediaTrackerEventKind,
    i: int,
)
    ensures
        is_wanted(tracker, addons, kind) ==> tracker.status is Connected
            && tracker.event_filter@.contains(kind) && exists|k: int|
            0 <= k < addons.entries@.len() && (#[trigger] addons.entries@[k]).0 == tracker.addon_id
                && addons.entries@[k].1.supported_events@.contains(kind),
        is_first_addon(addons.entries@, tracker.addon_id, i) ==> (is_wanted(tracker, addons, kind)
            <==> tracker.status is Connected && tracker.event_filter@.contains(kind)
            && addons.entries@[i].1.supported_events@.contains(kind)),
{
    let entries = addons.entries@;
    lemma_first_addon_decides(entries, tracker.addon_id, kind);
    if is_wanted(tracker, addons, kind) {
        lemma_has_first(entries, tracker.addon_id);
        let k = choose|k: int| is_first_addon(entries, tracker.addon_id, k);
        assert(entries[k].0 == tracker.addon_id);
    }
}

proof fn lemma_has_first(entries: Seq<(u128, MediaTrackerCapabilities)>, addon_id: u128)
    requires
        exists|i: int| 0 <= i < entries.len() && (#[trigger] entries[i]).0 == addon_id,
    ensures
        exists|i: int| is_first_addon(entries, addon_id, i),
    decreases entries.len(),
{
    let rest = entries.drop_last();
    if exists|i: int| 0 <= i < rest.len() && (#[trigger] rest[i]).0 == addon_id {
        lemma_has_first(rest, addon_id);
        let k = choose|k: int| is_first_addon(rest, addon_id, k);
        assert(forall|j: int| 0 <= j < rest.len() ==> rest[j] == entries[j]);
        assert(is_first_addon(entries, addon_id, k));
    } else {
        assert forall|j: int| 0 <= j < entries.len() - 1 implies (#[trigger] entries[j]).0
            != addon_id by {
            assert(rest[j] == entries[j]);
        }
        assert(is_first_addon(entries, addon_id, entries.len() - 1));
    }
}

/// The trackers are told in the order in which they are listed, each of those that are to be told
/// once for each time that it is listed.
pub proof fn lemma_told_in_order(
    trackers: Seq<UserMediaTracker>,
    t: UserMediaTracker,
    addons: TrackerAddons,
    kind: MediaTrackerEventKind,
)
    ensures
        wanted_spec(Seq::empty(), addons, kind).len() == 0,
        wanted_spec(trackers.push(t), addons, kind) == if is_wanted(t, addons, kind) {
            wanted_spec(trackers, addons, kind).push(t)
        } else {
            wanted_spec(trackers, addons, kind)
        },
{
    reveal(Seq::filter);
    assert(trackers.push(t).drop_last() =~= trackers);
}

/// What is told stays the same from the event to the last tracker: the trackers that want to be
/// told are told of just this event, and of the title as it was resolved. Where no tracker wants to
/// be told, or there is no such title or nothing to match it by, nobody is. What goes wrong with
/// finding out ends the handling and is told.
pub proof fn lemma_same_from_first_to_last(
    notice: Notice,
    wanted: Seq<UserMediaTracker>,
    event: MediaTrackerEvent,
    media: Media,
    addons: TrackerAddons,
    listed: Result<Vec<UserMediaTracker>, String>,
    loaded: Result<Option<Media>, String>,
    resolved: Result<Option<MediaTrackerTarget>, String>,
    now: u64,
)
    requires
        wanted.len() > 0,
    ensures
        match (
            listed,
            handling_next(
                HandlingView::Listing { notice },
                addons,
                HandlingReply::Listed(listed),
                now,
            ),
        ) {
            (Ok(all), HandlingView::Loading { notice: n, wanted: w }) => n == notice && w.len() > 0
                && w == wanted_spec(all@, addons, notice.event.kind_spec()),
            (Ok(all), HandlingView::Done(r)) => r is Ok && wanted_spec(
                all@,
                addons,
                notice.event.kind_spec(),
            ).len() == 0,
            (Err(text), HandlingView::Done(r)) => r == Err::<(), ServiceErrorView>(
                ServiceErrorView::Other(text@),
            ),
            _ => false,
        },
        match (
            loaded,
            handling_next(
                HandlingView::Loading { notice, wanted },
                addons,
                HandlingReply::Loaded(loaded),
                now,
            ),
        ) {
            (Ok(Some(m)), HandlingView::Resolving { event: e, wanted: w, media: x }) => e
                == notice.event && w == wanted && x == m,
            (Ok(None), HandlingView::Done(r)) => r is Ok,
            (Err(text), HandlingView::Done(r)) => r == Err::<(), ServiceErrorView>(
                ServiceErrorView::Other(text@),
            ),
            _ => false,
        },
        match (
            resolved,
            handling_next(
                HandlingView::Resolving { event, wanted, media },
                addons,
                HandlingReply::Resolved(resolved),
                now,
            ),
        ) {
            (
                Ok(Some(t)),
                HandlingView::Delivering { event: e, target, wanted: w, index, stage, errors },
            ) => e == event && target == t && w == wanted && index == 0 && stage is Looking
                && errors.len() == 0,
            (Ok(None), HandlingView::Done(r)) => r is Ok,
            (Err(text), HandlingView::Done(r)) => r == Err::<(), ServiceErrorView>(
                ServiceErrorView::Other(text@),
            ),
            _ => false,
        },
{
}

/// While the trackers are being told, neither the event nor the title nor the trackers change.
pub proof fn lemma_told_the_same(
    state: HandlingView,
    addons: TrackerAddons,
    reply: HandlingReply,
    now: u64,
)
    requires
        state is Delivering,
        state.well_formed(),
        reply.fits(state),
    ensures
        match handling_next(state, addons, reply, now) {
            HandlingView::Delivering { event, target, wanted, index, .. } => event
                == state->Delivering_event && target == state->target && wanted
                == state->Delivering_wanted && index < wanted.len(),
            HandlingView::Done(_) => state->index + 1 == state->Delivering_wanted.len(),
            _ => false,
        },
{
}

/// A tracker is told with the credentials that the user has with it, unless these have less than an
/// hour left: then with new ones, and only once they are stored. A tracker that is not set up is not
/// told, which is no error. What goes wrong on the way is the error of this tracker.
pub proof fn lemma_with_which_credentials(
    secret: JsonView,
    c: JsonView,
    there: bool,
    renewed: MediaTrackerResult<MediaTrackerCredentials>,
    stored: Result<(), String>,
    now: u64,
)
    ensures
        match after(StageView::Looking, secret, DeliveryReply::Found(there), now) {
            AfterView::Go(StageView::Delivering(with)) => there && with == secret
                && !secret_expiring(secret, now),
            AfterView::Go(StageView::Refreshing(with)) => there && with == secret
                && secret_expiring(secret, now),
            AfterView::Over(e) => !there && e is None,
            _ => false,
        },
        match (
            renewed,
            after(StageView::Refreshing(c), secret, DeliveryReply::Refreshed(renewed), now),
        ) {
            (Ok(new), AfterView::Go(StageView::Storing(with))) => with == new@,
            (Err(why), AfterView::Over(Some(ServiceErrorView::Tracker(e)))) => e == why@,
            _ => false,
        },
        match (
            stored,
            after(StageView::Storing(c), secret, DeliveryReply::Stored(stored), now),
        ) {
            (Ok(_), AfterView::Go(StageView::Delivering(with))) => with == c,
            (Err(why), AfterView::Over(Some(ServiceErrorView::Other(text)))) => text == why@,
            _ => false,
        },
{
}

/// A tracker that took the event is noted to do well, and is then done with. One that did not, and
/// does not ask for another login, is done with, and what it says is the error. The same holds of the
/// second delivery, whatever the tracker asks for, and of a renewal that fails.
pub proof fn lemma_what_comes_of_a_delivery(
    secret: JsonView,
    c: JsonView,
    told: MediaTrackerResult<()>,
    renewed: MediaTrackerResult<MediaTrackerCredentials>,
    now: u64,
)
    ensures
        match (
            told,
            after(StageView::Delivering(c), secret, DeliveryReply::Delivered(told), now),
        ) {
            (Ok(_), AfterView::Go(StageView::Marking)) => true,
            (Err(e), AfterView::Go(StageView::Renewing(with))) => e@.needs_reauth() && with == c,
            (Err(e), AfterView::Over(Some(ServiceErrorView::Other(text)))) => !e@.needs_reauth()
                && text == e@.message(),
            _ => false,
        },
        match (
            told,
            after(StageView::Redelivering(c), secret, DeliveryReply::Delivered(told), now),
        ) {
            (Ok(_), AfterView::Go(StageView::Marking)) => true,
            (Err(e), AfterView::Over(Some(ServiceErrorView::Other(text)))) => text == e@.message(),
            _ => false,
        },
        renewed matches Err(e) ==> after(
            StageView::Renewing(c),
            secret,
            DeliveryReply::Refreshed(renewed),
            now,
        ) == AfterView::Over(Some(ServiceErrorView::Other(e@.message()))),
        after(StageView::Marking, secret, DeliveryReply::Marked, now) == AfterView::Over(None),
{
}

} // verus!
