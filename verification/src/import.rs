//! Bringing what a tracker knows of a user into the library.

use crate::double::Double;
use crate::ids::ExternalIds;
use crate::media::Media;
use crate::text::{decimal, decimal_text, join};
use crate::time::Timestamp;
use crate::tracker::{MediaKind, RemoteWatch};
use std::collections::HashSet;
use vstd::prelude::*;

verus! {

/// How many titles that the library lacks are added in one go, once a user has been synchronised.
/// The first time, and when a user asks for it, there is no limit, so that the library catches up.
pub const INCREMENTAL_NEW_TITLES_PER_SYNC: usize = 5;

/// From which position on a title counts as begun.
pub const MIN_POSITION_TICKS: i64 = 10_000;

/// The position of a title that has been begun but whose length is not known.
pub const BEGUN_TICKS: i64 = 10_000_000;

/// How far a title has been played.
#[derive(Debug, Clone, Copy, PartialEq, Eq, Structural)]
pub enum Position {
    Ticks(i64),
    /// So many percent of a runtime, rounded.
    Share { percent: Double, runtime: i64 },
}

/// How far a title of this length has been played by what the tracker says, if it has been begun.
pub open spec fn position_of(watch: RemoteWatch, runtime: Option<i64>) -> Option<Position> {
    if watch.progress_percent matches Some(p) && p.positive() {
        match watch.position_ticks {
            Some(ticks) => Some(Position::Ticks(ticks)),
            None => match runtime {
                Some(runtime) => Some(
                    Position::Share { percent: watch.progress_percent->0, runtime },
                ),
                None => Some(Position::Ticks(BEGUN_TICKS)),
            },
        }
    } else {
        match watch.position_ticks {
            Some(ticks) => if ticks >= MIN_POSITION_TICKS {
                Some(Position::Ticks(ticks))
            } else {
                None
            },
            None => None,
        }
    }
}

/// How far a title of this length has been played by what the tracker says.
pub fn position(watch: &RemoteWatch, runtime: Option<i64>) -> (r: Option<Position>)
    ensures
        r == position_of(*watch, runtime),
{
    if let Some(percent) = watch.progress_percent {
        if percent.is_positive() {
            return match watch.position_ticks {
                Some(ticks) => Some(Position::Ticks(ticks)),
                None => match runtime {
                    Some(runtime) => Some(Position::Share { percent, runtime }),
                    None => Some(Position::Ticks(BEGUN_TICKS)),
                },
            };
        }
    }
    match watch.position_ticks {
        Some(ticks) => {
            if ticks >= MIN_POSITION_TICKS {
                Some(Position::Ticks(ticks))
            } else {
                None
            }
        },
        None => None,
    }
}

/// Something that is done to what the library knows of a user and a title.
#[derive(Debug, Clone, Copy, PartialEq, Eq, Structural)]
pub enum Effect {
    MarkPlayed,
    UpdatePlayback(Position),
    SetFavorite(bool),
    /// Done only if the library takes such a rating.
    SetRating(Double),
    /// The title was last watched then.
    Stamp(Timestamp),
}

pub open spec fn played_effect(watch: RemoteWatch) -> Seq<Effect> {
    if watch.watched {
        seq![Effect::MarkPlayed]
    } else {
        Seq::empty()
    }
}

pub open spec fn playback_effect(watch: RemoteWatch, runtime: Option<i64>) -> Seq<Effect> {
    match position_of(watch, runtime) {
        Some(p) => seq![Effect::UpdatePlayback(p)],
        None => Seq::empty(),
    }
}

pub open spec fn favorite_effect(watch: RemoteWatch) -> Seq<Effect> {
    match watch.favorite {
        Some(f) => seq![Effect::SetFavorite(f)],
        None => Seq::empty(),
    }
}

pub open spec fn rating_effect(watch: RemoteWatch) -> Seq<Effect> {
    match watch.rating {
        Some(r) => seq![Effect::SetRating(r)],
        None => Seq::empty(),
    }
}

pub open spec fn stamp_effect(watch: RemoteWatch) -> Seq<Effect> {
    if watch.watched && watch.watched_at is Some {
        seq![Effect::Stamp(watch.watched_at->0)]
    } else {
        Seq::empty()
    }
}

/// What is done to a title of this length by what the tracker says, in this order.
pub open spec fn effects_of(watch: RemoteWatch, runtime: Option<i64>) -> Seq<Effect> {
    played_effect(watch) + playback_effect(watch, runtime) + favorite_effect(watch)
        + rating_effect(watch) + stamp_effect(watch)
}

/// What is done to a title of this length by what the tracker says.
pub fn effects(watch: &RemoteWatch, runtime: Option<i64>) -> (r: Vec<Effect>)
    ensures
        r@ == effects_of(*watch, runtime),
{
    let mut out: Vec<Effect> = Vec::new();
    if watch.watched {
        out.push(Effect::MarkPlayed);
    }
    assert(out@ =~= played_effect(*watch));
    let ghost a = out@;
    if let Some(p) = position(watch, runtime) {
        out.push(Effect::UpdatePlayback(p));
    }
    assert(out@ =~= a + playback_effect(*watch, runtime));
    let ghost a = out@;
    if let Some(f) = watch.favorite {
        out.push(Effect::SetFavorite(f));
    }
    assert(out@ =~= a + favorite_effect(*watch));
    let ghost a = out@;
    if let Some(r) = watch.rating {
        out.push(Effect::SetRating(r));
    }
    assert(out@ =~= a + rating_effect(*watch));
    let ghost a = out@;
    if watch.watched {
        if let Some(at) = watch.watched_at {
            out.push(Effect::Stamp(at));
        }
    }
    assert(out@ =~= a + stamp_effect(*watch));
    out
}

/// Whether something that was done counts. A rating counts if it was taken. When the title was
/// last watched is part of that it was.
pub open spec fn counts(effect: Effect, taken: bool) -> bool {
    match effect {
        Effect::SetRating(_) => taken,
        Effect::Stamp(_) => false,
        _ => true,
    }
}

/// Where the row that a tracker speaks of is being looked for.
#[derive(Debug, Clone, Copy, PartialEq, Eq, Structural)]
pub enum Lookup {
    /// The series with the ids, in order to find an episode of it.
    SeriesOf { season: i64, episode: i64 },
    /// The episode of a series.
    Episode { series_id: u128, season: i64, episode: i64 },
    /// The movie with the ids.
    Movie,
    /// The series with the ids, where this is the movie with them.
    Series { movie: Option<u128> },
    /// The row with this id.
    Row { id: u128 },
}

/// What a search came to.
#[derive(Debug)]
pub enum LookupReply {
    Id(Option<u128>),
    Row(Result<Option<Media>, String>),
}

impl LookupReply {
    /// Whether this is what such a search can come to.
    pub open spec fn fits(self, at: Lookup) -> bool {
        match at {
            Lookup::SeriesOf { .. } | Lookup::Movie | Lookup::Series { .. } => self is Id,
            Lookup::Episode { .. } | Lookup::Row { .. } => self is Row,
        }
    }
}

/// What comes of a search: another one, a row or none, or an error.
#[derive(Debug)]
pub enum LookupAfter {
    Go(Lookup),
    Found(Option<Media>),
    Failed(String),
}

/// Where the row that a tracker speaks of is looked for first. With a season and a number it is
/// an episode of a series, else a movie or, failing that, a series.
pub open spec fn lookup_start(watch: RemoteWatch) -> Lookup {
    if watch.season is Some && watch.episode is Some {
        Lookup::SeriesOf { season: watch.season->0, episode: watch.episode->0 }
    } else {
        Lookup::Movie
    }
}

/// What comes of a search.
pub open spec fn lookup_next(at: Lookup, reply: LookupReply) -> LookupAfter {
    match (at, reply) {
        (Lookup::SeriesOf { season, episode }, LookupReply::Id(Some(series_id))) => LookupAfter::Go(
            Lookup::Episode { series_id, season, episode },
        ),
        (Lookup::SeriesOf { .. }, LookupReply::Id(None)) => LookupAfter::Found(None),
        (Lookup::Movie, LookupReply::Id(movie)) => LookupAfter::Go(Lookup::Series { movie }),
        (Lookup::Series { movie: Some(id) }, LookupReply::Id(_)) => LookupAfter::Go(
            Lookup::Row { id },
        ),
        (Lookup::Series { movie: None }, LookupReply::Id(Some(id))) => LookupAfter::Go(
            Lookup::Row { id },
        ),
        (Lookup::Series { movie: None }, LookupReply::Id(None)) => LookupAfter::Found(None),
        (_, LookupReply::Row(Ok(row))) => LookupAfter::Found(row),
        (_, LookupReply::Row(Err(text))) => LookupAfter::Failed(text),
        _ => arbitrary(),
    }
}

/// Begins to look for the row that a tracker speaks of.
pub fn resolve_local_media(watch: &RemoteWatch) -> (r: Lookup)
    ensures
        r == lookup_start(*watch),
{
    match (watch.season, watch.episode) {
        (Some(season), Some(episode)) => Lookup::SeriesOf { season, episode },
        _ => Lookup::Movie,
    }
}

/// Goes on looking for a row.
pub fn lookup_after(at: Lookup, reply: LookupReply) -> (r: LookupAfter)
    requires
        reply.fits(at),
    ensures
        r == lookup_next(at, reply),
{
    match reply {
        LookupReply::Row(Ok(row)) => LookupAfter::Found(row),
        LookupReply::Row(Err(text)) => LookupAfter::Failed(text),
        LookupReply::Id(id) => match at {
            Lookup::SeriesOf { season, episode } => match id {
                Some(series_id) => LookupAfter::Go(Lookup::Episode { series_id, season, episode }),
                None => LookupAfter::Found(None),
            },
            Lookup::Movie => LookupAfter::Go(Lookup::Series { movie: id }),
            Lookup::Series { movie } => match (movie, id) {
                (Some(id), _) => LookupAfter::Go(Lookup::Row { id }),
                (None, Some(id)) => LookupAfter::Go(Lookup::Row { id }),
                (None, None) => LookupAfter::Found(None),
            },
            _ => LookupAfter::Found(None),
        },
    }
}

/// What a title that the library lacks is taken to be: a series if the tracker speaks of a part
/// of it, and else a movie.
pub open spec fn missing_kind(watch: RemoteWatch) -> MediaKind {
    if watch.season is Some || watch.episode is Some {
        MediaKind::Series
    } else {
        MediaKind::Movie
    }
}

/// Whether a title that the library lacks is worth a try: it has an id by which it can be added,
/// and has not been tried.
pub open spec fn worth_a_try(watch: RemoteWatch, attempted: Set<i64>) -> bool {
    watch.ids.tmdb matches Some(tmdb) && !attempted.contains(tmdb)
}

/// What has been tried, and this title.
pub open spec fn attempted_with(watch: RemoteWatch, attempted: Set<i64>) -> Set<i64> {
    match watch.ids.tmdb {
        Some(tmdb) => attempted.insert(tmdb),
        None => attempted,
    }
}

/// The id of a title that the library lacks and what it is taken to be, if it is worth a try.
/// It then counts as tried.
pub fn persist_missing_from_watch(watch: &RemoteWatch, attempted: &mut HashSet<i64>) -> (r: Option<
    (i64, MediaKind),
>)
    ensures
        r == if worth_a_try(*watch, old(attempted)@) {
            Some((watch.ids.tmdb->0, missing_kind(*watch)))
        } else {
            None
        },
        final(attempted)@ == attempted_with(*watch, old(attempted)@),
{
    broadcast use vstd::std_specs::hash::group_hash_axioms;

    match watch.ids.tmdb {
        None => None,
        Some(tmdb) => {
            if !attempted.insert(tmdb) {
                assert(attempted@ =~= old(attempted)@.insert(tmdb));
                return None;
            }
            let kind = if watch.season.is_some() || watch.episode.is_some() {
                MediaKind::Series
            } else {
                MediaKind::Movie
            };
            Some((tmdb, kind))
        },
    }
}

/// A title that is to be added to the library, by its ids. Its name is a stand-in.
#[derive(Debug, PartialEq, Eq)]
pub struct StubTitle {
    pub kind: MediaKind,
    pub title: String,
    pub external_ids: ExternalIds,
}

/// Whether this stands for a title with these ids.
pub open spec fn is_stub(stub: StubTitle, tmdb: i64, kind: MediaKind, ids: ExternalIds) -> bool {
    &&& stub.kind == kind
    &&& stub.title@ == "tmdb:"@ + decimal(tmdb as int)
    &&& stub.external_ids == ids
}

/// A title that is to be added to the library.
pub fn stub_title(tmdb: i64, kind: MediaKind, ids: &ExternalIds) -> (r: StubTitle)
    ensures
        is_stub(r, tmdb, kind, *ids),
{
    StubTitle {
        kind,
        title: join("tmdb:", decimal_text(tmdb).as_str()),
        external_ids: ids.clone(),
    }
}

/// What is being done for the import.
#[derive(Debug)]
pub enum ImportStage {
    /// The user is being looked up.
    User,
    /// The row of a title is being looked for, for the second time or not.
    Lookup { again: bool, at: Lookup },
    /// A title that the library lacks is being looked up under another kind.
    Known { tmdb: i64, kind: MediaKind },
    /// A title that the library lacks is being added.
    Persisting { tmdb: i64, stub: StubTitle },
    /// Something is being done to a title.
    Applying { media: Media, effects: Vec<Effect>, next: usize },
}

pub enum ImportStageView {
    User,
    Lookup { again: bool, at: Lookup },
    Known { tmdb: i64, kind: MediaKind },
    Persisting { tmdb: i64, kind: MediaKind },
    Applying { media: Media, next: int },
}

/// An import under way: what the tracker says, how much of it has been dealt with and what is
/// being done, how much was done and how many titles were added, at most how many are, and which
/// have been tried.
pub struct Import {
    pub watches: Vec<RemoteWatch>,
    pub index: usize,
    pub stage: ImportStage,
    pub applied: usize,
    pub persisted: usize,
    pub max_new_titles: usize,
    pub attempted: HashSet<i64>,
}

pub struct ImportView {
    pub watches: Seq<RemoteWatch>,
    pub index: int,
    pub stage: ImportStageView,
    pub applied: int,
    pub persisted: int,
    pub max_new_titles: int,
    pub attempted: Set<i64>,
}

impl View for ImportStage {
    type V = ImportStageView;

    open spec fn view(&self) -> ImportStageView {
        match self {
            ImportStage::User => ImportStageView::User,
            ImportStage::Lookup { again, at } => ImportStageView::Lookup { again: *again, at: *at },
            ImportStage::Known { tmdb, kind } => ImportStageView::Known { tmdb: *tmdb, kind: *kind },
            ImportStage::Persisting { tmdb, stub } => ImportStageView::Persisting {
                tmdb: *tmdb,
                kind: stub.kind,
            },
            ImportStage::Applying { media, next, .. } => ImportStageView::Applying {
                media: *media,
                next: *next as int,
            },
        }
    }
}

impl View for Import {
    type V = ImportView;

    open spec fn view(&self) -> ImportView {
        ImportView {
            watches: self.watches@,
            index: self.index as int,
            stage: self.stage@,
            applied: self.applied as int,
            persisted: self.persisted as int,
            max_new_titles: self.max_new_titles as int,
            attempted: self.attempted@,
        }
    }
}

impl Import {
    /// The title that is being added, and what is done to the title at hand, are those that the
    /// tracker speaks of. What may be done at all can be counted.
    pub open spec fn well_formed(self) -> bool {
        &&& self@.well_formed()
        &&& 4 * self.watches@.len() <= usize::MAX
        &&& match self.stage {
            ImportStage::Persisting { tmdb, stub } => is_stub(
                stub,
                tmdb,
                stub.kind,
                self@.watch().ids,
            ),
            ImportStage::Applying { media, effects, .. } => effects@ == effects_of(
                self@.watch(),
                media.runtime,
            ),
            _ => true,
        }
    }
}

impl ImportView {
    pub open spec fn watch(self) -> RemoteWatch {
        self.watches[self.index]
    }

    /// How many things have been done for the title at hand.
    pub open spec fn done_here(self) -> int {
        match self.stage {
            ImportStageView::Applying { next, .. } => next,
            _ => 0,
        }
    }

    /// There is a title at hand, except while the user is being looked up. No more titles were
    /// added than may be. At most four things that count were done for each title.
    pub open spec fn well_formed(self) -> bool {
        &&& 0 <= self.index
        &&& self.stage is User || self.index < self.watches.len()
        &&& 0 <= self.persisted <= self.max_new_titles
        &&& 0 <= self.applied <= 4 * self.index + self.done_here()
        &&& match self.stage {
            ImportStageView::User => self.index == 0,
            ImportStageView::Known { tmdb, kind } => self.adds(tmdb, kind),
            ImportStageView::Persisting { tmdb, kind } => self.adds(tmdb, kind),
            ImportStageView::Applying { media, next } => 0 <= next < effects_of(
                self.watch(),
                media.runtime,
            ).len(),
            ImportStageView::Lookup { .. } => true,
        }
    }

    /// Whether a title is being added for good reason: it was watched, the tracker says what it
    /// is, it counts as tried, and there is room for another.
    pub open spec fn adds(self, tmdb: i64, kind: MediaKind) -> bool {
        &&& self.watch().watched
        &&& self.watch().ids.tmdb == Some(tmdb)
        &&& kind == missing_kind(self.watch())
        &&& self.attempted.contains(tmdb)
        &&& self.persisted < self.max_new_titles
    }
}

/// How something that was done for the import ended.
#[derive(Debug)]
pub enum ImportReply {
    /// Whether there is such a user.
    User(Result<bool, String>),
    Lookup(LookupReply),
    /// The row that was found under the other kind.
    Known(Option<u128>),
    Persisted,
    /// Whether it was taken.
    Applied(Result<bool, String>),
}

impl ImportReply {
    /// Whether this is how it can end.
    pub open spec fn fits(self, stage: ImportStageView) -> bool {
        match stage {
            ImportStageView::User => self is User,
            ImportStageView::Lookup { at, .. } => self matches ImportReply::Lookup(r) && r.fits(at),
            ImportStageView::Known { .. } => self is Known,
            ImportStageView::Persisting { .. } => self is Persisted,
            ImportStageView::Applying { .. } => self is Applied,
        }
    }
}

/// What is to be done next for the import, or how it ended: how much was done, or an error.
pub enum ImportStep {
    Go(Import),
    Done(Result<usize, String>),
}

pub enum ImportNext {
    Go(ImportView),
    Done(int),
    Failed(String),
}

impl ImportStep {
    /// Whether this is the step to take.
    pub open spec fn is_next(self, next: ImportNext) -> bool {
        match next {
            ImportNext::Go(seen) => self matches ImportStep::Go(s) && s@ == seen && s.well_formed(),
            ImportNext::Done(applied) => self matches ImportStep::Done(Ok(n)) && n == applied,
            ImportNext::Failed(text) => self matches ImportStep::Done(Err(e)) && e == text,
        }
    }
}

/// An import before anything was done.
pub open spec fn import_start(watches: Seq<RemoteWatch>, max_new_titles: int) -> ImportView {
    ImportView {
        watches,
        index: 0,
        stage: ImportStageView::User,
        applied: 0,
        persisted: 0,
        max_new_titles,
        attempted: Set::empty(),
    }
}

/// What is done when it is the turn of the title at hand: its row is looked for.
pub open spec fn import_turn(s: ImportView) -> ImportNext {
    if s.index < s.watches.len() {
        ImportNext::Go(
            ImportView {
                stage: ImportStageView::Lookup { again: false, at: lookup_start(s.watch()) },
                ..s
            },
        )
    } else {
        ImportNext::Done(s.applied)
    }
}

/// What is done when the title at hand is done with.
pub open spec fn import_skip(s: ImportView) -> ImportNext {
    import_turn(ImportView { index: s.index + 1, ..s })
}

/// What is done when it has been tried to add the title at hand, or not: its row is looked for
/// once more.
pub open spec fn import_again(s: ImportView) -> ImportNext {
    ImportNext::Go(
        ImportView {
            stage: ImportStageView::Lookup { again: true, at: lookup_start(s.watch()) },
            ..s
        },
    )
}

/// What is done when there is a row, or none. A title that the library lacks is added if it was
/// watched, if there is room for another, and if it is worth a try.
pub open spec fn import_found(s: ImportView, again: bool, row: Option<Media>) -> ImportNext {
    match row {
        Some(media) => if effects_of(s.watch(), media.runtime).len() > 0 {
            ImportNext::Go(
                ImportView { stage: ImportStageView::Applying { media, next: 0 }, ..s },
            )
        } else {
            import_skip(s)
        },
        None => if again || !s.watch().watched {
            import_skip(s)
        } else if s.persisted >= s.max_new_titles {
            import_again(s)
        } else {
            let tried = ImportView { attempted: attempted_with(s.watch(), s.attempted), ..s };
            if worth_a_try(s.watch(), s.attempted) {
                ImportNext::Go(
                    ImportView {
                        stage: ImportStageView::Known {
                            tmdb: s.watch().ids.tmdb->0,
                            kind: missing_kind(s.watch()),
                        },
                        ..tried
                    },
                )
            } else {
                import_again(tried)
            }
        },
    }
}

/// What is done next.
pub open spec fn import_next(s: ImportView, reply: ImportReply) -> ImportNext {
    match (s.stage, reply) {
        (ImportStageView::User, ImportReply::User(reply)) => match reply {
            Ok(true) => import_turn(s),
            Ok(false) => ImportNext::Done(0),
            Err(text) => ImportNext::Failed(text),
        },
        (ImportStageView::Lookup { again, at }, ImportReply::Lookup(reply)) => match lookup_next(
            at,
            reply,
        ) {
            LookupAfter::Go(at) => ImportNext::Go(
                ImportView { stage: ImportStageView::Lookup { again, at }, ..s },
            ),
            LookupAfter::Found(row) => import_found(s, again, row),
            LookupAfter::Failed(text) => ImportNext::Failed(text),
        },
        (ImportStageView::Known { tmdb, kind }, ImportReply::Known(id)) => match id {
            Some(_) => import_again(s),
            None => ImportNext::Go(
                ImportView { stage: ImportStageView::Persisting { tmdb, kind }, ..s },
            ),
        },
        (ImportStageView::Persisting { .. }, ImportReply::Persisted) => import_again(
            ImportView { persisted: s.persisted + 1, ..s },
        ),
        (ImportStageView::Applying { media, next }, ImportReply::Applied(reply)) => match reply {
            Err(text) => ImportNext::Failed(text),
            Ok(taken) => {
                let all = effects_of(s.watch(), media.runtime);
                let counted = ImportView {
                    applied: if counts(all[next], taken) {
                        s.applied + 1
                    } else {
                        s.applied
                    },
                    ..s
                };
                if next + 1 < all.len() {
                    ImportNext::Go(
                        ImportView {
                            stage: ImportStageView::Applying { media, next: next + 1 },
                            ..counted
                        },
                    )
                } else {
                    import_skip(counted)
                }
            },
        },
        _ => arbitrary(),
    }
}

/// At most five things are done to a title, and the fifth is to note when it was watched.
proof fn lemma_at_most_five(watch: RemoteWatch, runtime: Option<i64>)
    ensures
        effects_of(watch, runtime).len() <= 5,
        effects_of(watch, runtime).len() == 5 ==> effects_of(watch, runtime)[4] is Stamp,
{
}

/// What is kept at every step of an import.
pub proof fn lemma_import_keeps(s: ImportView, reply: ImportReply)
    requires
        s.well_formed(),
        reply.fits(s.stage),
    ensures
        import_next(s, reply) matches ImportNext::Go(t) ==> t.well_formed() && t.watches
            == s.watches && t.max_new_titles == s.max_new_titles && s.attempted.subset_of(
            t.attempted,
        ) && s.applied <= t.applied && s.persisted <= t.persisted,
        import_next(s, reply) matches ImportNext::Done(n) ==> 0 <= n <= 4 * s.watches.len(),
{
    if let ImportStageView::Applying { media, next } = s.stage {
        lemma_at_most_five(s.watch(), media.runtime);
    }
}

fn turn(s: Import) -> (r: ImportStep)
    requires
        s.index <= s.watches@.len(),
        s.persisted <= s.max_new_titles,
        s.applied <= 4 * s.index,
        4 * s.watches@.len() <= usize::MAX,
    ensures
        r.is_next(import_turn(s@)),
{
    let mut s = s;
    if s.index < s.watches.len() {
        s.stage = ImportStage::Lookup { again: false, at: resolve_local_media(&s.watches[s.index]) };
        ImportStep::Go(s)
    } else {
        ImportStep::Done(Ok(s.applied))
    }
}

fn skip(s: Import) -> (r: ImportStep)
    requires
        s.index < s.watches@.len(),
        s.persisted <= s.max_new_titles,
        s.applied <= 4 * s.index + 4,
        4 * s.watches@.len() <= usize::MAX,
    ensures
        r.is_next(import_skip(s@)),
{
    let mut s = s;
    s.index = s.index + 1;
    turn(s)
}

fn again(s: Import) -> (r: ImportStep)
    requires
        s.index < s.watches@.len(),
        s.persisted <= s.max_new_titles,
        s.applied <= 4 * s.index,
        4 * s.watches@.len() <= usize::MAX,
    ensures
        r.is_next(import_again(s@)),
{
    let mut s = s;
    s.stage = ImportStage::Lookup { again: true, at: resolve_local_media(&s.watches[s.index]) };
    ImportStep::Go(s)
}

fn found(s: Import, is_second: bool, row: Option<Media>) -> (r: ImportStep)
    requires
        s.well_formed(),
        s.stage is Lookup,
    ensures
        r.is_next(import_found(s@, is_second, row)),
{
    let mut s = s;
    match row {
        Some(media) => {
            let effects = effects(&s.watches[s.index], media.runtime);
            if effects.len() > 0 {
                s.stage = ImportStage::Applying { media, effects, next: 0 };
                ImportStep::Go(s)
            } else {
                skip(s)
            }
        },
        None => {
            if is_second || !s.watches[s.index].watched {
                return skip(s);
            }
            if s.persisted >= s.max_new_titles {
                return again(s);
            }
            match persist_missing_from_watch(&s.watches[s.index], &mut s.attempted) {
                Some((tmdb, kind)) => {
                    s.stage = ImportStage::Known { tmdb, kind };
                    ImportStep::Go(s)
                },
                None => again(s),
            }
        },
    }
}

/// Begins to bring what a tracker says into the library. At most so many titles are added.
pub fn apply_remote_watches(watches: Vec<RemoteWatch>, max_new_titles: usize) -> (r: Import)
    requires
        4 * watches@.len() <= usize::MAX,
    ensures
        r@ == import_start(watches@, max_new_titles as int),
        r.well_formed(),
{
    broadcast use vstd::std_specs::hash::group_hash_axioms;

    Import {
        watches,
        index: 0,
        stage: ImportStage::User,
        applied: 0,
        persisted: 0,
        max_new_titles,
        attempted: HashSet::new(),
    }
}

/// Goes on bringing what a tracker says into the library.
pub fn import_resume(s: Import, reply: ImportReply) -> (r: ImportStep)
    requires
        s.well_formed(),
        reply.fits(s@.stage),
    ensures
        r.is_next(import_next(s@, reply)),
{
    let ghost before = s@;
    let mut s = s;
    match reply {
        ImportReply::User(reply) => match reply {
            Ok(there) => {
                if there {
                    turn(s)
                } else {
                    ImportStep::Done(Ok(0))
                }
            },
            Err(text) => ImportStep::Done(Err(text)),
        },
        ImportReply::Lookup(reply) => {
            let (is_second, at) = match &s.stage {
                ImportStage::Lookup { again, at } => (*again, *at),
                _ => (true, Lookup::Movie),
            };
            match lookup_after(at, reply) {
                LookupAfter::Go(at) => {
                    s.stage = ImportStage::Lookup { again: is_second, at };
                    ImportStep::Go(s)
                },
                LookupAfter::Found(row) => found(s, is_second, row),
                LookupAfter::Failed(text) => ImportStep::Done(Err(text)),
            }
        },
        ImportReply::Known(id) => match id {
            Some(_) => again(s),
            None => {
                if let ImportStage::Known { tmdb, kind } = &s.stage {
                    let tmdb: i64 = *tmdb;
                    let stub = stub_title(tmdb, *kind, &s.watches[s.index].ids);
                    s.stage = ImportStage::Persisting { tmdb, stub };
                }
                ImportStep::Go(s)
            },
        },
        ImportReply::Persisted => {
            s.persisted = s.persisted + 1;
            again(s)
        },
        ImportReply::Applied(reply) => match reply {
            Err(text) => ImportStep::Done(Err(text)),
            Ok(taken) => {
                let Import { watches, index, stage, applied, persisted, max_new_titles, attempted } = s;
                match stage {
                    ImportStage::Applying { media, effects, next } => {
                        proof {
                            lemma_at_most_five(before.watch(), media.runtime);
                        }
                        let counted = match effects[next] {
                            Effect::SetRating(_) => taken,
                            Effect::Stamp(_) => false,
                            _ => true,
                        };
                        let applied: usize = if counted {
                            applied + 1
                        } else {
                            applied
                        };
                        let has_more = next + 1 < effects.len();
                        let s = Import {
                            watches,
                            index,
                            stage: ImportStage::Applying {
                                media,
                                effects,
                                next: if has_more {
                                    next + 1
                                } else {
                                    next
                                },
                            },
                            applied,
                            persisted,
                            max_new_titles,
                            attempted,
                        };
                        if has_more {
                            ImportStep::Go(s)
                        } else {
                            skip(s)
                        }
                    },
                    _ => ImportStep::Done(Ok(applied)),
                }
            },
        },
    }
}

/// Where there is no such user nothing is done.
pub proof fn lemma_no_user_no_import(watches: Seq<RemoteWatch>, max_new_titles: int)
    ensures
        import_next(
            import_start(watches, max_new_titles),
            ImportReply::User(Ok(false)),
        ) == ImportNext::Done(0),
{
}

/// A title that the library lacks is tried at most once, whether or not it can be added: where one
/// is tried it had not been, and it counts as tried from then on.
pub proof fn lemma_tried_once(s: ImportView, reply: ImportReply)
    requires
        s.well_formed(),
        reply.fits(s.stage),
        import_next(s, reply) is Go,
    ensures
        ({
            let t = import_next(s, reply)->Go_0;
            &&& t.stage matches ImportStageView::Known { tmdb, .. } ==> !s.attempted.contains(tmdb)
                && t.attempted.contains(tmdb)
            &&& t.stage matches ImportStageView::Persisting { tmdb, kind } ==> s.stage == (
            ImportStageView::Known { tmdb, kind }) && reply == ImportReply::Known(None)
        }),
{
}

/// A title that was not watched is never added.
pub proof fn lemma_only_watched_is_added(s: ImportView)
    requires
        s.well_formed(),
        s.stage is Known || s.stage is Persisting,
    ensures
        s.watch().watched,
        s.persisted < s.max_new_titles,
{
}

/// A title that was watched is marked first, and when it was watched by the tracker is noted last:
/// no later step sets it to the time of the import.
pub proof fn lemma_watched_at_is_noted_last(watch: RemoteWatch, runtime: Option<i64>, at: Timestamp)
    requires
        watch.watched,
        watch.watched_at == Some(at),
    ensures
        effects_of(watch, runtime).len() >= 2,
        effects_of(watch, runtime)[0] == Effect::MarkPlayed,
        effects_of(watch, runtime).last() == Effect::Stamp(at),
        forall|i: int|
            0 <= i < effects_of(watch, runtime).len() - 1 ==> !(#[trigger] effects_of(
                watch,
                runtime,
            )[i] is Stamp),
{
    let all = effects_of(watch, runtime);
    let front = played_effect(watch) + playback_effect(watch, runtime) + favorite_effect(watch)
        + rating_effect(watch);
    assert(all =~= front + stamp_effect(watch));
    assert(front[0] == played_effect(watch)[0]);
    lemma_no_stamp(watch, runtime);
}

proof fn lemma_no_stamp(watch: RemoteWatch, runtime: Option<i64>)
    ensures
        ({
            let front = played_effect(watch) + playback_effect(watch, runtime) + favorite_effect(
                watch,
            ) + rating_effect(watch);
            forall|i: int| 0 <= i < front.len() ==> !(#[trigger] front[i] is Stamp)
        }),
{
    let a = played_effect(watch);
    let b = a + playback_effect(watch, runtime);
    let c = b + favorite_effect(watch);
    let d = c + rating_effect(watch);
    assert(forall|i: int| 0 <= i < a.len() ==> !(#[trigger] a[i] is Stamp));
    assert forall|i: int| 0 <= i < b.len() implies !(#[trigger] b[i] is Stamp) by {
        if i < a.len() {
            assert(b[i] == a[i]);
        } else {
            assert(b[i] == playback_effect(watch, runtime)[i - a.len()]);
        }
    }
    assert forall|i: int| 0 <= i < c.len() implies !(#[trigger] c[i] is Stamp) by {
        if i < b.len() {
            assert(c[i] == b[i]);
        } else {
            assert(c[i] == favorite_effect(watch)[i - b.len()]);
        }
    }
    assert forall|i: int| 0 <= i < d.len() implies !(#[trigger] d[i] is Stamp) by {
        if i < c.len() {
            assert(d[i] == c[i]);
        } else {
            assert(d[i] == rating_effect(watch)[i - c.len()]);
        }
    }
}

/// How far the title at hand has been dealt with.
pub open spec fn import_rank(stage: ImportStageView) -> int {
    match stage {
        ImportStageView::User => -1,
        ImportStageView::Lookup { again, at } => (if again {
            5int
        } else {
            0int
        }) + match at {
            Lookup::SeriesOf { .. } | Lookup::Movie => 0int,
            Lookup::Episode { .. } | Lookup::Series { .. } => 1int,
            Lookup::Row { .. } => 2int,
        },
        ImportStageView::Known { .. } => 3,
        ImportStageView::Persisting { .. } => 4,
        ImportStageView::Applying { next, .. } => 8 + next,
    }
}

/// How many steps are left at most: thirteen for each title, and one for the user.
pub open spec fn import_steps_left(s: ImportView) -> int {
    13 * (s.watches.len() - s.index) - import_rank(s.stage)
}

/// The import ends: each step leaves fewer of them.
pub proof fn lemma_import_ends(s: ImportView, reply: ImportReply)
    requires
        s.well_formed(),
        reply.fits(s.stage),
    ensures
        import_next(s, reply) matches ImportNext::Go(t) ==> 0 < import_steps_left(t)
            < import_steps_left(s),
{
    if let ImportStageView::Applying { media, next } = s.stage {
        lemma_at_most_five(s.watch(), media.runtime);
    }
    match import_next(s, reply) {
        ImportNext::Go(t) => {
            if let ImportStageView::Applying { media, next } = t.stage {
                lemma_at_most_five(t.watch(), media.runtime);
            }
        },
        _ => {},
    }
}

/// How many of the things that were done count, where it is known which were taken.
pub open spec fn counted(effects: Seq<Effect>, taken: Seq<bool>) -> int
    decreases effects.len(),
{
    if effects.len() == 0 {
        0
    } else {
        counted(effects.drop_last(), taken) + if counts(effects.last(), taken[effects.len() - 1]) {
            1int
        } else {
            0int
        }
    }
}

/// What comes of a series of replies.
pub open spec fn import_run(s: ImportView, replies: Seq<ImportReply>) -> ImportNext
    decreases replies.len(),
{
    if replies.len() == 0 {
        ImportNext::Go(s)
    } else {
        match import_next(s, replies[0]) {
            ImportNext::Go(t) => import_run(t, replies.drop_first()),
            end => end,
        }
    }
}

/// The replies of a library in which all goes well.
pub open spec fn all_went_well(taken: Seq<bool>) -> Seq<ImportReply> {
    taken.map_values(|t: bool| ImportReply::Applied(Ok(t)))
}

proof fn lemma_rest_is_done(s: ImportView, media: Media, next: int, taken: Seq<bool>)
    requires
        s.stage == (ImportStageView::Applying { media, next }),
        0 <= next < effects_of(s.watch(), media.runtime).len(),
        taken.len() == effects_of(s.watch(), media.runtime).len(),
    ensures
        ({
            let all = effects_of(s.watch(), media.runtime);
            import_run(s, all_went_well(taken.skip(next))) == import_turn_after(
                s,
                s.applied + counted(all, taken) - counted(all.take(next), taken),
            )
        }),
    decreases effects_of(s.watch(), media.runtime).len() - next,
{
    let all = effects_of(s.watch(), media.runtime);
    let replies = all_went_well(taken.skip(next));
    assert(replies[0] == ImportReply::Applied(Ok::<bool, String>(taken[next])));
    assert(replies.drop_first() =~= all_went_well(taken.skip(next + 1)));
    assert(all.take(next + 1).drop_last() =~= all.take(next));
    assert(all.take(next + 1).last() == all[next]);
    if next + 1 < all.len() {
        let t = import_next(s, replies[0])->Go_0;
        lemma_rest_is_done(t, media, next + 1, taken);
        assert(import_turn_after(
            t,
            t.applied + counted(all, taken) - counted(all.take(next + 1), taken),
        ) == import_turn_after(
            s,
            s.applied + counted(all, taken) - counted(all.take(next), taken),
        ));
    } else {
        assert(all.take(next + 1) =~= all);
        assert(replies.drop_first().len() == 0);
        match import_next(s, replies[0]) {
            ImportNext::Go(t) => {
                assert(import_run(t, replies.drop_first()) == ImportNext::Go(t));
            },
            _ => {},
        }
    }
}

/// What is done when the title at hand is done with and this much has been done in all.
pub open spec fn import_turn_after(s: ImportView, applied: int) -> ImportNext {
    import_skip(ImportView { applied, stage: ImportStageView::User, ..s })
}

/// All that the tracker says of a title is done once its row has been found, and counted, and then
/// it is the turn of the next title.
pub proof fn lemma_all_is_done(s: ImportView, again: bool, media: Media, taken: Seq<bool>)
    requires
        s.index < s.watches.len(),
        taken.len() == effects_of(s.watch(), media.runtime).len(),
        effects_of(s.watch(), media.runtime).len() > 0,
    ensures
        import_found(s, again, Some(media)) is Go,
        import_run(import_found(s, again, Some(media))->Go_0, all_went_well(taken))
            == import_turn_after(
            s,
            s.applied + counted(effects_of(s.watch(), media.runtime), taken),
        ),
{
    let t = import_found(s, again, Some(media))->Go_0;
    lemma_rest_is_done(t, media, 0, taken);
    assert(taken.skip(0) =~= taken);
    let all = effects_of(s.watch(), media.runtime);
    assert(all.take(0).len() == 0);
}

/// Whether each reply answers what is being done when it comes.
pub open spec fn import_replies_fit(s: ImportView, replies: Seq<ImportReply>) -> bool
    decreases replies.len(),
{
    replies.len() == 0 || (replies[0].fits(s.stage) && match import_next(s, replies[0]) {
        ImportNext::Go(t) => import_replies_fit(t, replies.drop_first()),
        _ => replies.len() == 1,
    })
}

/// Whether the title at `i` begins to be looked for.
pub open spec fn is_import_turn_of(next: ImportNext, i: int) -> bool {
    next matches ImportNext::Go(s) && s.index == i && s.stage == (ImportStageView::Lookup {
        again: false,
        at: lookup_start(s.watch()),
    })
}

/// By the time that the import ends well each title of which the tracker speaks has had its turn.
pub proof fn lemma_every_title_has_its_turn(s: ImportView, replies: Seq<ImportReply>, i: int)
    requires
        s.well_formed(),
        !(s.stage is User),
        import_replies_fit(s, replies),
        import_run(s, replies) is Done,
        s.index < i < s.watches.len(),
    ensures
        exists|k: int|
            0 <= k <= replies.len() && is_import_turn_of(
                #[trigger] import_run(s, replies.take(k)),
                i,
            ),
    decreases replies.len(),
{
    let rest = replies.drop_first();
    lemma_import_keeps(s, replies[0]);
    assert(import_next(s, replies[0]) is Go);
    let t = import_next(s, replies[0])->Go_0;
    if t.index == i {
        let one = replies.take(1);
        assert(one.drop_first().len() == 0);
        assert(import_run(t, one.drop_first()) == ImportNext::Go(t));
        assert(is_import_turn_of(import_run(s, replies.take(1)), i));
    } else {
        lemma_every_title_has_its_turn(t, rest, i);
        let k = choose|k: int|
            0 <= k <= rest.len() && is_import_turn_of(
                #[trigger] import_run(t, rest.take(k)),
                i,
            );
        assert(replies.take(k + 1).drop_first() =~= rest.take(k));
        assert(is_import_turn_of(import_run(s, replies.take(k + 1)), i));
    }
}

/// At no time have more titles been added than may be, and each was added under an id that counts
/// as tried.
pub proof fn lemma_limit_holds_throughout(s: ImportView, replies: Seq<ImportReply>)
    requires
        s.well_formed(),
        import_replies_fit(s, replies),
    ensures
        import_run(s, replies) matches ImportNext::Go(t) ==> t.well_formed() && t.max_new_titles
            == s.max_new_titles && t.persisted <= s.max_new_titles && s.attempted.subset_of(
            t.attempted,
        ),
    decreases replies.len(),
{
    if replies.len() > 0 {
        lemma_import_keeps(s, replies[0]);
        match import_next(s, replies[0]) {
            ImportNext::Go(t) => {
                lemma_limit_holds_throughout(t, replies.drop_first());
            },
            _ => {},
        }
    }
}

/// Whether the title with this id is being tried.
pub open spec fn is_trying(s: ImportView, id: i64) -> bool {
    match s.stage {
        ImportStageView::Known { tmdb, .. } => tmdb == id,
        ImportStageView::Persisting { tmdb, .. } => tmdb == id,
        _ => false,
    }
}

/// A title that has been tried is not tried again, however the import goes on.
pub proof fn lemma_never_tried_again(s: ImportView, replies: Seq<ImportReply>, id: i64)
    requires
        s.well_formed(),
        import_replies_fit(s, replies),
        s.attempted.contains(id),
        !is_trying(s, id),
    ensures
        import_run(s, replies) matches ImportNext::Go(t) ==> !is_trying(t, id),
    decreases replies.len(),
{
    if replies.len() > 0 {
        lemma_import_keeps(s, replies[0]);
        match import_next(s, replies[0]) {
            ImportNext::Go(t) => {
                lemma_tried_once(s, replies[0]);
                lemma_never_tried_again(t, replies.drop_first(), id);
            },
            _ => {},
        }
    }
}

/// Whether something is done with this reply that counts.
pub open spec fn is_counted(s: ImportView, reply: ImportReply) -> bool {
    match (s.stage, reply) {
        (ImportStageView::Applying { media, next }, ImportReply::Applied(Ok(taken))) => counts(
            effects_of(s.watch(), media.runtime)[next],
            taken,
        ),
        _ => false,
    }
}

/// How much is done for the title at `i` that counts, in the course of these replies.
pub open spec fn title_count(s: ImportView, replies: Seq<ImportReply>, i: int) -> int
    decreases replies.len(),
{
    if replies.len() == 0 {
        0
    } else {
        (if s.index == i && is_counted(s, replies[0]) {
            1int
        } else {
            0int
        }) + match import_next(s, replies[0]) {
            ImportNext::Go(t) => title_count(t, replies.drop_first(), i),
            _ => 0,
        }
    }
}

/// How much is done for the first `n` titles together.
pub open spec fn titles_count(s: ImportView, replies: Seq<ImportReply>, n: int) -> int
    decreases n,
{
    if n <= 0 {
        0
    } else {
        titles_count(s, replies, n - 1) + title_count(s, replies, n - 1)
    }
}

proof fn lemma_count_of_step(s: ImportView, replies: Seq<ImportReply>, n: int)
    requires
        replies.len() > 0,
        0 <= s.index,
    ensures
        titles_count(s, replies, n) == (if s.index < n && is_counted(s, replies[0]) {
            1int
        } else {
            0int
        }) + match import_next(s, replies[0]) {
            ImportNext::Go(t) => titles_count(t, replies.drop_first(), n),
            _ => 0,
        },
    decreases n,
{
    if n > 0 {
        lemma_count_of_step(s, replies, n - 1);
    }
}

proof fn lemma_nothing_to_count(s: ImportView, replies: Seq<ImportReply>, n: int)
    requires
        replies.len() == 0,
    ensures
        titles_count(s, replies, n) == 0,
    decreases n,
{
    if n > 0 {
        lemma_nothing_to_count(s, replies, n - 1);
    }
}

/// A reply adds one to what was done if it counts, and else nothing.
proof fn lemma_step_counts(s: ImportView, reply: ImportReply)
    requires
        s.well_formed(),
        s.stage is User ==> s.applied == 0,
        reply.fits(s.stage),
    ensures
        is_counted(s, reply) ==> s.index < s.watches.len(),
        match import_next(s, reply) {
            ImportNext::Done(n) => n == s.applied + (if is_counted(s, reply) {
                1int
            } else {
                0int
            }),
            ImportNext::Go(t) => !(t.stage is User) && t.applied == s.applied + (if is_counted(
                s,
                reply,
            ) {
                1int
            } else {
                0int
            }),
            ImportNext::Failed(_) => true,
        },
{
}

/// An import that ends well says how much was done: the sum, over all titles, of what was done for
/// each and counts.
#[verifier::spinoff_prover]
pub proof fn lemma_count_is_the_sum(s: ImportView, replies: Seq<ImportReply>)
    requires
        s.well_formed(),
        s.stage is User ==> s.applied == 0,
        import_replies_fit(s, replies),
    ensures
        match import_run(s, replies) {
            ImportNext::Done(n) => n == s.applied + titles_count(
                s,
                replies,
                s.watches.len() as int,
            ),
            ImportNext::Go(t) => t.applied == s.applied + titles_count(
                s,
                replies,
                s.watches.len() as int,
            ),
            ImportNext::Failed(_) => true,
        },
    decreases replies.len(),
{
    let n = s.watches.len() as int;
    if replies.len() == 0 {
        lemma_nothing_to_count(s, replies, n);
    } else {
        lemma_import_keeps(s, replies[0]);
        lemma_step_counts(s, replies[0]);
        lemma_count_of_step(s, replies, n);
        match import_next(s, replies[0]) {
            ImportNext::Go(t) => {
                lemma_count_is_the_sum(t, replies.drop_first());
            },
            _ => {},
        }
    }
}

/// What was done for a title whose row was found, and where all went well, is what the tracker says
/// of it, as far as it counts.
pub proof fn lemma_title_count(s: ImportView, media: Media, taken: Seq<bool>)
    requires
        s.stage == (ImportStageView::Applying { media, next: 0 }),
        taken.len() == effects_of(s.watch(), media.runtime).len(),
        taken.len() > 0,
    ensures
        title_count(s, all_went_well(taken), s.index) == counted(
            effects_of(s.watch(), media.runtime),
            taken,
        ),
{
    lemma_rest_of_title(s, media, 0, taken);
    assert(taken.skip(0) =~= taken);
    let all = effects_of(s.watch(), media.runtime);
    assert(all.take(0).len() == 0);
}

proof fn lemma_rest_of_title(s: ImportView, media: Media, next: int, taken: Seq<bool>)
    requires
        s.stage == (ImportStageView::Applying { media, next }),
        0 <= next < effects_of(s.watch(), media.runtime).len(),
        taken.len() == effects_of(s.watch(), media.runtime).len(),
    ensures
        ({
            let all = effects_of(s.watch(), media.runtime);
            title_count(s, all_went_well(taken.skip(next)), s.index) == counted(all, taken)
                - counted(all.take(next), taken)
        }),
    decreases effects_of(s.watch(), media.runtime).len() - next,
{
    let all = effects_of(s.watch(), media.runtime);
    let replies = all_went_well(taken.skip(next));
    assert(replies[0] == ImportReply::Applied(Ok::<bool, String>(taken[next])));
    assert(replies.drop_first() =~= all_went_well(taken.skip(next + 1)));
    assert(all.take(next + 1).drop_last() =~= all.take(next));
    assert(all.take(next + 1).last() == all[next]);
    if next + 1 < all.len() {
        lemma_rest_of_title(import_next(s, replies[0])->Go_0, media, next + 1, taken);
    } else {
        assert(all.take(next + 1) =~= all);
        assert(replies.drop_first().len() == 0);
        match import_next(s, replies[0]) {
            ImportNext::Go(t) => {
                assert(title_count(t, replies.drop_first(), s.index) == 0);
            },
            _ => {},
        }
    }
}

/// A title has been begun if and only if the tracker says that some percent of it were played, or
/// names a position of a millisecond at least. A position that the tracker names is taken as it is.
/// Otherwise the percent are of the length of the title, and where that is not known one second
/// stands for them.
pub proof fn lemma_position_as_told(watch: RemoteWatch, runtime: Option<i64>)
    ensures
        position_of(watch, runtime) is Some <==> (watch.progress_percent matches Some(p)
            && p.positive()) || (watch.position_ticks matches Some(ticks) && ticks >= 10_000),
        position_of(watch, runtime) matches Some(at) ==> match watch.position_ticks {
            Some(ticks) => at == Position::Ticks(ticks),
            None => match runtime {
                Some(length) => at matches Position::Share { percent, runtime: of }
                    && watch.progress_percent == Some(percent) && of == length,
                None => at == Position::Ticks(10_000_000),
            },
        },
{
}

proof fn lemma_in_either(s: Seq<Effect>, t: Seq<Effect>, x: Effect)
    ensures
        (s + t).contains(x) <==> s.contains(x) || t.contains(x),
{
    if s.contains(x) {
        let i = choose|i: int| 0 <= i < s.len() && s[i] == x;
        assert((s + t)[i] == x);
    }
    if t.contains(x) {
        let i = choose|i: int| 0 <= i < t.len() && t[i] == x;
        assert((s + t)[s.len() + i] == x);
    }
}

/// All that the tracker says of a title is done to it, and nothing else, and no part of it depends
/// on another: a title is rated or marked as a favorite whether or not it was watched. Only the
/// time at which it was watched goes with that it was.
pub proof fn lemma_done_as_told(watch: RemoteWatch, runtime: Option<i64>, x: Effect)
    ensures
        effects_of(watch, runtime).contains(x) <==> match x {
            Effect::MarkPlayed => watch.watched,
            Effect::UpdatePlayback(at) => position_of(watch, runtime) == Some(at),
            Effect::SetFavorite(favorite) => watch.favorite == Some(favorite),
            Effect::SetRating(rating) => watch.rating == Some(rating),
            Effect::Stamp(at) => watch.watched && watch.watched_at == Some(at),
        },
{
    let a = played_effect(watch);
    let b = playback_effect(watch, runtime);
    let c = favorite_effect(watch);
    let d = rating_effect(watch);
    let e = stamp_effect(watch);
    lemma_in_either(a, b, x);
    lemma_in_either(a + b, c, x);
    lemma_in_either(a + b + c, d, x);
    lemma_in_either(a + b + c + d, e, x);
    assert(watch.watched ==> a[0] is MarkPlayed);
    assert(position_of(watch, runtime) matches Some(at) ==> b[0] == Effect::UpdatePlayback(at));
    assert(watch.favorite matches Some(f) ==> c[0] == Effect::SetFavorite(f));
    assert(watch.rating matches Some(r) ==> d[0] == Effect::SetRating(r));
    assert(watch.watched && watch.watched_at is Some ==> e[0] == Effect::Stamp(
        watch.watched_at->0,
    ));
}

/// The place of something that is done to a title among all that is.
pub open spec fn effect_place(effect: Effect) -> int {
    match effect {
        Effect::MarkPlayed => 0,
        Effect::UpdatePlayback(_) => 1,
        Effect::SetFavorite(_) => 2,
        Effect::SetRating(_) => 3,
        Effect::Stamp(_) => 4,
    }
}

spec fn in_places(s: Seq<Effect>, below: int) -> bool {
    &&& forall|i: int| 0 <= i < s.len() ==> effect_place(#[trigger] s[i]) < below
    &&& forall|i: int, j: int|
        0 <= i < j < s.len() ==> effect_place(#[trigger] s[i]) < effect_place(#[trigger] s[j])
}

proof fn lemma_next_place(s: Seq<Effect>, t: Seq<Effect>, place: int)
    requires
        in_places(s, place),
        t.len() <= 1,
        t.len() == 1 ==> effect_place(t[0]) == place,
    ensures
        in_places(s + t, place + 1),
{
    let all = s + t;
    assert(forall|i: int| 0 <= i < s.len() ==> all[i] == s[i]);
    assert(t.len() == 1 ==> all[s.len() as int] == t[0]);
}

/// What is done to a title is done in one order, and each thing once: to mark it as played, to note
/// how far, to mark it as a favorite, to rate it, and to note when it was watched.
pub proof fn lemma_done_in_order(watch: RemoteWatch, runtime: Option<i64>, i: int, j: int)
    requires
        0 <= i < j < effects_of(watch, runtime).len(),
    ensures
        effect_place(effects_of(watch, runtime)[i]) < effect_place(effects_of(watch, runtime)[j]),
{
    let a = played_effect(watch);
    let b = playback_effect(watch, runtime);
    let c = favorite_effect(watch);
    let d = rating_effect(watch);
    let e = stamp_effect(watch);
    lemma_next_place(Seq::empty(), a, 0);
    assert(Seq::<Effect>::empty() + a =~= a);
    lemma_next_place(a, b, 1);
    lemma_next_place(a + b, c, 2);
    lemma_next_place(a + b + c, d, 3);
    lemma_next_place(a + b + c + d, e, 4);
}

/// What was done counts, but for a rating that the library did not take, and for the time at which
/// a title was watched.
pub proof fn lemma_what_counts(effect: Effect, taken: bool)
    ensures
        counts(effect, taken) <==> !(effect is Stamp) && (effect is SetRating ==> taken),
{
}

/// A title with a season and a number is looked for as the episode with just these of the series
/// with the ids, and nowhere else: without the series it is not found.
pub proof fn lemma_episode_is_looked_for(
    watch: RemoteWatch,
    series: Option<u128>,
    row: Result<Option<Media>, String>,
)
    requires
        watch.season is Some,
        watch.episode is Some,
    ensures
        lookup_start(watch) is SeriesOf,
        match lookup_next(lookup_start(watch), LookupReply::Id(series)) {
            LookupAfter::Go(at) => {
                &&& at matches Lookup::Episode { series_id, season, episode }
                &&& series == Some(series_id)
                &&& watch.season == Some(season)
                &&& watch.episode == Some(episode)
                &&& match lookup_next(at, LookupReply::Row(row)) {
                    LookupAfter::Found(found) => row == Ok::<Option<Media>, String>(found),
                    LookupAfter::Failed(text) => row == Err::<Option<Media>, String>(text),
                    LookupAfter::Go(_) => false,
                }
            },
            LookupAfter::Found(found) => found is None && series is None,
            LookupAfter::Failed(_) => false,
        },
{
}

/// Any other title is looked for as a movie with the ids and as a series with them. The movie is
/// preferred. The row with the id that was found is what is found.
pub proof fn lemma_title_is_looked_for(
    watch: RemoteWatch,
    movie: Option<u128>,
    series: Option<u128>,
    row: Result<Option<Media>, String>,
)
    requires
        watch.season is None || watch.episode is None,
    ensures
        lookup_start(watch) is Movie,
        ({
            let second = lookup_next(lookup_start(watch), LookupReply::Id(movie));
            &&& second matches LookupAfter::Go(at) && at is Series
            &&& match lookup_next(second->Go_0, LookupReply::Id(series)) {
                LookupAfter::Go(at) => {
                    &&& at matches Lookup::Row { id }
                    &&& movie == Some(id) || (movie is None && series == Some(id))
                    &&& match lookup_next(at, LookupReply::Row(row)) {
                        LookupAfter::Found(found) => row == Ok::<Option<Media>, String>(found),
                        LookupAfter::Failed(text) => row == Err::<Option<Media>, String>(text),
                        LookupAfter::Go(_) => false,
                    }
                },
                LookupAfter::Found(found) => found is None && movie is None && series is None,
                LookupAfter::Failed(_) => false,
            }
        }),
{
}

/// Whether the title at hand is done with and nothing was done for it in this step: it is the turn
/// of the next one, or the import ends with what was done.
pub open spec fn is_passed_over(s: ImportView, next: ImportNext) -> bool {
    match next {
        ImportNext::Go(t) => {
            &&& t.index == s.index + 1
            &&& t.index < s.watches.len()
            &&& t.stage matches ImportStageView::Lookup { again, at } && !again && at
                == lookup_start(s.watches[s.index + 1])
            &&& t == (ImportView { index: t.index, stage: t.stage, ..s })
        },
        ImportNext::Done(n) => n == s.applied && s.index + 1 >= s.watches.len(),
        ImportNext::Failed(_) => false,
    }
}

/// Whether the title at hand is looked for once more, from the start.
pub open spec fn is_looked_for_again(s: ImportView, next: ImportNext) -> bool {
    &&& next matches ImportNext::Go(t)
    &&& t == (ImportView { stage: t.stage, ..s })
    &&& t.stage matches ImportStageView::Lookup { again, at }
    &&& again
    &&& at == lookup_start(s.watch())
}

/// An import begins with the first title, with nothing done, added or tried, if there is such a
/// user. What goes wrong with finding out ends it.
pub proof fn lemma_import_begins(
    watches: Seq<RemoteWatch>,
    max_new_titles: int,
    reply: Result<bool, String>,
)
    ensures
        match (
            reply,
            import_next(import_start(watches, max_new_titles), ImportReply::User(reply)),
        ) {
            (Ok(there), ImportNext::Go(t)) => {
                &&& there
                &&& t.watches == watches
                &&& t.index == 0 && watches.len() > 0
                &&& t.stage matches ImportStageView::Lookup { again, at } && !again && at
                    == lookup_start(watches[0])
                &&& t.applied == 0
                &&& t.persisted == 0
                &&& t.max_new_titles == max_new_titles
                &&& t.attempted == Set::<i64>::empty()
            },
            (Ok(there), ImportNext::Done(n)) => n == 0 && (there ==> watches.len() == 0),
            (Err(text), ImportNext::Failed(told)) => told == text,
            _ => false,
        },
{
}

/// Once the row of a title has been found, what the tracker says is done to it, from the first
/// thing on. A title of which the tracker says nothing is passed over.
pub proof fn lemma_found_is_dealt_with(s: ImportView, again: bool, at: Lookup, media: Media)
    requires
        s.stage == (ImportStageView::Lookup { again, at }),
        at is Episode || at is Row,
    ensures
        ({
            let next = import_next(s, ImportReply::Lookup(LookupReply::Row(Ok(Some(media)))));
            if effects_of(s.watch(), media.runtime).len() > 0 {
                next == ImportNext::Go(
                    ImportView { stage: ImportStageView::Applying { media, next: 0 }, ..s },
                )
            } else {
                is_passed_over(s, next)
            }
        }),
{
}

/// A title that the library lacks is tried if and only if it was watched, has a TMDB id under which
/// nothing was tried, and there is room for another. It is then tried under that id, as a series
/// if the tracker names a season or a number and else as a movie. A title that was not watched, or
/// that is missing for the second time, is passed over, and any other is looked for once more.
pub proof fn lemma_missing_is_tried(s: ImportView, again: bool, at: Lookup, reply: LookupReply)
    requires
        s.stage == (ImportStageView::Lookup { again, at }),
        reply.fits(at),
        (reply matches LookupReply::Row(Ok(row)) && row is None) || (reply == LookupReply::Id(None)
            && (at is SeriesOf || (at matches Lookup::Series { movie } && movie is None))),
    ensures
        ({
            let next = import_next(s, ImportReply::Lookup(reply));
            let w = s.watch();
            if again || !w.watched {
                is_passed_over(s, next)
            } else if s.persisted < s.max_new_titles && w.ids.tmdb is Some && !s.attempted.contains(
                w.ids.tmdb->0,
            ) {
                &&& next matches ImportNext::Go(t)
                &&& t.stage matches ImportStageView::Known { tmdb, kind }
                &&& w.ids.tmdb == Some(tmdb)
                &&& kind == MediaKind::Series <==> w.season is Some || w.episode is Some
                &&& kind == MediaKind::Movie <==> w.season is None && w.episode is None
                &&& t.attempted == s.attempted.insert(tmdb)
                &&& t == (ImportView { stage: t.stage, attempted: t.attempted, ..s })
            } else {
                &&& next is Go
                &&& next->Go_0.attempted =~= s.attempted
                &&& is_looked_for_again(s, next)
            }
        }),
{
    if !again && s.watch().watched && s.persisted < s.max_new_titles {
        let tried = attempted_with(s.watch(), s.attempted);
        if !worth_a_try(s.watch(), s.attempted) {
            assert(tried =~= s.attempted);
        }
    }
}

/// A title that is tried is added only if the library does not know it under another kind, and is
/// looked for once more in either case. Only a title that was added counts as one.
pub proof fn lemma_tried_is_added(s: ImportView, tmdb: i64, kind: MediaKind, id: Option<u128>)
    ensures
        s.stage == (ImportStageView::Known { tmdb, kind }) ==> match id {
            Some(_) => is_looked_for_again(s, import_next(s, ImportReply::Known(id))),
            None => import_next(s, ImportReply::Known(id)) == ImportNext::Go(
                ImportView { stage: ImportStageView::Persisting { tmdb, kind }, ..s },
            ),
        },
        s.stage == (ImportStageView::Persisting { tmdb, kind }) ==> is_looked_for_again(
            ImportView { persisted: s.persisted + 1, ..s },
            import_next(s, ImportReply::Persisted),
        ),
{
}

/// Each thing that is done to a title is followed by the next one and, after the last, by the next
/// title. One more was done if it counts. What goes wrong ends the import.
pub proof fn lemma_one_by_one(
    s: ImportView,
    media: Media,
    next: int,
    reply: Result<bool, String>,
)
    requires
        s.stage == (ImportStageView::Applying { media, next }),
        0 <= next < effects_of(s.watch(), media.runtime).len(),
    ensures
        ({
            let all = effects_of(s.watch(), media.runtime);
            let after = import_next(s, ImportReply::Applied(reply));
            match reply {
                Err(text) => after == ImportNext::Failed(text),
                Ok(taken) => {
                    let more = !(all[next] is Stamp) && (all[next] is SetRating ==> taken);
                    let s1 = ImportView {
                        applied: if more {
                            s.applied + 1
                        } else {
                            s.applied
                        },
                        ..s
                    };
                    if next + 1 < all.len() {
                        after == ImportNext::Go(
                            ImportView {
                                stage: ImportStageView::Applying { media, next: next + 1 },
                                ..s1
                            },
                        )
                    } else {
                        is_passed_over(s1, after)
                    }
                },
            }
        }),
{
}

/// A search goes on for the same title and for the same time, and what goes wrong with it ends the
/// import.
pub proof fn lemma_search_goes_on(s: ImportView, again: bool, at: Lookup, reply: LookupReply)
    requires
        s.stage == (ImportStageView::Lookup { again, at }),
        reply.fits(at),
    ensures
        lookup_next(at, reply) matches LookupAfter::Go(then) ==> import_next(
            s,
            ImportReply::Lookup(reply),
        ) == ImportNext::Go(ImportView { stage: ImportStageView::Lookup { again, at: then }, ..s }),
        reply matches LookupReply::Row(Err(text)) ==> import_next(s, ImportReply::Lookup(reply))
            == ImportNext::Failed(text),
{
}

/// Whether a title is worth a try, what it is tried as and what then counts as tried follow from
/// what the tracker says of it alone.
pub proof fn lemma_try_as_told(
    watch: &RemoteWatch,
    attempted: Set<i64>,
    tmdb: i64,
    kind: MediaKind,
    stub: StubTitle,
)
    requires
        call_ensures(stub_title, (tmdb, kind, &watch.ids), stub),
    ensures
        worth_a_try(*watch, attempted) <==> (watch.ids.tmdb matches Some(id) && !attempted.contains(
            id,
        )),
        missing_kind(*watch) == MediaKind::Movie <==> watch.season is None && watch.episode is None,
        missing_kind(*watch) == MediaKind::Series <==> watch.season is Some || watch.episode is Some,
        forall|id: i64| #[trigger]
            attempted_with(*watch, attempted).contains(id) <==> attempted.contains(id)
                || watch.ids.tmdb == Some(id),
        stub.kind == kind,
        stub.external_ids == watch.ids,
        stub.title@ == "tmdb:"@ + decimal(tmdb as int),
{
}

} // verus!
