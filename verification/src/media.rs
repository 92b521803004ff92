//! Rows of the library, and what a tracker is told of them.

use crate::ids::ExternalIds;
use crate::time::{in_year, lemma_year_exists, representable, year_at, year_of, Timestamp};
use crate::tracker::{MediaKind, MediaTrackerTarget};
use vstd::prelude::*;

verus! {

/// A row of the library. An episode has the number of its season in `parent_idx`, its own in
/// `idx`, and may name its series in `grandparent_id`.
#[derive(Debug)]
pub struct Media {
    pub id: u128,
    pub title: String,
    pub kind: MediaKind,
    pub released_at: Option<Timestamp>,
    pub external_ids: ExternalIds,
    pub parent_idx: Option<i64>,
    pub idx: Option<i64>,
    pub runtime: Option<i64>,
    pub grandparent_id: Option<u128>,
}

impl Clone for Media {
    fn clone(&self) -> (r: Self)
        ensures
            r == *self,
    {
        Media {
            id: self.id,
            title: self.title.clone(),
            kind: self.kind,
            released_at: self.released_at,
            external_ids: self.external_ids.clone(),
            parent_idx: self.parent_idx,
            idx: self.idx,
            runtime: self.runtime,
            grandparent_id: self.grandparent_id,
        }
    }
}

/// A row without its series, as a tracker sees it.
pub open spec fn described_alone(media: Media) -> MediaTrackerTarget {
    MediaTrackerTarget {
        kind: media.kind,
        title: media.title,
        year: match media.released_at {
            Some(at) => year_at(at),
            None => None,
        },
        ids: media.external_ids,
        series: None,
        season: media.parent_idx,
        episode: media.idx,
        runtime_ticks: media.runtime,
    }
}

/// A row as a tracker sees it.
pub open spec fn described(media: Media, series: Option<Media>) -> MediaTrackerTarget {
    MediaTrackerTarget {
        series: match series {
            Some(s) => Some(Box::new(described_alone(s))),
            None => None,
        },
        ..described_alone(media)
    }
}

fn describe_alone(media: &Media) -> (r: MediaTrackerTarget)
    ensures
        r == described_alone(*media),
{
    MediaTrackerTarget {
        kind: media.kind,
        title: media.title.clone(),
        year: match &media.released_at {
            Some(at) => year_of(at),
            None => None,
        },
        ids: media.external_ids.clone(),
        series: None,
        season: media.parent_idx,
        episode: media.idx,
        runtime_ticks: media.runtime,
    }
}

/// A row as a tracker sees it.
pub fn describe(media: &Media, series: Option<&Media>) -> (r: MediaTrackerTarget)
    ensures
        r == described(
            *media,
            match series {
                Some(s) => Some(*s),
                None => None,
            },
        ),
{
    let mut target = describe_alone(media);
    target.series = match series {
        Some(s) => Some(Box::new(describe_alone(s))),
        None => None,
    };
    target
}

/// What is to be done next in order to find the series of a row.
#[derive(Debug)]
pub enum SeriesStep {
    /// To read the rows above it, from the one right above it on.
    Ancestors,
    /// To read the row with this id.
    Load(u128),
    /// This is what was found: nothing.
    Found(Option<Media>),
}

/// The first series among the rows.
pub open spec fn first_series(rows: Seq<Media>) -> Option<Media>
    decreases rows.len(),
{
    if rows.len() == 0 {
        None
    } else if rows[0].kind == MediaKind::Series {
        Some(rows[0])
    } else {
        first_series(rows.drop_first())
    }
}

/// What is to be done where these are the rows above it: the series is among them, or it is the
/// one that the row names.
pub open spec fn series_step(media: Media, ancestors: Seq<Media>) -> SeriesStep {
    match first_series(ancestors) {
        Some(series) => SeriesStep::Found(Some(series)),
        None => match media.grandparent_id {
            Some(id) => SeriesStep::Load(id),
            None => SeriesStep::Found(None),
        },
    }
}

/// A row that was read, if it is a series.
pub open spec fn if_series(row: Option<Media>) -> Option<Media> {
    match row {
        Some(m) => if m.kind == MediaKind::Series {
            Some(m)
        } else {
            None
        },
        None => None,
    }
}

/// Begins to find the series of a row. Only an episode has one.
pub fn series_of(media: &Media) -> (r: SeriesStep)
    ensures
        r == if media.kind == MediaKind::Episode {
            SeriesStep::Ancestors
        } else {
            SeriesStep::Found(None)
        },
{
    if media.kind == MediaKind::Episode {
        SeriesStep::Ancestors
    } else {
        SeriesStep::Found(None)
    }
}

/// Goes on when the rows above it have been read.
pub fn series_among(media: &Media, ancestors: &Vec<Media>) -> (r: SeriesStep)
    ensures
        r == series_step(*media, ancestors@),
{
    assert(ancestors@.skip(0) =~= ancestors@);
    for i in 0..ancestors.len()
        invariant
            first_series(ancestors@) == first_series(ancestors@.skip(i as int)),
    {
        if ancestors[i].kind == MediaKind::Series {
            return SeriesStep::Found(Some(ancestors[i].clone()));
        }
        assert(ancestors@.skip(i as int).drop_first() =~= ancestors@.skip(i + 1));
    }
    match media.grandparent_id {
        Some(id) => SeriesStep::Load(id),
        None => SeriesStep::Found(None),
    }
}

/// Goes on when the row that the row names has been read.
pub fn series_loaded(row: Option<Media>) -> (r: SeriesStep)
    ensures
        r == SeriesStep::Found(if_series(row)),
{
    match row {
        Some(m) => {
            if m.kind == MediaKind::Series {
                SeriesStep::Found(Some(m))
            } else {
                SeriesStep::Found(None)
            }
        },
        None => SeriesStep::Found(None),
    }
}

/// A row as a tracker sees it, if there is something to match it by. That its ids could not be
/// completed is an error only if there is nothing.
pub open spec fn resolved(
    media: Media,
    series: Option<Media>,
    completion_err: Option<String>,
) -> Result<Option<MediaTrackerTarget>, String> {
    let target = described(media, series);
    if target.matchable() {
        Ok(Some(target))
    } else {
        match completion_err {
            Some(e) => Err(e),
            None => Ok(None),
        }
    }
}

/// A row as a tracker sees it, if there is something to match it by, once its series has been
/// found and its ids have been completed, or could not be.
pub fn resolve_target(media: &Media, series: Option<&Media>, completion_err: Option<String>) -> (r:
    Result<Option<MediaTrackerTarget>, String>)
    ensures
        r == resolved(
            *media,
            match series {
                Some(s) => Some(*s),
                None => None,
            },
            completion_err,
        ),
{
    let target = describe(media, series);
    if !target.is_matchable() {
        return match completion_err {
            Some(e) => Err(e),
            None => Ok(None),
        };
    }
    Ok(Some(target))
}

/// A title that can be matched is handed on, whether or not its ids could be completed.
pub proof fn lemma_completion_never_holds_up(
    media: Media,
    series: Option<Media>,
    completion_err: Option<String>,
)
    requires
        described(media, series).matchable(),
    ensures
        resolved(media, series, completion_err) == Ok::<Option<MediaTrackerTarget>, String>(
            Some(described(media, series)),
        ),
{
}

/// An episode without a row above it reaches the series that it names, and carries the ids of it.
pub proof fn lemma_flat_episode_reaches_series(media: Media, series: Media, ancestors: Seq<Media>)
    requires
        media.grandparent_id == Some(series.id),
        series.kind == MediaKind::Series,
        series.external_ids.some_id(),
        forall|i: int|
            0 <= i < ancestors.len() ==> (#[trigger] ancestors[i]).kind != MediaKind::Series,
    ensures
        series_step(media, ancestors) == SeriesStep::Load(series.id),
        if_series(Some(series)) == Some(series),
        resolved(media, Some(series), None) matches Ok(Some(t)) && t.series matches Some(s)
            && s.ids == series.external_ids,
{
    lemma_no_series(ancestors);
}

proof fn lemma_no_series(rows: Seq<Media>)
    requires
        forall|i: int| 0 <= i < rows.len() ==> (#[trigger] rows[i]).kind != MediaKind::Series,
    ensures
        first_series(rows) is None,
    decreases rows.len(),
{
    if rows.len() > 0 {
        assert forall|i: int| 0 <= i < rows.drop_first().len() implies (
        #[trigger] rows.drop_first()[i]).kind != MediaKind::Series by {
            assert(rows.drop_first()[i] == rows[i + 1]);
        }
        lemma_no_series(rows.drop_first());
    }
}

/// What is found among the rows above is the series closest to the row.
pub proof fn lemma_closest_series(rows: Seq<Media>)
    ensures
        match first_series(rows) {
            Some(s) => exists|i: int|
                #![trigger rows[i]]
                0 <= i < rows.len() && rows[i] == s && s.kind == MediaKind::Series && (forall|j: int|
                    0 <= j < i ==> (#[trigger] rows[j]).kind != MediaKind::Series),
            None => forall|i: int|
                0 <= i < rows.len() ==> (#[trigger] rows[i]).kind != MediaKind::Series,
        },
    decreases rows.len(),
{
    if rows.len() > 0 && rows[0].kind != MediaKind::Series {
        let rest = rows.drop_first();
        lemma_closest_series(rest);
        assert(forall|j: int| 0 < j < rows.len() ==> rows[j] == rest[j - 1]);
        match first_series(rest) {
            Some(s) => {
                let k = choose|i: int|
                    #![trigger rest[i]]
                    0 <= i < rest.len() && rest[i] == s && (forall|j: int|
                        0 <= j < i ==> (#[trigger] rest[j]).kind != MediaKind::Series);
                assert(rows[k + 1] == s);
                assert forall|j: int| 0 <= j < k + 1 implies (#[trigger] rows[j]).kind
                    != MediaKind::Series by {
                    if j > 0 {
                        assert(rows[j] == rest[j - 1]);
                    }
                }
            },
            None => {},
        }
    }
}

/// What a tracker sees of a row is what the row says: its kind, its name and its ids, its season
/// and its number, how long it is, and the year into which its release falls. The series that it
/// belongs to is seen in the same way, and changes nothing in the row.
pub proof fn lemma_described_as_it_is(media: Media, series: Option<Media>)
    ensures
        ({
            let t = described(media, series);
            &&& t.kind == media.kind
            &&& t.title == media.title
            &&& t.ids == media.external_ids
            &&& t.season == media.parent_idx
            &&& t.episode == media.idx
            &&& t.runtime_ticks == media.runtime
            &&& t.year is Some <==> (media.released_at matches Some(at) && representable(at))
            &&& t.year matches Some(y) ==> in_year(media.released_at->0.secs as int, y as int)
        }),
        match (series, described(media, series).series) {
            (None, None) => true,
            (Some(s), Some(seen)) => {
                &&& seen.kind == s.kind
                &&& seen.title == s.title
                &&& seen.ids == s.external_ids
                &&& seen.season == s.parent_idx
                &&& seen.episode == s.idx
                &&& seen.runtime_ticks == s.runtime
                &&& seen.series is None
                &&& seen.year is Some <==> (s.released_at matches Some(at) && representable(at))
                &&& seen.year matches Some(y) ==> in_year(s.released_at->0.secs as int, y as int)
            },
            _ => false,
        },
{
    if let Some(at) = media.released_at {
        lemma_year_exists(at);
    }
    if let Some(s) = series {
        if let Some(at) = s.released_at {
            lemma_year_exists(at);
        }
    }
}

/// Whether one of the services that the library knows has an id for the row.
pub open spec fn is_known_elsewhere(media: Media) -> bool {
    media.external_ids.imdb is Some || media.external_ids.tmdb is Some || media.external_ids.tvdb
        is Some
}

/// A row is handed on, just as it is described, if and only if it or its series is known elsewhere.
/// Otherwise what went wrong while its ids were completed is told, if anything did.
pub proof fn lemma_handed_on_if_known(
    media: Media,
    series: Option<Media>,
    completion_err: Option<String>,
)
    ensures
        ({
            let known = is_known_elsewhere(media) || (series matches Some(s)
                && is_known_elsewhere(s));
            match resolved(media, series, completion_err) {
                Ok(Some(t)) => known && t == described(media, series),
                Ok(None) => !known && completion_err is None,
                Err(e) => !known && completion_err == Some(e),
            }
        }),
{
}

/// Only for an episode a series is looked for. It is the closest one above it, and failing that
/// the one that the episode names, which counts only if it is a series.
pub proof fn lemma_series_of_episode(
    media: &Media,
    ancestors: &Vec<Media>,
    row: Option<Media>,
    first: SeriesStep,
    among: SeriesStep,
    loaded: SeriesStep,
)
    requires
        call_ensures(series_of, (media,), first),
        call_ensures(series_among, (media, ancestors), among),
        call_ensures(series_loaded, (row,), loaded),
    ensures
        media.kind == MediaKind::Episode ==> first == SeriesStep::Ancestors,
        media.kind != MediaKind::Episode ==> first == SeriesStep::Found(None),
        match among {
            SeriesStep::Found(Some(s)) => s.kind == MediaKind::Series && ancestors@.contains(s),
            SeriesStep::Found(None) => media.grandparent_id is None && forall|i: int|
                0 <= i < ancestors@.len() ==> (#[trigger] ancestors@[i]).kind != MediaKind::Series,
            SeriesStep::Load(id) => media.grandparent_id == Some(id) && forall|i: int|
                0 <= i < ancestors@.len() ==> (#[trigger] ancestors@[i]).kind != MediaKind::Series,
            SeriesStep::Ancestors => false,
        },
        loaded matches SeriesStep::Found(found) && (found matches Some(s) ==> row == Some(s)
            && s.kind == MediaKind::Series) && (found is None ==> (row matches Some(m) ==> m.kind
            != MediaKind::Series)),
{
    lemma_closest_series(ancestors@);
}

} // verus!
