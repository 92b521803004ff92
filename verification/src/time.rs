//! Points in time, the calendar, and the clock.

use vstd::prelude::*;

verus! {

/// A point in time: whole seconds since 1970-01-01T00:00:00Z, and nanoseconds on top of them.
/// During a leap second the nanoseconds run on past a full second.
#[derive(Debug, Clone, Copy, PartialEq, Eq, Structural)]
pub struct Timestamp {
    pub secs: i64,
    pub nanos: u32,
}

impl Timestamp {
    /// Whether this point in time is not later than the other.
    pub open spec fn not_after(self, other: Timestamp) -> bool {
        self.secs < other.secs || (self.secs == other.secs && self.nanos <= other.nanos)
    }

    /// Whether this point in time is not later than the other.
    pub fn is_not_after(&self, other: &Timestamp) -> (r: bool)
        ensures
            r == self.not_after(*other),
    {
        self.secs < other.secs || (self.secs == other.secs && self.nanos <= other.nanos)
    }
}

/// The number of days in the years 1 to `y - 1` of the Gregorian calendar, run backwards for
/// years before the first.
pub open spec fn days_before_year(y: int) -> int {
    365 * (y - 1) + (y - 1) / 4 - (y - 1) / 100 + (y - 1) / 400
}

/// The day on which a second falls, where 1 is the first day of the year 1.
pub open spec fn day_of(secs: int) -> int {
    secs / 86_400 + 719_163
}

/// Whether a second falls into the year `y`.
pub open spec fn in_year(secs: int, y: int) -> bool {
    days_before_year(y) < day_of(secs) <= days_before_year(y + 1)
}

/// Whether the crate `chrono` can hold a point in time: its day falls into one of the years
/// -262143 to 262142, and a leap second is the last second of a minute.
pub open spec fn representable(at: Timestamp) -> bool {
    &&& days_before_year(-262_143) < day_of(at.secs as int) <= days_before_year(262_143)
    &&& at.nanos < 2_000_000_000
    &&& at.nanos >= 1_000_000_000 ==> (at.secs as int % 86_400) % 60 == 59
}

/// The calendar year of a point in time that is representable.
pub open spec fn year_at(at: Timestamp) -> Option<i32> {
    if representable(at) {
        Some(choose|y: i32| in_year(at.secs as int, y as int))
    } else {
        None
    }
}

/// What `chrono::DateTime::parse_from_rfc3339` makes of a text: seconds and nanoseconds.
pub uninterp spec fn rfc3339_instant(text: Seq<char>) -> Option<(i64, u32)>;

/// What `chrono::NaiveDateTime::parse_from_str` makes of a text and a format: seconds and
/// nanoseconds.
pub uninterp spec fn formatted_instant(text: Seq<char>, format: Seq<char>) -> Option<(i64, u32)>;

/// Calls `chrono::DateTime::parse_from_rfc3339`. What it accepts, and the instant it reads, is
/// named, and no more is said of it.
#[verifier::external_body]
fn parse_rfc3339(text: &str) -> (r: Option<(i64, u32)>)
    ensures
        r == rfc3339_instant(text@),
{
    match chrono::DateTime::parse_from_rfc3339(text) {
        Ok(at) => Some((at.timestamp(), at.timestamp_subsec_nanos())),
        Err(_) => None,
    }
}

/// Calls `chrono::NaiveDateTime::parse_from_str`. What it accepts, and the instant it reads when
/// the text is taken as UTC, is named, and no more is said of it.
#[verifier::external_body]
fn parse_formatted(text: &str, format: &str) -> (r: Option<(i64, u32)>)
    ensures
        r == formatted_instant(text@, format@),
{
    match chrono::NaiveDateTime::parse_from_str(text, format) {
        Ok(at) => Some((at.and_utc().timestamp(), at.and_utc().timestamp_subsec_nanos())),
        Err(_) => None,
    }
}

/// Calls `chrono::DateTime::from_timestamp` and, on the point in time that it returns,
/// `chrono::Datelike::year`: the Gregorian year into which the second falls, and nothing where
/// chrono cannot hold the point in time.
#[verifier::external_body]
fn calendar_year(secs: i64, nanos: u32) -> (r: Option<i32>)
    ensures
        match r {
            Some(y) => representable(Timestamp { secs, nanos }) && in_year(secs as int, y as int),
            None => !representable(Timestamp { secs, nanos }),
        },
{
    match chrono::DateTime::from_timestamp(secs, nanos) {
        Some(at) => Some(chrono::Datelike::year(&at)),
        None => None,
    }
}

/// Calls `SystemTime::elapsed` on `std::time::UNIX_EPOCH`: the whole seconds since then, and
/// nothing where the clock stands before it. Nothing can be said of what the clock shows.
#[verifier::external_body]
pub(crate) fn clock_seconds() -> (r: Option<u64>) {
    match std::time::UNIX_EPOCH.elapsed() {
        Ok(d) => Some(d.as_secs()),
        Err(_) => None,
    }
}

/// The whole seconds since 1970 where the clock shows so many, and 0 where it shows none because
/// it stands before that year.
pub open spec fn shown_seconds(clock: Option<u64>) -> u64 {
    match clock {
        Some(secs) => secs,
        None => 0,
    }
}

/// The whole seconds since 1970 where the clock shows so many, and 0 where it shows none.
pub fn seconds_or_zero(clock: Option<u64>) -> (r: u64)
    ensures
        r == shown_seconds(clock),
{
    match clock {
        Some(secs) => secs,
        None => 0,
    }
}

/// Whether these are the seconds since 1970 that the clock shows when it is read, 0 where it stands
/// before that year.
pub closed spec fn clock_shows(secs: u64) -> bool {
    exists|clock: Option<u64>| #[trigger]
        call_ensures(clock_seconds, (), clock) && secs == shown_seconds(clock)
}

/// The seconds since 1970 that the clock shows, 0 where it stands before that year.
pub(crate) fn unix_now() -> (r: u64)
    ensures
        exists|clock: Option<u64>| #[trigger]
            call_ensures(clock_seconds, (), clock) && r == shown_seconds(clock),
        clock_shows(r),
{
    let clock = clock_seconds();
    seconds_or_zero(clock)
}

proof fn lemma_years_in_order(y: int, z: int)
    requires
        y <= z,
    ensures
        days_before_year(y) <= days_before_year(z),
    decreases z - y,
{
    if y < z {
        lemma_years_in_order(y, z - 1);
    }
}

/// A second falls into one year only.
pub proof fn lemma_one_year(secs: int, y: int, z: int)
    requires
        in_year(secs, y),
        in_year(secs, z),
    ensures
        y == z,
{
    if y < z {
        lemma_years_in_order(y + 1, z);
    } else if z < y {
        lemma_years_in_order(z + 1, y);
    }
}

/// The calendar year of a point in time.
pub fn year_of(at: &Timestamp) -> (r: Option<i32>)
    ensures
        r == year_at(*at),
        match r {
            Some(y) => representable(*at) && in_year(at.secs as int, y as int),
            None => !representable(*at),
        },
{
    let r = calendar_year(at.secs, at.nanos);
    proof {
        if let Some(y) = r {
            let z = choose|z: i32| in_year(at.secs as int, z as int);
            lemma_one_year(at.secs as int, y as int, z as int);
        }
    }
    r
}

/// The point in time that a text names: as RFC 3339 has it or, failing that, in the same form
/// with a bare `Z` behind the fraction.
pub open spec fn watched_at_spec(raw: Option<Seq<char>>) -> Option<Timestamp> {
    match raw {
        None => None,
        Some(text) => match rfc3339_instant(text) {
            Some(at) => Some(Timestamp { secs: at.0, nanos: at.1 }),
            None => match formatted_instant(text, "%Y-%m-%dT%H:%M:%S%.fZ"@) {
                Some(at) => Some(Timestamp { secs: at.0, nanos: at.1 }),
                None => None,
            },
        },
    }
}

/// The first of two readings of an instant that there is.
pub fn first_instant(a: Option<(i64, u32)>, b: Option<(i64, u32)>) -> (r: Option<Timestamp>)
    ensures
        r == match (a, b) {
            (Some(at), _) => Some(Timestamp { secs: at.0, nanos: at.1 }),
            (None, Some(at)) => Some(Timestamp { secs: at.0, nanos: at.1 }),
            (None, None) => None,
        },
{
    match a {
        Some(at) => Some(Timestamp { secs: at.0, nanos: at.1 }),
        None => match b {
            Some(at) => Some(Timestamp { secs: at.0, nanos: at.1 }),
            None => None,
        },
    }
}

/// The point in time at which Trakt says that something was watched.
pub fn parse_watched_at(raw: Option<&str>) -> (r: Option<Timestamp>)
    ensures
        r == watched_at_spec(
            match raw {
                Some(text) => Some(text@),
                None => None,
            },
        ),
{
    match raw {
        Some(text) => first_instant(
            parse_rfc3339(text),
            parse_formatted(text, "%Y-%m-%dT%H:%M:%S%.fZ"),
        ),
        None => None,
    }
}

proof fn lemma_year_between(secs: int, y: int, z: int)
    requires
        y < z,
        days_before_year(y) < day_of(secs) <= days_before_year(z),
    ensures
        exists|x: int| y <= x < z && #[trigger] in_year(secs, x),
    decreases z - y,
{
    if day_of(secs) <= days_before_year(z - 1) {
        lemma_year_between(secs, y, z - 1);
    } else {
        assert(in_year(secs, z - 1));
    }
}

/// Each point in time that is representable falls into the year that is given for it, and no year
/// is given for another.
pub proof fn lemma_year_exists(at: Timestamp)
    ensures
        match year_at(at) {
            Some(y) => representable(at) && in_year(at.secs as int, y as int),
            None => !representable(at),
        },
{
    if representable(at) {
        lemma_year_between(at.secs as int, -262_143, 262_143);
        let x = choose|x: int| -262_143 <= x < 262_143 && #[trigger] in_year(at.secs as int, x);
        assert(in_year(at.secs as int, (x as i32) as int));
    }
}

/// A text is read as RFC 3339 has it, and only where that fails in the form with a bare `Z`. What is
/// read is kept to the nanosecond, and what cannot be read, or is not there, is no point in time.
pub proof fn lemma_instant_as_written(raw: Option<&str>, r: Option<Timestamp>)
    requires
        call_ensures(parse_watched_at, (raw,), r),
    ensures
        raw is None ==> r is None,
        raw matches Some(text) ==> (rfc3339_instant(text@) matches Some(at) ==> r matches Some(t)
            && t.secs == at.0 && t.nanos == at.1),
        raw matches Some(text) ==> (rfc3339_instant(text@) is None ==> match formatted_instant(
            text@,
            "%Y-%m-%dT%H:%M:%S%.fZ"@,
        ) {
            Some(at) => r matches Some(t) && t.secs == at.0 && t.nanos == at.1,
            None => r is None,
        }),
{
}

/// Points in time are in one order: by seconds, and within a second by nanoseconds.
pub proof fn lemma_order_of_instants(a: Timestamp, b: Timestamp, c: Timestamp)
    ensures
        a.not_after(b) <==> a.secs * 0x1_0000_0000 + a.nanos <= b.secs * 0x1_0000_0000 + b.nanos,
        a.not_after(b) || b.not_after(a),
        a.not_after(b) && b.not_after(a) ==> a == b,
        a.not_after(b) && b.not_after(c) ==> a.not_after(c),
{
}

} // verus!
