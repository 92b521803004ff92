//! Identifiers: of users, addons and media here, and of titles elsewhere.

use vstd::arithmetic::power::pow;
use vstd::prelude::*;

verus! {

/// A text that is not empty.
#[derive(Debug, PartialEq, Eq)]
pub struct NonEmptyString {
    pub value: String,
}

impl Clone for NonEmptyString {
    fn clone(&self) -> (r: Self)
        ensures
            r == *self,
    {
        NonEmptyString { value: self.value.clone() }
    }
}

impl NonEmptyString {
    pub open spec fn well_formed(self) -> bool {
        self.value@.len() > 0
    }

    /// The text, unless it is empty.
    pub fn try_new(value: String) -> (r: Option<NonEmptyString>)
        ensures
            r == if value@.len() > 0 {
                Some(NonEmptyString { value })
            } else {
                None
            },
            r matches Some(s) ==> s.well_formed(),
    {
        if value.as_str().is_empty() {
            None
        } else {
            Some(NonEmptyString { value })
        }
    }
}

/// The ids by which other services know a title.
#[derive(Debug, PartialEq, Eq)]
pub struct ExternalIds {
    pub imdb: Option<NonEmptyString>,
    pub tmdb: Option<i64>,
    pub tvdb: Option<i64>,
}

impl Clone for ExternalIds {
    fn clone(&self) -> (r: Self)
        ensures
            r == *self,
    {
        ExternalIds {
            imdb: match &self.imdb {
                Some(s) => Some(s.clone()),
                None => None,
            },
            tmdb: self.tmdb,
            tvdb: self.tvdb,
        }
    }
}

impl Default for ExternalIds {
    fn default() -> (r: Self)
        ensures
            r == ExternalIds::none(),
    {
        ExternalIds { imdb: None, tmdb: None, tvdb: None }
    }
}

impl ExternalIds {
    /// No ids.
    pub open spec fn none() -> ExternalIds {
        ExternalIds { imdb: None, tmdb: None, tvdb: None }
    }

    /// Whether there is an id at all.
    pub open spec fn some_id(self) -> bool {
        self.imdb is Some || self.tmdb is Some || self.tvdb is Some
    }

    pub open spec fn well_formed(self) -> bool {
        self.imdb matches Some(s) ==> s.well_formed()
    }

    /// Whether there is an id at all.
    pub fn has_id(&self) -> (r: bool)
        ensures
            r == self.some_id(),
    {
        self.imdb.is_some() || self.tmdb.is_some() || self.tvdb.is_some()
    }
}

/// A hexadecimal digit, in lower case.
pub open spec fn hex_digit(n: int) -> char {
    if n < 10 {
        ('0' as int + n) as char
    } else {
        ('a' as int + n - 10) as char
    }
}

/// The hexadecimal digit of a 128-bit id at `k`, counted from the most significant one.
pub open spec fn nibble(id: u128, k: int) -> int {
    (id as int / pow(16, (31 - k) as nat)) % 16
}

/// The number of hyphens that precede the character at `i` in the text of a UUID.
pub open spec fn hyphens_before(i: int) -> int {
    if i <= 8 {
        0
    } else if i <= 13 {
        1
    } else if i <= 18 {
        2
    } else if i <= 23 {
        3
    } else {
        4
    }
}

/// The text of a UUID: 32 hexadecimal digits in groups of 8, 4, 4, 4 and 12, with hyphens
/// between the groups.
pub open spec fn hyphenated(id: u128) -> Seq<char> {
    Seq::new(
        36,
        |i: int|
            if i == 8 || i == 13 || i == 18 || i == 23 {
                '-'
            } else {
                hex_digit(nibble(id, i - hyphens_before(i)))
            },
    )
}

/// Calls `uuid::Uuid::from_u128` and turns what it returns into text: the hyphenated form, in
/// lower case.
#[verifier::external_body]
pub(crate) fn uuid_text(id: u128) -> (r: String)
    ensures
        r@ == hyphenated(id),
{
    uuid::Uuid::from_u128(id).to_string()
}

} // verus!
