//! Instants in UTC.

use crate::wire::{as_text, error_of, owned_text, Decode, DecodeError, Encode, Json, Value};
use vstd::prelude::*;

verus! {

/// The first second that an instant can lie in: the start of 1 January of
/// the year -262143.
pub const MIN_SECONDS: i64 = -8_334_601_228_800;

/// The last second that an instant can lie in: the end of 31 December of the
/// year 262142.
pub const MAX_SECONDS: i64 = 8_210_266_876_799;

/// Whether `seconds` since the start of 1970 and `nanos` into that second
/// name an instant. A leap second is written as a `nanos` of a thousand
/// million or more, in the last second of a minute.
pub open spec fn valid_instant(seconds: int, nanos: int) -> bool {
    &&& MIN_SECONDS <= seconds <= MAX_SECONDS
    &&& 0 <= nanos < 2_000_000_000
    &&& nanos >= 1_000_000_000 ==> seconds % 60 == 59
}

/// The instant that chrono reads from a text, as seconds and nanoseconds, or
/// `None` where it reads none.
pub uninterp spec fn instant_of_text(s: Seq<char>) -> Option<(i64, u32)>;

/// The text that chrono writes for an instant.
pub uninterp spec fn text_of_instant(seconds: int, nanos: int) -> Seq<char>;

/// What chrono gives as the time from the second instant to the first:
/// whole seconds, and the nanoseconds beyond them.
pub uninterp spec fn span_between(
    seconds: int,
    nanos: int,
    earlier_seconds: int,
    earlier_nanos: int,
) -> (i64, i32);

/// `str::parse` to `chrono::DateTime<Utc>`, which reads a date and time in
/// the relaxed RFC 3339 form and converts it to UTC. The contract names the
/// result: the seconds and nanoseconds of what was read.
#[verifier::external_body]
fn parse_instant(s: &str) -> (r: Option<(i64, u32)>)
    ensures
        r == instant_of_text(s@),
{
    match s.parse::<chrono::DateTime<chrono::Utc>>() {
        Ok(d) => Some((d.timestamp(), d.timestamp_subsec_nanos())),
        Err(_) => None,
    }
}

/// `chrono::DateTime::to_rfc3339_opts` with automatic precision and `Z` for
/// the offset, on the instant that `chrono::DateTime::from_timestamp` makes.
/// The contract names the result.
#[verifier::external_body]
fn format_instant(seconds: i64, nanos: u32) -> (r: String)
    requires
        valid_instant(seconds as int, nanos as int),
    ensures
        r@ == text_of_instant(seconds as int, nanos as int),
{
    chrono::DateTime::from_timestamp(seconds, nanos).unwrap().to_rfc3339_opts(
        chrono::SecondsFormat::AutoSi,
        true,
    )
}

/// `chrono::Utc::now`, which makes its result with
/// `chrono::DateTime::from_timestamp`. The contract claims only that the
/// clock's reading is an instant that this function accepts. chrono panics
/// where the clock of the machine stands before 1970.
#[verifier::external_body]
fn current_instant() -> (r: (i64, u32))
    ensures
        valid_instant(r.0 as int, r.1 as int),
{
    let d = chrono::Utc::now();
    (d.timestamp(), d.timestamp_subsec_nanos())
}

/// The subtraction of one `chrono::DateTime` from another, on the instants
/// that `chrono::DateTime::from_timestamp` makes. The contract names the
/// result.
#[verifier::external_body]
fn subtract_instants(seconds: i64, nanos: u32, earlier_seconds: i64, earlier_nanos: u32) -> (r: (
    i64,
    i32,
))
    requires
        valid_instant(seconds as int, nanos as int),
        valid_instant(earlier_seconds as int, earlier_nanos as int),
    ensures
        r == span_between(
            seconds as int,
            nanos as int,
            earlier_seconds as int,
            earlier_nanos as int,
        ),
{
    let a = chrono::DateTime::from_timestamp(seconds, nanos).unwrap();
    let b = chrono::DateTime::from_timestamp(earlier_seconds, earlier_nanos).unwrap();
    let d = a - b;
    (d.num_seconds(), d.subsec_nanos())
}

/// An instant in UTC: whole seconds since the start of 1970, and the
/// nanoseconds into that second.
#[derive(Clone, Copy, Debug, PartialEq, Eq, Hash, PartialOrd, Ord)]
pub struct DateTime {
    seconds: i64,
    nanos: u32,
}

/// The time between two instants: whole seconds, and the nanoseconds beyond
/// them, which have the sign of the whole.
#[derive(Clone, Copy, Debug, PartialEq, Eq)]
pub struct Elapsed {
    pub seconds: i64,
    pub nanos: i32,
}

impl DateTime {
    #[verifier::type_invariant]
    spec fn well_formed(self) -> bool {
        valid_instant(self.seconds as int, self.nanos as int)
    }

    /// The whole seconds since the start of 1970.
    pub closed spec fn spec_seconds(self) -> int {
        self.seconds as int
    }

    /// The nanoseconds into the second.
    pub closed spec fn spec_nanos(self) -> int {
        self.nanos as int
    }

    /// The instant `nanos` nanoseconds into the second `seconds`, if there
    /// is one.
    pub fn from_timestamp(seconds: i64, nanos: u32) -> (r: Option<DateTime>)
        ensures
            match r {
                Some(d) => valid_instant(seconds as int, nanos as int) && d.spec_seconds()
                    == seconds && d.spec_nanos() == nanos,
                None => !valid_instant(seconds as int, nanos as int),
            },
    {
        if seconds < MIN_SECONDS || seconds > MAX_SECONDS || nanos >= 2_000_000_000 {
            return None;
        }
        // MIN_SECONDS is a whole number of minutes.
        let minutes_in: u64 = (seconds - MIN_SECONDS) as u64;
        if nanos >= 1_000_000_000 && minutes_in % 60 != 59 {
            return None;
        }
        Some(DateTime { seconds, nanos })
    }

    /// The instant `millis` milliseconds after the start of 1970.
    pub fn from_millis(millis: u64) -> (r: DateTime)
        requires
            millis / 1000 <= MAX_SECONDS,
        ensures
            r.spec_seconds() == millis / 1000,
            r.spec_nanos() == (millis % 1000) * 1_000_000,
    {
        let seconds: i64 = (millis / 1000) as i64;
        let nanos: u32 = ((millis % 1000) * 1_000_000) as u32;
        DateTime { seconds, nanos }
    }

    /// The whole seconds since the start of 1970.
    pub fn seconds(&self) -> (r: i64)
        ensures
            r == self.spec_seconds(),
            valid_instant(self.spec_seconds(), self.spec_nanos()),
    {
        proof {
            use_type_invariant(self);
        }
        self.seconds
    }

    /// The nanoseconds into the second.
    pub fn nanos(&self) -> (r: u32)
        ensures
            r == self.spec_nanos(),
    {
        self.nanos
    }

    /// The clock's reading. The clock of the machine must not stand before
    /// 1970.
    pub fn now() -> (r: DateTime)
        ensures
            valid_instant(r.spec_seconds(), r.spec_nanos()),
    {
        let (seconds, nanos) = current_instant();
        DateTime { seconds, nanos }
    }

    /// The time from `earlier` to `self`.
    pub fn since(&self, earlier: &DateTime) -> (r: Elapsed)
        ensures
            (r.seconds, r.nanos) == span_between(
                self.spec_seconds(),
                self.spec_nanos(),
                earlier.spec_seconds(),
                earlier.spec_nanos(),
            ),
    {
        proof {
            use_type_invariant(self);
            use_type_invariant(earlier);
        }
        let (seconds, nanos) = subtract_instants(
            self.seconds,
            self.nanos,
            earlier.seconds,
            earlier.nanos,
        );
        Elapsed { seconds, nanos }
    }

    /// The time from `self` to the clock's reading. The clock of the machine
    /// must not stand before 1970.
    pub fn time_passed(self) -> (r: Elapsed)
        ensures
            exists|seconds: int, nanos: int|
                valid_instant(seconds, nanos) && (r.seconds, r.nanos) == #[trigger] span_between(
                    seconds,
                    nanos,
                    self.spec_seconds(),
                    self.spec_nanos(),
                ),
    {
        let now = DateTime::now();
        now.since(&self)
    }

    /// Whether `self` is the same instant as `other`.
    pub fn same(&self, other: &DateTime) -> (r: bool)
        ensures
            r == (self.spec_seconds() == other.spec_seconds() && self.spec_nanos()
                == other.spec_nanos()),
    {
        self.seconds == other.seconds && self.nanos == other.nanos
    }

    /// Whether `self` comes before `other`.
    pub fn before(&self, other: &DateTime) -> (r: bool)
        ensures
            r == (self.spec_seconds() < other.spec_seconds() || (self.spec_seconds()
                == other.spec_seconds() && self.spec_nanos() < other.spec_nanos())),
    {
        self.seconds < other.seconds || (self.seconds == other.seconds && self.nanos
            < other.nanos)
    }

    /// What reading `j` as an instant gives: the instant that a text token
    /// stands for, and `InvalidValue` for a text that stands for none and for
    /// every other token.
    pub open spec fn decoded(j: Json) -> Result<(i64, u32), DecodeError> {
        match j {
            Json::Text(s) => match instant_of_text(s) {
                Some(p) => if valid_instant(p.0 as int, p.1 as int) {
                    Ok(p)
                } else {
                    Err(DecodeError::InvalidValue)
                },
                None => Err(DecodeError::InvalidValue),
            },
            _ => Err(DecodeError::InvalidValue),
        }
    }

    /// The text of `self`.
    pub fn to_text(&self) -> (r: String)
        ensures
            r@ == text_of_instant(self.spec_seconds(), self.spec_nanos()),
    {
        proof {
            use_type_invariant(self);
        }
        format_instant(self.seconds, self.nanos)
    }
}

impl Decode for DateTime {
    open spec fn decodes(j: Json, x: Self) -> bool {
        DateTime::decoded(j) == Ok::<(i64, u32), DecodeError>(
            (x.spec_seconds() as i64, x.spec_nanos() as u32),
        )
    }

    open spec fn rejection(j: Json) -> Option<DecodeError> {
        error_of(DateTime::decoded(j))
    }

    fn decode(v: &Value) -> (r: Result<Self, DecodeError>)
        ensures
            match r {
                Ok(x) => DateTime::decoded(v@) == Ok::<(i64, u32), DecodeError>(
                    (x.spec_seconds() as i64, x.spec_nanos() as u32),
                ),
                Err(e) => DateTime::decoded(v@) == Err::<(i64, u32), DecodeError>(e),
            },
    {
        match as_text(v) {
            Some(s) => match parse_instant(s.as_str()) {
                Some((seconds, nanos)) => match DateTime::from_timestamp(seconds, nanos) {
                    Some(d) => Ok(d),
                    None => Err(DecodeError::InvalidValue),
                },
                None => Err(DecodeError::InvalidValue),
            },
            None => Err(DecodeError::InvalidValue),
        }
    }
}

impl Encode for DateTime {
    open spec fn wire(&self) -> Json {
        Json::Text(text_of_instant(self.spec_seconds(), self.spec_nanos()))
    }

    fn encode(&self) -> (r: Value) {
        owned_text(self.to_text())
    }
}

} // verus!
