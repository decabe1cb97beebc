//! Points in time, as the feed parsers and the recency filter see them.
//!
//! Calendar arithmetic and the reading of timestamp text are `chrono`'s. This
//! module keeps an instant as two plain integers and states, over those, what
//! the rest of the library relies on.

use vstd::prelude::*;
use vstd::string::*;

verus! {

/// What an [`Instant`] stands for: non-leap seconds since 1970-01-01T00:00:00Z
/// and nanoseconds since the last whole second.
pub struct Moment {
    pub secs: int,
    pub nanos: int,
}

impl Moment {
    /// `self` is not later than `other`.
    pub open spec fn at_or_before(self, other: Moment) -> bool {
        self.secs < other.secs || (self.secs == other.secs && self.nanos <= other.nanos)
    }
}

/// What a [`ZonedInstant`] stands for: a moment, and the offset from UTC, in
/// seconds east, under which a text stated it.
pub struct ZonedMoment {
    pub at: Moment,
    pub offset: int,
}

/// Whether `chrono` has a UTC date-time with this UNIX timestamp and this
/// sub-second part, that is, whether `chrono::DateTime::from_timestamp`
/// returns one.
pub uninterp spec fn is_timestamp(secs: i64, nanos: u32) -> bool;

/// What `chrono::DateTime::parse_from_rfc3339` makes of a text: the instant it
/// denotes with the offset it states, or the parser's diagnostic message.
pub uninterp spec fn rfc3339_reading(text: Seq<char>) -> Result<ZonedMoment, Seq<char>>;

/// What `chrono::DateTime::parse_from_rfc2822` makes of a text: the instant it
/// denotes with the offset it states, or the parser's diagnostic message.
pub uninterp spec fn rfc2822_reading(text: Seq<char>) -> Result<ZonedMoment, Seq<char>>;

/// The number of whole days that `chrono` counts from `then` to `now`:
/// `(now - then).num_days()`, negative where `then` is the later one.
pub uninterp spec fn elapsed_days(now: Moment, then: Moment) -> i64;

/// The calendar day of an instant as `chrono` displays it: what the `date()`
/// of the UTC date-time shows, such as `2024-01-01UTC`.
pub uninterp spec fn utc_day(at: Moment) -> Seq<char>;

/// A point in time on the UTC scale.
#[derive(Clone, Copy, Debug, PartialEq, Eq)]
pub struct Instant {
    secs: i64,
    nanos: u32,
}

impl View for Instant {
    type V = Moment;

    closed spec fn view(&self) -> Moment {
        Moment { secs: self.secs as int, nanos: self.nanos as int }
    }
}

impl DeepView for Instant {
    type V = Moment;

    open spec fn deep_view(&self) -> Moment {
        self@
    }
}

/// A point in time together with the offset from UTC under which a text
/// stated it. The offset changes nothing about when the instant is.
#[derive(Clone, Copy, Debug, PartialEq, Eq)]
pub struct ZonedInstant {
    instant: Instant,
    offset: i32,
}

impl View for ZonedInstant {
    type V = ZonedMoment;

    closed spec fn view(&self) -> ZonedMoment {
        ZonedMoment { at: self.instant@, offset: self.offset as int }
    }
}

/// The failure of a date parser, with the parser's own diagnostic message.
#[derive(Debug, PartialEq, Eq)]
pub struct DateParseError {
    pub message: String,
}

impl View for DateParseError {
    type V = Seq<char>;

    open spec fn view(&self) -> Seq<char> {
        self.message@
    }
}

/// The outcome of a date parser, as a mathematical value.
pub open spec fn reading_view(res: Result<ZonedInstant, DateParseError>) -> Result<
    ZonedMoment,
    Seq<char>,
> {
    match res {
        Ok(t) => Ok(t@),
        Err(e) => Err(e@),
    }
}

impl Instant {
    /// Every instant has a timestamp that `chrono` knows.
    #[verifier::type_invariant]
    spec fn representable(self) -> bool {
        is_timestamp(self.secs, self.nanos)
    }

    /// The instant with the given timestamp, where there is one.
    pub fn from_timestamp(secs: i64, nanos: u32) -> (res: Option<Instant>)
        ensures
            res is Some <==> is_timestamp(secs, nanos),
            res matches Some(t) ==> t@ == (Moment { secs: secs as int, nanos: nanos as int }),
    {
        if timestamp_exists(secs, nanos) {
            Some(Instant { secs, nanos })
        } else {
            None
        }
    }

    /// Non-leap seconds since 1970-01-01T00:00:00Z.
    pub fn timestamp(&self) -> (secs: i64)
        ensures
            secs == self@.secs,
    {
        self.secs
    }

    /// Nanoseconds since the last whole second; a leap second shows as a
    /// value of a thousand million or more.
    pub fn subsec_nanos(&self) -> (nanos: u32)
        ensures
            nanos == self@.nanos,
    {
        self.nanos
    }

    /// Whether `self` is not later than `other`.
    pub fn at_or_before(&self, other: &Instant) -> (res: bool)
        ensures
            res == self@.at_or_before(other@),
    {
        self.secs < other.secs || (self.secs == other.secs && self.nanos <= other.nanos)
    }

    /// The calendar day of the instant, as a text.
    pub fn day(&self) -> (text: String)
        ensures
            text@ == utc_day(self@),
    {
        proof {
            use_type_invariant(self);
        }
        display_day(self)
    }

    /// The number of whole days from `then` to `self`.
    pub fn days_since(&self, then: &Instant) -> (days: i64)
        ensures
            days == elapsed_days(self@, then@),
    {
        proof {
            use_type_invariant(self);
            use_type_invariant(then);
        }
        days_between(self, then)
    }
}

impl ZonedInstant {
    /// Reads a timestamp in the internet date-time format of RFC 3339.
    pub fn parse_from_rfc3339(text: &str) -> (res: Result<ZonedInstant, DateParseError>)
        ensures
            reading_view(res) == rfc3339_reading(text@),
    {
        read_rfc3339(text)
    }

    /// Reads a timestamp in the date and time format of RFC 2822.
    pub fn parse_from_rfc2822(text: &str) -> (res: Result<ZonedInstant, DateParseError>)
        ensures
            reading_view(res) == rfc2822_reading(text@),
    {
        read_rfc2822(text)
    }

    /// The instant as stated under an offset of `offset` seconds east of UTC.
    pub fn new(instant: Instant, offset: i32) -> (res: ZonedInstant)
        ensures
            res@ == (ZonedMoment { at: instant@, offset: offset as int }),
    {
        ZonedInstant { instant, offset }
    }

    /// The instant on the UTC scale.
    pub fn to_utc(&self) -> (instant: Instant)
        ensures
            instant@ == self@.at,
    {
        self.instant
    }

    /// The offset from UTC, in seconds east.
    pub fn offset_seconds(&self) -> (offset: i32)
        ensures
            offset == self@.offset,
    {
        self.offset
    }
}

/// Calls `chrono::DateTime::from_timestamp` and tells whether it returned a
/// date-time, which goes by the two numbers alone.
#[verifier::external_body]
fn timestamp_exists(secs: i64, nanos: u32) -> (ok: bool)
    ensures
        ok == is_timestamp(secs, nanos),
{
    chrono::DateTime::from_timestamp(secs, nanos).is_some()
}

/// Calls `chrono::DateTime::parse_from_rfc3339`. On success the date-time is
/// handed back as its UTC timestamp and sub-second part, which by `chrono`'s
/// round-trip guarantee `from_timestamp` accepts, and the seconds of its
/// offset; on failure the error is handed back as the text that it displays.
#[verifier::external_body]
fn read_rfc3339(text: &str) -> (res: Result<ZonedInstant, DateParseError>)
    ensures
        reading_view(res) == rfc3339_reading(text@),
        res matches Ok(t) ==> is_timestamp(t.instant.secs, t.instant.nanos),
{
    match chrono::DateTime::parse_from_rfc3339(text) {
        Ok(parsed) => Ok(
            ZonedInstant {
                instant: Instant {
                    secs: parsed.timestamp(),
                    nanos: parsed.timestamp_subsec_nanos(),
                },
                offset: parsed.offset().local_minus_utc(),
            },
        ),
        Err(e) => Err(DateParseError { message: e.to_string() }),
    }
}

/// Calls `chrono::DateTime::parse_from_rfc2822`, and hands back what it
/// returns in the way of [`read_rfc3339`].
#[verifier::external_body]
fn read_rfc2822(text: &str) -> (res: Result<ZonedInstant, DateParseError>)
    ensures
        reading_view(res) == rfc2822_reading(text@),
        res matches Ok(t) ==> is_timestamp(t.instant.secs, t.instant.nanos),
{
    match chrono::DateTime::parse_from_rfc2822(text) {
        Ok(parsed) => Ok(
            ZonedInstant {
                instant: Instant {
                    secs: parsed.timestamp(),
                    nanos: parsed.timestamp_subsec_nanos(),
                },
                offset: parsed.offset().local_minus_utc(),
            },
        ),
        Err(e) => Err(DateParseError { message: e.to_string() }),
    }
}

/// Rebuilds the instant with `chrono::DateTime::from_timestamp`, which
/// succeeds on the timestamp of every instant, and returns what the
/// date-time's `date()` displays.
#[verifier::external_body]
fn display_day(at: &Instant) -> (text: String)
    requires
        is_timestamp(at.secs, at.nanos),
    ensures
        text@ == utc_day(at@),
{
    #[allow(deprecated)]
    let day = chrono::DateTime::from_timestamp(at.secs, at.nanos).unwrap().date();
    day.to_string()
}

/// Rebuilds both instants with `chrono::DateTime::from_timestamp`, which
/// succeeds on the timestamp of every instant, subtracts `then` from `now`
/// and returns the difference's `num_days()`.
#[verifier::external_body]
fn days_between(now: &Instant, then: &Instant) -> (days: i64)
    requires
        is_timestamp(now.secs, now.nanos),
        is_timestamp(then.secs, then.nanos),
    ensures
        days == elapsed_days(now@, then@),
{
    let now = chrono::DateTime::from_timestamp(now.secs, now.nanos).unwrap();
    let then = chrono::DateTime::from_timestamp(then.secs, then.nanos).unwrap();
    (now - then).num_days()
}

} // verus!
