//! Instants, calendar dates and time zones as plain values.
//!
//! * An instant is a [`Timestamp`]: whole seconds since 1970-01-01T00:00:00Z.
//! * A calendar date is a [`Date`]: whole days since 1970-01-01.
//! * A time zone is a [`TimeZoneName`]: a validated IANA name.
//!
//! The Gregorian calendar and the time-zone database come from `chrono` and
//! `chrono-tz` through the wrappers below; the arithmetic on top is verified.
use vstd::prelude::*;

use chrono::{Datelike, Offset, TimeZone};

verus! {

/// Seconds since the Unix epoch (UTC).
pub type Timestamp = i64;

pub const SECONDS_PER_DAY: i64 = 86_400;
pub const MINUTES_PER_DAY: i64 = 1_440;

/// Day number of chrono's earliest date, -262143-01-01.
pub const DATE_DAYS_MIN: i64 = -96_465_292;
/// Day number of chrono's latest date, +262142-12-31.
pub const DATE_DAYS_MAX: i64 = 95_026_236;

/// Instants handled here lie within this many seconds of the epoch, well
/// inside chrono's range.
pub const TIMESTAMP_LIMIT: i64 = 8_000_000_000_000;

/// A calendar date: days since 1970-01-01 (which was a Thursday).
#[derive(Debug, Clone, Copy, PartialEq, Eq, Structural)]
pub struct Date {
    pub days: i64,
}

pub open spec fn is_leap(y: int) -> bool {
    (y % 4 == 0 && y % 100 != 0) || y % 400 == 0
}

pub open spec fn days_in_month(y: int, m: int) -> int {
    if m == 2 {
        if is_leap(y) { 29 } else { 28 }
    } else if m == 4 || m == 6 || m == 9 || m == 11 {
        30
    } else {
        31
    }
}

/// A (year, month, day) triple that names a date chrono can represent.
pub open spec fn valid_ymd(y: int, m: int, d: int) -> bool {
    &&& -262143 <= y <= 262142
    &&& 1 <= m <= 12
    &&& 1 <= d <= days_in_month(y, m)
}

/// Days since 1970-01-01 of the date (y, m, d) in the proleptic Gregorian
/// calendar, as chrono counts them (civil-to-days arithmetic over 400-year
/// eras; spec `/` is floor division for a positive divisor).
pub open spec fn ymd_to_days(y: int, m: int, d: int) -> int {
    let yy = if m <= 2 { y - 1 } else { y };
    let era = yy / 400;
    let yoe = yy - era * 400;
    let mp = if m > 2 { m - 3 } else { m + 9 };
    let doy = (153 * mp + 2) / 5 + d - 1;
    let doe = yoe * 365 + yoe / 4 - yoe / 100 + doy;
    era * 146097 + doe - 719468
}

/// The proleptic Gregorian (year, month, day) of a day number counted from
/// 1970-01-01, as chrono counts them (the inverse of `ymd_to_days`).
pub open spec fn days_to_ymd(days: int) -> (int, int, int) {
    let z = days + 719468;
    let era = z / 146097;
    let doe = z - era * 146097;
    let yoe = (doe - doe / 1460 + doe / 36524 - doe / 146096) / 365;
    let doy = doe - (365 * yoe + yoe / 4 - yoe / 100);
    let mp = (5 * doy + 2) / 153;
    let d = doy - (153 * mp + 2) / 5 + 1;
    let m = if mp < 10 { mp + 3 } else { mp - 9 };
    (if m <= 2 { yoe + era * 400 + 1 } else { yoe + era * 400 }, m, d)
}

/// chrono's `format` of a date with the given pattern.
pub uninterp spec fn formatted_date(days: int, pattern: Seq<char>) -> Seq<char>;

/// chrono's `format` of a UTC instant with the given pattern.
pub uninterp spec fn formatted_instant(utc: int, pattern: Seq<char>) -> Seq<char>;

/// chrono's `NaiveDate::parse_from_str(text, pattern)`, as a day number.
pub uninterp spec fn parsed_date(text: Seq<char>, pattern: Seq<char>) -> Option<int>;

/// chrono's `DateTime::parse_from_rfc3339(text)`, as a UTC instant.
pub uninterp spec fn parsed_rfc3339(text: Seq<char>) -> Option<int>;

/// Whether chrono-tz knows the IANA zone `name`.
pub uninterp spec fn tz_known(name: Seq<char>) -> bool;

/// UTC offset in seconds of zone `name` at instant `utc`.
pub uninterp spec fn tz_offset(name: Seq<char>, utc: int) -> int;

/// The unique UTC instant of local wall-clock time `local` (seconds since
/// the local epoch) in zone `name`, or `None` when that wall-clock time is
/// skipped or repeated by a transition.
pub uninterp spec fn tz_local_unique(name: Seq<char>, local: int) -> Option<int>;

/// The date patterns this crate renders: day, month and four-digit year,
/// which chrono renders for every date.
pub open spec fn date_pattern_supported(pattern: Seq<char>) -> bool {
    pattern == "%d.%m.%Y"@ || pattern == "%Y-%m-%d"@
}

/// The instant pattern this crate renders: the date with hour and minute,
/// which chrono renders for every UTC instant.
pub open spec fn instant_pattern_supported(pattern: Seq<char>) -> bool {
    pattern == "%d.%m.%Y %H:%M"@
}

impl Date {
    pub open spec fn wf(self) -> bool {
        DATE_DAYS_MIN <= self.days <= DATE_DAYS_MAX
    }

    /// Day of the week, Monday = 0 … Sunday = 6.
    pub open spec fn spec_weekday(self) -> int {
        (self.days + 3) % 7
    }

    pub fn weekday(&self) -> (r: u32)
        requires
            self.wf(),
        ensures
            r == self.spec_weekday(),
            r < 7,
    {
        let shifted = (self.days + 105_000_003) as u64;
        let w = shifted % 7;
        assert(w == (self.days + 3) % 7) by (nonlinear_arith)
            requires
                shifted == self.days + 105_000_003,
                w == shifted % 7,
        {
        }
        w as u32
    }

    /// `self` moved by `n` days.
    pub fn add_days(&self, n: i64) -> (r: Date)
        requires
            self.wf(),
            DATE_DAYS_MIN <= self.days + n <= DATE_DAYS_MAX,
        ensures
            r.days == self.days + n,
            r.wf(),
    {
        Date { days: self.days + n }
    }

    /// Wraps `NaiveDate::from_ymd_opt`: `Some` exactly for valid dates, the
    /// day number being the name `ymd_to_days`.
    #[verifier::external_body]
    pub(crate) fn from_ymd(year: i32, month: u32, day: u32) -> (r: Option<Date>)
        ensures
            r.is_some() <==> valid_ymd(year as int, month as int, day as int),
            r matches Some(d) ==> d.days == ymd_to_days(year as int, month as int, day as int)
                && d.wf(),
    {
        let epoch = chrono::NaiveDate::from_ymd_opt(1970, 1, 1).unwrap();
        chrono::NaiveDate::from_ymd_opt(year, month, day).map(
            |date| Date { days: date.signed_duration_since(epoch).num_days() },
        )
    }

    /// Wraps chrono's `year()`, `month()` and `day()` of the date.
    #[verifier::external_body]
    pub(crate) fn ymd(&self) -> (r: (i32, u32, u32))
        requires
            self.wf(),
        ensures
            (r.0 as int, r.1 as int, r.2 as int) == days_to_ymd(self.days as int),
    {
        let date = chrono::NaiveDate::from_ymd_opt(1970, 1, 1).unwrap()
            + chrono::Duration::days(self.days);
        (date.year(), date.month(), date.day())
    }

    /// Wraps `NaiveDate::format(pattern)`; the text is named `formatted_date`.
    /// The pattern is one whose items chrono can render for a date: with
    /// another, rendering fails and `to_string` panics.
    #[verifier::external_body]
    pub(crate) fn format(&self, pattern: &str) -> (r: String)
        requires
            self.wf(),
            date_pattern_supported(pattern@),
        ensures
            r@ == formatted_date(self.days as int, pattern@),
    {
        let date = chrono::NaiveDate::from_ymd_opt(1970, 1, 1).unwrap()
            + chrono::Duration::days(self.days);
        date.format(pattern).to_string()
    }

    /// Wraps `NaiveDate::parse_from_str(text, pattern)`; the day number is
    /// named `parsed_date`.
    #[verifier::external_body]
    pub(crate) fn parse(text: &str, pattern: &str) -> (r: Option<Date>)
        ensures
            r matches Some(d) ==> parsed_date(text@, pattern@) == Some(d.days as int) && d.wf(),
            r is None ==> parsed_date(text@, pattern@) is None,
    {
        let epoch = chrono::NaiveDate::from_ymd_opt(1970, 1, 1).unwrap();
        chrono::NaiveDate::parse_from_str(text, pattern).ok().map(
            |date| Date { days: date.signed_duration_since(epoch).num_days() },
        )
    }
}

/// Wraps `DateTime::format(pattern)` on the UTC instant `utc`; the text is
/// named `formatted_instant`.  The pattern is one whose items chrono can
/// render for an instant: with another, rendering fails and `to_string`
/// panics.
#[verifier::external_body]
pub(crate) fn format_instant(utc: Timestamp, pattern: &str) -> (r: String)
    requires
        -TIMESTAMP_LIMIT <= utc <= TIMESTAMP_LIMIT,
        instant_pattern_supported(pattern@),
    ensures
        r@ == formatted_instant(utc as int, pattern@),
{
    chrono::DateTime::from_timestamp(utc, 0).unwrap().format(pattern).to_string()
}

/// Wraps `DateTime::parse_from_rfc3339`, converted to UTC seconds; the
/// instant is named `parsed_rfc3339`.
#[verifier::external_body]
pub(crate) fn parse_rfc3339(text: &str) -> (r: Option<Timestamp>)
    ensures
        r matches Some(t) ==> parsed_rfc3339(text@) == Some(t as int),
        r is None ==> parsed_rfc3339(text@) is None,
{
    chrono::DateTime::parse_from_rfc3339(text).ok().map(|instant| instant.timestamp())
}

/// A time-zone name that chrono-tz knows.
#[derive(Debug)]
pub struct TimeZoneName {
    name: String,
}

/// Wraps `str::parse::<chrono_tz::Tz>()`: whether the zone is known.
#[verifier::external_body]
fn tz_is_known(name: &str) -> (r: bool)
    ensures
        r == tz_known(name@),
{
    name.parse::<chrono_tz::Tz>().is_ok()
}

/// Wraps `Tz::offset_from_utc_datetime`: the zone's UTC offset in seconds at
/// `utc`, named `tz_offset`.  chrono bounds every offset within a day.
#[verifier::external_body]
fn tz_offset_seconds(name: &str, utc: i64) -> (r: i64)
    requires
        tz_known(name@),
        -TIMESTAMP_LIMIT <= utc <= TIMESTAMP_LIMIT,
    ensures
        r == tz_offset(name@, utc as int),
        -SECONDS_PER_DAY < r < SECONDS_PER_DAY,
{
    let tz = name.parse::<chrono_tz::Tz>().unwrap();
    let instant = chrono::DateTime::from_timestamp(utc, 0).unwrap().naive_utc();
    tz.offset_from_utc_datetime(&instant).fix().local_minus_utc() as i64
}

/// Wraps `Tz::from_local_datetime(..).single()`: the unique UTC instant of the
/// local wall-clock time, named `tz_local_unique`.  That instant shows
/// `local` on the zone's clock: its UTC offset (`tz_offset`) added to it
/// gives `local` back.
#[verifier::external_body]
fn tz_local_to_utc(name: &str, local: i64) -> (r: Option<i64>)
    requires
        tz_known(name@),
        -TIMESTAMP_LIMIT <= local <= TIMESTAMP_LIMIT,
    ensures
        r matches Some(u) ==> tz_local_unique(name@, local as int) == Some(u as int)
            && local - SECONDS_PER_DAY < u < local + SECONDS_PER_DAY
            && u + tz_offset(name@, u as int) == local,
        r is None ==> tz_local_unique(name@, local as int) is None,
{
    let tz = name.parse::<chrono_tz::Tz>().unwrap();
    let naive = chrono::DateTime::from_timestamp(local, 0).unwrap().naive_utc();
    tz.from_local_datetime(&naive).single().map(|instant| instant.timestamp())
}

impl TimeZoneName {
    pub closed spec fn view(&self) -> Seq<char> {
        self.name@
    }

    pub open spec fn wf(&self) -> bool {
        tz_known(self.view())
    }

    /// The zone named `name`, when chrono-tz knows it.
    pub fn parse(name: &str) -> (r: Option<TimeZoneName>)
        ensures
            r is Some <==> tz_known(name@),
            r matches Some(z) ==> z.wf() && z.view() == name@,
    {
        if tz_is_known(name) {
            Some(TimeZoneName { name: String::from_str(name) })
        } else {
            None
        }
    }

    pub fn as_str(&self) -> (r: &str)
        ensures
            r@ == self.view(),
    {
        self.name.as_str()
    }

    pub fn duplicate(&self) -> (r: TimeZoneName)
        ensures
            r.view() == self.view(),
            r.wf() == self.wf(),
    {
        TimeZoneName { name: self.name.clone() }
    }

    /// Local wall-clock seconds (since the local epoch) of instant `utc`.
    pub open spec fn spec_local(&self, utc: int) -> int {
        utc + tz_offset(self.view(), utc)
    }

    pub fn local_seconds(&self, utc: Timestamp) -> (r: i64)
        requires
            self.wf(),
            -TIMESTAMP_LIMIT <= utc <= TIMESTAMP_LIMIT,
        ensures
            r == self.spec_local(utc as int),
            utc - SECONDS_PER_DAY < r < utc + SECONDS_PER_DAY,
    {
        let offset = tz_offset_seconds(self.name.as_str(), utc);
        utc + offset
    }

    /// The instant of local wall-clock time `local`: the unique instant when
    /// there is one, otherwise `local` read as UTC.
    pub open spec fn spec_from_local(&self, local: int) -> int {
        match tz_local_unique(self.view(), local) {
            Some(u) => u,
            None => local,
        }
    }

    pub fn from_local(&self, local: i64) -> (r: Timestamp)
        requires
            self.wf(),
            -TIMESTAMP_LIMIT <= local <= TIMESTAMP_LIMIT,
        ensures
            r == self.spec_from_local(local as int),
            local - SECONDS_PER_DAY < r < local + SECONDS_PER_DAY,
            tz_local_unique(self.view(), local as int) is Some ==> self.spec_local(r as int) == local,
    {
        match tz_local_to_utc(self.name.as_str(), local) {
            Some(u) => u,
            None => local,
        }
    }
}

/// The calendar day of a (local) seconds count.
pub open spec fn day_of(seconds: int) -> int {
    seconds / SECONDS_PER_DAY as int
}

/// Minute of the day of a (local) seconds count.
pub open spec fn minute_of_day(seconds: int) -> int {
    (seconds % SECONDS_PER_DAY as int) / 60
}

pub fn day_of_seconds(seconds: i64) -> (r: Date)
    requires
        -TIMESTAMP_LIMIT - SECONDS_PER_DAY <= seconds <= TIMESTAMP_LIMIT + SECONDS_PER_DAY,
    ensures
        r.days == day_of(seconds as int),
        r.wf(),
{
    let shifted = (seconds + 8_640_000_000_000) as u64;
    let q = shifted / 86400;
    let d = q as i64 - 100_000_000;
    assert(d == (seconds as int) / 86400) by (nonlinear_arith)
        requires
            shifted == seconds + 8_640_000_000_000,
            q == shifted / 86400,
            d == q - 100_000_000,
    {
    }
    assert(DATE_DAYS_MIN <= d <= DATE_DAYS_MAX) by (nonlinear_arith)
        requires
            d == (seconds as int) / 86400,
            -8000000086400 <= seconds <= 8000000086400,
    {
    }
    Date { days: d }
}

pub fn minute_of_day_of(seconds: i64) -> (r: i64)
    requires
        -TIMESTAMP_LIMIT - SECONDS_PER_DAY <= seconds <= TIMESTAMP_LIMIT + SECONDS_PER_DAY,
    ensures
        r == minute_of_day(seconds as int),
        0 <= r < MINUTES_PER_DAY,
{
    let shifted = (seconds + 8_640_000_000_000) as u64;
    let rem = shifted % 86400;
    assert(rem == (seconds as int) % 86400) by (nonlinear_arith)
        requires
            shifted == seconds + 8_640_000_000_000,
            rem == shifted % 86400,
    {
    }
    (rem / 60) as i64
}

} // verus!
