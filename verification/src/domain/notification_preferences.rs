//! Per-user notification preferences: quiet hours in the user's own time
//! zone.  A window with start == end means quiet hours are disabled; a
//! window with start > end wraps past midnight (e.g. 22:00 → 08:00).
use vstd::prelude::*;

use crate::domain::errors::{ctx_one, ctx_two, AppError, AppResult, ContextValue, ErrorKind};
use crate::time::{
    day_of, day_of_seconds, minute_of_day, minute_of_day_of, TimeZoneName, Timestamp,
    MINUTES_PER_DAY, SECONDS_PER_DAY, TIMESTAMP_LIMIT,
};

verus! {

pub open spec fn in_minute_range(value: i32) -> bool {
    0 <= value < MINUTES_PER_DAY
}

/// `minute` lies in the quiet window [start, end) of the local clock; a
/// window with start >= end wraps past midnight.
pub open spec fn inside_window(minute: int, start: int, end: int) -> bool {
    if start < end {
        start <= minute < end
    } else {
        minute >= start || minute < end
    }
}

fn in_minute_range_exec(value: i32) -> (r: bool)
    ensures
        r == in_minute_range(value),
{
    0 <= value && (value as i64) < MINUTES_PER_DAY
}

fn inside_window_exec(minute: i64, start: i32, end: i32) -> (r: bool)
    ensures
        r == inside_window(minute as int, start as int, end as int),
{
    if start < end {
        start as i64 <= minute && minute < end as i64
    } else {
        minute >= start as i64 || minute < end as i64
    }
}

#[derive(Debug)]
pub struct NotificationPreferences {
    timezone: TimeZoneName,
    quiet_start_min: i32,
    quiet_end_min: i32,
}

impl NotificationPreferences {
    pub open spec fn spec_valid(timezone: Seq<char>, start: i32, end: i32) -> bool {
        crate::time::tz_known(timezone) && in_minute_range(start) && in_minute_range(end)
    }

    pub closed spec fn wf(&self) -> bool {
        self.timezone.wf() && in_minute_range(self.quiet_start_min) && in_minute_range(self.quiet_end_min)
    }

    pub closed spec fn spec_timezone(&self) -> Seq<char> {
        self.timezone.view()
    }

    pub closed spec fn spec_quiet_start_min(&self) -> i32 {
        self.quiet_start_min
    }

    pub closed spec fn spec_quiet_end_min(&self) -> i32 {
        self.quiet_end_min
    }

    /// Validated preferences.  An unknown zone fails with
    /// `NOTIFICATION_PREFERENCES_UNKNOWN_TZ`; minutes outside [0, 1440) fail
    /// with `NOTIFICATION_PREFERENCES_MINUTE_OUT_OF_RANGE`.
    pub fn new(timezone_code: &str, quiet_start_min: i32, quiet_end_min: i32) -> (r: AppResult<Self>)
        ensures
            r is Ok <==> Self::spec_valid(timezone_code@, quiet_start_min, quiet_end_min),
            r matches Ok(p) ==> p.wf() && p.spec_timezone() == timezone_code@
                && p.spec_quiet_start_min() == quiet_start_min
                && p.spec_quiet_end_min() == quiet_end_min,
            r matches Err(e) ==> e.kind() == ErrorKind::Validation && e.code_view() == (
                if !crate::time::tz_known(timezone_code@) {
                    "NOTIFICATION_PREFERENCES_UNKNOWN_TZ"@
                } else {
                    "NOTIFICATION_PREFERENCES_MINUTE_OUT_OF_RANGE"@
                }),
            r matches Err(e) ==> e.message_view() == (
                if !crate::time::tz_known(timezone_code@) {
                    "unknown timezone"@
                } else {
                    "quiet hours must lie in [0, 1440)"@
                }),
    {
        let timezone = match TimeZoneName::parse(timezone_code) {
            Some(tz) => tz,
            None => {
                return Err(AppError::schema_validation(
                    "NOTIFICATION_PREFERENCES_UNKNOWN_TZ",
                    String::from_str("unknown timezone"),
                    ctx_one("timezone", ContextValue::Text(String::from_str(timezone_code))),
                ));
            },
        };
        if !in_minute_range_exec(quiet_start_min) || !in_minute_range_exec(quiet_end_min) {
            return Err(AppError::schema_validation(
                "NOTIFICATION_PREFERENCES_MINUTE_OUT_OF_RANGE",
                String::from_str("quiet hours must lie in [0, 1440)"),
                ctx_two(
                    "quiet_start_min",
                    ContextValue::Int(quiet_start_min as i64),
                    "quiet_end_min",
                    ContextValue::Int(quiet_end_min as i64),
                ),
            ));
        }
        Ok(NotificationPreferences { timezone, quiet_start_min, quiet_end_min })
    }

    pub fn timezone(&self) -> (r: &TimeZoneName)
        ensures
            r.view() == self.spec_timezone(),
            self.wf() ==> r.wf(),
    {
        &self.timezone
    }

    pub fn quiet_start_min(&self) -> (r: i32)
        ensures
            r == self.spec_quiet_start_min(),
    {
        self.quiet_start_min
    }

    pub fn quiet_end_min(&self) -> (r: i32)
        ensures
            r == self.spec_quiet_end_min(),
    {
        self.quiet_end_min
    }

    pub open spec fn spec_disabled(&self) -> bool {
        self.spec_quiet_start_min() == self.spec_quiet_end_min()
    }

    pub fn quiet_hours_disabled(&self) -> (r: bool)
        ensures
            r == self.spec_disabled(),
    {
        self.quiet_start_min == self.quiet_end_min
    }

    /// Local wall-clock seconds of `now` in the user's zone.
    pub open spec fn spec_local(&self, now: int) -> int {
        now + crate::time::tz_offset(self.spec_timezone(), now)
    }

    pub open spec fn spec_in_quiet_hours(&self, now: int) -> bool {
        !self.spec_disabled() && inside_window(
            minute_of_day(self.spec_local(now)),
            self.spec_quiet_start_min() as int,
            self.spec_quiet_end_min() as int,
        )
    }

    /// `true` iff `now`, on the user's local clock, falls inside the quiet
    /// window.
    pub fn is_in_quiet_hours(&self, now: Timestamp) -> (r: bool)
        requires
            self.wf(),
            -TIMESTAMP_LIMIT <= now <= TIMESTAMP_LIMIT,
        ensures
            r == self.spec_in_quiet_hours(now as int),
    {
        if self.quiet_hours_disabled() {
            return false;
        }
        let local = self.timezone.local_seconds(now);
        let minute = minute_of_day_of(local);
        inside_window_exec(minute, self.quiet_start_min, self.quiet_end_min)
    }

    /// The local day on which delivery resumes when `now` is quiet: the next
    /// day when the window wraps and `now` is before midnight.
    pub open spec fn spec_resume_day(&self, now: int) -> int {
        let local = self.spec_local(now);
        let start = self.spec_quiet_start_min() as int;
        let end = self.spec_quiet_end_min() as int;
        if start >= end && minute_of_day(local) >= start { day_of(local) + 1 } else { day_of(local) }
    }

    /// The local wall-clock time at which a quiet window that holds `now`
    /// ends.
    pub open spec fn spec_resume_local(&self, now: int) -> int {
        self.spec_resume_day(now) * SECONDS_PER_DAY + self.spec_quiet_end_min() as int * 60
    }

    /// The earliest deliverable instant at or after `now`: `now` itself when
    /// it is outside quiet hours, otherwise the end of the quiet window on the
    /// user's local clock.
    pub open spec fn spec_next_deliverable_at(&self, now: int) -> int {
        if !self.spec_in_quiet_hours(now) {
            now
        } else {
            self.timezone_view_from_local(self.spec_resume_local(now))
        }
    }

    pub closed spec fn timezone_view_from_local(&self, local: int) -> int {
        self.timezone.spec_from_local(local)
    }

    pub fn next_deliverable_at(&self, now: Timestamp) -> (r: Timestamp)
        requires
            self.wf(),
            -TIMESTAMP_LIMIT + 3 * SECONDS_PER_DAY <= now <= TIMESTAMP_LIMIT - 3 * SECONDS_PER_DAY,
        ensures
            r == self.spec_next_deliverable_at(now as int),
            r >= now - 2 * SECONDS_PER_DAY,
            (self.spec_in_quiet_hours(now as int)
                && crate::time::tz_local_unique(self.spec_timezone(), self.spec_resume_local(now as int)) is Some)
                ==> !self.spec_in_quiet_hours(r as int),
            // A held-back notice goes out strictly later, unless the zone's
            // clocks were set forward between `now` and the resume time.
            (self.spec_in_quiet_hours(now as int)
                && crate::time::tz_local_unique(self.spec_timezone(), self.spec_resume_local(now as int)) is Some
                && crate::time::tz_offset(self.spec_timezone(), r as int)
                    <= crate::time::tz_offset(self.spec_timezone(), now as int))
                ==> r > now,
    {
        if !self.is_in_quiet_hours(now) {
            return now;
        }
        let local = self.timezone.local_seconds(now);
        let current_minute = minute_of_day_of(local);
        let start = self.quiet_start_min as i64;
        let end = self.quiet_end_min as i64;
        let advance: i64 = if start < end {
            if end - current_minute > 1 { end - current_minute } else { 1 }
        } else if current_minute >= start {
            (MINUTES_PER_DAY - current_minute) + end
        } else {
            if end - current_minute > 1 { end - current_minute } else { 1 }
        };
        // Inside the window the advance always lands exactly on its end.
        assert(current_minute + advance == end || current_minute + advance == MINUTES_PER_DAY + end);
        let candidate = if current_minute + advance >= MINUTES_PER_DAY {
            current_minute + advance - MINUTES_PER_DAY
        } else {
            current_minute + advance
        };
        let mut day = day_of_seconds(local);
        if current_minute + advance >= MINUTES_PER_DAY {
            day = day.add_days(1);
        }
        let naive = day.days * SECONDS_PER_DAY + candidate * 60;
        assert(naive == self.spec_resume_day(now as int) * SECONDS_PER_DAY + end * 60);
        let ghost day0 = day_of(local as int);
        assert(naive == day0 * 86400 + (current_minute + advance) * 60);
        assert(naive > local) by (nonlinear_arith)
            requires
                day0 == (local as int) / 86400,
                current_minute == ((local as int) % 86400) / 60,
                naive == day0 * 86400 + (current_minute + advance) * 60,
                advance >= 1,
        {
        }
        assert(local - SECONDS_PER_DAY <= naive <= local + 2 * SECONDS_PER_DAY) by (nonlinear_arith)
            requires
                day.days == (local as int) / 86400 || day.days == (local as int) / 86400 + 1,
                naive == day.days * 86400 + candidate * 60,
                0 <= candidate < 1440,
        {
        }
        let r = self.timezone.from_local(naive);
        proof {
            assert(0 <= end < MINUTES_PER_DAY);
            assert(minute_of_day(naive as int) == end) by (nonlinear_arith)
                requires
                    naive == day.days * 86400 + end * 60,
                    0 <= end < 1440,
            {
                assert((day.days * 86400 + end * 60) % 86400 == end * 60) by {
                    vstd::arithmetic::div_mod::lemma_mod_multiples_vanish(day.days as int, end * 60, 86400);
                    vstd::arithmetic::div_mod::lemma_small_mod((end * 60) as nat, 86400);
                }
            }
        }
        r
    }
}

/// With quiet hours disabled (start == end) nothing is ever held back.
pub proof fn disabled_quiet_hours_never_defer(p: NotificationPreferences, now: int)
    requires
        p.spec_disabled(),
    ensures
        !p.spec_in_quiet_hours(now),
        p.spec_next_deliverable_at(now) == now,
{
}

} // verus!
