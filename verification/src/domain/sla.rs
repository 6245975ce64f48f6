//! Working calendars and SLA policy value objects.
//!
//! `WorkingCalendar::add_working_duration` is the single deadline
//! calculator: it walks forward through business hours, skipping
//! non-working days.
use vstd::prelude::*;

use crate::domain::errors::{ctx_empty, ctx_one, ctx_two, AppError, AppResult, ContextValue, ErrorKind};
use crate::text::str_equal;
use crate::time::{
    day_of, day_of_seconds, Date, TimeZoneName, Timestamp, MINUTES_PER_DAY, SECONDS_PER_DAY,
    TIMESTAMP_LIMIT,
};

verus! {

/// The margin kept between an instant the business-minute walk starts from
/// and the ends of the supported instant range: the walk visits up to 366
/// days of up to four days' drift each.
pub const WALK_MARGIN_SECONDS: i64 = 127_000_000;

/// `t` rounded up to the next whole minute (unchanged on a boundary).
pub open spec fn round_up_to_minute(t: int) -> int {
    if t % 60 == 0 { t } else { t - t % 60 + 60 }
}


/// Canonical SLA state published on a task.
#[derive(Debug, Clone, Copy, PartialEq, Eq, Structural)]
pub enum SlaState {
    Healthy,
    /// Approaching the deadline.
    AtRisk,
    Breached,
}

pub open spec fn sla_code(s: SlaState) -> Seq<char> {
    match s {
        SlaState::Healthy => "healthy"@,
        SlaState::AtRisk => "at_risk"@,
        SlaState::Breached => "breached"@,
    }
}

pub open spec fn sla_state_of(code: Seq<char>) -> Option<SlaState> {
    if code == "healthy"@ {
        Some(SlaState::Healthy)
    } else if code == "at_risk"@ {
        Some(SlaState::AtRisk)
    } else if code == "breached"@ {
        Some(SlaState::Breached)
    } else {
        None
    }
}

impl SlaState {
    pub fn as_code(self) -> (r: &'static str)
        ensures
            r@ == sla_code(self),
    {
        match self {
            SlaState::Healthy => "healthy",
            SlaState::AtRisk => "at_risk",
            SlaState::Breached => "breached",
        }
    }

    /// Reads a stored code; unknown codes fail with `SLA_STATE_UNKNOWN`.
    pub fn from_code(code: &str) -> (r: AppResult<SlaState>)
        ensures
            r is Ok <==> sla_state_of(code@) is Some,
            r matches Ok(s) ==> sla_state_of(code@) == Some(s),
            r matches Err(e) ==> e.is_error(ErrorKind::Validation, "SLA_STATE_UNKNOWN"@),
            r matches Err(e) ==> e.message_view() == "unrecognised sla_state value '"@ + code@ + "'"@,
    {
        if str_equal(code, "healthy") {
            Ok(SlaState::Healthy)
        } else if str_equal(code, "at_risk") {
            Ok(SlaState::AtRisk)
        } else if str_equal(code, "breached") {
            Ok(SlaState::Breached)
        } else {
            let mut message = crate::text::chars_of("unrecognised sla_state value '");
            crate::text::push_str(&mut message, code);
            crate::text::push_str(&mut message, "'");
            Err(AppError::schema_validation(
                "SLA_STATE_UNKNOWN",
                crate::text::string_of(message.as_slice()),
                ctx_one("sla_state", ContextValue::Text(String::from_str(code))),
            ))
        }
    }
}

/// Every SLA state survives a round trip through its stored code.
pub proof fn sla_code_roundtrip(s: SlaState)
    ensures
        sla_state_of(sla_code(s)) == Some(s),
{
    reveal_strlit("healthy");
    reveal_strlit("at_risk");
    reveal_strlit("breached");
    let c = sla_code(s);
    if s != SlaState::Healthy {
        assert(c != "healthy"@) by { assert(c[0] != 'h'); }
    }
    if s == SlaState::Breached {
        assert(c != "at_risk"@) by { assert(c[0] != 'a'); }
    }
}

/// Per-organisation working calendar (a value object).
#[derive(Debug)]
pub struct WorkingCalendar {
    code: String,
    timezone: TimeZoneName,
    /// Working weekdays: bit 0 = Monday … bit 6 = Sunday.
    workday_mask: u32,
    /// Start of the working day, minutes from local midnight.
    workday_start_min: u16,
    /// End of the working day, minutes from local midnight.
    workday_end_min: u16,
    /// Explicit non-working days.
    holidays: Vec<Date>,
    /// Explicit working days that override the mask and the holidays.
    extra_working_days: Vec<Date>,
}

pub open spec fn weekday_bit(weekday: int) -> u32 {
    if weekday == 0 { 1 } else if weekday == 1 { 2 } else if weekday == 2 { 4 }
    else if weekday == 3 { 8 } else if weekday == 4 { 16 } else if weekday == 5 { 32 }
    else if weekday == 6 { 64 } else { 0 }
}

fn weekday_bit_exec(weekday: u32) -> (r: u32)
    ensures
        r == weekday_bit(weekday as int),
{
    if weekday == 0 { 1 } else if weekday == 1 { 2 } else if weekday == 2 { 4 }
    else if weekday == 3 { 8 } else if weekday == 4 { 16 } else if weekday == 5 { 32 }
    else if weekday == 6 { 64 } else { 0 }
}

fn contains_date(dates: &Vec<Date>, d: Date) -> (r: bool)
    ensures
        r == dates@.contains(d),
{
    let mut i: usize = 0;
    while i < dates.len()
        invariant
            i <= dates.len(),
            forall|j: int| 0 <= j < i ==> dates@[j] != d,
        decreases dates.len() - i,
    {
        if dates[i] == d {
            assert(dates@[i as int] == d);
            return true;
        }
        i = i + 1;
    }
    false
}

impl WorkingCalendar {
    pub closed spec fn wf(&self) -> bool {
        &&& self.timezone.wf()
        &&& self.workday_mask != 0
        &&& self.workday_start_min < self.workday_end_min
        &&& self.workday_end_min <= MINUTES_PER_DAY
        &&& forall|i: int| 0 <= i < self.holidays@.len() ==> self.holidays@[i].wf()
        &&& forall|i: int| 0 <= i < self.extra_working_days@.len() ==> self.extra_working_days@[i].wf()
    }

    pub closed spec fn spec_timezone(&self) -> Seq<char> {
        self.timezone.view()
    }

    pub closed spec fn spec_mask(&self) -> u32 {
        self.workday_mask
    }

    pub closed spec fn spec_start_min(&self) -> u16 {
        self.workday_start_min
    }

    pub closed spec fn spec_end_min(&self) -> u16 {
        self.workday_end_min
    }

    pub closed spec fn spec_holidays(&self) -> Seq<Date> {
        self.holidays@
    }

    pub closed spec fn spec_extra_days(&self) -> Seq<Date> {
        self.extra_working_days@
    }

    pub closed spec fn spec_code(&self) -> Seq<char> {
        self.code@
    }

    /// Extra working days override holidays, which override the weekday mask.
    pub open spec fn spec_is_working_day(&self, date: Date) -> bool {
        if self.spec_extra_days().contains(date) {
            true
        } else if self.spec_holidays().contains(date) {
            false
        } else {
            self.spec_mask() & weekday_bit(date.spec_weekday()) != 0
        }
    }

    /// A calendar after defensive validation: an empty weekday mask fails
    /// with `WORKING_CALENDAR_EMPTY_MASK`, minutes beyond the day with
    /// `WORKING_CALENDAR_MINUTE_OUT_OF_RANGE`, an empty or inverted window
    /// with `WORKING_CALENDAR_INVERTED_WINDOW`.
    pub fn new(
        code: String,
        timezone: TimeZoneName,
        workday_mask: u32,
        workday_start_min: u16,
        workday_end_min: u16,
        holidays: Vec<Date>,
        extra_working_days: Vec<Date>,
    ) -> (r: AppResult<WorkingCalendar>)
        requires
            timezone.wf(),
            forall|i: int| 0 <= i < holidays@.len() ==> holidays@[i].wf(),
            forall|i: int| 0 <= i < extra_working_days@.len() ==> extra_working_days@[i].wf(),
        ensures
            r is Ok <==> workday_mask != 0 && workday_start_min < MINUTES_PER_DAY
                && workday_end_min <= MINUTES_PER_DAY && workday_start_min < workday_end_min,
            r matches Ok(c) ==> c.wf() && c.spec_code() == code@ && c.spec_timezone() == timezone.view()
                && c.spec_mask() == workday_mask && c.spec_start_min() == workday_start_min
                && c.spec_end_min() == workday_end_min && c.spec_holidays() == holidays@
                && c.spec_extra_days() == extra_working_days@,
            r matches Err(e) ==> e.kind() == ErrorKind::Validation && e.code_view() == (
                if workday_mask == 0 {
                    "WORKING_CALENDAR_EMPTY_MASK"@
                } else if workday_start_min >= MINUTES_PER_DAY || workday_end_min > MINUTES_PER_DAY {
                    "WORKING_CALENDAR_MINUTE_OUT_OF_RANGE"@
                } else {
                    "WORKING_CALENDAR_INVERTED_WINDOW"@
                }),
            r matches Err(e) ==> e.message_view() == (
                if workday_mask == 0 {
                    "workday_mask must select at least one weekday"@
                } else if workday_start_min >= MINUTES_PER_DAY || workday_end_min > MINUTES_PER_DAY {
                    "workday_start_min/workday_end_min must lie in [0, 1440]"@
                } else {
                    "workday_end_min must be strictly greater than workday_start_min"@
                }),
    {
        if workday_mask == 0 {
            return Err(AppError::schema_validation(
                "WORKING_CALENDAR_EMPTY_MASK",
                String::from_str("workday_mask must select at least one weekday"),
                ctx_one("workday_mask", ContextValue::Int(workday_mask as i64)),
            ));
        }
        if workday_start_min as i64 >= MINUTES_PER_DAY || workday_end_min as i64 > MINUTES_PER_DAY {
            return Err(AppError::schema_validation(
                "WORKING_CALENDAR_MINUTE_OUT_OF_RANGE",
                String::from_str("workday_start_min/workday_end_min must lie in [0, 1440]"),
                ctx_two(
                    "workday_start_min",
                    ContextValue::Int(workday_start_min as i64),
                    "workday_end_min",
                    ContextValue::Int(workday_end_min as i64),
                ),
            ));
        }
        if workday_end_min <= workday_start_min {
            return Err(AppError::schema_validation(
                "WORKING_CALENDAR_INVERTED_WINDOW",
                String::from_str("workday_end_min must be strictly greater than workday_start_min"),
                ctx_two(
                    "workday_start_min",
                    ContextValue::Int(workday_start_min as i64),
                    "workday_end_min",
                    ContextValue::Int(workday_end_min as i64),
                ),
            ));
        }
        Ok(WorkingCalendar {
            code,
            timezone,
            workday_mask,
            workday_start_min,
            workday_end_min,
            holidays,
            extra_working_days,
        })
    }

    /// What a well-formed calendar guarantees about its window and zone.
    pub proof fn lemma_wf_bounds(&self)
        requires
            self.wf(),
        ensures
            self.spec_start_min() < self.spec_end_min() <= MINUTES_PER_DAY,
            crate::time::tz_known(self.spec_timezone()),
    {
    }

    pub fn code(&self) -> (r: &str)
        ensures
            r@ == self.spec_code(),
    {
        self.code.as_str()
    }

    pub fn timezone(&self) -> (r: &TimeZoneName)
        ensures
            r.view() == self.spec_timezone(),
            self.wf() ==> r.wf(),
    {
        &self.timezone
    }

    pub fn workday_mask(&self) -> (r: u32)
        ensures
            r == self.spec_mask(),
    {
        self.workday_mask
    }

    pub fn workday_start_min(&self) -> (r: u16)
        ensures
            r == self.spec_start_min(),
    {
        self.workday_start_min
    }

    pub fn workday_end_min(&self) -> (r: u16)
        ensures
            r == self.spec_end_min(),
    {
        self.workday_end_min
    }

    /// `true` when `date` is a working day of this calendar.
    pub fn is_working_day(&self, date: Date) -> (r: bool)
        requires
            date.wf(),
        ensures
            r == self.spec_is_working_day(date),
    {
        if contains_date(&self.extra_working_days, date) {
            return true;
        }
        if contains_date(&self.holidays, date) {
            return false;
        }
        let bit = weekday_bit_exec(date.weekday());
        self.workday_mask & bit != 0
    }

    /// Instant of local minute `minute_of_day` on local day `day`.
    pub open spec fn spec_local_at(&self, day: int, minute_of_day: int) -> int {
        match crate::time::tz_local_unique(self.spec_timezone(), day * SECONDS_PER_DAY + minute_of_day * 60) {
            Some(u) => u,
            None => day * SECONDS_PER_DAY + minute_of_day * 60,
        }
    }

    /// The local day of instant `t`.
    pub open spec fn spec_day(&self, t: int) -> int {
        day_of(t + crate::time::tz_offset(self.spec_timezone(), t))
    }

    /// The business-minute walk: from `current`, spend `remaining` working
    /// minutes, visiting at most `fuel` days.
    pub open spec fn spec_walk(&self, current: int, remaining: int, fuel: nat) -> int
        decreases fuel,
    {
        if fuel == 0 {
            current
        } else {
            let day = self.spec_day(current);
            let next_start = self.spec_local_at(day + 1, self.spec_start_min() as int);
            if !self.spec_is_working_day(Date { days: day as i64 }) {
                self.spec_walk(next_start, remaining, (fuel - 1) as nat)
            } else {
                let start = self.spec_local_at(day, self.spec_start_min() as int);
                let end = self.spec_local_at(day, self.spec_end_min() as int);
                let c = if current < start { start } else { current };
                if c >= end {
                    self.spec_walk(next_start, remaining, (fuel - 1) as nat)
                } else if remaining <= (end - c) / 60 {
                    c + remaining * 60
                } else {
                    self.spec_walk(next_start, remaining - (end - c) / 60, (fuel - 1) as nat)
                }
            }
        }
    }

    /// Advances `from` by `working_minutes` of business time.  Non-positive
    /// durations return `from`; otherwise `from` is first rounded up to the
    /// next minute boundary, and the walk visits at most 366 days.  `from`
    /// keeps a year's margin from the ends of the supported instant range,
    /// which the walk may cross.
    pub fn add_working_duration(&self, from: Timestamp, working_minutes: i64) -> (r: Timestamp)
        requires
            self.wf(),
            -TIMESTAMP_LIMIT + WALK_MARGIN_SECONDS <= from <= TIMESTAMP_LIMIT - WALK_MARGIN_SECONDS,
        ensures
            working_minutes <= 0 ==> r == from,
            working_minutes > 0 ==> r == self.spec_walk(round_up_to_minute(from as int), working_minutes as int, 366),
    {
        if working_minutes <= 0 {
            return from;
        }
        // Shifted by a multiple of a minute so the remainder is taken of a
        // non-negative number.
        let shifted = (from + 8_000_000_000_040) as u64;
        let rem = (shifted % 60) as i64;
        proof {
            vstd::arithmetic::div_mod::lemma_mod_multiples_vanish(133_333_333_334, from as int, 60);
            assert(rem == (from as int) % 60);
        }
        let start_at: i64 = if rem == 0 { from } else { from - rem + 60 };
        assert(start_at == round_up_to_minute(from as int));
        let mut current = start_at;
        let mut remaining = working_minutes;
        let mut k: i64 = 0;
        while k < 366
            invariant
                self.wf(),
                0 <= k <= 366,
                -TIMESTAMP_LIMIT + WALK_MARGIN_SECONDS <= start_at <= TIMESTAMP_LIMIT - WALK_MARGIN_SECONDS + 60,
                start_at - 345_600 * k <= current <= start_at + 345_600 * k,
                0 < remaining <= working_minutes,
                start_at == round_up_to_minute(from as int),
                self.spec_walk(current as int, remaining as int, (366 - k) as nat)
                    == self.spec_walk(start_at as int, working_minutes as int, 366),
            decreases 366 - k,
        {
            assert(-TIMESTAMP_LIMIT + WALK_MARGIN_SECONDS - 126_489_600 <= current
                <= TIMESTAMP_LIMIT - WALK_MARGIN_SECONDS + 60 + 126_489_600)
                by (nonlinear_arith)
                requires
                    start_at - 345_600 * k <= current <= start_at + 345_600 * k,
                    0 <= k <= 366,
                    -TIMESTAMP_LIMIT + WALK_MARGIN_SECONDS <= start_at <= TIMESTAMP_LIMIT - WALK_MARGIN_SECONDS + 60,
            {
            }
            let local = self.timezone.local_seconds(current);
            let day = day_of_seconds(local);
            let next_day = day.add_days(1);
            let next_start = self.timezone.from_local(next_day.days * SECONDS_PER_DAY + self.workday_start_min as i64 * 60);
            if !self.is_working_day(day) {
                current = next_start;
                k = k + 1;
                continue;
            }
            let start = self.timezone.from_local(day.days * SECONDS_PER_DAY + self.workday_start_min as i64 * 60);
            let end = self.timezone.from_local(day.days * SECONDS_PER_DAY + self.workday_end_min as i64 * 60);
            if current < start {
                current = start;
            }
            if current >= end {
                current = next_start;
                k = k + 1;
                continue;
            }
            let available = (end - current) / 60;
            if remaining <= available {
                return current + remaining * 60;
            }
            remaining = remaining - available;
            current = next_start;
            k = k + 1;
        }
        current
    }
}

/// SLA policy of a task or template, in working minutes.
#[derive(Debug)]
pub struct SlaPolicy {
    /// Working minutes from creation to the deadline.
    pub deadline_minutes: i64,
    /// Working minutes before the deadline at which warnings start.
    pub at_risk_minutes: i64,
    /// Escalation offsets after the deadline, ascending.
    pub escalation_steps_minutes: Vec<i64>,
}

/// Code of the first escalation step, from index `i` on, that is negative
/// or smaller than its predecessor (the first step's predecessor is 0).
/// The message that goes with `bad_step_code`.
pub open spec fn bad_step_message(steps: Seq<i64>, i: int) -> Seq<char>
    decreases steps.len() - i,
{
    if i < 0 || i >= steps.len() {
        Seq::empty()
    } else if step_is_bad(steps, i) {
        if steps[i] < 0 {
            "escalation steps must be non-negative"@
        } else {
            "escalation_steps_minutes must be sorted ascending"@
        }
    } else {
        bad_step_message(steps, i + 1)
    }
}

pub open spec fn bad_step_code(steps: Seq<i64>, i: int) -> Option<Seq<char>>
    decreases steps.len() - i,
{
    if i < 0 || i >= steps.len() {
        None
    } else if step_is_bad(steps, i) {
        if steps[i] < 0 {
            Some("SLA_POLICY_NEGATIVE_ESCALATION"@)
        } else {
            Some("SLA_POLICY_UNSORTED_ESCALATION"@)
        }
    } else {
        bad_step_code(steps, i + 1)
    }
}

pub open spec fn step_is_bad(steps: Seq<i64>, i: int) -> bool {
    steps[i] < 0 || steps[i] < (if i == 0 { 0 } else { steps[i - 1] })
}

impl SlaPolicy {
    /// The code of the first rule the policy breaks, if any.
    pub open spec fn violation(&self) -> Option<Seq<char>> {
        let steps = self.escalation_steps_minutes@;
        if self.deadline_minutes <= 0 {
            Some("SLA_POLICY_INVALID_DEADLINE"@)
        } else if self.at_risk_minutes < 0 || self.at_risk_minutes > self.deadline_minutes {
            Some("SLA_POLICY_INVALID_AT_RISK"@)
        } else {
            bad_step_code(steps, 0)
        }
    }

    /// The message that goes with `violation`.
    pub open spec fn violation_message(&self) -> Seq<char> {
        if self.deadline_minutes <= 0 {
            "deadline_minutes must be positive"@
        } else if self.at_risk_minutes < 0 || self.at_risk_minutes > self.deadline_minutes {
            "at_risk_minutes must lie in [0, deadline_minutes]"@
        } else {
            bad_step_message(self.escalation_steps_minutes@, 0)
        }
    }

    /// Checks a positive deadline, an at-risk window inside it and
    /// non-negative ascending escalation steps.
    pub fn validate(&self) -> (r: AppResult<()>)
        ensures
            r is Ok <==> self.violation() is None,
            r matches Err(e) ==> e.kind() == ErrorKind::Validation
                && Some(e.code_view()) == self.violation(),
            r matches Err(e) ==> e.message_view() == self.violation_message(),
    {
        if self.deadline_minutes <= 0 {
            return Err(AppError::schema_validation(
                "SLA_POLICY_INVALID_DEADLINE",
                String::from_str("deadline_minutes must be positive"),
                ctx_one("deadline_minutes", ContextValue::Int(self.deadline_minutes)),
            ));
        }
        if self.at_risk_minutes < 0 || self.at_risk_minutes > self.deadline_minutes {
            return Err(AppError::schema_validation(
                "SLA_POLICY_INVALID_AT_RISK",
                String::from_str("at_risk_minutes must lie in [0, deadline_minutes]"),
                ctx_two(
                    "at_risk_minutes",
                    ContextValue::Int(self.at_risk_minutes),
                    "deadline_minutes",
                    ContextValue::Int(self.deadline_minutes),
                ),
            ));
        }
        let steps = &self.escalation_steps_minutes;
        let mut last: i64 = 0;
        let mut i: usize = 0;
        while i < steps.len()
            invariant
                i <= steps@.len(),
                steps == &self.escalation_steps_minutes,
                bad_step_code(steps@, 0) == bad_step_code(steps@, i as int),
                bad_step_message(steps@, 0) == bad_step_message(steps@, i as int),
                self.deadline_minutes > 0,
                0 <= self.at_risk_minutes <= self.deadline_minutes,
                last == (if i == 0 { 0 } else { steps@[i - 1] }),
            decreases steps.len() - i,
        {
            let step = steps[i];
            if step < 0 || step < last {
                if step < 0 {
                    return Err(AppError::schema_validation(
                        "SLA_POLICY_NEGATIVE_ESCALATION",
                        String::from_str("escalation steps must be non-negative"),
                        ctx_one("step", ContextValue::Int(step)),
                    ));
                }
                return Err(AppError::schema_validation(
                    "SLA_POLICY_UNSORTED_ESCALATION",
                    String::from_str("escalation_steps_minutes must be sorted ascending"),
                    ctx_empty(),
                ));
            }
            last = step;
            i = i + 1;
        }
        Ok(())
    }
}

/// Only minutes inside working windows count: a walk that starts before the
/// opening of a working day with room for the whole duration ends that many
/// minutes after the opening, whatever earlier hour it started at.
pub proof fn counting_starts_at_opening(cal: WorkingCalendar, current: int, remaining: int, fuel: nat)
    requires
        fuel > 0,
        remaining > 0,
        cal.spec_is_working_day(Date { days: cal.spec_day(current) as i64 }),
        current < cal.spec_local_at(cal.spec_day(current), cal.spec_start_min() as int),
        remaining * 60 <= cal.spec_local_at(cal.spec_day(current), cal.spec_end_min() as int)
            - cal.spec_local_at(cal.spec_day(current), cal.spec_start_min() as int),
    ensures
        cal.spec_walk(current, remaining, fuel)
            == cal.spec_local_at(cal.spec_day(current), cal.spec_start_min() as int) + remaining * 60,
{
}

} // verus!
