//! The deadline kernel: free text, an optional AI timestamp hint and the
//! user's context become one concrete due instant.  A valid, non-past AI
//! hint wins; otherwise the deterministic parser decides.  A working
//! calendar moves a deadline that falls on a day off to the end of the
//! next working day.
use vstd::prelude::*;

use crate::domain::errors::AppResult;
use crate::domain::parsing::{extract_deadline_from_text, is_deadline_error, spec_deadline, DeadlineParse, DEADLINE_DAYS_LIMIT};
use crate::domain::sla::WorkingCalendar;
use crate::text::{
    chars_of, contains_seq, has_prefix, lowercase, lowercase_chars, opt_view, starts_with, str_equal, string_of,
    trim, trim_str,
};
use crate::time::{
    day_of, day_of_seconds, parse_rfc3339, parsed_date, parsed_rfc3339, tz_local_unique, tz_offset, Date,
    TimeZoneName, Timestamp, SECONDS_PER_DAY, TIMESTAMP_LIMIT,
};

verus! {

/// End of business, minutes after local midnight (18:00).
pub const DEFAULT_END_OF_BUSINESS_MIN: u16 = 1080;
/// Instants further than this from the epoch are not used as deadlines:
/// the end-of-business arithmetic and the zone conversions that follow must
/// stay inside the supported instant range (`TIMESTAMP_LIMIT`), with room for
/// the calendar's shift of up to a day.
pub const DEADLINE_INSTANT_LIMIT: i64 = 7_900_000_000_000;
/// The clock values the kernel accepts: the local day of `now` must be one
/// the text parser can count from (within `DEADLINE_DAYS_LIMIT` days of the
/// epoch), which leaves room for a zone offset of up to a day.
pub const NOW_LIMIT: i64 = 7_700_000_000_000;

/// Where a deadline came from.
#[derive(Debug, Clone, Copy, PartialEq, Eq, Structural)]
pub enum DeadlineSource {
    /// A valid timestamp from the AI's structured output.
    AiStructured,
    /// The deterministic text parser.
    DeterministicText,
    /// No deadline.
    NoneProvided,
}

/// A resolved deadline and its provenance.
#[derive(Debug)]
pub struct Deadline {
    /// The due instant.
    pub utc: Option<Timestamp>,
    /// The due date in the user's zone; present exactly when `utc` is.
    pub local_date: Option<Date>,
    /// The fragment of input it came from.
    pub raw_fragment: Option<String>,
    pub source: DeadlineSource,
    /// 100 for an AI timestamp; 50 to 90 for text.
    pub confidence: u8,
}

impl Deadline {
    pub fn none() -> (r: Deadline)
        ensures
            r.utc is None && r.local_date is None && r.raw_fragment is None,
            r.source == DeadlineSource::NoneProvided,
            r.confidence == 0,
    {
        Deadline { utc: None, local_date: None, raw_fragment: None, source: DeadlineSource::NoneProvided, confidence: 0 }
    }

    pub fn has_value(&self) -> (r: bool)
        ensures
            r == self.utc is Some,
    {
        self.utc.is_some()
    }

    /// "DD.MM.YYYY" of the local date.
    pub fn local_label(&self) -> (r: Option<String>)
        requires
            self.local_date matches Some(d) ==> d.wf(),
        ensures
            match self.local_date {
                Some(d) => r matches Some(s) && s@ == crate::time::formatted_date(d.days as int, "%d.%m.%Y"@),
                None => r is None,
            },
    {
        match self.local_date {
            Some(d) => Some(d.format("%d.%m.%Y")),
            None => None,
        }
    }
}

/// Everything the kernel reads.
pub struct DeadlineInput<'a> {
    /// The user's text.
    pub text: &'a str,
    /// An ISO-8601 timestamp or date proposed by the AI.
    pub ai_iso_hint: Option<&'a str>,
    pub user_timezone: &'a TimeZoneName,
    pub now_utc: Timestamp,
    /// Working calendar to respect, if any.
    pub calendar: Option<&'a WorkingCalendar>,
}

/// The instant of minute `end_min` of local day `day` in `zone` (the
/// unique instant, else the wall-clock time read as UTC).
pub open spec fn eob(day: int, zone: Seq<char>, end_min: int) -> int {
    let local = day * SECONDS_PER_DAY + end_min * 60;
    match tz_local_unique(zone, local) {
        Some(u) => u,
        None => local,
    }
}

pub open spec fn end_min_of(cal: Option<WorkingCalendar>) -> int {
    match cal {
        Some(c) => c.spec_end_min() as int,
        None => DEFAULT_END_OF_BUSINESS_MIN as int,
    }
}

/// The first working day among `day + k`, …, `day + 366`.
pub open spec fn first_working_after(c: WorkingCalendar, day: int, k: int) -> Option<int>
    decreases 367 - k,
{
    if k > 366 || k < 1 {
        None
    } else if c.spec_is_working_day(Date { days: (day + k) as i64 }) {
        Some(day + k)
    } else {
        first_working_after(c, day, k + 1)
    }
}

/// `t` moved, when it falls on a day off of the calendar, to the end of
/// the next working day (looking a year ahead).
pub open spec fn calendar_adjusted(t: int, cal: Option<WorkingCalendar>) -> int {
    match cal {
        None => t,
        Some(c) => {
            let day = c.spec_day(t);
            if c.spec_is_working_day(Date { days: day as i64 }) {
                t
            } else {
                match first_working_after(c, day, 1) {
                    Some(d) => eob(d, c.spec_timezone(), c.spec_end_min() as int),
                    None => t,
                }
            }
        },
    }
}

/// The local day of `t` in `zone`.
pub open spec fn local_day(t: int, zone: Seq<char>) -> int {
    day_of(t + tz_offset(zone, t))
}

/// The instant an AI hint denotes: an RFC 3339 timestamp, or a bare
/// `YYYY-MM-DD` at the end of business in the user's zone.
pub open spec fn hint_instant(hint: Seq<char>, zone: Seq<char>, cal: Option<WorkingCalendar>) -> Option<int> {
    let t = trim(hint);
    if t.len() == 0 {
        None
    } else {
        match parsed_rfc3339(t) {
            Some(u) => if -DEADLINE_INSTANT_LIMIT <= u <= DEADLINE_INSTANT_LIMIT { Some(u) } else { None },
            None => match parsed_date(t, "%Y-%m-%d"@) {
                Some(d) => if -DEADLINE_DAYS_LIMIT <= d <= DEADLINE_DAYS_LIMIT { Some(eob(d, zone, end_min_of(cal))) } else { None },
                None => None,
            },
        }
    }
}

/// Confidence of a text deadline by its fragment: a numeric date 90, a
/// relative day 85, "через …" 75, a weekday 60, nothing 50.
pub open spec fn text_confidence(raw: Option<Seq<char>>) -> u8 {
    match raw {
        Some(v) => if contains_seq(v, "."@) || contains_seq(v, "/"@) {
            90
        } else if lowercase(v) == "сегодня"@ || lowercase(v) == "завтра"@ || lowercase(v) == "послезавтра"@ {
            85
        } else if v.len() > 0 {
            if has_prefix(lowercase(v), "через"@) { 75 } else { 60 }
        } else {
            50
        },
        None => 50,
    }
}

/// `d` is the deadline due at `u` (adjusted for the calendar).
pub open spec fn deadline_at(
    d: Deadline,
    u: int,
    zone: Seq<char>,
    cal: Option<WorkingCalendar>,
    raw: Option<Seq<char>>,
    source: DeadlineSource,
    confidence: u8,
) -> bool {
    let adjusted = calendar_adjusted(u, cal);
    &&& d.utc == Some(adjusted as Timestamp)
    &&& d.local_date == Some(Date { days: local_day(adjusted, zone) as i64 })
    &&& opt_view(d.raw_fragment) == raw
    &&& d.source == source
    &&& d.confidence == confidence
}

pub open spec fn opt_cal(c: Option<&WorkingCalendar>) -> Option<WorkingCalendar> {
    match c {
        Some(c) => Some(*c),
        None => None,
    }
}

pub open spec fn opt_text(t: Option<&str>) -> Option<Seq<char>> {
    match t {
        Some(t) => Some(t@),
        None => None,
    }
}

/// The AI hint's instant, when it reads and is not in the past.
pub open spec fn ai_instant(hint: Option<Seq<char>>, zone: Seq<char>, now: Timestamp, cal: Option<WorkingCalendar>) -> Option<int> {
    match hint {
        Some(h) => match hint_instant(h, zone, cal) {
            Some(u) => if u >= now { Some(u) } else { None },
            None => None,
        },
        None => None,
    }
}

/// The kernel fails: no usable AI instant, and the text holds a deadline
/// that does not read.
pub open spec fn kernel_rejects(
    text: Seq<char>,
    hint: Option<Seq<char>>,
    zone: Seq<char>,
    now: Timestamp,
    cal: Option<WorkingCalendar>,
) -> bool {
    ai_instant(hint, zone, now, cal) is None
        && spec_deadline(text, Date { days: local_day(now as int, zone) as i64 }) is Invalid
}

/// What the kernel resolves `text` and the AI `hint` to, in `zone` at
/// `now` with calendar `cal`.
pub open spec fn resolves_to(
    r: AppResult<Deadline>,
    text: Seq<char>,
    hint: Option<Seq<char>>,
    zone: Seq<char>,
    now: Timestamp,
    cal: Option<WorkingCalendar>,
) -> bool {
    let today = Date { days: local_day(now as int, zone) as i64 };
    match ai_instant(hint, zone, now, cal) {
        Some(u) => r matches Ok(d) && deadline_at(d, u, zone, cal, Some(trim(hint.unwrap())),
            DeadlineSource::AiStructured, 100),
        None => match spec_deadline(text, today) {
            DeadlineParse::Invalid(_) => r matches Err(e) && is_deadline_error(e),
            DeadlineParse::NotFound => r matches Ok(d) && d.utc is None && d.local_date is None
                && d.raw_fragment is None && d.source == DeadlineSource::NoneProvided && d.confidence == 0,
            DeadlineParse::Found(date, raw) => r matches Ok(d) && deadline_at(d, eob(date.days as int, zone, end_min_of(cal)),
                zone, cal, Some(raw), DeadlineSource::DeterministicText, text_confidence(Some(raw))),
        },
    }
}

/// What the kernel resolves `input` to.
pub open spec fn resolution_ok(r: AppResult<Deadline>, input: DeadlineInput) -> bool {
    resolves_to(r, input.text@, opt_text(input.ai_iso_hint), input.user_timezone.view(), input.now_utc,
        opt_cal(input.calendar))
}

/// A resolved deadline has a local date exactly when it has an instant:
/// the card and the reminders never disagree on whether there is one.
pub proof fn resolved_deadline_has_date_iff_instant(r: AppResult<Deadline>, input: DeadlineInput)
    requires
        resolution_ok(r, input),
    ensures
        r matches Ok(d) ==> (d.utc is None <==> d.local_date is None),
{
}

/// The input is usable: a known zone, a well-formed calendar and a clock
/// within range.
pub open spec fn input_wf(input: DeadlineInput) -> bool {
    &&& input.user_timezone.wf()
    &&& (input.calendar matches Some(c) ==> c.wf())
    &&& -NOW_LIMIT <= input.now_utc <= NOW_LIMIT
}

/// The stateless deadline kernel.
pub struct DeadlineResolver;

fn end_of_business_utc(date: Date, zone: &TimeZoneName, end_min: u16) -> (r: Timestamp)
    requires
        zone.wf(),
        -DEADLINE_DAYS_LIMIT - 400 <= date.days <= DEADLINE_DAYS_LIMIT + 400,
        end_min <= 1440,
    ensures
        r == eob(date.days as int, zone.view(), end_min as int),
        -DEADLINE_INSTANT_LIMIT - 40_000_000 <= r <= DEADLINE_INSTANT_LIMIT + 40_000_000,
{
    let local = date.days * SECONDS_PER_DAY + end_min as i64 * 60;
    zone.from_local(local)
}

fn text_confidence_exec(raw: &Option<String>) -> (r: u8)
    ensures
        r == text_confidence(opt_view(*raw)),
{
    match raw {
        Some(v) => {
            let chars = chars_of(v.as_str());
            if crate::text::find_seq(&chars, &chars_of(".")).is_some() || crate::text::find_seq(&chars, &chars_of("/")).is_some() {
                return 90;
            }
            let lowered = string_of(lowercase_chars(&chars).as_slice());
            if str_equal(lowered.as_str(), "сегодня") || str_equal(lowered.as_str(), "завтра")
                || str_equal(lowered.as_str(), "послезавтра") {
                return 85;
            }
            if chars.len() > 0 {
                if starts_with(&chars_of(lowered.as_str()), &chars_of("через")) {
                    return 75;
                }
                return 60;
            }
            50
        },
        None => 50,
    }
}

impl DeadlineResolver {
    /// Resolves the deadline of `input`.
    pub fn resolve(input: DeadlineInput) -> (r: AppResult<Deadline>)
        requires
            input_wf(input),
        ensures
            resolution_ok(r, input),
    {
        if let Some(hint) = input.ai_iso_hint {
            if let Some(resolved) = Self::try_ai_iso(hint, &input) {
                return Ok(resolved);
            }
        }
        match Self::try_deterministic(&input) {
            Ok(Some(resolved)) => Ok(resolved),
            Ok(None) => Ok(Deadline::none()),
            Err(e) => Err(e),
        }
    }

    fn try_ai_iso(hint: &str, input: &DeadlineInput) -> (r: Option<Deadline>)
        requires
            input_wf(*input),
            input.ai_iso_hint == Some(hint),
        ensures
            match hint_instant(hint@, input.user_timezone.view(), opt_cal(input.calendar)) {
                Some(u) => if u >= input.now_utc {
                    r matches Some(d) && deadline_at(d, u, input.user_timezone.view(), opt_cal(input.calendar),
                        Some(trim(hint@)), DeadlineSource::AiStructured, 100)
                } else {
                    r is None
                },
                None => r is None,
            },
    {
        let trimmed = trim_str(hint);
        if trimmed.len() == 0 {
            return None;
        }
        let text = string_of(trimmed.as_slice());
        let end_min: u16 = match input.calendar {
            Some(c) => {
                proof {
                    c.lemma_wf_bounds();
                }
                c.workday_end_min()
            },
            None => DEFAULT_END_OF_BUSINESS_MIN,
        };
        let parsed_utc: Timestamp = match parse_rfc3339(text.as_str()) {
            Some(u) => {
                if u < -DEADLINE_INSTANT_LIMIT || u > DEADLINE_INSTANT_LIMIT {
                    return None;
                }
                u
            },
            None => match Date::parse(text.as_str(), "%Y-%m-%d") {
                Some(d) => {
                    if d.days < -DEADLINE_DAYS_LIMIT || d.days > DEADLINE_DAYS_LIMIT {
                        return None;
                    }
                    end_of_business_utc(d, input.user_timezone, end_min)
                },
                None => return None,
            },
        };
        if parsed_utc < input.now_utc {
            return None;
        }
        let clamped = apply_calendar(parsed_utc, input.calendar);
        let local = input.user_timezone.local_seconds(clamped);
        let local_date = day_of_seconds(local);
        Some(Deadline {
            utc: Some(clamped),
            local_date: Some(local_date),
            raw_fragment: Some(text),
            source: DeadlineSource::AiStructured,
            confidence: 100,
        })
    }

    fn try_deterministic(input: &DeadlineInput) -> (r: AppResult<Option<Deadline>>)
        requires
            input_wf(*input),
        ensures
            match spec_deadline(input.text@, Date { days: local_day(input.now_utc as int, input.user_timezone.view()) as i64 }) {
                DeadlineParse::Invalid(_) => r matches Err(e) && is_deadline_error(e),
                DeadlineParse::NotFound => r matches Ok(None),
                DeadlineParse::Found(date, raw) => r matches Ok(Some(d)) && deadline_at(
                    d,
                    eob(date.days as int, input.user_timezone.view(), end_min_of(opt_cal(input.calendar))),
                    input.user_timezone.view(),
                    opt_cal(input.calendar),
                    Some(raw),
                    DeadlineSource::DeterministicText,
                    text_confidence(Some(raw)),
                ),
            },
    {
        let local_now = input.user_timezone.local_seconds(input.now_utc);
        let today = day_of_seconds(local_now);
        assert(-DEADLINE_DAYS_LIMIT <= today.days <= DEADLINE_DAYS_LIMIT) by (nonlinear_arith)
            requires
                today.days == local_now / 86400,
                -7_700_000_086_400 <= local_now <= 7_700_000_086_400,
        {
        }
        let (date_opt, raw_opt) = extract_deadline_from_text(input.text, today)?;
        let date = match date_opt {
            Some(d) => d,
            None => return Ok(None),
        };
        let end_min: u16 = match input.calendar {
            Some(c) => {
                proof {
                    c.lemma_wf_bounds();
                }
                c.workday_end_min()
            },
            None => DEFAULT_END_OF_BUSINESS_MIN,
        };
        let utc = apply_calendar(end_of_business_utc(date, input.user_timezone, end_min), input.calendar);
        let local = input.user_timezone.local_seconds(utc);
        let local_date = day_of_seconds(local);
        let confidence = text_confidence_exec(&raw_opt);
        Ok(Some(Deadline {
            utc: Some(utc),
            local_date: Some(local_date),
            raw_fragment: raw_opt,
            source: DeadlineSource::DeterministicText,
            confidence,
        }))
    }
}

/// Moves `candidate` off a day off of `calendar`.
fn apply_calendar(candidate: Timestamp, calendar: Option<&WorkingCalendar>) -> (r: Timestamp)
    requires
        -DEADLINE_INSTANT_LIMIT - 40_000_000 <= candidate <= DEADLINE_INSTANT_LIMIT + 40_000_000,
        calendar matches Some(c) ==> c.wf(),
    ensures
        r == calendar_adjusted(candidate as int, opt_cal(calendar)),
        -TIMESTAMP_LIMIT <= r <= TIMESTAMP_LIMIT,
{
    let c = match calendar {
        Some(c) => c,
        None => return candidate,
    };
    proof {
        c.lemma_wf_bounds();
    }
    let zone = c.timezone();
    let local = zone.local_seconds(candidate);
    let day = day_of_seconds(local);
    if c.is_working_day(day) {
        return candidate;
    }
    let mut offset: i64 = 1;
    while offset <= 366
        invariant
            1 <= offset <= 367,
            c.wf(),
            zone.view() == c.spec_timezone(),
            zone.wf(),
            day.wf(),
            -92_000_000 <= day.days <= 92_000_000,
            day.days == c.spec_day(candidate as int),
            !c.spec_is_working_day(day),
            calendar == Some(c),
            first_working_after(*c, day.days as int, 1) == first_working_after(*c, day.days as int, offset as int),
            -DEADLINE_INSTANT_LIMIT - 40_000_000 <= candidate <= DEADLINE_INSTANT_LIMIT + 40_000_000,
        decreases 367 - offset,
    {
        let candidate_day = Date { days: day.days + offset };
        if c.is_working_day(candidate_day) {
            let local_end = candidate_day.days * SECONDS_PER_DAY + c.workday_end_min() as i64 * 60;
            let moved = zone.from_local(local_end);
            return moved;
        }
        offset = offset + 1;
    }
    candidate
}

/// Whether an AI hint denotes an instant before `now` (garbled hints are
/// not in the past).
pub fn is_past_hint(hint: &str, now_utc: Timestamp, zone: &TimeZoneName) -> (r: bool)
    requires
        zone.wf(),
    ensures
        r == match parsed_rfc3339(hint@) {
            Some(u) => u < now_utc,
            None => match parsed_date(hint@, "%Y-%m-%d"@) {
                Some(d) => -DEADLINE_DAYS_LIMIT <= d <= DEADLINE_DAYS_LIMIT
                    && eob(d, zone.view(), DEFAULT_END_OF_BUSINESS_MIN as int) < now_utc,
                None => false,
            },
        },
{
    if let Some(u) = parse_rfc3339(hint) {
        return u < now_utc;
    }
    match Date::parse(hint, "%Y-%m-%d") {
        Some(d) => {
            if d.days < -DEADLINE_DAYS_LIMIT || d.days > DEADLINE_DAYS_LIMIT {
                return false;
            }
            end_of_business_utc(d, zone, DEFAULT_END_OF_BUSINESS_MIN) < now_utc
        },
        None => false,
    }
}

proof fn lemma_first_working_after(c: WorkingCalendar, day: int, k: int)
    requires
        1 <= k,
    ensures
        match first_working_after(c, day, k) {
            Some(d) => day + k <= d <= day + 366 && c.spec_is_working_day(Date { days: d as i64 })
                && forall|j: int| day + k <= j < d ==> !(#[trigger] c.spec_is_working_day(Date { days: j as i64 })),
            None => forall|j: int| day + k <= j <= day + 366 ==> !(#[trigger] c.spec_is_working_day(Date { days: j as i64 })),
        },
    decreases 367 - k,
{
    if k <= 366 && !c.spec_is_working_day(Date { days: (day + k) as i64 }) {
        lemma_first_working_after(c, day, k + 1);
    }
}

/// A deadline that falls on a day off moves to the end of business of the
/// first working day after it: that day is a working day, and every day
/// strictly between the two is a day off.
pub proof fn day_off_moves_to_the_next_working_day(t: int, c: WorkingCalendar)
    requires
        !c.spec_is_working_day(Date { days: c.spec_day(t) as i64 }),
        exists|k: int| 1 <= k <= 366 && #[trigger] c.spec_is_working_day(Date { days: (c.spec_day(t) + k) as i64 }),
    ensures
        exists|d: int| {
            &&& calendar_adjusted(t, Some(c)) == #[trigger] eob(d, c.spec_timezone(), c.spec_end_min() as int)
            &&& c.spec_day(t) < d <= c.spec_day(t) + 366
            &&& c.spec_is_working_day(Date { days: d as i64 })
            &&& forall|j: int| c.spec_day(t) < j < d ==> !(#[trigger] c.spec_is_working_day(Date { days: j as i64 }))
        },
{
    let day = c.spec_day(t);
    lemma_first_working_after(c, day, 1);
    let k = choose|k: int| 1 <= k <= 366 && #[trigger] c.spec_is_working_day(Date { days: (day + k) as i64 });
    assert(c.spec_is_working_day(Date { days: (day + k) as i64 }));
    let d = first_working_after(c, day, 1).unwrap();
    assert(calendar_adjusted(t, Some(c)) == eob(d, c.spec_timezone(), c.spec_end_min() as int));
}

} // verus!
