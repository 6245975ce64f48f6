//! Deterministic parsing of a free-text task request: the assignee named at
//! the start, an explicit "no assignee", a deadline phrase, and the
//! remaining description.  The patterns are matched by the `regex` crate.
use vstd::prelude::*;

use crate::domain::errors::{ctx_one, ctx_two, AppError, AppResult, ContextValue, ErrorKind};
use crate::domain::message::ParsedTaskRequest;
use crate::limits::MIN_TASK_DESCRIPTION_LENGTH;
use crate::task_codes::{digits_value, is_digit};
use crate::text::{
    char_is_alphabetic, chars_of, collapse_whitespace, collapse_ws, contains_seq, find_seq, has_prefix,
    is_alpha, lowercase, lowercase_chars, occurs_at, opt_view, split_whitespace, starts_with, string_of,
    trim, trim_chars, words,
};
use crate::time::{valid_ymd, ymd_to_days, Date, DATE_DAYS_MAX, DATE_DAYS_MIN};

verus! {

/// "Name, …" or "Name Surname, …" at the start of the request.
pub const ASSIGNEE_PATTERN: &'static str = r"^(?P<name>[А-ЯЁA-Z][А-ЯЁA-Zа-яёa-z]+(?:\s+[А-ЯЁA-Z][А-ЯЁA-Zа-яёa-z]+)?)\s*,\s*";
/// "@username …" at the start of the request.
pub const ASSIGNEE_USERNAME_PATTERN: &'static str = r"^@(?P<username>[A-Za-z0-9_]{5,32})(?:\s*,\s*|\s+)";
/// An explicit request to leave the task unassigned.
pub const NO_ASSIGNEE_PATTERN: &'static str = r"(?i)\b(без исполнителя|без назначения|no assignee)\b";
/// "до 24.04" / "к 24/04/2026".
pub const ABSOLUTE_DEADLINE_PATTERN: &'static str = r"(?i)\b(?:до|к)\s+(?P<day>\d{1,2})[./](?P<month>\d{1,2})(?:[./](?P<year>\d{4}))?";
/// "сегодня", "завтра", "послезавтра", "срочно".
pub const RELATIVE_DEADLINE_PATTERN: &'static str = r"(?i)\b(?P<raw>сегодня|завтра|послезавтра|срочно)\b";
/// "через N дней" / "через N часов".
pub const IN_PERIOD_PATTERN: &'static str = r"(?i)\bчерез\s+(?P<value>\d+)\s+(?P<unit>дн(?:ей|я)?|час(?:ов|а)?)\b";
/// A weekday, nominative or the forms used after "до" / "к".
pub const WEEKDAY_PATTERN: &'static str = r"(?i)\b(?:до|к)?\s*(?P<raw>понедельник(?:а|у)?|вторник(?:а|у)?|сред[аеыу]|четверг(?:а|у)?|пятниц[аеы]|суббот[аеыу]|воскресень[еяю])\b";

/// Deadlines further than this many days from the epoch are refused.
pub const DEADLINE_DAYS_LIMIT: i64 = 90_000_000;

/// The capture groups (by index; group 0 is the whole match) of the first
/// match of `pattern` in `text`, as the `regex` crate finds it.
pub uninterp spec fn regex_captures(pattern: Seq<char>, text: Seq<char>) -> Option<Seq<Option<Seq<char>>>>;

/// Wraps `regex::Regex::new(pattern)` and `Regex::captures(text)`: the
/// groups of the leftmost-first match, each converted to an owned string.
/// The result is named `regex_captures`; the crate documents group 0 as the
/// whole match, always present.
#[verifier::external_body]
fn captures(pattern: &str, text: &str) -> (r: Option<Vec<Option<String>>>)
    ensures
        match regex_captures(pattern@, text@) {
            Some(groups) => r matches Some(v) && v@.len() == groups.len()
                && (forall|i: int| 0 <= i < groups.len() ==> opt_view(#[trigger] v@[i]) == groups[i]),
            None => r is None,
        },
        r matches Some(v) ==> v@.len() >= 1 && v@[0] is Some,
{
    match regex::Regex::new(pattern) {
        Ok(re) => re.captures(text).map(|caps| caps.iter().map(|m| m.map(|m| m.as_str().to_owned())).collect()),
        Err(_) => None,
    }
}

/// Group `k` of a match, `None` when absent.
pub open spec fn group(c: Seq<Option<Seq<char>>>, k: int) -> Option<Seq<char>> {
    if 0 <= k < c.len() { c[k] } else { None }
}

fn group_exec(c: &Vec<Option<String>>, k: usize) -> (r: Option<String>)
    ensures
        opt_view(r) == (if k < c@.len() { opt_view(c@[k as int]) } else { None }),
{
    if k < c.len() {
        match &c[k] {
            Some(s) => Some(s.clone()),
            None => None,
        }
    } else {
        None
    }
}

/// The groups of a match, as views.
pub open spec fn group_views(v: Seq<Option<String>>) -> Seq<Option<Seq<char>>> {
    v.map_values(|o: Option<String>| opt_view(o))
}

// ── Numbers ───────────────────────────────────────────────────────────────

pub open spec fn all_digits(s: Seq<char>) -> bool {
    forall|i: int| 0 <= i < s.len() ==> is_digit(#[trigger] s[i])
}

/// `str::parse::<u32>`: an optional `+` and at least one ASCII digit,
/// within `u32`.
pub open spec fn u32_text(s: Seq<char>) -> Option<u32> {
    let d = if s.len() > 0 && s[0] == '+' { s.drop_first() } else { s };
    if d.len() > 0 && all_digits(d) && digits_value(d) <= u32::MAX { Some(digits_value(d) as u32) } else { None }
}

/// `str::parse::<i32>`: an optional sign and at least one ASCII digit,
/// within `i32`.
pub open spec fn i32_text(s: Seq<char>) -> Option<i32> {
    let neg = s.len() > 0 && s[0] == '-';
    let d = if s.len() > 0 && (s[0] == '+' || s[0] == '-') { s.drop_first() } else { s };
    if d.len() > 0 && all_digits(d) {
        if neg {
            if digits_value(d) <= 2147483648 { Some((-(digits_value(d) as int)) as i32) } else { None }
        } else {
            if digits_value(d) <= 2147483647 { Some(digits_value(d) as i32) } else { None }
        }
    } else {
        None
    }
}

/// The value of the ASCII digits `d`, or `None` once it exceeds `cap`.
fn digits_upto(d: &Vec<char>, start: usize, cap: u64) -> (r: Option<u64>)
    requires
        start <= d.len(),
        cap <= u32::MAX,
    ensures
        match r {
            Some(v) => all_digits(d@.skip(start as int)) && v == digits_value(d@.skip(start as int)) && v <= cap,
            None => !all_digits(d@.skip(start as int)) || digits_value(d@.skip(start as int)) > cap,
        },
{
    let ghost t = d@.skip(start as int);
    let mut value: u64 = 0;
    let mut i = start;
    while i < d.len()
        invariant
            start <= i <= d.len(),
            cap <= u32::MAX,
            t == d@.skip(start as int),
            all_digits(t.take(i - start)),
            value == digits_value(t.take(i - start)),
            value <= cap,
        decreases d.len() - i,
    {
        let c = d[i];
        proof {
            assert(t.take(i - start + 1).drop_last() =~= t.take(i - start));
            assert(t.take(i - start + 1).last() == c);
        }
        if !('0' <= c && c <= '9') {
            proof {
                assert(!is_digit(t[i - start]));
            }
            return None;
        }
        value = value * 10 + ((c as u32) - 48) as u64;
        if value > cap {
            proof {
                lemma_digits_grow(t, (i - start + 1) as int);
            }
            return None;
        }
        i = i + 1;
    }
    assert(t.take(d.len() - start) =~= t);
    Some(value)
}

/// Appending digits never decreases the value.
proof fn lemma_digits_grow(t: Seq<char>, k: int)
    requires
        0 <= k <= t.len(),
    ensures
        all_digits(t) ==> digits_value(t) >= digits_value(t.take(k)),
    decreases t.len() - k,
{
    if k < t.len() {
        lemma_digits_grow(t, k + 1);
        assert(t.take(k + 1).drop_last() =~= t.take(k));
        if all_digits(t) {
            assert(is_digit(t[k]));
            assert(t.take(k + 1).last() == t[k]);
            assert(digits_value(t.take(k + 1)) == digits_value(t.take(k)) * 10 + ((t[k] as u32) - 48) as nat);
        }
    } else {
        assert(t.take(k) =~= t);
    }
}

pub fn parse_u32_text(s: &Vec<char>) -> (r: Option<u32>)
    ensures
        r == u32_text(s@),
{
    let start: usize = if s.len() > 0 && s[0] == '+' { 1 } else { 0 };
    proof {
        if start == 1 {
            assert(s@.skip(1) =~= s@.drop_first());
        } else {
            assert(s@.skip(0) =~= s@);
        }
    }
    if start >= s.len() {
        return None;
    }
    match digits_upto(s, start, 4294967295) {
        Some(v) => Some(v as u32),
        None => None,
    }
}

pub fn parse_i32_text(s: &Vec<char>) -> (r: Option<i32>)
    ensures
        r == i32_text(s@),
{
    let neg = s.len() > 0 && s[0] == '-';
    let start: usize = if s.len() > 0 && (s[0] == '+' || s[0] == '-') { 1 } else { 0 };
    proof {
        if start == 1 {
            assert(s@.skip(1) =~= s@.drop_first());
        } else {
            assert(s@.skip(0) =~= s@);
        }
    }
    if start >= s.len() {
        return None;
    }
    let cap: u64 = if neg { 2147483648 } else { 2147483647 };
    match digits_upto(s, start, cap) {
        Some(v) => {
            if neg {
                Some((0 - (v as i64)) as i32)
            } else {
                Some(v as i32)
            }
        },
        None => None,
    }
}

// ── Assignee ──────────────────────────────────────────────────────────────

/// The assignee named at the start and the matched fragment: a username
/// (trimmed) first, else a capitalised name (whitespace collapsed).
pub open spec fn spec_extract_assignee(nm: Seq<char>) -> (Option<Seq<char>>, Option<Seq<char>>) {
    let by_user = regex_captures(ASSIGNEE_USERNAME_PATTERN@, nm);
    let by_name = regex_captures(ASSIGNEE_PATTERN@, nm);
    if by_user is Some && group(by_user.unwrap(), 1) is Some {
        (Some(trim(group(by_user.unwrap(), 1).unwrap())), group(by_user.unwrap(), 0))
    } else if by_name is Some && group(by_name.unwrap(), 1) is Some {
        (Some(collapse_ws(group(by_name.unwrap(), 1).unwrap())), group(by_name.unwrap(), 0))
    } else {
        (None, None)
    }
}

fn extract_assignee(nm: &String) -> (r: (Option<String>, Option<String>))
    ensures
        (opt_view(r.0), opt_view(r.1)) == spec_extract_assignee(nm@),
{
    if let Some(c) = captures(ASSIGNEE_USERNAME_PATTERN, nm.as_str()) {
        let ghost g = group_views(c@);
        assert(g =~= regex_captures(ASSIGNEE_USERNAME_PATTERN@, nm@).unwrap());
        if let Some(username) = group_exec(&c, 1) {
            let whole = group_exec(&c, 0);
            let name = string_of(trim_chars(&chars_of(username.as_str())).as_slice());
            return (Some(name), whole);
        }
    }
    if let Some(c) = captures(ASSIGNEE_PATTERN, nm.as_str()) {
        let ghost g = group_views(c@);
        assert(g =~= regex_captures(ASSIGNEE_PATTERN@, nm@).unwrap());
        if let Some(name) = group_exec(&c, 1) {
            let whole = group_exec(&c, 0);
            let collapsed = string_of(collapse_whitespace(&chars_of(name.as_str())).as_slice());
            return (Some(collapsed), whole);
        }
    }
    (None, None)
}

// ── Deadline ──────────────────────────────────────────────────────────────

/// A parsed deadline phrase: the date and the fragment it came from, or
/// the field that could not be read.
pub enum DeadlineParse {
    Found(Date, Seq<char>),
    NotFound,
    Invalid(Seq<char>),
}

/// A day number usable as a deadline.
pub open spec fn deadline_in_range(days: int) -> bool {
    -DEADLINE_DAYS_LIMIT <= days <= DEADLINE_DAYS_LIMIT
}

/// "до DD.MM[.YYYY]": the date in the given or current year.
pub open spec fn spec_absolute(n: Seq<char>, today: Date) -> DeadlineParse {
    let today_year = crate::time::days_to_ymd(today.days as int).0;
    match regex_captures(ABSOLUTE_DEADLINE_PATTERN@, n) {
        None => DeadlineParse::NotFound,
        Some(c) => {
            let raw = trim(group(c, 0).unwrap_or(seq![]));
            let day = match group(c, 1) { Some(t) => u32_text(t), None => None };
            let month = match group(c, 2) { Some(t) => u32_text(t), None => None };
            let year: Option<int> = match group(c, 3) {
                Some(t) => match i32_text(t) { Some(y) => Some(y as int), None => None },
                None => Some(today_year),
            };
            if day is None {
                DeadlineParse::Invalid("day"@)
            } else if month is None {
                DeadlineParse::Invalid("month"@)
            } else if year is None {
                DeadlineParse::Invalid("year"@)
            } else if !valid_ymd(year.unwrap(), month.unwrap() as int, day.unwrap() as int) {
                DeadlineParse::Invalid("date"@)
            } else {
                let days = ymd_to_days(year.unwrap(), month.unwrap() as int, day.unwrap() as int);
                if deadline_in_range(days) {
                    DeadlineParse::Found(Date { days: days as i64 }, raw)
                } else {
                    DeadlineParse::Invalid("date"@)
                }
            }
        },
    }
}

/// "сегодня"/"срочно" is today, "завтра" tomorrow, "послезавтра" the day
/// after; the fragment is kept lower-cased.
pub open spec fn spec_relative(n: Seq<char>, today: Date) -> DeadlineParse {
    match regex_captures(RELATIVE_DEADLINE_PATTERN@, n) {
        Some(c) => match group(c, 1) {
            Some(raw0) => {
                let raw = lowercase(raw0);
                if raw == "сегодня"@ || raw == "срочно"@ {
                    DeadlineParse::Found(today, raw)
                } else if raw == "завтра"@ {
                    DeadlineParse::Found(Date { days: (today.days + 1) as i64 }, raw)
                } else if raw == "послезавтра"@ {
                    DeadlineParse::Found(Date { days: (today.days + 2) as i64 }, raw)
                } else {
                    DeadlineParse::NotFound
                }
            },
            None => DeadlineParse::NotFound,
        },
        None => DeadlineParse::NotFound,
    }
}

/// Days of "через N часов": hours rounded up to whole days, at least one.
pub open spec fn hours_to_days(value: u32) -> int {
    let sat: int = if value as int + 23 > u32::MAX { u32::MAX as int } else { value as int + 23 };
    let rounded = sat / 24;
    if rounded < 1 { 1 } else { rounded }
}

/// "через N дней" adds N days; "через N часов" adds the hours rounded up
/// to days.
pub open spec fn spec_period(n: Seq<char>, today: Date) -> DeadlineParse {
    match regex_captures(IN_PERIOD_PATTERN@, n) {
        None => DeadlineParse::NotFound,
        Some(c) => {
            let raw = trim(group(c, 0).unwrap_or(seq![]));
            let value = match group(c, 1) { Some(t) => u32_text(t), None => None };
            let unit = group(c, 2).unwrap_or(seq![]);
            match value {
                None => DeadlineParse::Invalid("value"@),
                Some(v) => {
                    let add: int = if has_prefix(unit, "дн"@) { v as int } else { hours_to_days(v) };
                    if deadline_in_range(today.days + add) {
                        DeadlineParse::Found(Date { days: (today.days + add) as i64 }, raw)
                    } else {
                        DeadlineParse::Invalid("value"@)
                    }
                },
            }
        },
    }
}

/// Weekday number (Monday = 0) of a weekday word, by its stem.
pub open spec fn weekday_of_word(w: Seq<char>) -> Option<int> {
    let l = lowercase(w);
    if has_prefix(l, "понедельник"@) {
        Some(0)
    } else if has_prefix(l, "вторник"@) {
        Some(1)
    } else if has_prefix(l, "сред"@) {
        Some(2)
    } else if has_prefix(l, "четверг"@) {
        Some(3)
    } else if has_prefix(l, "пятниц"@) {
        Some(4)
    } else if has_prefix(l, "суббот"@) {
        Some(5)
    } else if has_prefix(l, "воскресень"@) {
        Some(6)
    } else {
        None
    }
}

/// Days from weekday `current` to the next `target` (a full week when they
/// are the same day).
pub open spec fn days_until(current: int, target: int) -> int {
    let d = (target + 7 - current) % 7;
    if d == 0 { 7 } else { d }
}

/// The next occurrence of a named weekday.
pub open spec fn spec_weekday(n: Seq<char>, today: Date) -> DeadlineParse {
    match regex_captures(WEEKDAY_PATTERN@, n) {
        Some(c) => match group(c, 1) {
            Some(raw) => match weekday_of_word(raw) {
                Some(w) => DeadlineParse::Found(Date { days: (today.days + days_until(today.spec_weekday(), w)) as i64 }, raw),
                None => DeadlineParse::NotFound,
            },
            None => DeadlineParse::NotFound,
        },
        None => DeadlineParse::NotFound,
    }
}

/// The first deadline phrase found, tried as an absolute date, a relative
/// word, a period, then a weekday.
pub open spec fn spec_deadline(text: Seq<char>, today: Date) -> DeadlineParse {
    let n = collapse_ws(text);
    match spec_absolute(n, today) {
        DeadlineParse::NotFound => match spec_relative(n, today) {
            DeadlineParse::NotFound => match spec_period(n, today) {
                DeadlineParse::NotFound => spec_weekday(n, today),
                other => other,
            },
            other => other,
        },
        other => other,
    }
}

/// `r` is what extracting a deadline from `text` gives.
pub open spec fn deadline_result_ok(r: AppResult<(Option<Date>, Option<String>)>, text: Seq<char>, today: Date) -> bool {
    match spec_deadline(text, today) {
        DeadlineParse::Found(d, raw) => r matches Ok((date, fragment)) && date == Some(d) && opt_view(fragment) == Some(raw),
        DeadlineParse::NotFound => r matches Ok((date, fragment)) && date is None && fragment is None,
        DeadlineParse::Invalid(_) => r matches Err(e) && is_deadline_error(e),
    }
}

/// The error of a deadline that was written but cannot be read.
pub open spec fn is_deadline_error(e: AppError) -> bool {
    e.is_error(ErrorKind::Validation, "DEADLINE_INVALID"@) && e.message_view() == "Deadline cannot be parsed"@
}

fn invalid_deadline_error(field: &str, raw: &str) -> (r: AppError)
    ensures
        is_deadline_error(r),
{
    AppError::schema_validation(
        "DEADLINE_INVALID",
        String::from_str("Deadline cannot be parsed"),
        ctx_two("field", ContextValue::Text(String::from_str(field)), "raw", ContextValue::Text(String::from_str(raw))),
    )
}

fn text_of(o: &Option<String>) -> (r: Vec<char>)
    ensures
        r@ == match opt_view(*o) { Some(s) => s, None => Seq::<char>::empty() },
{
    match o {
        Some(s) => chars_of(s.as_str()),
        None => Vec::new(),
    }
}

fn parse_absolute(n: &String, today: Date) -> (r: AppResult<Option<(Option<Date>, Option<String>)>>)
    requires
        today.wf(),
    ensures
        match spec_absolute(n@, today) {
            DeadlineParse::Found(d, raw) => r matches Ok(Some((date, fragment))) && date == Some(d) && opt_view(fragment) == Some(raw),
            DeadlineParse::NotFound => r matches Ok(None),
            DeadlineParse::Invalid(_) => r matches Err(e) && is_deadline_error(e),
        },
{
    let c = match captures(ABSOLUTE_DEADLINE_PATTERN, n.as_str()) {
        Some(c) => c,
        None => return Ok(None),
    };
    let ghost g = group_views(c@);
    assert(g =~= regex_captures(ABSOLUTE_DEADLINE_PATTERN@, n@).unwrap());
    let raw_vec = trim_chars(&text_of(&group_exec(&c, 0)));
    let raw = string_of(raw_vec.as_slice());
    let day = match group_exec(&c, 1) {
        Some(t) => parse_u32_text(&chars_of(t.as_str())),
        None => None,
    };
    let day = match day {
        Some(d) => d,
        None => return Err(invalid_deadline_error("day", raw.as_str())),
    };
    let month = match group_exec(&c, 2) {
        Some(t) => parse_u32_text(&chars_of(t.as_str())),
        None => None,
    };
    let month = match month {
        Some(m) => m,
        None => return Err(invalid_deadline_error("month", raw.as_str())),
    };
    let year = match group_exec(&c, 3) {
        Some(t) => parse_i32_text(&chars_of(t.as_str())),
        None => Some(today.ymd().0),
    };
    let year = match year {
        Some(y) => y,
        None => return Err(invalid_deadline_error("year", raw.as_str())),
    };
    match Date::from_ymd(year, month, day) {
        Some(date) => {
            if date.days < -DEADLINE_DAYS_LIMIT || date.days > DEADLINE_DAYS_LIMIT {
                return Err(invalid_deadline_error("date", raw.as_str()));
            }
            Ok(Some((Some(date), Some(raw))))
        },
        None => Err(invalid_deadline_error("date", raw.as_str())),
    }
}

fn parse_relative(n: &String, today: Date) -> (r: Option<(Option<Date>, Option<String>)>)
    requires
        today.wf(),
    ensures
        match spec_relative(n@, today) {
            DeadlineParse::Found(d, raw) => r matches Some((date, fragment)) && date == Some(d) && opt_view(fragment) == Some(raw),
            _ => r is None,
        },
{
    let c = match captures(RELATIVE_DEADLINE_PATTERN, n.as_str()) {
        Some(c) => c,
        None => return None,
    };
    let ghost g = group_views(c@);
    assert(g =~= regex_captures(RELATIVE_DEADLINE_PATTERN@, n@).unwrap());
    let raw0 = match group_exec(&c, 1) {
        Some(t) => t,
        None => return None,
    };
    let raw = lowercase_chars(&chars_of(raw0.as_str()));
    let raw_text = string_of(raw.as_slice());
    if crate::text::str_equal(raw_text.as_str(), "сегодня") || crate::text::str_equal(raw_text.as_str(), "срочно") {
        return Some((Some(today), Some(raw_text)));
    }
    if crate::text::str_equal(raw_text.as_str(), "завтра") {
        return Some((Some(Date { days: today.days + 1 }), Some(raw_text)));
    }
    if crate::text::str_equal(raw_text.as_str(), "послезавтра") {
        return Some((Some(Date { days: today.days + 2 }), Some(raw_text)));
    }
    None
}

fn parse_period(n: &String, today: Date) -> (r: AppResult<Option<(Option<Date>, Option<String>)>>)
    requires
        today.wf(),
    ensures
        match spec_period(n@, today) {
            DeadlineParse::Found(d, raw) => r matches Ok(Some((date, fragment))) && date == Some(d) && opt_view(fragment) == Some(raw),
            DeadlineParse::NotFound => r matches Ok(None),
            DeadlineParse::Invalid(_) => r matches Err(e) && is_deadline_error(e),
        },
{
    let c = match captures(IN_PERIOD_PATTERN, n.as_str()) {
        Some(c) => c,
        None => return Ok(None),
    };
    let ghost g = group_views(c@);
    assert(g =~= regex_captures(IN_PERIOD_PATTERN@, n@).unwrap());
    let raw = string_of(trim_chars(&text_of(&group_exec(&c, 0))).as_slice());
    let value = match group_exec(&c, 1) {
        Some(t) => parse_u32_text(&chars_of(t.as_str())),
        None => None,
    };
    let value = match value {
        Some(v) => v,
        None => return Err(invalid_deadline_error("value", raw.as_str())),
    };
    let unit = text_of(&group_exec(&c, 2));
    let add: i64 = if starts_with(&unit, &chars_of("дн")) {
        value as i64
    } else {
        let sat: u32 = if value > u32::MAX - 23 { u32::MAX } else { value + 23 };
        let rounded = (sat / 24) as i64;
        if rounded < 1 { 1 } else { rounded }
    };
    let days = today.days + add;
    if days < -DEADLINE_DAYS_LIMIT || days > DEADLINE_DAYS_LIMIT {
        return Err(invalid_deadline_error("value", raw.as_str()));
    }
    Ok(Some((Some(Date { days }), Some(raw))))
}

fn weekday_from_russian(word: &String) -> (r: Option<u32>)
    ensures
        match weekday_of_word(word@) {
            Some(w) => r == Some(w as u32),
            None => r is None,
        },
{
    let l = lowercase_chars(&chars_of(word.as_str()));
    if starts_with(&l, &chars_of("понедельник")) {
        return Some(0);
    }
    if starts_with(&l, &chars_of("вторник")) {
        return Some(1);
    }
    if starts_with(&l, &chars_of("сред")) {
        return Some(2);
    }
    if starts_with(&l, &chars_of("четверг")) {
        return Some(3);
    }
    if starts_with(&l, &chars_of("пятниц")) {
        return Some(4);
    }
    if starts_with(&l, &chars_of("суббот")) {
        return Some(5);
    }
    if starts_with(&l, &chars_of("воскресень")) {
        return Some(6);
    }
    None
}

pub fn days_until_weekday(current: u32, target: u32) -> (r: u32)
    requires
        current < 7,
        target < 7,
    ensures
        r == days_until(current as int, target as int),
        1 <= r <= 7,
{
    let distance = (target + 7 - current) % 7;
    if distance == 0 { 7 } else { distance }
}

fn parse_weekday(n: &String, today: Date) -> (r: (Option<Date>, Option<String>))
    requires
        today.wf(),
        -DEADLINE_DAYS_LIMIT <= today.days <= DEADLINE_DAYS_LIMIT,
    ensures
        match spec_weekday(n@, today) {
            DeadlineParse::Found(d, raw) => r.0 == Some(d) && opt_view(r.1) == Some(raw),
            _ => r.0 is None && r.1 is None,
        },
{
    let c = match captures(WEEKDAY_PATTERN, n.as_str()) {
        Some(c) => c,
        None => return (None, None),
    };
    let ghost g = group_views(c@);
    assert(g =~= regex_captures(WEEKDAY_PATTERN@, n@).unwrap());
    let raw = match group_exec(&c, 1) {
        Some(t) => t,
        None => return (None, None),
    };
    let target = match weekday_from_russian(&raw) {
        Some(w) => w,
        None => return (None, None),
    };
    let until = days_until_weekday(today.weekday(), target);
    (Some(Date { days: today.days + until as i64 }), Some(raw))
}

/// Extracts the first deadline phrase of `message_text`, relative to
/// `today`.
pub fn extract_deadline_from_text(message_text: &str, today: Date) -> (r: AppResult<(Option<Date>, Option<String>)>)
    requires
        today.wf(),
        -DEADLINE_DAYS_LIMIT <= today.days <= DEADLINE_DAYS_LIMIT,
    ensures
        deadline_result_ok(r, message_text@, today),
{
    let normalized = string_of(collapse_whitespace(&chars_of(message_text)).as_slice());
    if let Some(parsed) = parse_absolute(&normalized, today)? {
        return Ok(parsed);
    }
    if let Some(parsed) = parse_relative(&normalized, today) {
        return Ok(parsed);
    }
    if let Some(parsed) = parse_period(&normalized, today)? {
        return Ok(parsed);
    }
    Ok(parse_weekday(&normalized, today))
}

// ── Description ───────────────────────────────────────────────────────────

/// `s` with its first occurrence of `f` removed (`str::replacen(f, "", 1)`).
pub open spec fn remove_first(s: Seq<char>, f: Seq<char>) -> Seq<char> {
    if contains_seq(s, f) {
        let i = choose|i: int| occurs_at(s, f, i) && forall|j: int| 0 <= j < i ==> !occurs_at(s, f, j);
        s.take(i) + s.skip(i + f.len())
    } else {
        s
    }
}

fn remove_first_exec(s: &Vec<char>, f: &Vec<char>) -> (r: Vec<char>)
    ensures
        r@ == remove_first(s@, f@),
{
    match find_seq(s, f) {
        Some(i) => {
            proof {
                let k = choose|k: int| occurs_at(s@, f@, k) && forall|j: int| 0 <= j < k ==> !occurs_at(s@, f@, j);
                assert(occurs_at(s@, f@, i as int));
                assert(k == i) by {
                    if k < i {
                        assert(!occurs_at(s@, f@, k));
                    } else if k > i {
                        assert(!occurs_at(s@, f@, i as int));
                    }
                }
            }
            let mut out: Vec<char> = Vec::new();
            let mut j: usize = 0;
            while j < i
                invariant
                    j <= i,
                    i + f@.len() <= s@.len(),
                    out@ == s@.take(j as int),
                decreases i - j,
            {
                out.push(s[j]);
                j = j + 1;
                assert(out@ =~= s@.take(j as int));
            }
            let total = s.len();
            let flen = f.len();
            assert(i + flen <= total);
            let mut k = i + flen;
            let ghost mid = out@;
            while k < s.len()
                invariant
                    i + f@.len() <= k <= s@.len(),
                    mid == s@.take(i as int),
                    out@ == mid + s@.subrange(i + f@.len(), k as int),
                decreases s.len() - k,
            {
                out.push(s[k]);
                k = k + 1;
                assert(out@ =~= mid + s@.subrange(i + f@.len(), k as int));
            }
            assert(s@.subrange(i + f@.len(), s@.len() as int) =~= s@.skip(i + f@.len()));
            out
        },
        None => {
            let mut out: Vec<char> = Vec::new();
            let mut j: usize = 0;
            while j < s.len()
                invariant
                    j <= s.len(),
                    out@ == s@.take(j as int),
                decreases s.len() - j,
            {
                out.push(s[j]);
                j = j + 1;
                assert(out@ =~= s@.take(j as int));
            }
            assert(s@.take(s.len() as int) =~= s@);
            out
        },
    }
}

pub open spec fn is_punct(c: char) -> bool {
    c == '.' || c == ','
}

/// `s` without leading `.` and `,`.
pub open spec fn strip_punct_start(s: Seq<char>) -> Seq<char>
    decreases s.len(),
{
    if s.len() > 0 && is_punct(s[0]) { strip_punct_start(s.drop_first()) } else { s }
}

/// `s` without trailing `.` and `,`.
pub open spec fn strip_punct_end(s: Seq<char>) -> Seq<char>
    decreases s.len(),
{
    if s.len() > 0 && is_punct(s.last()) { strip_punct_end(s.drop_last()) } else { s }
}

fn strip_punct(s: &Vec<char>) -> (r: Vec<char>)
    ensures
        r@ == strip_punct_end(strip_punct_start(s@)),
{
    let mut a: usize = 0;
    assert(s@.skip(0) =~= s@);
    while a < s.len() && (s[a] == '.' || s[a] == ',')
        invariant
            a <= s.len(),
            strip_punct_start(s@) == strip_punct_start(s@.skip(a as int)),
        decreases s.len() - a,
    {
        proof {
            assert(s@.skip(a as int).drop_first() =~= s@.skip(a + 1));
        }
        a = a + 1;
    }
    let ghost t = s@.skip(a as int);
    proof {
        if a < s.len() {
            assert(t[0] == s@[a as int]);
        }
        assert(strip_punct_start(t) == t);
    }
    let mut b: usize = s.len();
    assert(t.take(t.len() as int) =~= t);
    while b > a && (s[b - 1] == '.' || s[b - 1] == ',')
        invariant
            a <= b <= s.len(),
            t == s@.skip(a as int),
            strip_punct_end(t) == strip_punct_end(t.take(b - a)),
        decreases b,
    {
        proof {
            assert(t.take(b - a).drop_last() =~= t.take(b - a - 1));
            assert(t.take(b - a).last() == s@[b - 1]);
        }
        b = b - 1;
    }
    proof {
        if b > a {
            assert(t.take(b - a).last() == s@[b - 1]);
        }
        assert(strip_punct_end(t.take(b - a)) == t.take(b - a));
    }
    let mut out: Vec<char> = Vec::new();
    let mut i = a;
    while i < b
        invariant
            a <= i <= b <= s.len(),
            t == s@.skip(a as int),
            out@ == t.take(i - a),
        decreases b - i,
    {
        out.push(s[i]);
        i = i + 1;
        assert(out@ =~= t.take(i - a));
    }
    out
}

/// The request with the assignee fragment and the deadline fragment cut out
/// (first occurrences), `.`/`,` trimmed from both ends, whitespace collapsed.
pub open spec fn spec_description(nm: Seq<char>, assignee: Option<Seq<char>>, deadline: Option<Seq<char>>) -> Seq<char> {
    let a = match assignee { Some(f) => remove_first(nm, f), None => nm };
    let b = match deadline { Some(f) => remove_first(a, f), None => a };
    collapse_ws(strip_punct_end(strip_punct_start(b)))
}

fn build_description(nm: &Vec<char>, assignee: &Option<String>, deadline: &Option<String>) -> (r: Vec<char>)
    ensures
        r@ == spec_description(nm@, opt_view(*assignee), opt_view(*deadline)),
{
    let a = match assignee {
        Some(f) => remove_first_exec(nm, &chars_of(f.as_str())),
        None => remove_first_exec(nm, &Vec::new()),
    };
    proof {
        if assignee is None {
            assert(occurs_at(nm@, Seq::<char>::empty(), 0)) by {
                assert(nm@.subrange(0, 0) =~= Seq::<char>::empty());
            }
            assert(nm@.take(0) + nm@.skip(0) =~= nm@);
        }
    }
    let b = match deadline {
        Some(f) => remove_first_exec(&a, &chars_of(f.as_str())),
        None => remove_first_exec(&a, &Vec::new()),
    };
    proof {
        if deadline is None {
            assert(occurs_at(a@, Seq::<char>::empty(), 0)) by {
                assert(a@.subrange(0, 0) =~= Seq::<char>::empty());
            }
            assert(a@.take(0) + a@.skip(0) =~= a@);
        }
    }
    collapse_whitespace(&strip_punct(&b))
}

/// Letters in `s`.
pub open spec fn alpha_count(s: Seq<char>) -> nat
    decreases s.len(),
{
    if s.len() == 0 { 0 } else { alpha_count(s.drop_last()) + (if is_alpha(s.last()) { 1nat } else { 0 }) }
}

/// The rule a description breaks: too short, or too few letters or words.
pub open spec fn description_violation(d: Seq<char>) -> Option<Seq<char>> {
    if d.len() < MIN_TASK_DESCRIPTION_LENGTH {
        Some("TASK_DESCRIPTION_TOO_SHORT"@)
    } else if alpha_count(d) < MIN_TASK_DESCRIPTION_LENGTH || words(d).len() < 2 {
        Some("TASK_DESCRIPTION_INVALID"@)
    } else {
        None
    }
}

/// The message that goes with `description_violation`.
pub open spec fn description_message(d: Seq<char>) -> Seq<char> {
    if d.len() < MIN_TASK_DESCRIPTION_LENGTH {
        "Task description is too short"@
    } else {
        "Task description looks incomplete or gibberish"@
    }
}

pub fn validate_description(description: &Vec<char>) -> (r: AppResult<()>)
    ensures
        r is Ok <==> description_violation(description@) is None,
        r matches Err(e) ==> e.kind() == ErrorKind::Validation && Some(e.code_view()) == description_violation(description@),
        r matches Err(e) ==> e.message_view() == description_message(description@),
{
    if description.len() < MIN_TASK_DESCRIPTION_LENGTH {
        return Err(AppError::business_rule(
            "TASK_DESCRIPTION_TOO_SHORT",
            String::from_str("Task description is too short"),
            ctx_one("min_length", ContextValue::Int(MIN_TASK_DESCRIPTION_LENGTH as i64)),
        ));
    }
    let mut letters: usize = 0;
    let mut i: usize = 0;
    while i < description.len()
        invariant
            i <= description.len(),
            letters == alpha_count(description@.take(i as int)),
            letters <= i,
        decreases description.len() - i,
    {
        proof {
            assert(description@.take(i + 1).drop_last() =~= description@.take(i as int));
        }
        if char_is_alphabetic(description[i]) {
            letters = letters + 1;
        }
        i = i + 1;
    }
    assert(description@.take(description.len() as int) =~= description@);
    let tokens = split_whitespace(description);
    if letters < MIN_TASK_DESCRIPTION_LENGTH || tokens.len() < 2 {
        return Err(AppError::business_rule(
            "TASK_DESCRIPTION_INVALID",
            String::from_str("Task description looks incomplete or gibberish"),
            ctx_one("description", ContextValue::Text(string_of(description.as_slice()))),
        ));
    }
    Ok(())
}

/// 60, plus 20 for a named assignee and 20 for a deadline.
pub open spec fn confidence_of(has_assignee: bool, has_deadline: bool) -> u8 {
    (60 + (if has_assignee { 20int } else { 0 }) + (if has_deadline { 20int } else { 0 })) as u8
}

pub fn calculate_confidence(has_assignee: bool, has_deadline: bool) -> (r: u8)
    ensures
        r == confidence_of(has_assignee, has_deadline),
{
    let mut score: u8 = 60;
    if has_assignee {
        score = score + 20;
    }
    if has_deadline {
        score = score + 20;
    }
    score
}

// ── The request ───────────────────────────────────────────────────────────

/// `r` is the parse of `text` on `today`: the request's parts from the
/// whitespace-normalised text, or the first error (deadline, then
/// description).
pub open spec fn request_ok(r: AppResult<ParsedTaskRequest>, text: Seq<char>, today: Date) -> bool {
    let nm = collapse_ws(text);
    let (assignee, fragment) = spec_extract_assignee(nm);
    let unassigned = regex_captures(NO_ASSIGNEE_PATTERN@, nm) is Some;
    match spec_deadline(nm, today) {
        DeadlineParse::Invalid(_) => r matches Err(e) && is_deadline_error(e),
        parse => {
            let (deadline, raw) = match parse {
                DeadlineParse::Found(d, raw) => (Some(d), Some(raw)),
                _ => (None, None),
            };
            let description = spec_description(nm, fragment, raw);
            match description_violation(description) {
                Some(code) => r matches Err(e) && e.kind() == ErrorKind::Validation && e.code_view() == code
                    && e.message_view() == description_message(description),
                None => r matches Ok(p) && {
                    &&& opt_view(p.assignee_name) == assignee
                    &&& p.task_description@ == description
                    &&& p.deadline == deadline
                    &&& opt_view(p.deadline_raw) == raw
                    &&& p.explicit_unassigned == unassigned
                    &&& p.confidence_score == confidence_of(fragment is Some, deadline is Some)
                },
            }
        },
    }
}

/// Parses a free-text task request relative to `today`.
pub fn parse_task_request(message_text: &str, today: Date) -> (r: AppResult<ParsedTaskRequest>)
    requires
        today.wf(),
        -DEADLINE_DAYS_LIMIT <= today.days <= DEADLINE_DAYS_LIMIT,
    ensures
        request_ok(r, message_text@, today),
{
    let nm_chars = collapse_whitespace(&chars_of(message_text));
    let nm = string_of(nm_chars.as_slice());
    let (assignee_name, assignee_fragment) = extract_assignee(&nm);
    let explicit_unassigned = captures(NO_ASSIGNEE_PATTERN, nm.as_str()).is_some();
    let (deadline, deadline_raw) = extract_deadline_from_text(nm.as_str(), today)?;
    let description = build_description(&nm_chars, &assignee_fragment, &deadline_raw);
    validate_description(&description)?;
    let confidence_score = calculate_confidence(assignee_fragment.is_some(), deadline.is_some());
    Ok(ParsedTaskRequest {
        assignee_name,
        task_description: string_of(description.as_slice()),
        deadline,
        deadline_raw,
        explicit_unassigned,
        confidence_score,
    })
}

/// The relative words name three different days: "сегодня" and "срочно"
/// today, "завтра" the next day and "послезавтра" the day after it.
pub proof fn relative_words_count_days_from_today(n: Seq<char>, today: Date)
    requires
        today.wf(),
    ensures
        spec_relative(n, today) matches DeadlineParse::Found(d, raw) ==> {
            &&& (raw == "сегодня"@ || raw == "срочно"@) ==> d.days == today.days
            &&& raw == "завтра"@ ==> d.days == today.days + 1
            &&& raw == "послезавтра"@ ==> d.days == today.days + 2
        },
{
    reveal_strlit("сегодня");
    reveal_strlit("срочно");
    reveal_strlit("завтра");
    reveal_strlit("послезавтра");
    assert("сегодня"@.len() == 7 && "срочно"@.len() == 6 && "завтра"@.len() == 6 && "послезавтра"@.len() == 11);
    assert("срочно"@[0] != "завтра"@[0]);
    assert("срочно"@ != "завтра"@);
    assert("сегодня"@ != "завтра"@);
    assert("сегодня"@ != "послезавтра"@);
    assert("срочно"@ != "послезавтра"@);
    assert("завтра"@ != "послезавтра"@);
}

/// A relative-day or "через …" deadline never lies before today.
pub proof fn relative_and_period_deadlines_lie_ahead(n: Seq<char>, today: Date)
    requires
        today.wf(),
    ensures
        spec_relative(n, today) matches DeadlineParse::Found(d, _) ==> today.days <= d.days <= today.days + 2,
        spec_period(n, today) matches DeadlineParse::Found(d, _) ==> today.days <= d.days,
{
    match regex_captures(IN_PERIOD_PATTERN@, n) {
        Some(c) => {
            match group(c, 1) {
                Some(t) => match u32_text(t) {
                    Some(v) => {
                        assert(hours_to_days(v) >= 1);
                    },
                    None => {},
                },
                None => {},
            }
        },
        None => {},
    }
}

} // verus!
