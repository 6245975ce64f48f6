//! Task templates and recurrence rules: validated template codes, CRON
//! expressions and the time zone they fire in.
use vstd::prelude::*;

use crate::domain::errors::{ctx_empty, ctx_one, AppError, AppResult, ContextValue, ErrorKind};
use crate::text::{chars_of, is_ascii_alnum, string_of, trim, trim_str};
use crate::time::{tz_known, TimeZoneName, Timestamp, TIMESTAMP_LIMIT};

verus! {

pub const MIN_TEMPLATE_CODE_LEN: usize = 2;
pub const MAX_TEMPLATE_CODE_LEN: usize = 32;
pub const MAX_TEMPLATE_TITLE_LEN: usize = 200;

/// The stored payload of a template.
#[derive(Debug)]
pub struct TaskTemplateBody {
    pub description: String,
    pub acceptance_criteria: Vec<String>,
    pub expected_result: String,
    pub tags: Vec<String>,
}

/// Template metadata and body.
#[derive(Debug)]
pub struct TaskTemplate {
    pub id: Option<i64>,
    pub code: TemplateCode,
    pub title: String,
    pub body: TaskTemplateBody,
    pub created_by_user_id: Option<i64>,
    pub is_active: bool,
    pub created_at: Timestamp,
    pub updated_at: Timestamp,
}

/// A slug of ASCII letters, digits, `_` and `-`, safe in callback data.
#[derive(Debug)]
pub struct TemplateCode(String);

pub open spec fn is_code_char(c: char) -> bool {
    is_ascii_alnum(c) || c == '_' || c == '-'
}

/// The code of the rule a trimmed template code breaks, if any.
pub open spec fn template_code_violation(t: Seq<char>) -> Option<Seq<char>> {
    if !(MIN_TEMPLATE_CODE_LEN <= t.len() <= MAX_TEMPLATE_CODE_LEN) {
        Some("TEMPLATE_CODE_INVALID_LENGTH"@)
    } else if exists|i: int| 0 <= i < t.len() && !is_code_char(#[trigger] t[i]) {
        Some("TEMPLATE_CODE_INVALID_CHARACTERS"@)
    } else {
        None
    }
}

impl TemplateCode {
    pub closed spec fn view(&self) -> Seq<char> {
        self.0@
    }

    /// Trims the raw code and checks its length and characters.
    pub fn parse(raw: &str) -> (r: AppResult<TemplateCode>)
        ensures
            r is Ok <==> template_code_violation(trim(raw@)) is None,
            r matches Ok(c) ==> c.view() == trim(raw@),
            r matches Err(e) ==> e.kind() == ErrorKind::Validation
                && Some(e.code_view()) == template_code_violation(trim(raw@)),
            r matches Err(e) ==> e.message_view() == (
                if !(MIN_TEMPLATE_CODE_LEN <= trim(raw@).len() <= MAX_TEMPLATE_CODE_LEN) {
                    "template code must have 2..32 characters"@
                } else {
                    "template code may only contain letters, digits, '-' and '_'"@
                }),
    {
        let trimmed = trim_str(raw);
        let count = trimmed.len();
        if count < MIN_TEMPLATE_CODE_LEN || count > MAX_TEMPLATE_CODE_LEN {
            return Err(AppError::schema_validation(
                "TEMPLATE_CODE_INVALID_LENGTH",
                String::from_str("template code must have 2..32 characters"),
                ctx_one("len", ContextValue::Int(count as i64)),
            ));
        }
        let mut i: usize = 0;
        while i < trimmed.len()
            invariant
                i <= trimmed.len(),
                MIN_TEMPLATE_CODE_LEN <= trimmed.len() <= MAX_TEMPLATE_CODE_LEN,
                trimmed@ == trim(raw@),
                forall|j: int| 0 <= j < i ==> is_code_char(#[trigger] trimmed@[j]),
            decreases trimmed.len() - i,
        {
            let c = trimmed[i];
            let ok = ('a' <= c && c <= 'z') || ('A' <= c && c <= 'Z') || ('0' <= c && c <= '9') || c == '_'
                || c == '-';
            if !ok {
                assert(!is_code_char(trimmed@[i as int]));
                return Err(AppError::schema_validation(
                    "TEMPLATE_CODE_INVALID_CHARACTERS",
                    String::from_str("template code may only contain letters, digits, '-' and '_'"),
                    ctx_empty(),
                ));
            }
            i = i + 1;
        }
        Ok(TemplateCode(string_of(trimmed.as_slice())))
    }

    pub fn as_str(&self) -> (r: &str)
        ensures
            r@ == self.view(),
    {
        self.0.as_str()
    }
}

/// Whether the `cron` crate accepts `expr` as a schedule.
pub uninterp spec fn cron_valid(expr: Seq<char>) -> bool;

/// The next firing of schedule `expr` found by walking the wall clock of
/// zone `zone` forward from the local time of `from`.  It lies after `from`
/// except across a clock set back, where a repeated local time is read as
/// its earlier instant.
pub uninterp spec fn cron_next(expr: Seq<char>, zone: Seq<char>, from: int) -> Option<int>;

/// Wraps `cron::Schedule::from_str`: `None` when the schedule parses, the
/// parser's error text otherwise.  Validity is named `cron_valid`; nothing is
/// stated of the error text.
#[verifier::external_body]
fn cron_parse_error(expr: &str) -> (r: Option<String>)
    ensures
        r is None <==> cron_valid(expr@),
{
    match <cron::Schedule as std::str::FromStr>::from_str(expr) {
        Ok(_) => None,
        Err(error) => Some(error.to_string()),
    }
}

/// Wraps `cron::Schedule::after(..).next()` for the schedule `expr` parsed by
/// `Schedule::from_str`, starting at the UTC instant `from` seen in zone
/// `zone`; the result is converted back to UTC seconds.  The instant is named
/// `cron_next`.  Nothing is stated of its order relative to `from`: the crate
/// walks local wall-clock fields and reads a repeated local time as its
/// earlier instant, which precedes `from` when `from` lies in the second pass
/// of a repeated hour.
#[verifier::external_body]
fn cron_next_after(expr: &str, zone: &str, from: i64) -> (r: Option<i64>)
    requires
        cron_valid(expr@),
        tz_known(zone@),
        -TIMESTAMP_LIMIT <= from <= TIMESTAMP_LIMIT,
    ensures
        r matches Some(t) ==> cron_next(expr@, zone@, from as int) == Some(t as int),
        r is None ==> cron_next(expr@, zone@, from as int) is None,
{
    let schedule = match <cron::Schedule as std::str::FromStr>::from_str(expr) {
        Ok(schedule) => schedule,
        Err(_) => return None,
    };
    let tz: chrono_tz::Tz = match zone.parse() {
        Ok(tz) => tz,
        Err(_) => return None,
    };
    let local = chrono::DateTime::from_timestamp(from, 0).unwrap().with_timezone(&tz);
    schedule.after(&local).next().map(|next| next.timestamp())
}

/// A CRON expression that the scheduler accepts.
#[derive(Debug)]
pub struct CronExpression {
    raw: String,
}

impl CronExpression {
    pub closed spec fn view(&self) -> Seq<char> {
        self.raw@
    }

    pub closed spec fn wf(&self) -> bool {
        cron_valid(self.raw@)
    }

    /// Trims the expression and checks that it is a valid schedule.
    pub fn parse(raw: &str) -> (r: AppResult<CronExpression>)
        ensures
            r is Ok <==> trim(raw@).len() > 0 && cron_valid(trim(raw@)),
            r matches Ok(c) ==> c.view() == trim(raw@) && c.wf(),
            r matches Err(e) ==> e.kind() == ErrorKind::Validation && e.code_view() == (if trim(raw@).len() == 0 {
                "CRON_EXPRESSION_EMPTY"@
            } else {
                "CRON_EXPRESSION_INVALID"@
            }),
            r matches Err(e) ==> e.message_view() == (if trim(raw@).len() == 0 {
                "cron expression must not be empty"@
            } else {
                "cron expression is not a valid schedule"@
            }),
    {
        let trimmed = string_of(trim_str(raw).as_slice());
        if trimmed.as_str().unicode_len() == 0 {
            return Err(AppError::schema_validation(
                "CRON_EXPRESSION_EMPTY",
                String::from_str("cron expression must not be empty"),
                ctx_empty(),
            ));
        }
        match cron_parse_error(trimmed.as_str()) {
            Some(error) => Err(AppError::schema_validation(
                "CRON_EXPRESSION_INVALID",
                String::from_str("cron expression is not a valid schedule"),
                ctx_one("error", ContextValue::Text(error)),
            )),
            None => Ok(CronExpression { raw: trimmed }),
        }
    }

    pub fn as_str(&self) -> (r: &str)
        ensures
            r@ == self.view(),
    {
        self.raw.as_str()
    }

    pub fn duplicate(&self) -> (r: CronExpression)
        ensures
            r.view() == self.view(),
            r.wf() == self.wf(),
    {
        CronExpression { raw: self.raw.clone() }
    }

    /// The next firing from `from` on, the schedule being read in `timezone`
    /// (see [`cron_next`]).
    pub fn next_fire_after(&self, from: Timestamp, timezone: &TimeZoneName) -> (r: Option<Timestamp>)
        requires
            self.wf(),
            timezone.wf(),
            -TIMESTAMP_LIMIT <= from <= TIMESTAMP_LIMIT,
        ensures
            r matches Some(t) ==> cron_next(self.view(), timezone.view(), from as int) == Some(t as int),
            r is None ==> cron_next(self.view(), timezone.view(), from as int) is None,
    {
        cron_next_after(self.raw.as_str(), timezone.as_str(), from)
    }
}

/// A CRON schedule with the zone it is evaluated in.
#[derive(Debug)]
pub struct RecurrenceRule {
    pub id: Option<i64>,
    pub template_id: Option<i64>,
    pub owner_user_id: i64,
    pub cron: CronExpression,
    pub timezone: TimeZoneName,
    pub next_run_at: Option<Timestamp>,
    pub last_run_at: Option<Timestamp>,
    pub is_active: bool,
    pub created_at: Timestamp,
    pub updated_at: Timestamp,
}

impl RecurrenceRule {
    pub open spec fn wf(&self) -> bool {
        self.cron.wf() && self.timezone.wf()
    }

    /// The zone named `code`, or `RECURRENCE_RULE_UNKNOWN_TZ`.
    pub fn parse_timezone(code: &str) -> (r: AppResult<TimeZoneName>)
        ensures
            r is Ok <==> tz_known(code@),
            r matches Ok(z) ==> z.view() == code@ && z.wf(),
            r matches Err(e) ==> e.kind() == ErrorKind::Validation && e.code_view() == "RECURRENCE_RULE_UNKNOWN_TZ"@,
            r matches Err(e) ==> e.message_view() == "unknown timezone '"@ + code@ + "'"@,
    {
        match TimeZoneName::parse(code) {
            Some(zone) => Ok(zone),
            None => {
                let mut message = chars_of("unknown timezone '");
                crate::text::push_str(&mut message, code);
                crate::text::push_str(&mut message, "'");
                Err(AppError::schema_validation(
                    "RECURRENCE_RULE_UNKNOWN_TZ",
                    string_of(message.as_slice()),
                    ctx_one("timezone", ContextValue::Text(String::from_str(code))),
                ))
            },
        }
    }

    /// The rule with `next_run_at` recomputed from `from`; nothing else
    /// changes.
    pub fn with_refreshed_next_run(self, from: Timestamp) -> (r: RecurrenceRule)
        requires
            self.wf(),
            -TIMESTAMP_LIMIT <= from <= TIMESTAMP_LIMIT,
        ensures
            r.next_run_at matches Some(t) ==> cron_next(self.cron.view(), self.timezone.view(), from as int)
                == Some(t as int),
            r.next_run_at is None ==> cron_next(self.cron.view(), self.timezone.view(), from as int) is None,
            r.id == self.id && r.template_id == self.template_id && r.owner_user_id == self.owner_user_id,
            r.cron.view() == self.cron.view() && r.timezone.view() == self.timezone.view(),
            r.last_run_at == self.last_run_at && r.is_active == self.is_active,
            r.created_at == self.created_at && r.updated_at == self.updated_at,
            r.wf(),
    {
        let next = self.cron.next_fire_after(from, &self.timezone);
        let mut rule = self;
        rule.next_run_at = next;
        rule
    }
}

} // verus!
