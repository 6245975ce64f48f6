//! Runtime settings read from the environment.  Reading the variables is
//! the driver's part; here is what a raw value means (trimmed, blank means
//! unset), the defaults, the number rules and the checks a complete
//! configuration must pass.
use vstd::prelude::*;

use crate::domain::errors::{ctx_one, ctx_two, AppError, AppResult, ContextValue, ErrorKind};
use crate::domain::parsing::{parse_u32_text, u32_text};
use crate::text::{chars_of, push_str, string_of, trim, trim_str};

verus! {

pub const DEFAULT_GEMINI_MODEL: &'static str = "gemini-2.5-flash";
pub const DEFAULT_RATE_LIMIT_PER_MINUTE: u32 = 20;
pub const DEFAULT_OPENAI_TRANSCRIPTION_MODEL: &'static str = "gpt-4o-mini-transcribe";
pub const DEFAULT_BIND_ADDRESS: &'static str = "0.0.0.0:8080";
pub const DEFAULT_LOG_LEVEL: &'static str = "info,telegram_task_bot=debug";
pub const DEFAULT_SHEETS_RANGE: &'static str = "Employees!A:F";
pub const DEFAULT_EMPLOYEE_SYNC_INTERVAL_MINUTES: u32 = 60;
pub const DEFAULT_NOTIFICATION_POLL_INTERVAL_SECONDS: u32 = 30;
pub const DEFAULT_REMINDER_TICK_SECONDS: u32 = 60;
pub const DEFAULT_DEADLINE_REMINDER_HOUR_UTC: u32 = 9;
pub const DEFAULT_OVERDUE_SCAN_HOUR_UTC: u32 = 10;
pub const DEFAULT_DAILY_SUMMARY_HOUR_UTC: u32 = 8;

#[derive(Debug, Clone)]
pub struct DatabaseConfig {
    pub database_url: String,
}

#[derive(Debug, Clone)]
pub struct HttpServerConfig {
    pub bind_address: String,
}

#[derive(Debug, Clone)]
pub struct ObservabilityConfig {
    pub log_level: String,
}

/// Scheduler periods and daily hours (UTC).
#[derive(Debug, Clone, Copy, PartialEq, Eq, Structural)]
pub struct SchedulerConfig {
    pub employee_sync_interval_minutes: u32,
    pub notification_poll_interval_seconds: u32,
    pub reminder_tick_seconds: u32,
    pub daily_deadline_reminder_hour_utc: u32,
    pub daily_overdue_scan_hour_utc: u32,
    pub daily_summary_hour_utc: u32,
}

impl SchedulerConfig {
    /// The periods are never zero.
    pub open spec fn wf(self) -> bool {
        self.employee_sync_interval_minutes > 0 && self.notification_poll_interval_seconds > 0
            && self.reminder_tick_seconds > 0
    }

    /// Every daily hour lies in `0..=23`.
    pub open spec fn hours_valid(self) -> bool {
        self.daily_deadline_reminder_hour_utc <= 23 && self.daily_overdue_scan_hour_utc <= 23
            && self.daily_summary_hour_utc <= 23
    }
}

#[derive(Debug, Clone, Copy, PartialEq, Eq, Structural)]
pub struct BotBehaviorConfig {
    pub rate_limit_per_minute: u32,
}

impl BotBehaviorConfig {
    /// The rate limit is never zero.
    pub open spec fn wf(self) -> bool {
        self.rate_limit_per_minute > 0
    }
}

/// A raw environment value: trimmed, and unset when blank.
pub open spec fn setting_value(raw: Option<Seq<char>>) -> Option<Seq<char>> {
    match raw {
        Some(v) => if trim(v).len() > 0 { Some(trim(v)) } else { None },
        None => None,
    }
}

pub fn env_value(raw: Option<&str>) -> (r: Option<String>)
    ensures
        match r {
            Some(s) => setting_value(match raw { Some(v) => Some(v@), None => None }) == Some(s@),
            None => setting_value(match raw { Some(v) => Some(v@), None => None }) is None,
        },
{
    match raw {
        Some(v) => {
            let t = trim_str(v);
            if t.len() > 0 { Some(string_of(t.as_slice())) } else { None }
        },
        None => None,
    }
}

fn variable_message(prefix: &str, name: &str, suffix: &str) -> (r: String)
    ensures
        r@ == prefix@ + name@ + suffix@,
{
    let mut m = chars_of(prefix);
    push_str(&mut m, name);
    push_str(&mut m, suffix);
    string_of(m.as_slice())
}

/// A required setting: its value, or `ENV_MISSING` naming the variable.
pub fn required_setting(name: &'static str, value: Option<String>) -> (r: AppResult<String>)
    ensures
        match value {
            Some(v) => r matches Ok(s) && s@ == v@,
            None => r matches Err(e) && e.is_error(ErrorKind::Validation, "ENV_MISSING"@)
                && e.message_view() == "Environment variable "@ + name@ + " is required"@,
        },
{
    match value {
        Some(v) => Ok(v),
        None => Err(AppError::schema_validation(
            "ENV_MISSING",
            variable_message("Environment variable ", name, " is required"),
            ctx_one("name", ContextValue::Text(String::from_str(name))),
        )),
    }
}

/// An optional text setting with its default.
pub fn text_setting(value: Option<String>, default: &str) -> (r: String)
    ensures
        r@ == (match value { Some(v) => v@, None => default@ }),
{
    match value {
        Some(v) => v,
        None => String::from_str(default),
    }
}

/// A number setting: the default when unset, else the value read as a
/// `u32` (`ENV_NUMBER_INVALID` when it is not one).
pub fn u32_setting(name: &'static str, value: Option<String>, default: u32) -> (r: AppResult<u32>)
    ensures
        match value {
            None => r == Ok::<u32, AppError>(default),
            Some(v) => match u32_text(v@) {
                Some(n) => r == Ok::<u32, AppError>(n),
                None => r matches Err(e) && e.is_error(ErrorKind::Validation, "ENV_NUMBER_INVALID"@)
                    && e.message_view() == "Environment variable "@ + name@ + " must be a positive integer"@,
            },
        },
{
    match value {
        None => Ok(default),
        Some(v) => match parse_u32_text(&chars_of(v.as_str())) {
            Some(n) => Ok(n),
            None => Err(AppError::schema_validation(
                "ENV_NUMBER_INVALID",
                variable_message("Environment variable ", name, " must be a positive integer"),
                ctx_two("name", ContextValue::Text(String::from_str(name)), "value", ContextValue::Text(v)),
            )),
        },
    }
}

/// A period setting: as [`u32_setting`], and `ENV_NON_ZERO_REQUIRED` when
/// it is zero.
pub fn non_zero_setting(name: &'static str, value: Option<String>, default: u32) -> (r: AppResult<u32>)
    ensures
        match value {
            None => if default > 0 {
                r == Ok::<u32, AppError>(default)
            } else {
                r matches Err(e) && e.is_error(ErrorKind::Validation, "ENV_NON_ZERO_REQUIRED"@)
                    && e.message_view() == "Environment variable "@ + name@ + " must be greater than zero"@
            },
            Some(v) => match u32_text(v@) {
                Some(n) => if n > 0 {
                    r == Ok::<u32, AppError>(n)
                } else {
                    r matches Err(e) && e.is_error(ErrorKind::Validation, "ENV_NON_ZERO_REQUIRED"@)
                        && e.message_view() == "Environment variable "@ + name@ + " must be greater than zero"@
                },
                None => r matches Err(e) && e.is_error(ErrorKind::Validation, "ENV_NUMBER_INVALID"@)
                    && e.message_view() == "Environment variable "@ + name@ + " must be a positive integer"@,
            },
        },
{
    let value = u32_setting(name, value, default)?;
    if value == 0 {
        return Err(AppError::schema_validation(
            "ENV_NON_ZERO_REQUIRED",
            variable_message("Environment variable ", name, " must be greater than zero"),
            ctx_two("name", ContextValue::Text(String::from_str(name)), "value", ContextValue::Int(value as i64)),
        ));
    }
    Ok(value)
}

/// The checks a complete configuration must pass: the required text
/// settings, given with their names, are not empty (`CONFIG_INVALID`, whose
/// context names the first empty one), the sheet has an API key or a
/// bearer token (`GOOGLE_SHEETS_AUTH_MISSING`), and the daily hours lie in
/// `0..=23` (`SCHEDULER_HOUR_INVALID`), checked in that order.
pub fn validate_config(
    required_text: &Vec<(&'static str, String)>,
    has_sheets_api_key: bool,
    has_sheets_bearer_token: bool,
    spreadsheet_id: &str,
    scheduler: &SchedulerConfig,
) -> (r: AppResult<()>)
    ensures
        (exists|i: int| 0 <= i < required_text@.len() && (#[trigger] required_text@[i]).1@.len() == 0)
            ==> (r matches Err(e) && e.is_error(ErrorKind::Validation, "CONFIG_INVALID"@)),
        (forall|i: int| 0 <= i < required_text@.len() ==> (#[trigger] required_text@[i]).1@.len() > 0) ==> {
            if !has_sheets_api_key && !has_sheets_bearer_token {
                r matches Err(e) && e.is_error(ErrorKind::Validation, "GOOGLE_SHEETS_AUTH_MISSING"@)
            } else if !scheduler.hours_valid() {
                r matches Err(e) && e.is_error(ErrorKind::Validation, "SCHEDULER_HOUR_INVALID"@)
            } else {
                r is Ok
            }
        },
        r matches Err(e) ==> e.message_view() == (
            if exists|i: int| 0 <= i < required_text@.len() && (#[trigger] required_text@[i]).1@.len() == 0 {
                "Configuration is invalid"@
            } else if !has_sheets_api_key && !has_sheets_bearer_token {
                "Either GOOGLE_SHEETS_API_KEY or GOOGLE_SHEETS_BEARER_TOKEN must be configured"@
            } else {
                "Scheduler hour must be in the 0..=23 range"@
            }),
{
    let mut i: usize = 0;
    while i < required_text.len()
        invariant
            i <= required_text@.len(),
            forall|k: int| 0 <= k < i ==> (#[trigger] required_text@[k]).1@.len() > 0,
        decreases required_text.len() - i,
    {
        if required_text[i].1.as_str().unicode_len() == 0 {
            return Err(AppError::schema_validation(
                "CONFIG_INVALID",
                String::from_str("Configuration is invalid"),
                ctx_one("errors", ContextValue::Text(String::from_str(required_text[i].0))),
            ));
        }
        i = i + 1;
    }
    if !has_sheets_api_key && !has_sheets_bearer_token {
        return Err(AppError::schema_validation(
            "GOOGLE_SHEETS_AUTH_MISSING",
            String::from_str("Either GOOGLE_SHEETS_API_KEY or GOOGLE_SHEETS_BEARER_TOKEN must be configured"),
            ctx_one("spreadsheet_id", ContextValue::Text(String::from_str(spreadsheet_id))),
        ));
    }
    if scheduler.daily_deadline_reminder_hour_utc > 23 || scheduler.daily_overdue_scan_hour_utc > 23
        || scheduler.daily_summary_hour_utc > 23 {
        let mut context = ctx_two(
            "deadline_hour",
            ContextValue::Int(scheduler.daily_deadline_reminder_hour_utc as i64),
            "overdue_hour",
            ContextValue::Int(scheduler.daily_overdue_scan_hour_utc as i64),
        );
        context.push(crate::domain::errors::ContextEntry {
            key: String::from_str("daily_summary_hour"),
            value: ContextValue::Int(scheduler.daily_summary_hour_utc as i64),
        });
        return Err(AppError::schema_validation(
            "SCHEDULER_HOUR_INVALID",
            String::from_str("Scheduler hour must be in the 0..=23 range"),
            context,
        ));
    }
    Ok(())
}

} // verus!
