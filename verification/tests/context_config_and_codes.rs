use chrono::TimeZone;
use telegram_task_bot::application::context::{Locale, PrincipalContext, PrincipalIdentity, TelegramChatContext};
use telegram_task_bot::config::{
    env_value, non_zero_setting, required_setting, text_setting, u32_setting, validate_config, SchedulerConfig,
    DEFAULT_BIND_ADDRESS,
};
use telegram_task_bot::domain::user::UserRole;
use telegram_task_bot::task_codes::{format_public_task_code_or_placeholder, parse_task_reference, TaskReference};

fn new_year_2026() -> i64 {
    chrono::Utc.with_ymd_and_hms(2026, 1, 1, 0, 0, 0).unwrap().timestamp()
}

#[test]
fn given_anonymous_ctx_when_inspected_then_reports_anonymous_and_user_role() {
    let ctx = PrincipalContext::anonymous(
        TelegramChatContext { chat_id: 1, telegram_user_id: 42 },
        uuid::Uuid::nil().as_u128(),
        new_year_2026(),
    );

    assert!(ctx.is_anonymous());
    assert_eq!(ctx.role(), UserRole::User);
    assert_eq!(ctx.telegram_user_id(), 42);
    assert_eq!(ctx.chat_id(), 1);
}

#[test]
fn given_authenticated_ctx_when_inspected_then_returns_persisted_user_id() {
    let ctx = PrincipalContext::new(
        PrincipalIdentity { user_id: Some(7), role: UserRole::Manager, locale: Locale::default() },
        TelegramChatContext { chat_id: 1, telegram_user_id: 42 },
        uuid::Uuid::nil().as_u128(),
        new_year_2026(),
    );

    assert!(!ctx.is_anonymous());
    assert_eq!(ctx.user_id(), Some(7));
    assert_eq!(ctx.role(), UserRole::Manager);
}

#[test]
fn blank_environment_value_counts_as_unset() {
    assert_eq!(env_value(Some("   ")), None);
    assert_eq!(env_value(None), None);
    assert_eq!(env_value(Some("  postgres://db  ")).as_deref(), Some("postgres://db"));
}

#[test]
fn missing_required_variable_is_reported_by_name() {
    let err = required_setting("DATABASE_URL", None).unwrap_err();
    assert_eq!(err.code(), "ENV_MISSING");
    assert_eq!(err.message(), "Environment variable DATABASE_URL is required");
    assert_eq!(required_setting("DATABASE_URL", Some("x".to_string())).unwrap(), "x");
}

#[test]
fn optional_text_falls_back_to_default() {
    assert_eq!(text_setting(None, DEFAULT_BIND_ADDRESS), "0.0.0.0:8080");
    assert_eq!(text_setting(Some("127.0.0.1:1".to_string()), DEFAULT_BIND_ADDRESS), "127.0.0.1:1");
}

#[test]
fn number_settings_parse_or_fail() {
    assert_eq!(u32_setting("RATE_LIMIT_PER_MINUTE", None, 20).unwrap(), 20);
    assert_eq!(u32_setting("RATE_LIMIT_PER_MINUTE", Some("+35".to_string()), 20).unwrap(), 35);
    assert_eq!(u32_setting("RATE_LIMIT_PER_MINUTE", Some("-1".to_string()), 20).unwrap_err().code(), "ENV_NUMBER_INVALID");
    assert_eq!(u32_setting("X", Some("4294967296".to_string()), 1).unwrap_err().code(), "ENV_NUMBER_INVALID");
    assert_eq!(non_zero_setting("REMINDER_TICK_SECONDS", Some("0".to_string()), 60).unwrap_err().code(), "ENV_NON_ZERO_REQUIRED");
    assert_eq!(non_zero_setting("REMINDER_TICK_SECONDS", None, 60).unwrap(), 60);
}

fn scheduler(summary_hour: u32) -> SchedulerConfig {
    SchedulerConfig {
        employee_sync_interval_minutes: 60,
        notification_poll_interval_seconds: 30,
        reminder_tick_seconds: 60,
        daily_deadline_reminder_hour_utc: 9,
        daily_overdue_scan_hour_utc: 10,
        daily_summary_hour_utc: summary_hour,
    }
}

#[test]
fn configuration_rules_are_checked_in_order() {
    let fields = vec![("database_url", "postgres://db".to_string())];
    assert!(validate_config(&fields, true, false, "sheet", &scheduler(8)).is_ok());
    assert_eq!(
        validate_config(&fields, false, false, "sheet", &scheduler(8)).unwrap_err().code(),
        "GOOGLE_SHEETS_AUTH_MISSING"
    );
    assert_eq!(
        validate_config(&fields, false, true, "sheet", &scheduler(24)).unwrap_err().code(),
        "SCHEDULER_HOUR_INVALID"
    );
    let empty = vec![("database_url", String::new())];
    assert_eq!(validate_config(&empty, false, false, "sheet", &scheduler(24)).unwrap_err().code(), "CONFIG_INVALID");
}

#[test]
fn public_codes_are_zero_padded() {
    assert_eq!(format_public_task_code_or_placeholder(Some(42)), "T-0042");
    assert_eq!(format_public_task_code_or_placeholder(Some(123456)), "T-123456");
    assert_eq!(format_public_task_code_or_placeholder(None), "T-????");
    assert_eq!(format_public_task_code_or_placeholder(Some(0)), "T-????");
}

#[test]
fn task_references_accept_codes_and_uuids() {
    assert!(matches!(parse_task_reference(" t-0042 "), Some(TaskReference::PublicId(42))));
    let uid = uuid::Uuid::now_v7();
    assert!(matches!(parse_task_reference(&uid.to_string()), Some(TaskReference::Uid(u)) if u == uid.as_u128()));
    assert!(parse_task_reference("T-0000").is_none());
    assert!(parse_task_reference("not a reference").is_none());
}

#[test]
fn displayed_code_reads_back_as_the_identifier() {
    for id in [1_i64, 42, 9999, 10000, 123_456_789_012_345_678] {
        let code = format_public_task_code_or_placeholder(Some(id));
        assert!(matches!(parse_task_reference(&code), Some(TaskReference::PublicId(back)) if back == id));
    }
}
