use chrono::{TimeZone, Timelike, Datelike};
use telegram_task_bot::domain::notification_preferences::NotificationPreferences;
use telegram_task_bot::domain::recurrence::{CronExpression, RecurrenceRule, TemplateCode};
use telegram_task_bot::time::TimeZoneName;

fn prefs(start: i32, end: i32) -> NotificationPreferences {
    NotificationPreferences::new("Europe/Moscow", start, end).expect("valid")
}

fn moscow(y: i32, mo: u32, d: u32, h: u32, mi: u32) -> i64 {
    chrono_tz::Europe::Moscow
        .with_ymd_and_hms(y, mo, d, h, mi, 0)
        .single()
        .expect("unambiguous")
        .timestamp()
}

fn moscow_local(ts: i64) -> chrono::DateTime<chrono_tz::Tz> {
    chrono::DateTime::from_timestamp(ts, 0).unwrap().with_timezone(&chrono_tz::Europe::Moscow)
}

#[test]
fn given_disabled_window_when_in_middle_of_day_then_not_in_quiet_hours() {
    let p = prefs(0, 0);
    let now = chrono::Utc::now().timestamp();
    assert!(!p.is_in_quiet_hours(now));
    assert_eq!(p.next_deliverable_at(now), now);
}

#[test]
fn given_wrap_window_22_to_8_when_23_local_then_inside_and_next_is_08() {
    let p = prefs(22 * 60, 8 * 60);
    let now = moscow(2026, 4, 20, 23, 0);

    assert!(p.is_in_quiet_hours(now));

    let next_local = moscow_local(p.next_deliverable_at(now));
    assert_eq!(next_local.hour(), 8);
    assert_eq!(next_local.minute(), 0);
    assert_eq!(next_local.day(), 21);
}

#[test]
fn given_wrap_window_22_to_8_when_03_local_then_inside_and_next_is_08_same_day() {
    let p = prefs(22 * 60, 8 * 60);
    let now = moscow(2026, 4, 21, 3, 0);

    assert!(p.is_in_quiet_hours(now));

    let next_local = moscow_local(p.next_deliverable_at(now));
    assert_eq!(next_local.hour(), 8);
    assert_eq!(next_local.day(), 21);
}

#[test]
fn given_wrap_window_when_daytime_local_then_outside_quiet_hours() {
    let p = prefs(22 * 60, 8 * 60);
    let now = moscow(2026, 4, 21, 13, 0);
    assert!(!p.is_in_quiet_hours(now));
    assert_eq!(p.next_deliverable_at(now), now);
}

#[test]
fn given_non_wrap_window_when_inside_then_deliverable_at_end() {
    let p = prefs(12 * 60, 14 * 60);
    let now = moscow(2026, 4, 21, 12, 30);

    assert!(p.is_in_quiet_hours(now));
    let next_local = moscow_local(p.next_deliverable_at(now));
    assert_eq!(next_local.hour(), 14);
}

#[test]
fn given_bad_timezone_when_constructed_then_rejected() {
    let err = NotificationPreferences::new("Mars/Olympus_Mons", 0, 0).unwrap_err();
    assert_eq!(err.code(), "NOTIFICATION_PREFERENCES_UNKNOWN_TZ");
}

#[test]
fn given_out_of_range_minutes_when_constructed_then_rejected() {
    let err = NotificationPreferences::new("Europe/Moscow", 0, 2000).unwrap_err();
    assert_eq!(err.code(), "NOTIFICATION_PREFERENCES_MINUTE_OUT_OF_RANGE");
}

#[test]
fn quiet_window_end_is_exclusive() {
    let p = prefs(22 * 60, 8 * 60);
    assert!(!p.is_in_quiet_hours(moscow(2026, 4, 21, 8, 0)));
    assert!(p.is_in_quiet_hours(moscow(2026, 4, 21, 22, 0)));
}

#[test]
fn given_valid_template_code_when_parsed_then_trimmed() {
    let code = TemplateCode::parse(" weekly-report ").expect("valid");
    assert_eq!(code.as_str(), "weekly-report");
}

#[test]
fn given_template_code_with_invalid_chars_when_parsed_then_rejected() {
    let err = TemplateCode::parse("weekly report").unwrap_err();
    assert_eq!(err.code(), "TEMPLATE_CODE_INVALID_CHARACTERS");
}

#[test]
fn given_short_template_code_when_parsed_then_rejected() {
    let err = TemplateCode::parse("a").unwrap_err();
    assert_eq!(err.code(), "TEMPLATE_CODE_INVALID_LENGTH");
}

#[test]
fn given_valid_cron_when_parsed_then_fires_hourly() {
    let cron = CronExpression::parse("0 0 * * * * *").expect("valid");
    let tz = TimeZoneName::parse("Europe/Moscow").expect("tz");
    let now = moscow(2026, 4, 20, 12, 15);

    let next = cron.next_fire_after(now, &tz).expect("next fire");
    let next_local = moscow_local(next);
    assert_eq!(next_local.hour(), 13);
    assert_eq!(next_local.minute(), 0);
}

#[test]
fn given_invalid_cron_when_parsed_then_rejected() {
    let err = CronExpression::parse("not a cron").unwrap_err();
    assert_eq!(err.code(), "CRON_EXPRESSION_INVALID");
}

#[test]
fn given_rule_when_refreshed_then_next_run_at_becomes_some() {
    let cron = CronExpression::parse("0 0 * * * * *").expect("valid");
    let tz = RecurrenceRule::parse_timezone("Europe/Moscow").expect("tz");
    let now = chrono::Utc::now().timestamp();

    let rule = RecurrenceRule {
        id: None,
        template_id: None,
        owner_user_id: 1,
        cron,
        timezone: tz,
        next_run_at: None,
        last_run_at: None,
        is_active: true,
        created_at: now,
        updated_at: now,
    };

    let refreshed = rule.with_refreshed_next_run(now);
    assert!(refreshed.next_run_at.is_some());
    assert!(refreshed.next_run_at.unwrap() > now);
}

#[test]
fn unknown_rule_timezone_is_rejected() {
    let err = RecurrenceRule::parse_timezone("Nowhere/Land").unwrap_err();
    assert_eq!(err.code(), "RECURRENCE_RULE_UNKNOWN_TZ");
}

#[test]
fn held_back_notice_goes_out_later_than_now() {
    let p = prefs(22 * 60, 8 * 60);
    for hour in [22, 23, 0, 5, 7] {
        let day = if hour >= 22 { 20 } else { 21 };
        let now = moscow(2026, 4, day, hour, 59);
        assert!(p.is_in_quiet_hours(now));
        let next = p.next_deliverable_at(now);
        assert!(next > now);
        assert!(!p.is_in_quiet_hours(next));
    }
}
