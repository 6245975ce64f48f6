use chrono::{Datelike, TimeZone, Timelike, Weekday};
use telegram_task_bot::domain::sla::{SlaPolicy, SlaState, WorkingCalendar};
use telegram_task_bot::time::{Date, TimeZoneName};

fn date(y: i32, m: u32, d: u32) -> Date {
    let epoch = chrono::NaiveDate::from_ymd_opt(1970, 1, 1).unwrap();
    let day = chrono::NaiveDate::from_ymd_opt(y, m, d).expect("valid date");
    Date { days: day.signed_duration_since(epoch).num_days() }
}


const WEEKDAYS: u32 = (1 << 0) | (1 << 1) | (1 << 2) | (1 << 3) | (1 << 4);

fn moscow_calendar() -> WorkingCalendar {
    WorkingCalendar::new(
        "RU_DEFAULT".to_string(),
        TimeZoneName::parse("Europe/Moscow").expect("valid tz"),
        WEEKDAYS,
        540,
        1080,
        Vec::new(),
        Vec::new(),
    )
    .expect("valid calendar")
}

fn moscow(y: i32, mo: u32, d: u32, h: u32, mi: u32) -> i64 {
    chrono_tz::Europe::Moscow
        .with_ymd_and_hms(y, mo, d, h, mi, 0)
        .single()
        .expect("unambiguous")
        .timestamp()
}

fn moscow_local(ts: i64) -> chrono::DateTime<chrono_tz::Tz> {
    chrono::DateTime::from_timestamp(ts, 0).unwrap().with_timezone(&chrono_tz::Europe::Moscow)
}

#[test]
fn given_monday_noon_when_adding_one_working_hour_then_one_pm_same_day() {
    let calendar = moscow_calendar();
    let monday = moscow(2026, 4, 20, 12, 0);

    let deadline = calendar.add_working_duration(monday, 60);

    let in_local = moscow_local(deadline);
    assert_eq!(in_local.hour(), 13);
    assert_eq!(in_local.minute(), 0);
}

#[test]
fn given_friday_evening_when_adding_work_then_skips_weekend_to_monday() {
    let calendar = moscow_calendar();
    let friday = moscow(2026, 4, 24, 17, 45);

    let deadline = calendar.add_working_duration(friday, 30);

    let in_local = moscow_local(deadline);
    assert_eq!(in_local.weekday(), Weekday::Mon);
    assert_eq!(in_local.hour(), 9);
    assert_eq!(in_local.minute(), 15);
}

#[test]
fn given_holiday_when_scheduling_then_jumps_to_next_working_day() {
    let holiday = date(2026, 5, 1);
    let calendar = WorkingCalendar::new(
        "RU_HOLIDAY".to_string(),
        TimeZoneName::parse("Europe/Moscow").expect("valid tz"),
        WEEKDAYS,
        540,
        1080,
        vec![holiday],
        Vec::new(),
    )
    .expect("valid");

    let thursday = moscow(2026, 4, 30, 17, 45);

    let deadline = calendar.add_working_duration(thursday, 30);
    let in_local = moscow_local(deadline);

    assert_eq!(in_local.month(), 5);
    assert_eq!(in_local.day(), 4);
    assert_eq!(in_local.hour(), 9);
    assert_eq!(in_local.minute(), 15);
}

#[test]
fn given_inverted_window_when_constructed_then_rejects() {
    let result = WorkingCalendar::new(
        "BAD".to_string(),
        TimeZoneName::parse("Europe/Moscow").expect("valid tz"),
        1,
        1080,
        540,
        Vec::new(),
        Vec::new(),
    );
    assert!(result.is_err());
    assert_eq!(result.unwrap_err().code(), "WORKING_CALENDAR_INVERTED_WINDOW");
}

#[test]
fn empty_weekday_mask_is_rejected() {
    let result = WorkingCalendar::new(
        "EMPTY".to_string(),
        TimeZoneName::parse("Europe/Moscow").expect("valid tz"),
        0,
        540,
        1080,
        Vec::new(),
        Vec::new(),
    );
    assert_eq!(result.unwrap_err().code(), "WORKING_CALENDAR_EMPTY_MASK");
}

#[test]
fn extra_working_day_counts_on_a_weekend() {
    let saturday = date(2026, 4, 25);
    let calendar = WorkingCalendar::new(
        "RU_EXTRA".to_string(),
        TimeZoneName::parse("Europe/Moscow").expect("valid tz"),
        WEEKDAYS,
        540,
        1080,
        Vec::new(),
        vec![saturday],
    )
    .expect("valid");
    assert!(calendar.is_working_day(saturday));
    let sunday = date(2026, 4, 26);
    assert!(!calendar.is_working_day(sunday));
}

#[test]
fn non_positive_duration_returns_the_start() {
    let calendar = moscow_calendar();
    let start = moscow(2026, 4, 25, 3, 0);
    assert_eq!(calendar.add_working_duration(start, 0), start);
    assert_eq!(calendar.add_working_duration(start, -5), start);
}

#[test]
fn given_sla_policy_with_at_risk_gt_deadline_when_validated_then_rejects() {
    let policy = SlaPolicy { deadline_minutes: 60, at_risk_minutes: 120, escalation_steps_minutes: vec![] };

    assert_eq!(policy.validate().unwrap_err().code(), "SLA_POLICY_INVALID_AT_RISK");
}

#[test]
fn given_sla_state_roundtrip_when_encoded_then_stable_codes() {
    for state in [SlaState::Healthy, SlaState::AtRisk, SlaState::Breached] {
        assert_eq!(SlaState::from_code(state.as_code()).unwrap(), state);
    }
}

#[test]
fn unknown_sla_code_is_rejected() {
    assert_eq!(SlaState::from_code("melting").unwrap_err().code(), "SLA_STATE_UNKNOWN");
}

#[test]
fn sla_policy_errors_name_the_broken_rule() {
    let no_deadline = SlaPolicy { deadline_minutes: 0, at_risk_minutes: 0, escalation_steps_minutes: vec![] };
    assert_eq!(no_deadline.validate().unwrap_err().message(), "deadline_minutes must be positive");
    let wide_risk = SlaPolicy { deadline_minutes: 60, at_risk_minutes: 120, escalation_steps_minutes: vec![] };
    assert_eq!(wide_risk.validate().unwrap_err().message(), "at_risk_minutes must lie in [0, deadline_minutes]");
    let unsorted = SlaPolicy { deadline_minutes: 60, at_risk_minutes: 30, escalation_steps_minutes: vec![30, 10] };
    let err = unsorted.validate().unwrap_err();
    assert_eq!(err.code(), "SLA_POLICY_UNSORTED_ESCALATION");
    assert_eq!(err.message(), "escalation_steps_minutes must be sorted ascending");
    let negative = SlaPolicy { deadline_minutes: 60, at_risk_minutes: 30, escalation_steps_minutes: vec![-1] };
    assert_eq!(negative.validate().unwrap_err().message(), "escalation steps must be non-negative");
    assert_eq!(SlaState::from_code("melting").unwrap_err().message(), "unrecognised sla_state value 'melting'");
}

#[test]
fn start_is_rounded_up_to_the_next_minute() {
    let calendar = moscow_calendar();
    let half_past = moscow(2026, 4, 20, 12, 0) + 30;
    let deadline = calendar.add_working_duration(half_past, 60);
    assert_eq!(deadline, moscow(2026, 4, 20, 13, 1));
    let on_boundary = moscow(2026, 4, 20, 12, 0);
    assert_eq!(calendar.add_working_duration(on_boundary, 60), moscow(2026, 4, 20, 13, 0));
}
