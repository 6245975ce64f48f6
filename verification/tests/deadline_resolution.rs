use chrono::{Datelike, TimeZone, Timelike};
use telegram_task_bot::domain::deadline::{is_past_hint, DeadlineInput, DeadlineResolver, DeadlineSource};
use telegram_task_bot::domain::sla::WorkingCalendar;
use telegram_task_bot::time::TimeZoneName;

fn moscow() -> TimeZoneName {
    TimeZoneName::parse("Europe/Moscow").expect("valid tz")
}

fn moscow_at(y: i32, mo: u32, d: u32, h: u32) -> i64 {
    chrono_tz::Europe::Moscow.with_ymd_and_hms(y, mo, d, h, 0, 0).single().expect("unambiguous").timestamp()
}

fn moscow_local(ts: i64) -> chrono::DateTime<chrono_tz::Tz> {
    chrono::DateTime::from_timestamp(ts, 0).unwrap().with_timezone(&chrono_tz::Europe::Moscow)
}

fn moscow_calendar() -> WorkingCalendar {
    WorkingCalendar::new(
        "RU_DEFAULT".to_string(),
        moscow(),
        (1 << 0) | (1 << 1) | (1 << 2) | (1 << 3) | (1 << 4),
        540,
        1080,
        Vec::new(),
        Vec::new(),
    )
    .expect("valid calendar")
}

#[test]
fn given_valid_ai_iso_timestamp_when_resolving_then_ai_wins() {
    let zone = moscow();
    let now = moscow_at(2026, 4, 20, 12);
    let hint = "2026-04-24T15:00:00+03:00";

    let resolved = DeadlineResolver::resolve(DeadlineInput {
        text: "отчёт до пятницы",
        ai_iso_hint: Some(hint),
        user_timezone: &zone,
        now_utc: now,
        calendar: None,
    })
    .expect("resolves");

    assert_eq!(resolved.source, DeadlineSource::AiStructured);
    assert_eq!(resolved.confidence, 100);
    let local = moscow_local(resolved.utc.unwrap());
    assert_eq!(local.hour(), 15);
    assert_eq!(local.day(), 24);
}

#[test]
fn given_ai_iso_in_past_when_resolving_then_falls_back_to_text() {
    let zone = moscow();
    let now = moscow_at(2026, 4, 20, 12);
    let resolved = DeadlineResolver::resolve(DeadlineInput {
        text: "сделать завтра",
        ai_iso_hint: Some("2020-01-01T00:00:00Z"),
        user_timezone: &zone,
        now_utc: now,
        calendar: None,
    })
    .expect("resolves");

    assert_eq!(resolved.source, DeadlineSource::DeterministicText);
    let local = moscow_local(resolved.utc.unwrap());
    assert_eq!(local.day(), 21);
    assert_eq!(local.hour(), 18);
}

#[test]
fn given_no_hint_and_no_text_deadline_when_resolving_then_none() {
    let zone = moscow();
    let now = moscow_at(2026, 4, 20, 12);
    let resolved = DeadlineResolver::resolve(DeadlineInput {
        text: "подготовить релизный чек-лист",
        ai_iso_hint: None,
        user_timezone: &zone,
        now_utc: now,
        calendar: None,
    })
    .expect("resolves");

    assert_eq!(resolved.source, DeadlineSource::NoneProvided);
    assert!(!resolved.has_value());
    assert!(resolved.local_date.is_none());
}

#[test]
fn given_weekend_date_with_calendar_when_resolving_then_rolls_to_next_working_day() {
    let zone = moscow();
    let now = moscow_at(2026, 4, 20, 12);
    let calendar = moscow_calendar();

    let resolved = DeadlineResolver::resolve(DeadlineInput {
        text: "",
        ai_iso_hint: Some("2026-04-25"),
        user_timezone: &zone,
        now_utc: now,
        calendar: Some(&calendar),
    })
    .expect("resolves");

    let local = moscow_local(resolved.utc.unwrap());
    assert_eq!(local.weekday(), chrono::Weekday::Mon, "got: {local}");
    assert_eq!(local.hour(), 18);
}

#[test]
fn given_date_only_iso_hint_when_resolving_then_clamped_to_end_of_business() {
    let zone = moscow();
    let now = moscow_at(2026, 4, 20, 6);
    let resolved = DeadlineResolver::resolve(DeadlineInput {
        text: "",
        ai_iso_hint: Some("2026-04-22"),
        user_timezone: &zone,
        now_utc: now,
        calendar: None,
    })
    .expect("resolves");

    let local = moscow_local(resolved.utc.unwrap());
    assert_eq!(local.day(), 22);
    assert_eq!(local.hour(), 18);
    assert_eq!(local.minute(), 0);
}

#[test]
fn given_garbled_ai_hint_when_resolving_then_falls_back_to_text() {
    let zone = moscow();
    let now = moscow_at(2026, 4, 20, 12);
    let resolved = DeadlineResolver::resolve(DeadlineInput {
        text: "отчёт завтра",
        ai_iso_hint: Some("not-a-date"),
        user_timezone: &zone,
        now_utc: now,
        calendar: None,
    })
    .expect("resolves");

    assert_eq!(resolved.source, DeadlineSource::DeterministicText);
    assert!(resolved.local_label().unwrap().starts_with("21."));
}

#[test]
fn given_weekday_phrase_when_resolving_then_confidence_is_at_least_sixty() {
    let zone = moscow();
    let now = moscow_at(2026, 4, 20, 12);
    let resolved = DeadlineResolver::resolve(DeadlineInput {
        text: "до пятницы",
        ai_iso_hint: None,
        user_timezone: &zone,
        now_utc: now,
        calendar: None,
    })
    .expect("resolves");

    assert!(resolved.has_value());
    assert!(resolved.confidence >= 60);
}

#[test]
fn given_past_iso_hint_when_checking_then_is_past_hint_returns_true() {
    let zone = moscow();
    let now = moscow_at(2026, 4, 20, 12);
    assert!(is_past_hint("2020-01-01", now, &zone));
    assert!(!is_past_hint("2027-01-01", now, &zone));
}

#[test]
fn resolved_deadline_has_local_date_exactly_when_instant() {
    let zone = moscow();
    let now = moscow_at(2026, 4, 20, 12);
    for (text, hint) in [("сделать завтра", None), ("без срока", None), ("", Some("2026-04-22"))] {
        let resolved = DeadlineResolver::resolve(DeadlineInput {
            text,
            ai_iso_hint: hint,
            user_timezone: &zone,
            now_utc: now,
            calendar: None,
        })
        .expect("resolves");
        assert_eq!(resolved.utc.is_some(), resolved.local_date.is_some());
    }
}

#[test]
fn explicit_date_in_text_is_labelled() {
    let zone = moscow();
    let now = moscow_at(2026, 4, 20, 12);
    let resolved = DeadlineResolver::resolve(DeadlineInput {
        text: "сдать до 15.05.2026",
        ai_iso_hint: None,
        user_timezone: &zone,
        now_utc: now,
        calendar: None,
    })
    .expect("resolves");
    assert_eq!(resolved.local_label().as_deref(), Some("15.05.2026"));
    assert_eq!(resolved.source, DeadlineSource::DeterministicText);
}
