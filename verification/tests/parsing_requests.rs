use telegram_task_bot::domain::parsing::{extract_deadline_from_text, parse_task_request};
use telegram_task_bot::time::Date;

fn date(y: i32, m: u32, d: u32) -> Date {
    let epoch = chrono::NaiveDate::from_ymd_opt(1970, 1, 1).unwrap();
    let day = chrono::NaiveDate::from_ymd_opt(y, m, d).expect("valid date");
    Date { days: day.signed_duration_since(epoch).num_days() }
}

fn monday() -> Date {
    date(2026, 4, 20)
}

#[test]
fn named_assignee_and_absolute_date_are_extracted() {
    let parsed = parse_task_request("Иван, подготовить отчёт по продажам до 24.04", monday()).unwrap();
    assert_eq!(parsed.assignee_name.as_deref(), Some("Иван"));
    assert_eq!(parsed.deadline, Some(date(2026, 4, 24)));
    assert_eq!(parsed.deadline_raw.as_deref(), Some("до 24.04"));
    assert_eq!(parsed.task_description, "подготовить отчёт по продажам");
    assert!(!parsed.explicit_unassigned);
    assert_eq!(parsed.confidence_score, 100);
}

#[test]
fn username_assignee_and_tomorrow_are_extracted() {
    let parsed = parse_task_request("@ivanov_p проверить договор с поставщиком завтра", monday()).unwrap();
    assert_eq!(parsed.assignee_name.as_deref(), Some("ivanov_p"));
    assert_eq!(parsed.deadline, Some(date(2026, 4, 21)));
    assert_eq!(parsed.deadline_raw.as_deref(), Some("завтра"));
    assert_eq!(parsed.task_description, "проверить договор с поставщиком");
}

#[test]
fn explicit_no_assignee_and_period_in_days() {
    let parsed = parse_task_request("подготовить релиз без исполнителя через 2 дня", monday()).unwrap();
    assert!(parsed.explicit_unassigned);
    assert!(parsed.assignee_name.is_none());
    assert_eq!(parsed.deadline, Some(date(2026, 4, 22)));
    assert_eq!(parsed.deadline_raw.as_deref(), Some("через 2 дня"));
    assert_eq!(parsed.task_description, "подготовить релиз без исполнителя");
    assert_eq!(parsed.confidence_score, 80);
}

#[test]
fn hours_round_up_to_whole_days() {
    let (deadline, raw) = extract_deadline_from_text("обновить сайт через 30 часов", monday()).unwrap();
    assert_eq!(deadline, Some(date(2026, 4, 22)));
    assert_eq!(raw.as_deref(), Some("через 30 часов"));
    let (soon, _) = extract_deadline_from_text("обновить сайт через 1 час", monday()).unwrap();
    assert_eq!(soon, Some(date(2026, 4, 21)));
}

#[test]
fn weekday_deadline_is_the_next_such_day() {
    let (deadline, raw) = extract_deadline_from_text("сдать отчёт до пятницы", monday()).unwrap();
    assert_eq!(deadline, Some(date(2026, 4, 24)));
    assert_eq!(raw.as_deref(), Some("пятницы"));
    let friday = date(2026, 4, 24);
    let (next, _) = extract_deadline_from_text("сдать отчёт в пятницу", friday).unwrap();
    assert_eq!(next, None);
    let (week_later, _) = extract_deadline_from_text("сдать отчёт к пятнице", friday).unwrap();
    assert_eq!(week_later, Some(date(2026, 5, 1)));
}

#[test]
fn urgent_means_today() {
    let (deadline, raw) = extract_deadline_from_text("Срочно позвонить клиенту", monday()).unwrap();
    assert_eq!(deadline, Some(monday()));
    assert_eq!(raw.as_deref(), Some("срочно"));
}

#[test]
fn impossible_date_is_rejected() {
    let err = extract_deadline_from_text("оплатить счёт до 31.02", monday()).unwrap_err();
    assert_eq!(err.code(), "DEADLINE_INVALID");
}

#[test]
fn explicit_year_is_used() {
    let (deadline, raw) = extract_deadline_from_text("продлить лицензию до 05.01.2027", monday()).unwrap();
    assert_eq!(deadline, Some(date(2027, 1, 5)));
    assert_eq!(raw.as_deref(), Some("до 05.01.2027"));
}

#[test]
fn no_deadline_in_plain_text() {
    let (deadline, raw) = extract_deadline_from_text("подготовить релизный чек-лист", monday()).unwrap();
    assert_eq!(deadline, None);
    assert_eq!(raw, None);
}

#[test]
fn short_or_gibberish_descriptions_are_rejected() {
    assert_eq!(parse_task_request("ок", monday()).unwrap_err().code(), "TASK_DESCRIPTION_TOO_SHORT");
    assert_eq!(parse_task_request("1234567890 12", monday()).unwrap_err().code(), "TASK_DESCRIPTION_INVALID");
    assert_eq!(parse_task_request("подготовитьотчёт", monday()).unwrap_err().code(), "TASK_DESCRIPTION_INVALID");
}

#[test]
fn plain_request_has_base_confidence() {
    let parsed = parse_task_request("  подготовить   релизный чек-лист  ", monday()).unwrap();
    assert_eq!(parsed.task_description, "подготовить релизный чек-лист");
    assert_eq!(parsed.confidence_score, 60);
}
