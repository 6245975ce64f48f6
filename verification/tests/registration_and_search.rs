use telegram_task_bot::application::use_cases::register_user::{
    normalize_person_name, resolve_registered_employee, resolve_registration_match, RegistrationEmployeeMatch,
};
use telegram_task_bot::application::use_cases::search_tasks::{SearchQuery, MAX_QUERY_CHARS};
use telegram_task_bot::domain::employee::{Employee, EmployeeSource};
use telegram_task_bot::domain::message::{IncomingMessage, MessageContent};

fn employee(full_name: &str, username: Option<&str>) -> Employee {
    let now = chrono::Utc::now().timestamp();
    Employee {
        id: Some(1),
        full_name: full_name.to_owned(),
        telegram_username: username.map(ToOwned::to_owned),
        email: None,
        phone: None,
        department: None,
        is_active: true,
        source: EmployeeSource::GoogleSheets,
        synced_at: Some(now),
        created_at: now,
        updated_at: now,
    }
}

fn trimmed_employee(full_name: &str, username: Option<&str>) -> Employee {
    employee(full_name, username.map(|value| value.trim_start_matches('@')))
}

fn incoming_message(sender_name: &str, sender_username: Option<&str>, command: bool) -> IncomingMessage {
    let text = "/start".to_owned();
    IncomingMessage {
        chat_id: 1,
        message_id: 1,
        sender_id: 10,
        sender_name: sender_name.to_owned(),
        sender_username: sender_username.map(|value| value.trim_start_matches('@').to_owned()),
        content: if command { MessageContent::Command { text } } else { MessageContent::Text { text } },
        timestamp: chrono::Utc::now().timestamp(),
        source_message_key_override: None,
        is_voice_origin: false,
    }
}

#[test]
fn given_unique_full_name_when_resolving_registered_employee_then_matches_without_username() {
    let employee = employee("Jean Dupont", None);
    let message = incoming_message("Jean Dupont", None, false);

    let resolved = resolve_registered_employee(&message, &vec![employee.duplicate()]);

    assert_eq!(resolved.map(|value| value.full_name), Some(employee.full_name));
}

#[test]
fn given_duplicate_full_name_when_resolving_registered_employee_then_returns_none() {
    let first = employee("Jean Dupont", None);
    let second = employee("Jean Dupont", Some("@other"));
    let message = incoming_message("Jean Dupont", None, false);

    let resolved = resolve_registered_employee(&message, &vec![first, second]);

    assert!(resolved.is_none());
}

#[test]
fn given_username_when_resolving_registered_employee_then_prefers_exact_username_match() {
    let employee = employee("Jean Dupont", Some("@jean"));
    let message = incoming_message("Somebody Else", Some("@jean"), false);

    let resolved = resolve_registered_employee(&message, &vec![employee.duplicate()]);

    assert_eq!(resolved.map(|value| value.full_name), Some(employee.full_name));
}

#[test]
fn given_person_name_with_extra_spaces_when_normalizing_then_collapses_whitespace() {
    let normalized = normalize_person_name("  Jean   Dupont  ");

    assert_eq!(normalized, "jean dupont");
}

#[test]
fn given_unique_full_name_when_resolving_registration_match_then_matches_without_username() {
    let employee = trimmed_employee("Jean Dupont", None);
    let message = incoming_message("Jean Dupont", None, true);

    let resolved = resolve_registration_match(&message, &vec![employee.duplicate()]);

    assert!(matches!(resolved, RegistrationEmployeeMatch::Unique(found) if found.full_name == employee.full_name));
}

#[test]
fn given_duplicate_full_name_when_resolving_registration_match_then_returns_ambiguous() {
    let first = trimmed_employee("Jean Dupont", None);
    let second = trimmed_employee("Jean Dupont", Some("@other"));
    let message = incoming_message("Jean Dupont", None, true);

    let resolved = resolve_registration_match(&message, &vec![first, second]);

    assert!(matches!(resolved, RegistrationEmployeeMatch::Ambiguous(_)));
}

#[test]
fn given_username_when_resolving_registration_match_then_prefers_exact_username_match() {
    let employee = trimmed_employee("Jean Dupont", Some("@jean"));
    let message = incoming_message("Somebody Else", Some("@jean"), true);

    let resolved = resolve_registration_match(&message, &vec![employee.duplicate()]);

    assert!(matches!(resolved, RegistrationEmployeeMatch::Unique(found) if found.full_name == employee.full_name));
}

#[test]
fn given_name_with_extra_spaces_when_normalizing_then_preserves_single_spaces() {
    assert_eq!(normalize_person_name("  Jean   Dupont  "), "jean dupont");
}

#[test]
fn unknown_sender_has_no_registration_match() {
    let employee = trimmed_employee("Jean Dupont", Some("jean"));
    let message = incoming_message("Marie Curie", Some("marie"), true);

    let resolved = resolve_registration_match(&message, &vec![employee]);

    assert!(matches!(resolved, RegistrationEmployeeMatch::NotFound));
}

#[test]
fn given_valid_query_when_parsed_then_normalised_to_lowercase() {
    let q = SearchQuery::parse("  RELease  ").expect("valid");
    assert_eq!(q.canonical(), "release");
}

#[test]
fn given_short_query_when_parsed_then_rejected() {
    let err = SearchQuery::parse("а").unwrap_err();
    assert_eq!(err.code(), "SEARCH_QUERY_TOO_SHORT");
}

#[test]
fn given_empty_query_when_parsed_then_rejected() {
    let err = SearchQuery::parse("   ").unwrap_err();
    assert_eq!(err.code(), "SEARCH_QUERY_EMPTY");
}

#[test]
fn given_too_long_query_when_parsed_then_rejected() {
    let long = "я".repeat(MAX_QUERY_CHARS + 1);
    let err = SearchQuery::parse(&long).unwrap_err();
    assert_eq!(err.code(), "SEARCH_QUERY_TOO_LONG");
}

#[test]
fn query_of_exactly_the_maximum_is_accepted() {
    let exact = "я".repeat(MAX_QUERY_CHARS);
    assert!(SearchQuery::parse(&exact).is_ok());
}

#[test]
fn query_errors_explain_the_length_rule() {
    assert_eq!(SearchQuery::parse("   ").unwrap_err().message(), "search query must not be empty");
    assert_eq!(SearchQuery::parse("а").unwrap_err().message(), "query must be at least 2 characters");
    let long = "я".repeat(MAX_QUERY_CHARS + 1);
    assert_eq!(SearchQuery::parse(&long).unwrap_err().message(), "query must be at most 64 characters");
}
