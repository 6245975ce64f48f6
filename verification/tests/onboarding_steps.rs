use telegram_task_bot::application::use_cases::onboarding::{
    completion_for, decision_for_selection, employee_to_link, first_name_step, last_name_step, link_clarification,
    require_session, OnboardingLinkSelection, OnboardingRetryReason, OnboardingTextInput, CONFIRM_FOUND_MESSAGE,
};
use telegram_task_bot::application::use_cases::register_user::{
    continue_recovery, is_explicit_start_command, RegistrationLinkDecision, RegistrationLinkPreview,
};
use telegram_task_bot::domain::message::{IncomingMessage, MessageContent};
use telegram_task_bot::domain::person_name::MAX_PERSON_NAME_PART_LENGTH;
use telegram_task_bot::domain::user::{OnboardingState, User, UserRole};

fn input(text: &str) -> OnboardingTextInput {
    OnboardingTextInput { text: text.to_owned() }
}

fn user(first: Option<&str>, last: Option<&str>) -> User {
    User {
        id: Some(4),
        telegram_id: 44,
        last_chat_id: Some(44),
        telegram_username: None,
        full_name: None,
        first_name: first.map(str::to_owned),
        last_name: last.map(str::to_owned),
        linked_employee_id: None,
        is_employee: false,
        role: UserRole::User,
        onboarding_state: OnboardingState::AwaitingLastName,
        onboarding_version: 2,
        timezone: "Europe/Moscow".to_owned(),
        quiet_hours_start_min: 0,
        quiet_hours_end_min: 0,
        deactivated_at: None,
        created_at: 0,
        updated_at: 0,
    }
}

#[test]
fn first_name_is_normalised_or_retried() {
    assert_eq!(first_name_step(&input("  Иван ")), Ok("Иван".to_string()));
    assert_eq!(first_name_step(&input("Ив@н")), Err(OnboardingRetryReason::FirstNameInvalid));
    assert_eq!(first_name_step(&input("")), Err(OnboardingRetryReason::FirstNameInvalid));
    let long = "и".repeat(MAX_PERSON_NAME_PART_LENGTH + 1);
    assert_eq!(first_name_step(&input(&long)), Err(OnboardingRetryReason::TooLong));
}

#[test]
fn last_name_completes_the_person_name() {
    let name = last_name_step(&Some("Иван".to_string()), &input(" Петров ")).expect("valid");
    assert_eq!(name.display(), "Иван Петров");
    assert!(matches!(
        last_name_step(&Some("Иван".to_string()), &input("Петр#в")),
        Err(OnboardingRetryReason::LastNameInvalid)
    ));
}

#[test]
fn link_choices_map_to_decisions() {
    assert_eq!(decision_for_selection(OnboardingLinkSelection::PickEmployee(12)), RegistrationLinkDecision::EmployeeId(12));
    assert_eq!(decision_for_selection(OnboardingLinkSelection::ContinueWithoutLink), RegistrationLinkDecision::ContinueUnlinked);
    assert_eq!(employee_to_link(RegistrationLinkDecision::EmployeeId(12)), Some(12));
    assert_eq!(employee_to_link(RegistrationLinkDecision::ContinueUnlinked), None);
}

#[test]
fn completion_needs_both_names() {
    let done = completion_for(&user(Some("Иван"), Some("Петров"))).expect("complete");
    assert_eq!(done.user_id, 4);
    assert_eq!(done.version, 2);
    assert_eq!(done.first_name, "Иван");
    assert_eq!(completion_for(&user(Some("Иван"), None)).unwrap_err().code(), "ONBOARDING_STATE_INVALID");
}

#[test]
fn found_employee_is_confirmed_without_candidates() {
    let screen = link_clarification(RegistrationLinkPreview::Ready(RegistrationLinkDecision::Auto));
    assert_eq!(screen.message, CONFIRM_FOUND_MESSAGE);
    assert!(screen.candidates.is_empty());
    assert!(screen.allow_continue_unlinked);
}

#[test]
fn missing_session_is_reported() {
    let err = require_session(None, 44).unwrap_err();
    assert_eq!(err.code(), "USER_NOT_FOUND");
}

#[test]
fn start_command_is_recognised() {
    let message = IncomingMessage {
        chat_id: 1,
        message_id: 1,
        sender_id: 44,
        sender_name: "Иван".to_owned(),
        sender_username: None,
        content: MessageContent::Command { text: "/start".to_owned() },
        timestamp: 0,
        source_message_key_override: None,
        is_voice_origin: false,
    };
    assert!(is_explicit_start_command(&message));
    assert!(!continue_recovery(10, 0));
}
