use telegram_task_bot::domain::task::types::TaskStatus;
use telegram_task_bot::domain::voice::{VoiceProcessingRecord, VoiceProcessingState};

#[test]
fn created_can_transition_to_sent() {
    assert!(TaskStatus::Created.can_transition_to(TaskStatus::Sent));
}

#[test]
fn completed_cannot_transition_to_any_status() {
    for next in [
        TaskStatus::Created,
        TaskStatus::Sent,
        TaskStatus::InProgress,
        TaskStatus::Blocked,
        TaskStatus::InReview,
        TaskStatus::Completed,
        TaskStatus::Cancelled,
    ] {
        assert!(!TaskStatus::Completed.can_transition_to(next), "Completed must not transition to {next:?}");
    }
}

#[test]
fn cancelled_is_terminal() {
    assert!(TaskStatus::Cancelled.is_terminal());
}

#[test]
fn in_progress_is_not_terminal() {
    assert!(!TaskStatus::InProgress.is_terminal());
}

#[test]
fn status_codes_are_snake_case() {
    assert_eq!(TaskStatus::InProgress.as_code(), "in_progress");
    assert_eq!(TaskStatus::InReview.to_text(), "in_review");
    assert_eq!(TaskStatus::Cancelled.as_code(), "cancelled");
}

#[test]
fn completion_requires_review_first() {
    assert!(!TaskStatus::InProgress.can_transition_to(TaskStatus::Completed));
    assert!(TaskStatus::InReview.can_transition_to(TaskStatus::Completed));
    assert!(!TaskStatus::Sent.can_transition_to(TaskStatus::Created));
}

#[test]
fn given_queued_when_transition_to_transcribing_then_allowed() {
    assert!(VoiceProcessingState::Queued.can_transition_to(VoiceProcessingState::Transcribing));
}

#[test]
fn given_terminal_state_when_transition_then_rejected() {
    assert!(!VoiceProcessingState::Transcribed.can_transition_to(VoiceProcessingState::Transcribing));
    assert!(!VoiceProcessingState::Failed.can_transition_to(VoiceProcessingState::Queued));
}

#[test]
fn given_queued_factory_when_built_then_sets_expected_defaults() {
    let now = chrono::Utc::now().timestamp();
    let record = VoiceProcessingRecord::queued("fu1".into(), 42, 99, Some(7), now);

    assert_eq!(record.state, VoiceProcessingState::Queued);
    assert_eq!(record.attempt_count, 0);
    assert_eq!(record.completed_at, None);
    assert_eq!(record.created_at, now);
    assert_eq!(record.updated_at, now);
}

#[test]
fn given_bad_state_string_when_parsed_then_returns_validation_error() {
    let err = "garbage".parse::<VoiceProcessingState>().unwrap_err();
    assert_eq!(err.code(), "VOICE_PROCESSING_STATE_UNKNOWN");
}

#[test]
fn voice_state_codes_round_trip() {
    for state in [
        VoiceProcessingState::Queued,
        VoiceProcessingState::Transcribing,
        VoiceProcessingState::Transcribed,
        VoiceProcessingState::Failed,
    ] {
        let parsed = state.as_code().parse::<VoiceProcessingState>().unwrap();
        assert_eq!(parsed, state);
    }
}

#[test]
fn voice_state_parses_through_from_str() {
    assert_eq!("transcribing".parse::<VoiceProcessingState>().unwrap(), VoiceProcessingState::Transcribing);
    let err = "melting".parse::<VoiceProcessingState>().unwrap_err();
    assert_eq!(err.code(), "VOICE_PROCESSING_STATE_UNKNOWN");
    assert_eq!(err.message(), "unrecognised voice processing state");
}
