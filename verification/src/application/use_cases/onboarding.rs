//! The first-run dialog: first name, last name, then the employee link.
//! Each step below decides what to ask or store next; the driver reads and
//! writes the session and runs the registration between them.
use vstd::prelude::*;

use crate::application::dto::EmployeeCandidateView;
use crate::application::use_cases::assignee_resolution::candidate_views;
use crate::application::use_cases::register_user::{
    RegistrationLinkClarification, RegistrationLinkDecision, RegistrationLinkPreview,
};
use crate::domain::errors::{ctx_one, ctx_two, AppError, AppResult, ContextValue, ErrorKind};
use crate::domain::person_name::{normalize_part, part_violation, PersonName, MAX_PERSON_NAME_PART_LENGTH};
use crate::domain::user::{OnboardingState, User};
use crate::text::{chars_of, opt_view};

verus! {

/// Shown on the employee-link screen when nothing was preselected.
pub const PICK_YOURSELF_MESSAGE: &'static str = "Выберите себя из списка сотрудников";
/// Shown when the directory already knows the user.
pub const CONFIRM_FOUND_MESSAGE: &'static str = "Мы нашли вас в справочнике сотрудников — подтвердите, чтобы закончить.";

/// The text the user typed on the current step.
#[derive(Debug)]
pub struct OnboardingTextInput {
    pub text: String,
}

/// A button pressed on the employee-link step.
#[derive(Debug, Clone, Copy, PartialEq, Eq, Structural)]
pub enum OnboardingLinkSelection {
    PickEmployee(i64),
    ContinueWithoutLink,
}

/// What to render after an onboarding update.
#[derive(Debug)]
pub enum OnboardingOutcome {
    AskFirstName { user: User },
    AskLastName { user: User },
    AskEmployeeLink { user: User, clarification: OnboardingEmployeeLinkClarification },
    Completed { user: User },
    RetryPrompt { reason: OnboardingRetryReason },
}

#[derive(Debug)]
pub struct OnboardingEmployeeLinkClarification {
    pub message: String,
    pub candidates: Vec<EmployeeCandidateView>,
    pub allow_continue_unlinked: bool,
}

#[derive(Debug, Clone, Copy, PartialEq, Eq, Structural)]
pub enum OnboardingRetryReason {
    FirstNameInvalid,
    LastNameInvalid,
    LinkSelectionExpected,
    TooLong,
}

/// The prompt for a session in `user`'s state.
pub fn outcome_for(user: User) -> (r: OnboardingOutcome)
    ensures
        match user.onboarding_state {
            OnboardingState::AwaitingFirstName => r == (OnboardingOutcome::AskFirstName { user }),
            OnboardingState::AwaitingLastName => r == (OnboardingOutcome::AskLastName { user }),
            OnboardingState::AwaitingEmployeeLink => r matches OnboardingOutcome::AskEmployeeLink { user: u, clarification: c }
                && u == user && c.message@ == PICK_YOURSELF_MESSAGE@ && c.candidates@.len() == 0 && c.allow_continue_unlinked,
            OnboardingState::Completed => r == (OnboardingOutcome::Completed { user }),
        },
{
    match user.onboarding_state {
        OnboardingState::AwaitingFirstName => OnboardingOutcome::AskFirstName { user },
        OnboardingState::AwaitingLastName => OnboardingOutcome::AskLastName { user },
        OnboardingState::AwaitingEmployeeLink => OnboardingOutcome::AskEmployeeLink {
            user,
            clarification: OnboardingEmployeeLinkClarification {
                message: String::from_str(PICK_YOURSELF_MESSAGE),
                candidates: Vec::new(),
                allow_continue_unlinked: true,
            },
        },
        OnboardingState::Completed => OnboardingOutcome::Completed { user },
    }
}

/// The step a typed text is handled by.
#[derive(Debug, Clone, Copy, PartialEq, Eq, Structural)]
pub enum TextStep {
    FirstName,
    LastName,
    /// A button was expected: ask again.
    ExpectSelection,
    /// Already onboarded.
    Done,
}

pub fn text_step(state: OnboardingState) -> (r: TextStep)
    ensures
        r == match state {
            OnboardingState::AwaitingFirstName => TextStep::FirstName,
            OnboardingState::AwaitingLastName => TextStep::LastName,
            OnboardingState::AwaitingEmployeeLink => TextStep::ExpectSelection,
            OnboardingState::Completed => TextStep::Done,
        },
{
    match state {
        OnboardingState::AwaitingFirstName => TextStep::FirstName,
        OnboardingState::AwaitingLastName => TextStep::LastName,
        OnboardingState::AwaitingEmployeeLink => TextStep::ExpectSelection,
        OnboardingState::Completed => TextStep::Done,
    }
}

/// The accepted first name, or why the input is asked again: too long
/// before normalisation, or not a valid name part.
pub fn first_name_step(input: &OnboardingTextInput) -> (r: Result<String, OnboardingRetryReason>)
    ensures
        input.text@.len() > MAX_PERSON_NAME_PART_LENGTH ==> r == Err::<String, OnboardingRetryReason>(OnboardingRetryReason::TooLong),
        input.text@.len() <= MAX_PERSON_NAME_PART_LENGTH ==> match part_violation(normalize_part(input.text@)) {
            Some(_) => r == Err::<String, OnboardingRetryReason>(OnboardingRetryReason::FirstNameInvalid),
            None => r matches Ok(s) && s@ == normalize_part(input.text@),
        },
{
    if input.text.as_str().unicode_len() > MAX_PERSON_NAME_PART_LENGTH {
        return Err(OnboardingRetryReason::TooLong);
    }
    match PersonName::parse_first_only(input.text.as_str()) {
        Ok(first) => Ok(first),
        Err(_) => Err(OnboardingRetryReason::FirstNameInvalid),
    }
}

/// The completed name, or why the input is asked again; the stored first
/// name (empty when missing) is kept as it is.
pub fn last_name_step(first_name: &Option<String>, input: &OnboardingTextInput) -> (r: Result<PersonName, OnboardingRetryReason>)
    ensures
        input.text@.len() > MAX_PERSON_NAME_PART_LENGTH ==> (r matches Err(reason) && reason == OnboardingRetryReason::TooLong),
        input.text@.len() <= MAX_PERSON_NAME_PART_LENGTH ==> match part_violation(normalize_part(input.text@)) {
            Some(_) => r matches Err(reason) && reason == OnboardingRetryReason::LastNameInvalid,
            None => r matches Ok(n) && n@.last == normalize_part(input.text@) && n@.first == (match opt_view(*first_name) {
                Some(f) => f,
                None => Seq::<char>::empty(),
            }),
        },
{
    if input.text.as_str().unicode_len() > MAX_PERSON_NAME_PART_LENGTH {
        return Err(OnboardingRetryReason::TooLong);
    }
    let first_raw = match first_name {
        Some(f) => f.clone(),
        None => String::new(),
    };
    match PersonName::parse_last_with_first(first_raw.as_str(), input.text.as_str()) {
        Ok(name) => Ok(name),
        Err(_) => Err(OnboardingRetryReason::LastNameInvalid),
    }
}

/// The registration decision of a pressed button.
pub fn decision_for_selection(selection: OnboardingLinkSelection) -> (r: RegistrationLinkDecision)
    ensures
        r == match selection {
            OnboardingLinkSelection::PickEmployee(id) => RegistrationLinkDecision::EmployeeId(id),
            OnboardingLinkSelection::ContinueWithoutLink => RegistrationLinkDecision::ContinueUnlinked,
        },
{
    match selection {
        OnboardingLinkSelection::PickEmployee(id) => RegistrationLinkDecision::EmployeeId(id),
        OnboardingLinkSelection::ContinueWithoutLink => RegistrationLinkDecision::ContinueUnlinked,
    }
}

/// The employee a decision links to.
pub fn employee_to_link(decision: RegistrationLinkDecision) -> (r: Option<i64>)
    ensures
        r == match decision {
            RegistrationLinkDecision::EmployeeId(id) => Some(id),
            _ => None,
        },
{
    match decision {
        RegistrationLinkDecision::EmployeeId(id) => Some(id),
        _ => None,
    }
}

/// The session is inconsistent (no identifier or missing name parts).
pub fn invalid_state_error(user: &User) -> (r: AppError)
    ensures
        r.is_error(ErrorKind::Internal, "ONBOARDING_STATE_INVALID"@),
        r.message_view() == "Cannot complete onboarding without captured first/last name"@,
{
    let id = match user.id {
        Some(id) => ContextValue::Int(id),
        None => ContextValue::Null,
    };
    AppError::internal(
        "ONBOARDING_STATE_INVALID",
        String::from_str("Cannot complete onboarding without captured first/last name"),
        ctx_two("user_id", id, "state", ContextValue::Text(String::from_str(user.onboarding_state.as_storage_value()))),
    )
}

/// The stored identifier of a session; one without it is inconsistent.
pub fn session_user_id(user: &User) -> (r: AppResult<i64>)
    ensures
        match user.id {
            Some(id) => r == Ok::<i64, AppError>(id),
            None => r matches Err(e) && e.is_error(ErrorKind::Internal, "ONBOARDING_STATE_INVALID"@)
                && e.message_view() == "Cannot complete onboarding without captured first/last name"@,
        },
{
    match user.id {
        Some(id) => Ok(id),
        None => Err(invalid_state_error(user)),
    }
}

/// The session of `telegram_id`, which must exist.
pub fn require_session(user: Option<User>, telegram_id: i64) -> (r: AppResult<User>)
    ensures
        match user {
            Some(u) => r == Ok::<User, AppError>(u),
            None => r matches Err(e) && e.is_error(ErrorKind::NotFound, "USER_NOT_FOUND"@),
        },
        r matches Err(e) ==> e.message_view() == "Onboarding session does not exist; send /start first"@,
{
    match user {
        Some(u) => Ok(u),
        None => Err(AppError::not_found(
            "USER_NOT_FOUND",
            String::from_str("Onboarding session does not exist; send /start first"),
            ctx_one("telegram_id", ContextValue::Int(telegram_id)),
        )),
    }
}

/// What completing the onboarding stores: the user's identifier, the
/// session version and both name parts.
#[derive(Debug)]
pub struct Completion {
    pub user_id: i64,
    pub version: i64,
    pub first_name: String,
    pub last_name: String,
}

/// The completion data of a session that collected both name parts.
pub fn completion_for(user: &User) -> (r: AppResult<Completion>)
    ensures
        r is Ok <==> user.first_name is Some && user.last_name is Some && user.id is Some,
        r matches Ok(c) ==> Some(c.user_id) == user.id && c.version == user.onboarding_version
            && Some(c.first_name@) == opt_view(user.first_name) && Some(c.last_name@) == opt_view(user.last_name),
        r matches Err(e) ==> e.is_error(ErrorKind::Internal, "ONBOARDING_STATE_INVALID"@)
            && e.message_view() == "Cannot complete onboarding without captured first/last name"@,
{
    let first = match &user.first_name {
        Some(f) => f.clone(),
        None => return Err(invalid_state_error(user)),
    };
    let last = match &user.last_name {
        Some(l) => l.clone(),
        None => return Err(invalid_state_error(user)),
    };
    let user_id = match user.id {
        Some(id) => id,
        None => return Err(invalid_state_error(user)),
    };
    Ok(Completion { user_id, version: user.onboarding_version, first_name: first, last_name: last })
}

/// After the last name is stored: a ready link completes the onboarding,
/// a needed choice shows the employee-link screen.
pub enum AfterLastName {
    Complete { decision: RegistrationLinkDecision, user_id: i64, version: i64, employee_id: Option<i64> },
    Ask(OnboardingOutcome),
}

pub fn after_last_name(updated: User, preview: RegistrationLinkPreview) -> (r: AppResult<AfterLastName>)
    ensures
        match preview {
            RegistrationLinkPreview::Ready(d) => match updated.id {
                Some(id) => r matches Ok(AfterLastName::Complete { decision, user_id, version, employee_id })
                    && decision == d && user_id == id && version == updated.onboarding_version
                    && employee_id == (match d {
                        RegistrationLinkDecision::EmployeeId(e) => Some(e),
                        _ => None,
                    }),
                None => r matches Err(e) && e.is_error(ErrorKind::Internal, "ONBOARDING_STATE_INVALID"@)
                    && e.message_view() == "Cannot complete onboarding without captured first/last name"@,
            },
            RegistrationLinkPreview::ClarificationRequired(c) => r matches Ok(AfterLastName::Ask(
                OnboardingOutcome::AskEmployeeLink { user, clarification },
            )) && user == updated && clarification.message@ == c.message@
                && candidate_views(clarification.candidates@) == candidate_views(c.candidates@)
                && clarification.allow_continue_unlinked == c.allow_continue_unlinked,
        },
{
    match preview {
        RegistrationLinkPreview::Ready(decision) => match updated.id {
            Some(user_id) => Ok(AfterLastName::Complete {
                decision,
                user_id,
                version: updated.onboarding_version,
                employee_id: employee_to_link(decision),
            }),
            None => Err(invalid_state_error(&updated)),
        },
        RegistrationLinkPreview::ClarificationRequired(clarification) => Ok(AfterLastName::Ask(
            OnboardingOutcome::AskEmployeeLink {
                user: updated,
                clarification: OnboardingEmployeeLinkClarification {
                    message: clarification.message,
                    candidates: clarification.candidates,
                    allow_continue_unlinked: clarification.allow_continue_unlinked,
                },
            },
        )),
    }
}

/// The employee-link screen rebuilt from a fresh preview.
pub fn link_clarification(preview: RegistrationLinkPreview) -> (r: OnboardingEmployeeLinkClarification)
    ensures
        match preview {
            RegistrationLinkPreview::ClarificationRequired(c) => r.message@ == c.message@
                && candidate_views(r.candidates@) == candidate_views(c.candidates@)
                && r.allow_continue_unlinked == c.allow_continue_unlinked,
            RegistrationLinkPreview::Ready(_) => r.message@ == CONFIRM_FOUND_MESSAGE@
                && r.candidates@.len() == 0 && r.allow_continue_unlinked,
        },
{
    match preview {
        RegistrationLinkPreview::ClarificationRequired(c) => OnboardingEmployeeLinkClarification {
            message: c.message,
            candidates: c.candidates,
            allow_continue_unlinked: c.allow_continue_unlinked,
        },
        RegistrationLinkPreview::Ready(_) => OnboardingEmployeeLinkClarification {
            message: String::from_str(CONFIRM_FOUND_MESSAGE),
            candidates: Vec::new(),
            allow_continue_unlinked: true,
        },
    }
}

} // verus!
