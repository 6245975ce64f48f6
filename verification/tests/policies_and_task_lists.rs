use telegram_task_bot::application::policies::{
    RoleAuthorizationPolicy, FORBIDDEN_ACCOUNT_DEACTIVATED, FORBIDDEN_ADMIN_ONLY, FORBIDDEN_SELF_TARGET,
};
use telegram_task_bot::application::use_cases::list_tasks::{build_page, section_matches, SectionKind, TaskListScope};
use telegram_task_bot::domain::task::entity::Task;
use telegram_task_bot::domain::task::types::{MessageType, TaskPriority, TaskStatus};
use telegram_task_bot::domain::user::{
    OnboardingState, User, UserRole, DEFAULT_QUIET_HOURS_END_MIN, DEFAULT_QUIET_HOURS_START_MIN,
    DEFAULT_USER_TIMEZONE,
};
use telegram_task_bot::time::Date;

fn date(y: i32, m: u32, d: u32) -> Date {
    let epoch = chrono::NaiveDate::from_ymd_opt(1970, 1, 1).unwrap();
    let day = chrono::NaiveDate::from_ymd_opt(y, m, d).expect("valid date");
    Date { days: day.signed_duration_since(epoch).num_days() }
}


fn user(id: Option<i64>, role: UserRole) -> User {
    let now = chrono::Utc::now().timestamp();
    User {
        id,
        telegram_id: 100,
        last_chat_id: Some(100),
        telegram_username: Some("tester".to_owned()),
        full_name: Some("Tester".to_owned()),
        first_name: Some("Tester".to_owned()),
        last_name: Some("McTest".to_owned()),
        linked_employee_id: Some(5),
        is_employee: true,
        role,
        onboarding_state: OnboardingState::Completed,
        onboarding_version: 0,
        timezone: DEFAULT_USER_TIMEZONE.to_owned(),
        quiet_hours_start_min: DEFAULT_QUIET_HOURS_START_MIN,
        quiet_hours_end_min: DEFAULT_QUIET_HOURS_END_MIN,
        deactivated_at: None,
        created_at: now,
        updated_at: now,
    }
}

fn task(created_by_user_id: i64, assigned_to_user_id: Option<i64>, employee: Option<i64>, status: TaskStatus) -> Task {
    let now = chrono::Utc::now().timestamp();
    Task {
        id: Some(1),
        task_uid: uuid::Uuid::now_v7().as_u128(),
        version: 0,
        source_message_key: "telegram:1:1".to_owned(),
        created_by_user_id,
        assigned_to_user_id,
        assigned_to_employee_id: employee,
        title: "Prepare release".to_owned(),
        description: "1. Prepare release".to_owned(),
        acceptance_criteria: vec!["Release checklist done".to_owned()],
        expected_result: "Release is ready".to_owned(),
        deadline: None,
        deadline_raw: None,
        original_message: "prepare release".to_owned(),
        message_type: MessageType::Text,
        ai_model_used: "test".to_owned(),
        ai_response_raw: "{}".to_owned(),
        status,
        priority: TaskPriority::Medium,
        blocked_reason: None,
        telegram_chat_id: 1,
        telegram_message_id: 1,
        telegram_task_message_id: None,
        tags: Vec::new(),
        created_at: now,
        sent_at: None,
        started_at: None,
        blocked_at: None,
        review_requested_at: None,
        completed_at: None,
        cancelled_at: None,
        updated_at: now,
    }
}

fn task_with_status(status: TaskStatus) -> Task {
    task(1, None, None, status)
}

fn today() -> Date {
    date(2026, 4, 23)
}

#[test]
fn given_employee_when_viewing_unrelated_team_task_then_policy_rejects_access() {
    let actor = user(Some(7), UserRole::User);
    let task = task(11, Some(22), Some(5), TaskStatus::Created);

    let result = RoleAuthorizationPolicy::ensure_can_view_task(&actor, &task);

    assert!(result.is_err());
}

#[test]
fn given_manager_when_viewing_team_task_then_policy_allows_access() {
    let actor = user(Some(7), UserRole::Manager);
    let task = task(11, Some(22), Some(5), TaskStatus::Created);

    let result = RoleAuthorizationPolicy::ensure_can_view_task(&actor, &task);

    assert!(result.is_ok());
}

#[test]
fn given_assignee_when_completing_review_required_task_then_policy_redirects_to_review() {
    let actor = user(Some(22), UserRole::User);
    let mut task = task(11, Some(22), Some(5), TaskStatus::InProgress);
    task.expected_result = "Ready for review".to_owned();

    let normalized = RoleAuthorizationPolicy::normalize_requested_status(&actor, &task, TaskStatus::Completed)
        .expect("normalization should succeed");

    assert_eq!(normalized, TaskStatus::InReview);
}

#[test]
fn given_non_admin_when_accessing_admin_panel_then_returns_forbidden_admin_only() {
    let actor = user(Some(7), UserRole::Manager);

    let err = RoleAuthorizationPolicy::ensure_can_access_admin_panel(&actor).unwrap_err();

    assert_eq!(err.code(), FORBIDDEN_ADMIN_ONLY);
}

#[test]
fn given_active_admin_when_accessing_admin_panel_then_allows() {
    let actor = user(Some(7), UserRole::Admin);

    RoleAuthorizationPolicy::ensure_can_access_admin_panel(&actor).expect("active admin has access");
}

#[test]
fn given_deactivated_admin_when_accessing_admin_panel_then_returns_account_deactivated() {
    let mut actor = user(Some(7), UserRole::Admin);
    actor.deactivated_at = Some(chrono::Utc::now().timestamp());

    let err = RoleAuthorizationPolicy::ensure_can_access_admin_panel(&actor).unwrap_err();

    assert_eq!(err.code(), FORBIDDEN_ACCOUNT_DEACTIVATED);
}

#[test]
fn given_admin_when_managing_own_role_then_returns_forbidden_self_target() {
    let admin = user(Some(7), UserRole::Admin);
    let target = user(Some(7), UserRole::Admin);

    let err = RoleAuthorizationPolicy::ensure_can_manage_roles(&admin, &target).unwrap_err();

    assert_eq!(err.code(), FORBIDDEN_SELF_TARGET);
}

#[test]
fn given_admin_when_managing_another_user_then_allows() {
    let admin = user(Some(7), UserRole::Admin);
    let mut target = user(Some(8), UserRole::User);
    target.telegram_id = 101;

    RoleAuthorizationPolicy::ensure_can_manage_roles(&admin, &target).expect("admin can manage others");
}

#[test]
fn unregistered_actor_cannot_change_status() {
    let actor = user(None, UserRole::Admin);
    let task = task(11, Some(22), Some(5), TaskStatus::InProgress);
    let err = RoleAuthorizationPolicy::ensure_can_change_status(&actor, &task, TaskStatus::Blocked).unwrap_err();
    assert_eq!(err.code(), "UNAUTHENTICATED");
}

#[test]
fn given_completed_task_when_manager_inbox_sections_then_task_is_excluded_from_all_sections() {
    let today = today();
    let task = task_with_status(TaskStatus::Completed);

    assert!(!section_matches(SectionKind::InReview, &task, today), "completed task must not appear in in_review");
    assert!(!section_matches(SectionKind::Blocked, &task, today), "completed task must not appear in blocked");
    assert!(
        !section_matches(SectionKind::DeadlineRisk, &task, today),
        "completed task must not appear in deadline_risk"
    );
    assert!(!section_matches(SectionKind::Stale, &task, today), "completed task must not appear in stale");
    assert!(
        !section_matches(SectionKind::PendingRegistration, &task, today),
        "completed task must not appear in pending_registration"
    );
}

#[test]
fn given_cancelled_task_when_manager_inbox_sections_then_task_is_excluded_from_all_sections() {
    let today = today();
    let task = task_with_status(TaskStatus::Cancelled);

    assert!(!section_matches(SectionKind::InReview, &task, today));
    assert!(!section_matches(SectionKind::Blocked, &task, today));
    assert!(!section_matches(SectionKind::DeadlineRisk, &task, today));
    assert!(!section_matches(SectionKind::Stale, &task, today));
    assert!(!section_matches(SectionKind::PendingRegistration, &task, today));
}

#[test]
fn given_in_review_task_when_section_in_review_then_matches() {
    let task = task_with_status(TaskStatus::InReview);
    assert!(section_matches(SectionKind::InReview, &task, today()));
}

#[test]
fn given_blocked_task_when_section_blocked_then_matches() {
    let task = task_with_status(TaskStatus::Blocked);
    assert!(section_matches(SectionKind::Blocked, &task, today()));
}

#[test]
fn given_partial_page_when_build_page_then_no_next_cursor() {
    let page_size: u32 = 5;
    let tasks: Vec<Task> = (0..3).map(|_| task_with_status(TaskStatus::InProgress)).collect();

    let has_more = tasks.len() > page_size as usize;
    let page = build_page(TaskListScope::AssignedToMe, today(), tasks, page_size);

    assert!(!has_more, "partial page must not signal more data");
    assert!(page.next_cursor.is_none(), "no cursor on partial page");
}

#[test]
fn given_full_page_plus_sentinel_when_build_page_then_next_cursor_is_set() {
    let page_size: u32 = 5;
    let tasks: Vec<Task> = (0..6).map(|_| task_with_status(TaskStatus::InProgress)).collect();
    let fifth = uuid::Uuid::from_u128(tasks[4].task_uid).to_string();

    let has_more = tasks.len() > page_size as usize;
    let page = build_page(TaskListScope::AssignedToMe, today(), tasks, page_size);
    let shown: usize = page.sections.iter().map(|s| s.tasks.len()).sum();

    assert!(has_more, "sentinel row must signal more data");
    assert_eq!(shown, page_size as usize, "visible page must be trimmed to page_size");
    assert!(page.next_cursor.is_some(), "cursor must be set when more data exists");
    assert_eq!(page.next_cursor.unwrap(), fifth);
}

#[test]
fn pending_registration_task_is_flagged_in_manager_inbox() {
    let task = task(1, None, Some(5), TaskStatus::Created);
    assert!(section_matches(SectionKind::PendingRegistration, &task, today()));
    let page = build_page(TaskListScope::ManagerInbox, today(), vec![task], 10);
    assert_eq!(page.sections.len(), 1);
    assert_eq!(page.sections[0].title, "👋 Исполнитель ещё не подключил бота");
    assert_eq!(page.sections[0].tasks[0].highlight.as_deref(), Some("нужен /start от исполнителя"));
}

#[test]
fn overdue_task_is_highlighted() {
    let mut late = task(1, Some(2), Some(5), TaskStatus::InProgress);
    late.deadline = Some(date(2026, 4, 20));
    assert!(section_matches(SectionKind::Overdue, &late, today()));
    let page = build_page(TaskListScope::AssignedToMe, today(), vec![late], 10);
    assert_eq!(page.sections[0].title, "🔥 Просрочено");
    assert_eq!(page.sections[0].tasks[0].highlight.as_deref(), Some("дедлайн уже прошёл"));
}
