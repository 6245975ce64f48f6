use telegram_task_bot::application::dto::TaskActionView;
use telegram_task_bot::application::policies::RoleAuthorizationPolicy;
use telegram_task_bot::application::use_cases::get_task_status::{
    display_user, render_history_entry, render_history_status, split_description_lines,
};
use telegram_task_bot::application::use_cases::update_task_status::{
    build_participant_notification, build_status_message, participant_notifications, plan_status_change,
};
use telegram_task_bot::domain::audit::{AuditAction, AuditLogEntry};
use telegram_task_bot::domain::errors::{ContextEntry, ContextValue};
use telegram_task_bot::domain::notification::NotificationType;
use telegram_task_bot::domain::task::entity::Task;
use telegram_task_bot::domain::task::types::{MessageType, TaskPriority, TaskStatus};
use telegram_task_bot::domain::user::{OnboardingState, User, UserRole};

const NOW: i64 = 1_776_700_800;

fn user(id: Option<i64>, role: UserRole) -> User {
    User {
        id,
        telegram_id: 500,
        last_chat_id: Some(500),
        telegram_username: None,
        full_name: None,
        first_name: None,
        last_name: None,
        linked_employee_id: None,
        is_employee: false,
        role,
        onboarding_state: OnboardingState::Completed,
        onboarding_version: 0,
        timezone: "Europe/Moscow".to_owned(),
        quiet_hours_start_min: 0,
        quiet_hours_end_min: 0,
        deactivated_at: None,
        created_at: NOW,
        updated_at: NOW,
    }
}

fn task(created_by: i64, assignee: Option<i64>, status: TaskStatus) -> Task {
    Task {
        id: Some(9),
        task_uid: 7,
        version: 3,
        source_message_key: "telegram:1:1".to_owned(),
        created_by_user_id: created_by,
        assigned_to_user_id: assignee,
        assigned_to_employee_id: None,
        title: "Отчёт".to_owned(),
        description: "Собрать отчёт".to_owned(),
        acceptance_criteria: vec![],
        expected_result: "Готовый отчёт".to_owned(),
        deadline: None,
        deadline_raw: None,
        original_message: "отчёт".to_owned(),
        message_type: MessageType::Text,
        ai_model_used: "m".to_owned(),
        ai_response_raw: "{}".to_owned(),
        status,
        priority: TaskPriority::Medium,
        blocked_reason: None,
        telegram_chat_id: 1,
        telegram_message_id: 1,
        telegram_task_message_id: None,
        tags: vec![],
        created_at: NOW,
        sent_at: None,
        started_at: None,
        blocked_at: None,
        review_requested_at: None,
        completed_at: None,
        cancelled_at: None,
        updated_at: NOW,
    }
}

fn entry(action: AuditAction, old: Option<&str>, new: Option<&str>, metadata: Vec<ContextEntry>) -> AuditLogEntry {
    AuditLogEntry {
        id: None,
        task_id: 9,
        action,
        old_status: old.map(str::to_owned),
        new_status: new.map(str::to_owned),
        changed_by_user_id: Some(1),
        metadata,
        created_at: NOW,
    }
}

#[test]
fn history_statuses_are_translated() {
    assert_eq!(render_history_status(Some("in_progress")), "в работе");
    assert_eq!(render_history_status(Some("cancelled")), "отменена");
    assert_eq!(render_history_status(Some("archived")), "неизвестно");
    assert_eq!(render_history_status(None), "неизвестно");
}

#[test]
fn history_lines_carry_time_and_details() {
    let changed = entry(AuditAction::StatusChanged, Some("sent"), Some("in_progress"), vec![]);
    assert_eq!(render_history_entry(&changed), "20.04.2026 16:00: отправлена → в работе");
    let blocked = entry(
        AuditAction::Blocked,
        Some("in_progress"),
        Some("blocked"),
        vec![ContextEntry { key: "reason".to_owned(), value: ContextValue::Text("нет доступа".to_owned()) }],
    );
    assert_eq!(render_history_entry(&blocked), "20.04.2026 16:00: зафиксирован блокер: нет доступа");
    let bare = entry(AuditAction::Commented, None, None, vec![]);
    assert_eq!(render_history_entry(&bare), "20.04.2026 16:00: добавлен комментарий");
    let sent = entry(AuditAction::Sent, None, None, vec![]);
    assert_eq!(render_history_entry(&sent), "20.04.2026 16:00: уведомление доставлено исполнителю");
}

#[test]
fn description_lines_are_trimmed_and_non_empty() {
    assert_eq!(
        split_description_lines("  шаг один \n\n  шаг два\r\n   \nшаг три"),
        vec!["шаг один".to_string(), "шаг два".to_string(), "шаг три".to_string()]
    );
}

#[test]
fn users_are_displayed_by_username_then_name() {
    let mut u = user(Some(3), UserRole::User);
    assert_eq!(display_user(&u, 3), "user:3");
    u.full_name = Some("Иван Петров".to_owned());
    assert_eq!(display_user(&u, 3), "Иван Петров");
    u.telegram_username = Some("ivan".to_owned());
    assert_eq!(display_user(&u, 3), "@ivan");
}

#[test]
fn assignee_sees_progress_actions_and_creator_sees_management() {
    let t = task(1, Some(2), TaskStatus::Sent);
    let assignee = RoleAuthorizationPolicy::available_actions(&user(Some(2), UserRole::User), &t);
    assert_eq!(
        assignee,
        vec![
            TaskActionView::StartProgress,
            TaskActionView::SubmitForReview,
            TaskActionView::ReportBlocker,
            TaskActionView::Cancel,
            TaskActionView::AddComment,
        ]
    );
    let creator = RoleAuthorizationPolicy::available_actions(&user(Some(1), UserRole::User), &task(1, Some(2), TaskStatus::InReview));
    assert_eq!(
        creator,
        vec![
            TaskActionView::ApproveReview,
            TaskActionView::ReturnToWork,
            TaskActionView::Reassign,
            TaskActionView::Cancel,
            TaskActionView::AddComment,
        ]
    );
    let finished = RoleAuthorizationPolicy::available_actions(&user(Some(1), UserRole::Admin), &task(1, Some(2), TaskStatus::Completed));
    assert_eq!(finished, vec![TaskActionView::AddComment]);
}

#[test]
fn status_change_messages() {
    assert_eq!(build_status_message(TaskStatus::InProgress, TaskStatus::InReview), "Задача отправлена на проверку: in_progress -> in_review");
    assert_eq!(build_status_message(TaskStatus::Sent, TaskStatus::InProgress), "Статус задачи обновлён: sent -> in_progress");
    let t = task(1, Some(2), TaskStatus::InProgress);
    assert_eq!(build_participant_notification(&t, TaskStatus::Completed), "Задача «Отчёт» принята и завершена.");
    assert_eq!(build_participant_notification(&t, TaskStatus::InProgress), "Задача «Отчёт» теперь в статусе in_progress.");
}

#[test]
fn status_notices_skip_the_actor() {
    let t = task(1, Some(2), TaskStatus::InReview);
    let notices = participant_notifications(Some(2), &t, TaskStatus::InReview, NOW);
    assert_eq!(notices.len(), 1);
    assert_eq!(notices[0].recipient_user_id, 1);
    assert_eq!(notices[0].notification_type, NotificationType::TaskReviewRequested);
    assert_eq!(notices[0].dedupe_key, "task_status:00000000-0000-0000-0000-000000000007:1:in_review:3");
}

#[test]
fn assignee_completion_of_reviewed_task_goes_to_review() {
    let t = task(1, Some(2), TaskStatus::InProgress);
    let assignee = user(Some(2), UserRole::User);
    assert_eq!(plan_status_change(&assignee, &t, TaskStatus::Completed).unwrap(), TaskStatus::InReview);
    let stranger = user(Some(8), UserRole::User);
    assert_eq!(plan_status_change(&stranger, &t, TaskStatus::Blocked).unwrap_err().code(), "UNAUTHORIZED");
}
