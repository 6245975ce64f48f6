use telegram_task_bot::application::use_cases::add_task_comment::comment_notifications;
use telegram_task_bot::application::use_cases::bootstrap_admins::{distinct_admin_ids, BootstrapSummary, PromotionOutcome};
use telegram_task_bot::application::use_cases::collect_stats::{global_stats_cache_fresh, stats_query, StatsQuery, StatsScope};
use telegram_task_bot::application::use_cases::enqueue_task_reminders::{deadline_reminder, overdue_alerts, reminder_due_date};
use telegram_task_bot::application::use_cases::process_notifications::{
    delivery_chat, delivery_step, retry_delay_seconds, should_mark_task_sent, task_sent_entry, DeliveryStep,
};
use telegram_task_bot::application::use_cases::reassign_task::{
    authorize_reassign, reassigned_summary, reassignment_entry, reassignment_notice, require_task,
};
use telegram_task_bot::application::use_cases::report_task_blocker::{blocker_entry, blocker_notice, blocker_summary};
use telegram_task_bot::application::use_cases::register_user::{
    assignment_notice_step, scheduled_task_id, AssignmentNoticeStep,
};
use telegram_task_bot::application::use_cases::seed_aliases::{russian_diminutives, seed_pairs};
use telegram_task_bot::application::use_cases::update_task_status::authorize_status_change;
use telegram_task_bot::application::use_cases::sheets_write_back::{
    retry_delay_minutes, write_back_step, PendingSheetWrite, SheetsWriteBackUseCase, WriteBackStep,
};
use telegram_task_bot::application::use_cases::update_sla_states::{plan_sla_update, sla_target_for, SlaUpdatePlan};
use telegram_task_bot::application::ports::SlaTaskRow;
use telegram_task_bot::domain::audit::AuditAction;
use telegram_task_bot::domain::employee::{Employee, EmployeeSource};
use telegram_task_bot::domain::errors::ContextValue;
use telegram_task_bot::domain::notification::{Notification, NotificationDeliveryState, NotificationType};
use telegram_task_bot::domain::sla::SlaState;
use telegram_task_bot::domain::task::entity::Task;
use telegram_task_bot::domain::task::types::{MessageType, TaskPriority, TaskStatus};
use telegram_task_bot::domain::user::{OnboardingState, User, UserRole};
use telegram_task_bot::time::Date;

fn date(y: i32, m: u32, d: u32) -> Date {
    let epoch = chrono::NaiveDate::from_ymd_opt(1970, 1, 1).unwrap();
    let day = chrono::NaiveDate::from_ymd_opt(y, m, d).expect("valid date");
    Date { days: day.signed_duration_since(epoch).num_days() }
}


const NOW: i64 = 1_776_700_800;

fn user(id: Option<i64>, role: UserRole, chat: Option<i64>) -> User {
    User {
        id,
        telegram_id: 500,
        last_chat_id: chat,
        telegram_username: None,
        full_name: None,
        first_name: None,
        last_name: None,
        linked_employee_id: None,
        is_employee: false,
        role,
        onboarding_state: OnboardingState::Completed,
        onboarding_version: 0,
        timezone: "Europe/Moscow".to_owned(),
        quiet_hours_start_min: 0,
        quiet_hours_end_min: 0,
        deactivated_at: None,
        created_at: NOW,
        updated_at: NOW,
    }
}

fn task(created_by: i64, assignee: Option<i64>, status: TaskStatus) -> Task {
    Task {
        id: Some(9),
        task_uid: 0x0190_0000_0000_7000_8000_0000_0000_0001,
        version: 3,
        source_message_key: "telegram:1:1".to_owned(),
        created_by_user_id: created_by,
        assigned_to_user_id: assignee,
        assigned_to_employee_id: None,
        title: "Отчёт".to_owned(),
        description: "Собрать отчёт".to_owned(),
        acceptance_criteria: vec![],
        expected_result: "Готовый отчёт".to_owned(),
        deadline: None,
        deadline_raw: None,
        original_message: "отчёт".to_owned(),
        message_type: MessageType::Text,
        ai_model_used: "m".to_owned(),
        ai_response_raw: "{}".to_owned(),
        status,
        priority: TaskPriority::Medium,
        blocked_reason: None,
        telegram_chat_id: 1,
        telegram_message_id: 1,
        telegram_task_message_id: None,
        tags: vec![],
        created_at: NOW,
        sent_at: None,
        started_at: None,
        blocked_at: None,
        review_requested_at: None,
        completed_at: None,
        cancelled_at: None,
        updated_at: NOW,
    }
}

const UID_TEXT: &str = "01900000-0000-7000-8000-000000000001";

fn employee(id: i64, full_name: &str) -> Employee {
    Employee {
        id: Some(id),
        full_name: full_name.to_owned(),
        telegram_username: None,
        email: None,
        phone: None,
        department: None,
        is_active: true,
        source: EmployeeSource::GoogleSheets,
        synced_at: None,
        created_at: NOW,
        updated_at: NOW,
    }
}

#[test]
fn diminutives_are_seeded_only_for_unique_first_names() {
    let table = vec![("Ваня", "Иван"), ("Саша", "Александр"), ("Саша", "Александра"), ("Ваня", "Иван"), ("Петя", "Пётр")];
    let employees = vec![
        employee(3, "Иван Петров"),
        employee(4, "Александр Сидоров"),
        employee(5, "Александр Кузнецов"),
        employee(6, "Петр Иванов"),
    ];
    let pairs = seed_pairs(&table, &employees);
    assert_eq!(pairs, vec![(3, "Ваня".to_string()), (6, "Петя".to_string())]);
}

#[test]
fn seeded_pairs_are_sorted_by_employee_then_alias() {
    let table = russian_diminutives();
    assert!(table.len() > 100);
    let employees = vec![employee(8, "Мария Иванова"), employee(2, "Иван Сидоров")];
    let pairs = seed_pairs(&table, &employees);
    assert_eq!(
        pairs,
        vec![
            (2, "Ванечка".to_string()),
            (2, "Ванюша".to_string()),
            (2, "Ваня".to_string()),
            (8, "Маша".to_string()),
            (8, "Машенька".to_string()),
        ]
    );
}

#[test]
fn reminders_go_to_the_assignee_the_day_before() {
    let today = date(2026, 4, 20);
    let due = reminder_due_date(today);
    assert_eq!(due.days, today.days + 1);
    let t = task(1, Some(2), TaskStatus::InProgress);
    let n = deadline_reminder(&t, due, NOW).expect("assigned task is reminded");
    assert_eq!(n.recipient_user_id, 2);
    assert_eq!(n.notification_type, NotificationType::DeadlineReminder);
    assert_eq!(n.message, "Напоминание: задача «Отчёт» должна быть готова завтра.");
    assert_eq!(n.dedupe_key, format!("deadline_reminder:{UID_TEXT}:2026-04-21"));
    assert!(deadline_reminder(&task(1, None, TaskStatus::InProgress), due, NOW).is_none());
}

#[test]
fn overdue_alerts_repeat_every_third_day() {
    let today = date(2026, 4, 20);
    let mut t = task(1, Some(2), TaskStatus::InProgress);
    t.deadline = Some(date(2026, 4, 14));
    let alerts = overdue_alerts(&t, today, NOW);
    assert_eq!(alerts.len(), 2);
    assert_eq!(alerts[0].recipient_user_id, 1);
    assert_eq!(alerts[1].recipient_user_id, 2);
    assert_eq!(alerts[0].message, "Задача «Отчёт» просрочена уже на 6 дн.");
    assert_eq!(alerts[1].dedupe_key, format!("overdue:{UID_TEXT}:2:6"));
    t.deadline = Some(date(2026, 4, 15));
    assert!(overdue_alerts(&t, today, NOW).is_empty());
    t.deadline = None;
    assert!(overdue_alerts(&t, today, NOW).is_empty());
}

#[test]
fn delivery_needs_a_known_chat() {
    assert_eq!(delivery_chat(None), Err("RECIPIENT_MISSING"));
    assert_eq!(delivery_chat(Some(&user(Some(1), UserRole::User, None))), Err("CHAT_ID_MISSING"));
    assert_eq!(delivery_chat(Some(&user(Some(1), UserRole::User, Some(77)))), Ok(77));
}

#[test]
fn delivery_failures_back_off_then_give_up() {
    assert!(matches!(delivery_step(Ok(5), 0), DeliveryStep::MarkSent { message_id: 5 }));
    assert!(matches!(delivery_step(Err("TELEGRAM_BOT_BLOCKED"), 0), DeliveryStep::MarkFailed { ref error_code } if error_code == "TELEGRAM_BOT_BLOCKED"));
    assert!(matches!(delivery_step(Err("timeout"), 0), DeliveryStep::RetryLater { delay_seconds: 60, .. }));
    assert!(matches!(delivery_step(Err("timeout"), 2), DeliveryStep::RetryLater { delay_seconds: 240, .. }));
    assert!(matches!(delivery_step(Err("timeout"), 3), DeliveryStep::MarkFailed { ref error_code } if error_code == "TELEGRAM_SEND_FAILED"));
    assert_eq!(retry_delay_seconds(10), 3600);
    assert!(retry_delay_seconds(3) <= retry_delay_seconds(4));
}

#[test]
fn delivered_assignment_marks_created_task_sent() {
    let created = task(1, Some(2), TaskStatus::Created);
    assert!(should_mark_task_sent(NotificationType::TaskAssigned, Some(&created)));
    assert!(!should_mark_task_sent(NotificationType::TaskUpdated, Some(&created)));
    assert!(!should_mark_task_sent(NotificationType::TaskAssigned, Some(&task(1, Some(2), TaskStatus::InProgress))));
    let entry = task_sent_entry(&created, NOW).expect("stored task");
    assert_eq!(entry.action, AuditAction::Sent);
    assert_eq!(entry.new_status.as_deref(), Some("sent"));
}

#[test]
fn reassignment_rules_and_messages() {
    let t = task(1, Some(2), TaskStatus::InProgress);
    assert!(authorize_reassign(&user(Some(1), UserRole::User, None), &t).is_ok());
    assert!(authorize_reassign(&user(Some(5), UserRole::Manager, None), &t).is_ok());
    assert_eq!(authorize_reassign(&user(Some(2), UserRole::User, None), &t).unwrap_err().code(), "UNAUTHORIZED");
    assert_eq!(authorize_reassign(&user(None, UserRole::Admin, None), &t).unwrap_err().code(), "UNAUTHENTICATED");
    assert_eq!(require_task(None, t.task_uid).unwrap_err().code(), "TASK_NOT_FOUND");

    let n = reassignment_notice(&t, NOW).expect("registered assignee");
    assert_eq!(n.message, "Вам переназначили задачу «Отчёт».");
    assert_eq!(n.dedupe_key, format!("task_reassigned:{UID_TEXT}:2:3"));
    assert!(reassignment_notice(&task(1, None, TaskStatus::Created), NOW).is_none());

    let summary = reassigned_summary(t.task_uid, TaskStatus::Created, "  @ivanov ");
    assert_eq!(summary.message, "Исполнитель обновлён: @ivanov");

    let entry = reassignment_entry(1, &t, &t, " @ivanov ", NOW).unwrap();
    assert_eq!(entry.action, AuditAction::Reassigned);
    assert!(matches!(entry.metadata[0].value, ContextValue::Text(ref q) if q == "@ivanov"));
    assert!(matches!(entry.metadata[1].value, ContextValue::Int(2)));
    assert!(matches!(entry.metadata[2].value, ContextValue::Null));
}

#[test]
fn blocker_notice_skips_the_author_reporting_it() {
    let t = task(1, Some(2), TaskStatus::Blocked);
    let n = blocker_notice(&t, "нет доступа", 2, NOW).expect("author is told");
    assert_eq!(n.recipient_user_id, 1);
    assert_eq!(n.message, "По задаче «Отчёт» есть блокер: нет доступа");
    assert_eq!(n.dedupe_key, format!("task_blocked:{UID_TEXT}:1:3"));
    assert!(blocker_notice(&t, "нет доступа", 1, NOW).is_none());
    let entry = blocker_entry(9, 2, TaskStatus::InProgress, "нет доступа", NOW);
    assert_eq!(entry.old_status.as_deref(), Some("in_progress"));
    assert_eq!(entry.new_status.as_deref(), Some("blocked"));
    assert_eq!(blocker_summary(t.task_uid, TaskStatus::Blocked).message, "Блокер сохранён, автор уведомлён.");
}

#[test]
fn comments_notify_the_other_participants() {
    let t = task(1, Some(2), TaskStatus::InProgress);
    let notices = comment_notifications(2, &t, "готово на 80%", Some(14), NOW);
    assert_eq!(notices.len(), 1);
    assert_eq!(notices[0].recipient_user_id, 1);
    assert_eq!(notices[0].message, "Новый комментарий по задаче «Отчёт»: готово на 80%");
    assert_eq!(notices[0].dedupe_key, format!("task_comment:{UID_TEXT}:1:14"));
    let from_outsider = comment_notifications(7, &t, "x", None, NOW);
    assert_eq!(from_outsider.len(), 2);
    assert_eq!(from_outsider[1].dedupe_key, format!("task_comment:{UID_TEXT}:2:0"));
}

#[test]
fn stats_scope_needs_registration_and_role() {
    assert_eq!(stats_query(&user(Some(4), UserRole::User, None), StatsScope::Personal).unwrap(), StatsQuery::ForUser(4));
    assert_eq!(stats_query(&user(Some(4), UserRole::User, None), StatsScope::Team).unwrap_err().code(), "UNAUTHORIZED");
    assert_eq!(stats_query(&user(Some(4), UserRole::Manager, None), StatsScope::Team).unwrap(), StatsQuery::Global);
    assert_eq!(stats_query(&user(None, UserRole::Admin, None), StatsScope::Personal).unwrap_err().code(), "UNAUTHENTICATED");
    assert!(global_stats_cache_fresh(59_999));
    assert!(!global_stats_cache_fresh(60_000));
}

#[test]
fn sla_levels_follow_days_remaining() {
    assert_eq!(sla_target_for(-1), (SlaState::Breached, 2));
    assert_eq!(sla_target_for(0), (SlaState::AtRisk, 1));
    assert_eq!(sla_target_for(1), (SlaState::AtRisk, 1));
    assert_eq!(sla_target_for(2), (SlaState::Healthy, 0));
    let row = SlaTaskRow {
        id: 1,
        task_uid: 1,
        title: "t".to_owned(),
        deadline: date(2026, 4, 21),
        created_at: NOW,
        assigned_to_user_id: Some(2),
        current_sla_state: Some("healthy".to_owned()),
        sla_last_level: 0,
    };
    let today = date(2026, 4, 20);
    let plan = plan_sla_update(&row, today);
    assert_eq!(plan, SlaUpdatePlan::Persist { state: SlaState::AtRisk, level: 1, days_remaining: 1, escalate: true });
    let again = SlaTaskRow { current_sla_state: Some("at_risk".to_owned()), sla_last_level: 1, ..row };
    assert_eq!(plan_sla_update(&again, today), SlaUpdatePlan::Unchanged);
}

#[test]
fn sheet_write_back_backs_off_exponentially() {
    assert_eq!(retry_delay_minutes(0), 1);
    assert_eq!(retry_delay_minutes(3), 8);
    assert_eq!(retry_delay_minutes(20), 240);
    let row = PendingSheetWrite {
        id: 1,
        employee_id: 2,
        telegram_id: 3,
        full_name: "Иван".to_owned(),
        telegram_username: None,
        error_count: 4,
    };
    assert_eq!(write_back_step(&row, true), WriteBackStep::MarkWritten);
    assert_eq!(write_back_step(&row, false), WriteBackStep::RecordError { error_count: 5, abandoned: true });
}

#[test]
fn bootstrap_tally_counts_every_answer() {
    let mut summary = BootstrapSummary::start(3);
    summary.record(PromotionOutcome::Elevated);
    summary.record(PromotionOutcome::PendingSignup);
    summary.record(PromotionOutcome::Failed);
    assert_eq!(summary.elevated_now + summary.already_admin + summary.pending_signup + summary.failed, 3);
    assert_eq!(summary.failed, 1);
}

#[test]
fn status_change_needs_registration_and_a_role_on_the_task() {
    let in_progress = task(1, Some(2), TaskStatus::InProgress);
    let unregistered = authorize_status_change(&user(None, UserRole::Admin, None), &in_progress, TaskStatus::Completed)
        .unwrap_err();
    assert_eq!(unregistered.code(), "UNAUTHENTICATED");
    assert_eq!(unregistered.message(), "User must be registered before changing task status");
    let outsider = authorize_status_change(&user(Some(7), UserRole::User, None), &in_progress, TaskStatus::Completed)
        .unwrap_err();
    assert_eq!(outsider.code(), "UNAUTHORIZED");
    assert_eq!(outsider.message(), "User may not change the task status");
    assert!(authorize_status_change(&user(Some(7), UserRole::Admin, None), &in_progress, TaskStatus::Cancelled).is_ok());
}

#[test]
fn recovered_assignment_notice_is_kept_requeued_or_queued() {
    let assigned = task(1, Some(4), TaskStatus::Created);
    assert_eq!(scheduled_task_id(&assigned).unwrap(), 9);
    let mut unsaved = task(1, Some(4), TaskStatus::Created);
    unsaved.id = None;
    let missing = scheduled_task_id(&unsaved).unwrap_err();
    assert_eq!(missing.code(), "TASK_ID_MISSING");
    assert_eq!(missing.message(), "Task must contain an identifier before scheduling delivery");

    match assignment_notice_step(&assigned, 4, None, NOW) {
        AssignmentNoticeStep::Enqueue(notice) => {
            assert_eq!(notice.recipient_user_id, 4);
            assert_eq!(notice.task_id, Some(9));
            assert_eq!(notice.notification_type, NotificationType::TaskAssigned);
            assert_eq!(notice.dedupe_key, format!("task_assigned:{UID_TEXT}:4"));
            assert_eq!(notice.delivery_state, NotificationDeliveryState::Pending);
            assert_eq!(notice.message, assigned.render_for_telegram(None));
        }
        other => panic!("expected a new notice, got {other:?}"),
    }
    let existing = |id: Option<i64>, state: NotificationDeliveryState| Notification {
        id,
        task_id: Some(9),
        recipient_user_id: 4,
        notification_type: NotificationType::TaskAssigned,
        message: "card".to_owned(),
        dedupe_key: format!("task_assigned:{UID_TEXT}:4"),
        telegram_message_id: None,
        delivery_state: state,
        is_sent: false,
        is_read: false,
        attempt_count: 1,
        sent_at: None,
        read_at: None,
        next_attempt_at: None,
        last_error_code: None,
        created_at: NOW,
    };
    let failed = existing(Some(3), NotificationDeliveryState::Failed);
    assert!(matches!(assignment_notice_step(&assigned, 4, Some(&failed), NOW), AssignmentNoticeStep::Requeue(3)));
    let unstored = existing(None, NotificationDeliveryState::Failed);
    assert!(matches!(assignment_notice_step(&assigned, 4, Some(&unstored), NOW), AssignmentNoticeStep::Skip));
    let sent = existing(Some(3), NotificationDeliveryState::Sent);
    assert!(matches!(assignment_notice_step(&assigned, 4, Some(&sent), NOW), AssignmentNoticeStep::Keep));
}

#[test]
fn configured_admin_ids_are_swept_once_each_in_order() {
    assert_eq!(distinct_admin_ids(&vec![42, 7, 42, -3, 7]), vec![-3, 7, 42]);
    assert!(distinct_admin_ids(&vec![]).is_empty());
}

#[test]
fn disabled_write_back_offers_nothing_to_call() {
    let off: SheetsWriteBackUseCase<u8, u16> = SheetsWriteBackUseCase::disabled(1);
    assert!(off.enqueue_target().is_none());
    assert!(off.flush_targets().is_none());
    let on: SheetsWriteBackUseCase<u8, u16> = SheetsWriteBackUseCase::new(1, 2);
    assert_eq!(on.enqueue_target(), Some(&1));
    assert_eq!(on.flush_targets(), Some((&1, &2)));
}

#[test]
fn failure_count_holds_at_the_top() {
    let row = PendingSheetWrite {
        id: 1,
        employee_id: 2,
        telegram_id: 3,
        full_name: "Иван Иванов".to_owned(),
        telegram_username: None,
        error_count: u32::MAX,
    };
    assert_eq!(write_back_step(&row, false), WriteBackStep::RecordError { error_count: u32::MAX, abandoned: true });
}
