use telegram_task_bot::application::ports::{PersistedTask, RecurrenceRuleRow, TaskTemplateRow};
use telegram_task_bot::application::use_cases::admin::{authorize_role_change, clamp_audit_limit, role_change_entry};
use telegram_task_bot::application::use_cases::create_task_from_message::{
    assignee_request, assignment_delivery, build_duplicate_message, creator_deadline, persist_step,
    resolve_duplicate_delivery_status, resolved_assignee_display, AssigneeRequest, PersistStep, TaskAssigneeDecision,
};
use telegram_task_bot::application::use_cases::assignee_resolution::ResolvedAssignee;
use telegram_task_bot::application::dto::{DeliveryStatus, TaskCreationOutcome};
use telegram_task_bot::application::use_cases::enqueue_daily_summaries::build_daily_summaries;
use telegram_task_bot::application::use_cases::process_recurrence_rules::{
    compute_next_run, decide_recurrence, RecurrenceAction, TemplateLookup,
};
use telegram_task_bot::domain::audit::AuditActionCode;
use telegram_task_bot::domain::deadline::DeadlineSource;
use telegram_task_bot::domain::message::ParsedTaskRequest;
use telegram_task_bot::domain::recurrence::TaskTemplateBody;
use telegram_task_bot::domain::task::draft::StructuredTaskDraft;
use telegram_task_bot::domain::task::entity::Task;
use telegram_task_bot::domain::task::types::{MessageType, TaskPriority, TaskStatus};
use telegram_task_bot::domain::user::{OnboardingState, User, UserRole};
use telegram_task_bot::time::Date;

const NOW: i64 = 1_776_700_800;

fn date(y: i32, m: u32, d: u32) -> Date {
    let epoch = chrono::NaiveDate::from_ymd_opt(1970, 1, 1).unwrap();
    let day = chrono::NaiveDate::from_ymd_opt(y, m, d).expect("valid date");
    Date { days: day.signed_duration_since(epoch).num_days() }
}

fn user(id: Option<i64>, role: UserRole) -> User {
    User {
        id,
        telegram_id: 500,
        last_chat_id: Some(600),
        telegram_username: None,
        full_name: None,
        first_name: None,
        last_name: None,
        linked_employee_id: None,
        is_employee: false,
        role,
        onboarding_state: OnboardingState::Completed,
        onboarding_version: 0,
        timezone: "Europe/Moscow".to_owned(),
        quiet_hours_start_min: 0,
        quiet_hours_end_min: 0,
        deactivated_at: None,
        created_at: NOW,
        updated_at: NOW,
    }
}

fn task(id: Option<i64>, assignee: Option<i64>, employee: Option<i64>, status: TaskStatus) -> Task {
    Task {
        id,
        task_uid: 7,
        version: 1,
        source_message_key: "telegram:1:1".to_owned(),
        created_by_user_id: 1,
        assigned_to_user_id: assignee,
        assigned_to_employee_id: employee,
        title: "Отчёт".to_owned(),
        description: "Собрать данные\nНаписать отчёт".to_owned(),
        acceptance_criteria: vec!["Есть графики".to_owned()],
        expected_result: "Готовый отчёт".to_owned(),
        deadline: Some(date(2026, 4, 24)),
        deadline_raw: None,
        original_message: "отчёт".to_owned(),
        message_type: MessageType::Text,
        ai_model_used: "m".to_owned(),
        ai_response_raw: "{}".to_owned(),
        status,
        priority: TaskPriority::Medium,
        blocked_reason: None,
        telegram_chat_id: 1,
        telegram_message_id: 1,
        telegram_task_message_id: None,
        tags: vec![],
        created_at: NOW,
        sent_at: None,
        started_at: None,
        blocked_at: None,
        review_requested_at: None,
        completed_at: None,
        cancelled_at: None,
        updated_at: NOW,
    }
}

fn draft(steps: usize) -> StructuredTaskDraft {
    StructuredTaskDraft {
        title: "Отчёт".to_owned(),
        expected_result: "Готовый отчёт".to_owned(),
        steps: (0..steps).map(|i| format!("Шаг {i}")).collect(),
        acceptance_criteria: vec![],
        deadline_iso: None,
        refused: false,
        refusal_reason: None,
    }
}

#[test]
fn task_card_lists_steps_criteria_and_deadline() {
    let card = task(Some(42), Some(2), None, TaskStatus::Sent).render_for_telegram(Some("@ivan"));
    assert_eq!(
        card,
        "@ivan\n\nЗаголовок: Отчёт\n\nОписание (пошагово):\n1. Собрать данные\n2. Написать отчёт\n\nОжидаемый результат: Готовый отчёт\n\nКритерии приёма:\n- Есть графики\n\nСрок выполнения: 24.04.2026"
    );
    let mut bare = task(None, None, None, TaskStatus::Created);
    bare.deadline = None;
    bare.acceptance_criteria.clear();
    assert!(bare.render_for_telegram(None).ends_with("Ожидаемый результат: Готовый отчёт\n\nСрок выполнения: Срок не указан"));
}

#[test]
fn draft_business_rules() {
    assert!(draft(1).validate_business_rules().is_ok());
    assert_eq!(draft(0).validate_business_rules().unwrap_err().code(), "TASK_STEPS_INVALID");
    assert_eq!(draft(8).validate_business_rules().unwrap_err().code(), "TASK_STEPS_INVALID");
    let mut refused = draft(2);
    refused.refused = true;
    assert_eq!(refused.validate_business_rules().unwrap_err().code(), "TASK_DRAFT_REFUSED");
    let mut untitled = draft(2);
    untitled.title = String::new();
    assert_eq!(untitled.validate_business_rules().unwrap_err().code(), "TASK_DRAFT_INVALID");
    let mut long_step = draft(2);
    long_step.steps[1] = "ш".repeat(301);
    assert_eq!(long_step.validate_business_rules().unwrap_err().code(), "TASK_STEP_TOO_LONG");
}

#[test]
fn assignee_requests_follow_the_decision() {
    let parsed = ParsedTaskRequest {
        assignee_name: Some("Иван".to_owned()),
        task_description: "подготовить отчёт".to_owned(),
        deadline: None,
        deadline_raw: None,
        explicit_unassigned: false,
        confidence_score: 80,
    };
    assert!(matches!(assignee_request(&parsed, TaskAssigneeDecision::Auto), AssigneeRequest::Query(ref q) if q == "Иван"));
    assert!(matches!(assignee_request(&parsed, TaskAssigneeDecision::EmployeeId(5)), AssigneeRequest::EmployeeId(5)));
    assert!(matches!(assignee_request(&parsed, TaskAssigneeDecision::CreateUnassigned), AssigneeRequest::Unassigned));
    let unassigned = ParsedTaskRequest { explicit_unassigned: true, ..parsed };
    assert!(matches!(assignee_request(&unassigned, TaskAssigneeDecision::Auto), AssigneeRequest::Unassigned));
}

#[test]
fn delivery_waits_for_registration_when_only_the_employee_is_known() {
    let stored = task(Some(42), None, Some(5), TaskStatus::Created);
    let (status, notice) = assignment_delivery(&stored, None, true, NOW);
    assert_eq!(status, DeliveryStatus::PendingAssigneeRegistration);
    assert!(notice.is_none());
    let assigned = task(Some(42), Some(2), Some(5), TaskStatus::Created);
    let (status, notice) = assignment_delivery(&assigned, Some(&user(Some(2), UserRole::User)), true, NOW);
    assert_eq!(status, DeliveryStatus::PendingDelivery);
    assert_eq!(notice.expect("queued").recipient_user_id, 2);
    let (status, _) = assignment_delivery(&task(Some(42), None, None, TaskStatus::Created), None, false, NOW);
    assert_eq!(status, DeliveryStatus::CreatorOnly);
}

#[test]
fn duplicates_point_at_the_existing_task() {
    let existing = task(Some(42), None, Some(5), TaskStatus::Created);
    assert_eq!(
        build_duplicate_message(&existing),
        "Похоже, это сообщение уже было обработано раньше. Дубликат не создан, открывайте существующую карточку.\n\nID: T-0042\nСтатус: created"
    );
    assert_eq!(resolve_duplicate_delivery_status(&existing), DeliveryStatus::PendingAssigneeRegistration);
}

#[test]
fn creator_deadline_falls_back_to_the_default_zone() {
    let now = chrono::DateTime::parse_from_rfc3339("2026-04-20T12:00:00+03:00").unwrap().timestamp();
    let d = creator_deadline("сделать завтра", "Not/AZone", None, now);
    assert_eq!(d.source, DeadlineSource::DeterministicText);
    assert_eq!(d.local_label().as_deref(), Some("21.04.2026"));
    let invalid = creator_deadline("оплатить до 31.02", "Europe/Moscow", None, now);
    assert!(invalid.utc.is_none());
    assert_eq!(invalid.source, DeadlineSource::NoneProvided);
}

#[test]
fn preview_names_the_assignee() {
    let mut u = user(Some(2), UserRole::User);
    u.telegram_username = Some("ivan".to_owned());
    let by_user = ResolvedAssignee { user: Some(u), employee: None };
    assert_eq!(resolved_assignee_display(&by_user), "@ivan");
    let nobody = ResolvedAssignee { user: None, employee: None };
    assert_eq!(resolved_assignee_display(&nobody), "Unassigned");
}

#[test]
fn daily_summary_counts_open_work() {
    let today = date(2026, 4, 24);
    let mut overdue = task(Some(1), Some(2), None, TaskStatus::InProgress);
    overdue.deadline = Some(date(2026, 4, 20));
    overdue.title = "Старое".to_owned();
    let due = task(Some(2), Some(2), None, TaskStatus::Blocked);
    let other = task(Some(3), Some(3), None, TaskStatus::InReview);
    let users = vec![user(Some(2), UserRole::User), user(None, UserRole::User)];
    let notices = build_daily_summaries(&users, &vec![overdue, due, other], today, NOW);
    assert_eq!(notices.len(), 1);
    assert_eq!(notices[0].recipient_user_id, 2);
    assert_eq!(
        notices[0].message,
        "Доброе утро. В работе у вас 2 задач.\n\nПросрочено: 1\nНа сегодня: 1\nС блокером: 1\nНа проверке: 0\n\nБлижайшие задачи:\n• Старое\n• Отчёт"
    );
    assert_eq!(notices[0].dedupe_key, "daily_summary:2:2026-04-24");
}

#[test]
fn recurrence_rules_create_then_advance() {
    let rule = RecurrenceRuleRow {
        id: 3,
        template_id: Some(8),
        owner_user_id: 1,
        cron_expression: "0 0 * * * * *".to_owned(),
        timezone: "Europe/Moscow".to_owned(),
    };
    let template = TaskTemplateRow {
        id: 8,
        code: "weekly-report".to_owned(),
        title: "Недельный отчёт".to_owned(),
        body: "{}".to_owned(),
        created_by_user_id: Some(1),
    };
    let body = TaskTemplateBody {
        description: "Отправить отчёт".to_owned(),
        acceptance_criteria: vec![],
        expected_result: "Email".to_owned(),
        tags: vec!["weekly".to_owned()],
    };
    match decide_recurrence(&rule, TemplateLookup::Found(template, body), NOW, 99) {
        RecurrenceAction::CreateAndAdvance { task, next_run_at } => {
            assert_eq!(task.source_message_key, format!("recurrence:3:{NOW}"));
            assert_eq!(task.original_message, "Автозадача из шаблона «weekly-report»");
            assert_eq!(task.title, "Недельный отчёт");
            assert_eq!(task.status, TaskStatus::Created);
            assert_eq!(next_run_at, Some(NOW + 3600));
        }
        other => panic!("unexpected {other:?}"),
    }
    assert!(matches!(decide_recurrence(&rule, TemplateLookup::LoadFailed, NOW, 99), RecurrenceAction::Retry));
    assert!(matches!(decide_recurrence(&rule, TemplateLookup::Missing, NOW, 99), RecurrenceAction::Advance { .. }));
    assert_eq!(compute_next_run("bad cron", "Europe/Moscow", NOW), None);
    assert_eq!(compute_next_run("0 0 * * * * *", "Nowhere/Zone", NOW), None);
}

#[test]
fn admin_role_changes_are_gated_and_logged() {
    let admin = user(Some(1), UserRole::Admin);
    let mut target = user(Some(9), UserRole::User);
    target.telegram_id = 901;
    assert_eq!(authorize_role_change(&admin, &target).unwrap(), 1);
    assert!(authorize_role_change(&user(Some(3), UserRole::Manager), &target).is_err());
    let entry = role_change_entry(&admin, &target, 9, UserRole::Manager, NOW);
    assert_eq!(entry.action_code, AuditActionCode::RoleChangedByAdmin);
    assert_eq!(entry.actor_user_id, Some(1));
    assert_eq!(entry.target_user_id, Some(9));
    assert_eq!(clamp_audit_limit(0), 1);
    assert_eq!(clamp_audit_limit(500), 50);
    assert_eq!(clamp_audit_limit(20), 20);
}

#[test]
fn rule_errors_carry_their_messages() {
    assert_eq!(
        draft(8).validate_business_rules().unwrap_err().message(),
        "Task must contain between 1 and 7 concrete steps"
    );
    let mut refused = draft(2);
    refused.refused = true;
    assert_eq!(refused.validate_business_rules().unwrap_err().message(), "AI refused to produce a task for this input");
    let working = task(Some(3), Some(2), None, TaskStatus::InProgress);
    let empty = working.apply_blocker("   ", 1_776_700_800).unwrap_err();
    assert_eq!((empty.code(), empty.message()), ("TASK_BLOCKER_EMPTY", "Blocker reason cannot be empty"));
    let finished = task(Some(3), Some(2), None, TaskStatus::Completed);
    let refused_move = finished.apply_blocker("ждём доступ", 1_776_700_800).unwrap_err();
    assert_eq!(refused_move.message(), "Task status transition is not allowed");
}

#[test]
fn linking_the_same_user_twice_is_linking_once() {
    let waiting = task(Some(3), None, Some(11), TaskStatus::Sent);
    let once = waiting.link_registered_assignee(8, 100).unwrap();
    assert_eq!(once.assigned_to_user_id, Some(8));
    assert_eq!(once.version, waiting.version + 1);
    assert_eq!(once.updated_at, 100);
    let twice = once.link_registered_assignee(8, 200).unwrap();
    assert_eq!(twice.version, once.version);
    assert_eq!(twice.updated_at, 100);
    assert_eq!(twice.status, TaskStatus::Sent);
    let unassigned = task(Some(3), None, None, TaskStatus::Sent);
    assert_eq!(unassigned.link_registered_assignee(8, 100).unwrap_err().code(), "TASK_EMPLOYEE_ASSIGNMENT_MISSING");
}

#[test]
fn an_existing_task_is_answered_as_a_duplicate() {
    let existing = task(Some(42), None, Some(11), TaskStatus::Sent);
    match persist_step(PersistedTask::Existing(existing)) {
        PersistStep::Finish(TaskCreationOutcome::DuplicateFound(summary)) => {
            assert_eq!(summary.task_uid, 7);
            assert_eq!(summary.delivery_status, DeliveryStatus::PendingAssigneeRegistration);
            assert!(summary.message.starts_with("Похоже, это сообщение уже было обработано раньше."));
            assert!(summary.message.contains("T-0042"));
        }
        _ => panic!("an existing task must be reported as a duplicate"),
    }
    let fresh = task(Some(43), None, None, TaskStatus::Created);
    assert!(matches!(persist_step(PersistedTask::Created(fresh)), PersistStep::Continue(t) if t.id == Some(43)));
}

#[test]
fn linking_at_the_top_version_needs_no_more_headroom() {
    let mut waiting = task(Some(3), None, Some(11), TaskStatus::Sent);
    waiting.version = i64::MAX - 1;
    let once = waiting.link_registered_assignee(8, 100).unwrap();
    assert_eq!(once.version, i64::MAX);
    let twice = once.link_registered_assignee(8, 200).unwrap();
    assert_eq!(twice.version, i64::MAX);
    assert_eq!(twice.updated_at, 100);
}
