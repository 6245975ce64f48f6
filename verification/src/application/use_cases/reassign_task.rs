//! Reassignment of a task to another person: who may do it, the task as
//! reassigned, its audit record, the notice to the new assignee and the
//! confirmation.  The driver loads the task, resolves the assignee query and
//! stores the results.
use vstd::prelude::*;

use crate::application::dto::{ClarificationRequest, TaskStatusSummary};
use crate::application::use_cases::assignee_resolution::ResolvedAssignee;
use crate::domain::audit::{AuditAction, AuditLogEntry};
use crate::domain::errors::{ctx_one, AppError, AppResult, ContextEntry, ContextValue, ErrorKind};
use crate::domain::notification::{Notification, NotificationDeliveryState, NotificationType};
use crate::domain::task::entity::{push_uid, reassigned, task_uid_text, uid_text, Task, TaskUid};
use crate::domain::task::types::{status_code, status_terminal, TaskStatus};
use crate::domain::user::User;
use crate::text::{chars_of, opt_view, push_chars, push_signed, push_str, signed_decimal, string_of, trim, trim_str};
use crate::time::Timestamp;

verus! {

/// The outcome of a reassignment request.
#[derive(Debug)]
pub enum ReassignTaskOutcome {
    Reassigned(TaskStatusSummary),
    ClarificationRequired(ClarificationRequest),
}

/// Only registered users reassign tasks.
pub fn reassign_actor_id(actor: &User) -> (r: AppResult<i64>)
    ensures
        match actor.id {
            Some(id) => r == Ok::<i64, AppError>(id),
            None => r matches Err(e) && e.is_error(ErrorKind::Auth, "UNAUTHENTICATED"@),
        },
        r matches Err(e) ==> e.message_view() == "User must be registered before reassigning tasks"@,
{
    match actor.id {
        Some(id) => Ok(id),
        None => Err(AppError::unauthenticated(
            String::from_str("User must be registered before reassigning tasks"),
            ctx_one("telegram_id", ContextValue::Int(actor.telegram_id)),
        )),
    }
}

/// The loaded task, or `TASK_NOT_FOUND`.
pub fn require_task(task: Option<Task>, task_uid: TaskUid) -> (r: AppResult<Task>)
    ensures
        match task {
            Some(t) => r matches Ok(found) && found == t,
            None => r matches Err(e) && e.is_error(ErrorKind::NotFound, "TASK_NOT_FOUND"@),
        },
        r matches Err(e) ==> e.message_view() == "Task was not found"@,
{
    match task {
        Some(t) => Ok(t),
        None => Err(AppError::not_found(
            "TASK_NOT_FOUND",
            String::from_str("Task was not found"),
            ctx_one("task_uid", ContextValue::Text(task_uid_text(task_uid))),
        )),
    }
}

/// The task's author, a manager or an admin may reassign it.
pub open spec fn may_reassign(actor: User, task: Task) -> bool {
    actor.id is Some && (actor.role.spec_is_manager_or_admin() || actor.id == Some(task.created_by_user_id))
}

pub fn authorize_reassign(actor: &User, task: &Task) -> (r: AppResult<()>)
    ensures
        r is Ok <==> may_reassign(*actor, *task),
        r matches Err(e) ==> e.kind() == ErrorKind::Auth && e.code_view() == (
            if actor.id is None { "UNAUTHENTICATED"@ } else { "UNAUTHORIZED"@ }),
        r matches Err(e) ==> e.message_view() == (if actor.id is None {
            "User must be registered before reassigning tasks"@
        } else {
            "Only the creator, manager or admin can reassign a task"@
        }),
{
    let actor_id = reassign_actor_id(actor)?;
    if actor.role.is_manager_or_admin() || actor_id == task.created_by_user_id {
        return Ok(());
    }
    Err(AppError::unauthorized(
        String::from_str("Only the creator, manager or admin can reassign a task"),
        ctx_one("task_uid", ContextValue::Text(task_uid_text(task.task_uid))),
    ))
}

/// The task handed to the resolved assignee: progress reset, version
/// bumped; a finished task cannot be reassigned.
pub fn plan_reassignment(task: &Task, assignee: &ResolvedAssignee, now: Timestamp) -> (r: AppResult<Task>)
    requires
        task.version < i64::MAX,
    ensures
        r is Ok <==> !status_terminal(task.status),
        r matches Ok(t) ==> t@ == reassigned(
            task@,
            match assignee.user { Some(u) => u.id, None => None },
            match assignee.employee { Some(e) => e.id, None => None },
            now,
        ),
        r matches Err(e) ==> e.is_error(ErrorKind::Validation, "TASK_REASSIGN_TERMINAL"@)
            && e.message_view() == "Completed or cancelled task cannot be reassigned"@,
{
    let user_id = match &assignee.user {
        Some(u) => u.id,
        None => None,
    };
    let employee_id = match &assignee.employee {
        Some(e) => e.id,
        None => None,
    };
    task.reassign(user_id, employee_id, now)
}

fn optional_int(value: Option<i64>) -> (r: ContextValue)
    ensures
        r == (match value { Some(v) => ContextValue::Int(v), None => ContextValue::Null }),
{
    match value {
        Some(v) => ContextValue::Int(v),
        None => ContextValue::Null,
    }
}

/// The audit record of a reassignment; its metadata holds the trimmed query
/// and the new assignee.
pub fn reassignment_entry(
    actor_id: i64,
    previous: &Task,
    saved: &Task,
    assignee_query: &str,
    now: Timestamp,
) -> (r: AppResult<AuditLogEntry>)
    ensures
        r is Ok <==> saved.id is Some,
        r matches Ok(e) ==> {
            &&& Some(e.task_id) == saved.id
            &&& e.id is None
            &&& e.action == AuditAction::Reassigned
            &&& opt_view(e.old_status) == Some(status_code(previous.status))
            &&& opt_view(e.new_status) == Some(status_code(saved.status))
            &&& e.changed_by_user_id == Some(actor_id)
            &&& e.metadata@.len() == 3
            &&& e.metadata@[0].key@ == "query"@
            &&& (e.metadata@[0].value matches ContextValue::Text(q) && q@ == trim(assignee_query@))
            &&& e.metadata@[1].key@ == "assigned_to_user_id"@
            &&& e.metadata@[1].value == (match saved.assigned_to_user_id {
                Some(v) => ContextValue::Int(v),
                None => ContextValue::Null,
            })
            &&& e.metadata@[2].key@ == "assigned_to_employee_id"@
            &&& e.metadata@[2].value == (match saved.assigned_to_employee_id {
                Some(v) => ContextValue::Int(v),
                None => ContextValue::Null,
            })
            &&& e.created_at == now
        },
        r matches Err(e) ==> e.is_error(ErrorKind::Internal, "TASK_ID_MISSING"@),
        r matches Err(e) ==> e.message_view() == "Task must have an identifier after reassignment"@,
{
    let task_id = match saved.id {
        Some(id) => id,
        None => {
            return Err(AppError::internal(
                "TASK_ID_MISSING",
                String::from_str("Task must have an identifier after reassignment"),
                ctx_one("task_uid", ContextValue::Text(task_uid_text(saved.task_uid))),
            ));
        },
    };
    let query = trim_str(assignee_query);
    let mut metadata: Vec<ContextEntry> = Vec::new();
    metadata.push(ContextEntry {
        key: String::from_str("query"),
        value: ContextValue::Text(string_of(query.as_slice())),
    });
    metadata.push(ContextEntry {
        key: String::from_str("assigned_to_user_id"),
        value: optional_int(saved.assigned_to_user_id),
    });
    metadata.push(ContextEntry {
        key: String::from_str("assigned_to_employee_id"),
        value: optional_int(saved.assigned_to_employee_id),
    });
    Ok(AuditLogEntry {
        id: None,
        task_id,
        action: AuditAction::Reassigned,
        old_status: Some(previous.status.to_text()),
        new_status: Some(saved.status.to_text()),
        changed_by_user_id: Some(actor_id),
        metadata,
        created_at: now,
    })
}

pub open spec fn reassigned_message(title: Seq<char>) -> Seq<char> {
    "Вам переназначили задачу «"@ + title + "»."@
}

/// `task_reassigned:{uid}:{recipient}:{version}`.
pub open spec fn reassigned_dedupe_key(uid: TaskUid, recipient: i64, version: i64) -> Seq<char> {
    "task_reassigned:"@ + uid_text(uid) + ":"@ + signed_decimal(recipient as int) + ":"@ + signed_decimal(version as int)
}

/// The notice to the new assignee of a saved task; none when the task has
/// no registered assignee.
pub fn reassignment_notice(task: &Task, now: Timestamp) -> (r: Option<Notification>)
    ensures
        r is Some <==> task.assigned_to_user_id is Some,
        r matches Some(n) ==> {
            &&& n.id is None
            &&& n.task_id == task.id
            &&& Some(n.recipient_user_id) == task.assigned_to_user_id
            &&& n.notification_type == NotificationType::TaskAssigned
            &&& n.message@ == reassigned_message(task.title@)
            &&& n.dedupe_key@ == reassigned_dedupe_key(task.task_uid, n.recipient_user_id, task.version)
            &&& n.telegram_message_id is None
            &&& n.delivery_state == NotificationDeliveryState::Pending
            &&& !n.is_sent && !n.is_read && n.attempt_count == 0
            &&& n.sent_at is None && n.read_at is None && n.next_attempt_at is None
            &&& n.last_error_code is None
            &&& n.created_at == now
        },
{
    let recipient = match task.assigned_to_user_id {
        Some(id) => id,
        None => return None,
    };
    let mut message = chars_of("Вам переназначили задачу «");
    push_str(&mut message, task.title.as_str());
    push_str(&mut message, "».");
    let mut key = chars_of("task_reassigned:");
    push_uid(&mut key, task.task_uid);
    push_str(&mut key, ":");
    push_signed(&mut key, recipient);
    push_str(&mut key, ":");
    push_signed(&mut key, task.version);
    Some(Notification {
        id: None,
        task_id: task.id,
        recipient_user_id: recipient,
        notification_type: NotificationType::TaskAssigned,
        message: string_of(message.as_slice()),
        dedupe_key: string_of(key.as_slice()),
        telegram_message_id: None,
        delivery_state: NotificationDeliveryState::Pending,
        is_sent: false,
        is_read: false,
        attempt_count: 0,
        sent_at: None,
        read_at: None,
        next_attempt_at: None,
        last_error_code: None,
        created_at: now,
    })
}

/// The confirmation of a reassignment.
pub fn reassigned_summary(task_uid: TaskUid, saved_status: TaskStatus, assignee_query: &str) -> (r: TaskStatusSummary)
    ensures
        r.task_uid == task_uid,
        r.status == saved_status,
        r.message@ == "Исполнитель обновлён: "@ + trim(assignee_query@),
{
    let mut message = chars_of("Исполнитель обновлён: ");
    let query = trim_str(assignee_query);
    push_chars(&mut message, &query);
    TaskStatusSummary { task_uid, status: saved_status, message: string_of(message.as_slice()) }
}

} // verus!
