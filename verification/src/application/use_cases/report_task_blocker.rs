//! Reporting a blocker on a task: the actor must be registered, the task is
//! moved to "blocked" with the reason, the reason is kept as a comment and
//! in the audit log, and the author is told unless they reported it.
use vstd::prelude::*;

use crate::application::dto::TaskStatusSummary;
use crate::application::use_cases::enqueue_task_reminders::{is_pending_notice, pending_notice};
use crate::domain::audit::{AuditAction, AuditLogEntry};
use crate::domain::errors::{ctx_one, AppError, AppResult, ContextValue, ErrorKind};
use crate::domain::notification::{Notification, NotificationType};
use crate::domain::task::entity::{push_uid, task_uid_text, uid_text, Task, TaskUid};
use crate::domain::task::types::{status_code, TaskStatus};
use crate::domain::user::User;
use crate::text::{chars_of, opt_view, push_signed, push_str, signed_decimal};
use crate::time::Timestamp;

verus! {

/// The confirmation shown after a blocker was saved.
pub const BLOCKER_SAVED_MESSAGE: &'static str = "Блокер сохранён, автор уведомлён.";

/// Only registered users report blockers.
pub fn blocker_actor_id(actor: &User) -> (r: AppResult<i64>)
    ensures
        match actor.id {
            Some(id) => r == Ok::<i64, AppError>(id),
            None => r matches Err(e) && e.is_error(ErrorKind::Auth, "UNAUTHENTICATED"@),
        },
        r matches Err(e) ==> e.message_view() == "User must be registered before reporting a blocker"@,
{
    match actor.id {
        Some(id) => Ok(id),
        None => Err(AppError::unauthenticated(
            String::from_str("User must be registered before reporting a blocker"),
            ctx_one("telegram_id", ContextValue::Int(actor.telegram_id)),
        )),
    }
}

/// The stored identifier of the blocked task.
pub fn blocked_task_id(saved: &Task, task_uid: TaskUid) -> (r: AppResult<i64>)
    ensures
        match saved.id {
            Some(id) => r == Ok::<i64, AppError>(id),
            None => r matches Err(e) && e.is_error(ErrorKind::Internal, "TASK_ID_MISSING"@),
        },
        r matches Err(e) ==> e.message_view() == "Task must have an identifier after blocker update"@,
{
    match saved.id {
        Some(id) => Ok(id),
        None => Err(AppError::internal(
            "TASK_ID_MISSING",
            String::from_str("Task must have an identifier after blocker update"),
            ctx_one("task_uid", ContextValue::Text(task_uid_text(task_uid))),
        )),
    }
}

/// The audit record of a blocker; its metadata holds the reason.
pub fn blocker_entry(task_id: i64, actor_id: i64, previous_status: TaskStatus, reason: &str, now: Timestamp) -> (r: AuditLogEntry)
    ensures
        r.id is None,
        r.task_id == task_id,
        r.action == AuditAction::Blocked,
        opt_view(r.old_status) == Some(status_code(previous_status)),
        opt_view(r.new_status) == Some("blocked"@),
        r.changed_by_user_id == Some(actor_id),
        r.metadata@.len() == 1,
        r.metadata@[0].key@ == "reason"@,
        r.metadata@[0].value matches ContextValue::Text(t) && t@ == reason@,
        r.created_at == now,
{
    AuditLogEntry {
        id: None,
        task_id,
        action: AuditAction::Blocked,
        old_status: Some(previous_status.to_text()),
        new_status: Some(String::from_str("blocked")),
        changed_by_user_id: Some(actor_id),
        metadata: ctx_one("reason", ContextValue::Text(String::from_str(reason))),
        created_at: now,
    }
}

pub open spec fn blocker_message(title: Seq<char>, reason: Seq<char>) -> Seq<char> {
    "По задаче «"@ + title + "» есть блокер: "@ + reason
}

/// `task_blocked:{uid}:{author}:{version}`.
pub open spec fn blocker_dedupe_key(task: Task) -> Seq<char> {
    "task_blocked:"@ + uid_text(task.task_uid) + ":"@ + signed_decimal(task.created_by_user_id as int) + ":"@
        + signed_decimal(task.version as int)
}

/// The notice to the task's author; none when the author reported it.
pub fn blocker_notice(task: &Task, reason: &str, actor_id: i64, now: Timestamp) -> (r: Option<Notification>)
    ensures
        r is Some <==> task.created_by_user_id != actor_id,
        r matches Some(n) ==> is_pending_notice(
            n,
            task.id,
            task.created_by_user_id,
            NotificationType::TaskBlocked,
            blocker_message(task.title@, reason@),
            blocker_dedupe_key(*task),
            now,
        ),
{
    if task.created_by_user_id == actor_id {
        return None;
    }
    let mut message = chars_of("По задаче «");
    push_str(&mut message, task.title.as_str());
    push_str(&mut message, "» есть блокер: ");
    push_str(&mut message, reason);
    let mut key = chars_of("task_blocked:");
    push_uid(&mut key, task.task_uid);
    push_str(&mut key, ":");
    push_signed(&mut key, task.created_by_user_id);
    push_str(&mut key, ":");
    push_signed(&mut key, task.version);
    Some(pending_notice(task.id, task.created_by_user_id, NotificationType::TaskBlocked, &message, &key, now))
}

/// The confirmation of a saved blocker.
pub fn blocker_summary(task_uid: TaskUid, saved_status: TaskStatus) -> (r: TaskStatusSummary)
    ensures
        r.task_uid == task_uid,
        r.status == saved_status,
        r.message@ == BLOCKER_SAVED_MESSAGE@,
{
    TaskStatusSummary { task_uid, status: saved_status, message: String::from_str(BLOCKER_SAVED_MESSAGE) }
}

} // verus!
