//! Status changes: the status actually applied for a request, who may
//! apply it, the audit record, the notices to the other participants and
//! the confirmation text.  The driver loads and stores the task.
use vstd::prelude::*;

use crate::application::dto::TaskStatusSummary;
use crate::application::policies::{may_change_status, normalized_status, RoleAuthorizationPolicy};
use crate::domain::audit::{AuditAction, AuditLogEntry};
use crate::domain::errors::{ctx_empty, ctx_one, AppError, AppResult, ContextValue, ErrorKind};
use crate::domain::notification::{Notification, NotificationDeliveryState, NotificationType};
use crate::domain::task::entity::{push_uid, task_uid_text, uid_text, Task, TaskUid};
use crate::domain::task::types::{status_code, TaskStatus};
use crate::domain::user::User;
use crate::text::{chars_of, opt_view, push_signed, push_str, signed_decimal, string_of};
use crate::time::Timestamp;

verus! {

/// The status to apply for `requested`, if `actor` may apply it.
pub fn plan_status_change(actor: &User, task: &Task, requested: TaskStatus) -> (r: AppResult<TaskStatus>)
    ensures
        match normalized_status(actor, task, requested) {
            Some(next) => if may_change_status(actor, task, next) {
                r == Ok::<TaskStatus, AppError>(next)
            } else {
                r matches Err(e) && e.kind() == ErrorKind::Auth && if actor.id is None {
                    e.code_view() == "UNAUTHENTICATED"@
                        && e.message_view() == "User must be registered before changing task status"@
                } else {
                    e.code_view() == "UNAUTHORIZED"@ && e.message_view() == "User may not change the task status"@
                }
            },
            None => r matches Err(e) && e.is_error(ErrorKind::Validation, "TASK_REVIEW_REQUIRED"@)
                && e.message_view() == "Task must go through review before final completion"@,
        },
{
    let next = RoleAuthorizationPolicy::normalize_requested_status(actor, task, requested)?;
    authorize_status_change(actor, task, next)?;
    Ok(next)
}

/// Who may move `task` to `next_status`: the rules of
/// [`may_change_status`], with this use case's own wording for a caller
/// who has not registered.
pub fn authorize_status_change(actor: &User, task: &Task, next_status: TaskStatus) -> (r: AppResult<()>)
    ensures
        r is Ok <==> may_change_status(actor, task, next_status),
        r matches Err(e) ==> e.kind() == ErrorKind::Auth && if actor.id is None {
            e.code_view() == "UNAUTHENTICATED"@
                && e.message_view() == "User must be registered before changing task status"@
        } else {
            e.code_view() == "UNAUTHORIZED"@ && e.message_view() == "User may not change the task status"@
        },
{
    if actor.id.is_none() {
        return Err(AppError::unauthenticated(
            String::from_str("User must be registered before changing task status"),
            ctx_one("telegram_id", ContextValue::Int(actor.telegram_id)),
        ));
    }
    RoleAuthorizationPolicy::ensure_can_change_status(actor, task, next_status)
}

/// Moving to review is logged as a review request, anything else as a
/// status change.
pub open spec fn spec_audit_action(next: TaskStatus) -> AuditAction {
    if next == TaskStatus::InReview { AuditAction::ReviewRequested } else { AuditAction::StatusChanged }
}

pub fn audit_action_for_status(next_status: TaskStatus) -> (r: AuditAction)
    ensures
        r == spec_audit_action(next_status),
{
    if next_status == TaskStatus::InReview {
        return AuditAction::ReviewRequested;
    }
    AuditAction::StatusChanged
}

pub open spec fn spec_notification_type(next: TaskStatus) -> NotificationType {
    match next {
        TaskStatus::Completed => NotificationType::TaskCompleted,
        TaskStatus::Cancelled => NotificationType::TaskCancelled,
        TaskStatus::InReview => NotificationType::TaskReviewRequested,
        TaskStatus::Blocked => NotificationType::TaskBlocked,
        _ => NotificationType::TaskUpdated,
    }
}

pub fn notification_type_for_status(next_status: TaskStatus) -> (r: NotificationType)
    ensures
        r == spec_notification_type(next_status),
{
    match next_status {
        TaskStatus::Completed => NotificationType::TaskCompleted,
        TaskStatus::Cancelled => NotificationType::TaskCancelled,
        TaskStatus::InReview => NotificationType::TaskReviewRequested,
        TaskStatus::Blocked => NotificationType::TaskBlocked,
        TaskStatus::Created | TaskStatus::Sent | TaskStatus::InProgress => NotificationType::TaskUpdated,
    }
}

/// The confirmation shown to the actor.
pub open spec fn status_message(previous: TaskStatus, next: TaskStatus) -> Seq<char> {
    if next == TaskStatus::InReview {
        "Задача отправлена на проверку: "@ + status_code(previous) + " -> "@ + status_code(next)
    } else {
        "Статус задачи обновлён: "@ + status_code(previous) + " -> "@ + status_code(next)
    }
}

pub fn build_status_message(previous_status: TaskStatus, next_status: TaskStatus) -> (r: String)
    ensures
        r@ == status_message(previous_status, next_status),
{
    let mut out = if next_status == TaskStatus::InReview {
        chars_of("Задача отправлена на проверку: ")
    } else {
        chars_of("Статус задачи обновлён: ")
    };
    push_str(&mut out, previous_status.as_code());
    push_str(&mut out, " -> ");
    push_str(&mut out, next_status.as_code());
    string_of(out.as_slice())
}

/// The notice other participants receive.
pub open spec fn participant_message(title: Seq<char>, next: TaskStatus) -> Seq<char> {
    match next {
        TaskStatus::InReview => "Задача «"@ + title + "» готова и ждёт вашей проверки."@,
        TaskStatus::Completed => "Задача «"@ + title + "» принята и завершена."@,
        TaskStatus::Blocked => "По задаче «"@ + title + "» зафиксирован блокер."@,
        TaskStatus::Cancelled => "Задача «"@ + title + "» отменена."@,
        _ => "Задача «"@ + title + "» теперь в статусе "@ + status_code(next) + "."@,
    }
}

pub fn build_participant_notification(task: &Task, next_status: TaskStatus) -> (r: String)
    ensures
        r@ == participant_message(task.title@, next_status),
{
    let mut out: Vec<char>;
    match next_status {
        TaskStatus::InReview => {
            out = chars_of("Задача «");
            push_str(&mut out, task.title.as_str());
            push_str(&mut out, "» готова и ждёт вашей проверки.");
        },
        TaskStatus::Completed => {
            out = chars_of("Задача «");
            push_str(&mut out, task.title.as_str());
            push_str(&mut out, "» принята и завершена.");
        },
        TaskStatus::Blocked => {
            out = chars_of("По задаче «");
            push_str(&mut out, task.title.as_str());
            push_str(&mut out, "» зафиксирован блокер.");
        },
        TaskStatus::Cancelled => {
            out = chars_of("Задача «");
            push_str(&mut out, task.title.as_str());
            push_str(&mut out, "» отменена.");
        },
        _ => {
            out = chars_of("Задача «");
            push_str(&mut out, task.title.as_str());
            push_str(&mut out, "» теперь в статусе ");
            push_str(&mut out, next_status.as_code());
            push_str(&mut out, ".");
        },
    }
    string_of(out.as_slice())
}

/// The audit record of a status change by `actor_id`.
pub fn status_change_entry(
    actor_id: Option<i64>,
    task: &Task,
    previous: TaskStatus,
    next: TaskStatus,
    now: Timestamp,
) -> (r: AppResult<AuditLogEntry>)
    ensures
        r is Ok <==> task.id is Some,
        r matches Ok(e) ==> {
            &&& Some(e.task_id) == task.id
            &&& e.id is None
            &&& e.action == spec_audit_action(next)
            &&& opt_view(e.old_status) == Some(status_code(previous))
            &&& opt_view(e.new_status) == Some(status_code(next))
            &&& e.changed_by_user_id == actor_id
            &&& e.metadata@.len() == 0
            &&& e.created_at == now
        },
        r matches Err(e) ==> e.is_error(ErrorKind::Internal, "TASK_ID_MISSING"@),
        r matches Err(e) ==> e.message_view() == "Task must have a database identifier before audit logging"@,
{
    let task_id = match task.id {
        Some(id) => id,
        None => {
            return Err(AppError::internal(
                "TASK_ID_MISSING",
                String::from_str("Task must have a database identifier before audit logging"),
                ctx_one("task_uid", ContextValue::Text(task_uid_text(task.task_uid))),
            ));
        },
    };
    Ok(AuditLogEntry {
        id: None,
        task_id,
        action: audit_action_for_status(next),
        old_status: Some(previous.to_text()),
        new_status: Some(next.to_text()),
        changed_by_user_id: actor_id,
        metadata: ctx_empty(),
        created_at: now,
    })
}

/// `task_status:{uid}:{recipient}:{status}:{version}`.
pub open spec fn status_dedupe_key(uid: TaskUid, recipient: i64, next: TaskStatus, version: i64) -> Seq<char> {
    "task_status:"@ + uid_text(uid) + ":"@ + signed_decimal(recipient as int) + ":"@ + status_code(next) + ":"@
        + signed_decimal(version as int)
}

/// The recipients of a status notice: the creator, then the assignee,
/// except the actor.
pub open spec fn status_recipients(actor_id: Option<i64>, task: Task) -> Seq<i64> {
    let first: Seq<i64> = if Some(task.created_by_user_id) == actor_id { seq![] } else { seq![task.created_by_user_id] };
    let second: Seq<i64> = match task.assigned_to_user_id {
        Some(a) => if Some(a) == actor_id { seq![] } else { seq![a] },
        None => seq![],
    };
    first + second
}

/// `n` is the status notice of `task` for `recipient`.
pub open spec fn is_status_notice(n: Notification, task: Task, recipient: i64, next: TaskStatus, now: Timestamp) -> bool {
    &&& n.id is None
    &&& n.task_id == task.id
    &&& n.recipient_user_id == recipient
    &&& n.notification_type == spec_notification_type(next)
    &&& n.message@ == participant_message(task.title@, next)
    &&& n.dedupe_key@ == status_dedupe_key(task.task_uid, recipient, next, task.version)
    &&& n.telegram_message_id is None
    &&& n.delivery_state == NotificationDeliveryState::Pending
    &&& !n.is_sent && !n.is_read && n.attempt_count == 0
    &&& n.sent_at is None && n.read_at is None && n.next_attempt_at is None
    &&& n.last_error_code is None
    &&& n.created_at == now
}

fn status_notice(task: &Task, recipient: i64, next: TaskStatus, now: Timestamp) -> (r: Notification)
    ensures
        is_status_notice(r, *task, recipient, next, now),
{
    let mut key = chars_of("task_status:");
    push_uid(&mut key, task.task_uid);
    push_str(&mut key, ":");
    push_signed(&mut key, recipient);
    push_str(&mut key, ":");
    push_str(&mut key, next.as_code());
    push_str(&mut key, ":");
    push_signed(&mut key, task.version);
    Notification {
        id: None,
        task_id: task.id,
        recipient_user_id: recipient,
        notification_type: notification_type_for_status(next),
        message: build_participant_notification(task, next),
        dedupe_key: string_of(key.as_slice()),
        telegram_message_id: None,
        delivery_state: NotificationDeliveryState::Pending,
        is_sent: false,
        is_read: false,
        attempt_count: 0,
        sent_at: None,
        read_at: None,
        next_attempt_at: None,
        last_error_code: None,
        created_at: now,
    }
}

/// The notices for the participants other than the actor.
pub fn participant_notifications(actor_id: Option<i64>, task: &Task, next: TaskStatus, now: Timestamp) -> (r: Vec<Notification>)
    ensures
        r@.len() == status_recipients(actor_id, *task).len(),
        forall|i: int| 0 <= i < r@.len() ==> is_status_notice(#[trigger] r@[i], *task, status_recipients(actor_id, *task)[i], next, now),
{
    let mut out: Vec<Notification> = Vec::new();
    if Some(task.created_by_user_id) != actor_id {
        out.push(status_notice(task, task.created_by_user_id, next, now));
    }
    if let Some(assignee) = task.assigned_to_user_id {
        if Some(assignee) != actor_id {
            out.push(status_notice(task, assignee, next, now));
        }
    }
    out
}

/// The result shown for an applied change.
pub fn status_summary(task_uid: TaskUid, previous: TaskStatus, saved: TaskStatus) -> (r: TaskStatusSummary)
    ensures
        r.task_uid == task_uid,
        r.status == saved,
        r.message@ == status_message(previous, saved),
{
    TaskStatusSummary { task_uid, status: saved, message: build_status_message(previous, saved) }
}

} // verus!
