//! Commenting on a task: the actor must be registered and take part in the
//! task, the comment is logged, and the author and assignee other than the
//! actor are told.  The driver loads the task and stores the comment.
use vstd::prelude::*;

use crate::application::use_cases::enqueue_task_reminders::{is_pending_notice, pending_notice};
use crate::domain::audit::{AuditAction, AuditLogEntry};
use crate::domain::errors::{ctx_one, AppError, AppResult, ContextValue, ErrorKind};
use crate::domain::notification::{Notification, NotificationType};
use crate::domain::task::entity::{push_uid, task_uid_text, uid_text, Task, TaskUid};
use crate::domain::user::User;
use crate::text::{chars_of, push_signed, push_str, signed_decimal};
use crate::time::Timestamp;

verus! {

/// The confirmation shown after a comment was added.
pub const COMMENT_ADDED_MESSAGE: &'static str = "Комментарий добавлен.";

/// Only registered users comment.
pub fn comment_actor_id(actor: &User) -> (r: AppResult<i64>)
    ensures
        match actor.id {
            Some(id) => r == Ok::<i64, AppError>(id),
            None => r matches Err(e) && e.is_error(ErrorKind::Auth, "UNAUTHENTICATED"@),
        },
        r matches Err(e) ==> e.message_view() == "User must be registered before commenting on a task"@,
{
    match actor.id {
        Some(id) => Ok(id),
        None => Err(AppError::unauthenticated(
            String::from_str("User must be registered before commenting on a task"),
            ctx_one("telegram_id", ContextValue::Int(actor.telegram_id)),
        )),
    }
}

/// The stored identifier of the commented task.
pub fn commented_task_id(task: &Task, task_uid: TaskUid) -> (r: AppResult<i64>)
    ensures
        match task.id {
            Some(id) => r == Ok::<i64, AppError>(id),
            None => r matches Err(e) && e.is_error(ErrorKind::Internal, "TASK_ID_MISSING"@),
        },
        r matches Err(e) ==> e.message_view() == "Task must have an identifier before creating comments"@,
{
    match task.id {
        Some(id) => Ok(id),
        None => Err(AppError::internal(
            "TASK_ID_MISSING",
            String::from_str("Task must have an identifier before creating comments"),
            ctx_one("task_uid", ContextValue::Text(task_uid_text(task_uid))),
        )),
    }
}

/// The audit record of a comment; its metadata holds the stored body.
pub fn comment_entry(task_id: i64, actor_id: i64, body: &str, now: Timestamp) -> (r: AuditLogEntry)
    ensures
        r.id is None,
        r.task_id == task_id,
        r.action == AuditAction::Commented,
        r.old_status is None,
        r.new_status is None,
        r.changed_by_user_id == Some(actor_id),
        r.metadata@.len() == 1,
        r.metadata@[0].key@ == "preview"@,
        r.metadata@[0].value matches ContextValue::Text(t) && t@ == body@,
        r.created_at == now,
{
    AuditLogEntry {
        id: None,
        task_id,
        action: AuditAction::Commented,
        old_status: None,
        new_status: None,
        changed_by_user_id: Some(actor_id),
        metadata: ctx_one("preview", ContextValue::Text(String::from_str(body))),
        created_at: now,
    }
}

pub open spec fn comment_message(title: Seq<char>, body: Seq<char>) -> Seq<char> {
    "Новый комментарий по задаче «"@ + title + "»: "@ + body
}

/// `task_comment:{uid}:{recipient}:{comment id, 0 when unknown}`.
pub open spec fn comment_dedupe_key(uid: TaskUid, recipient: i64, comment_id: Option<i64>) -> Seq<char> {
    "task_comment:"@ + uid_text(uid) + ":"@ + signed_decimal(recipient as int) + ":"@
        + signed_decimal(match comment_id { Some(c) => c as int, None => 0 })
}

/// Who hears of a comment: the author, then the assignee, except the actor.
pub open spec fn comment_recipients(actor_id: i64, task: Task) -> Seq<i64> {
    let first: Seq<i64> = if task.created_by_user_id == actor_id { seq![] } else { seq![task.created_by_user_id] };
    let second: Seq<i64> = match task.assigned_to_user_id {
        Some(a) => if a == actor_id { seq![] } else { seq![a] },
        None => seq![],
    };
    first + second
}

/// The notices about a stored comment to the task's other participants.
pub fn comment_notifications(actor_id: i64, task: &Task, body: &str, comment_id: Option<i64>, now: Timestamp) -> (r: Vec<Notification>)
    ensures
        r@.len() == comment_recipients(actor_id, *task).len(),
        forall|i: int| 0 <= i < r@.len() ==> is_pending_notice(
            #[trigger] r@[i],
            task.id,
            comment_recipients(actor_id, *task)[i],
            NotificationType::TaskUpdated,
            comment_message(task.title@, body@),
            comment_dedupe_key(task.task_uid, comment_recipients(actor_id, *task)[i], comment_id),
            now,
        ),
{
    let mut message = chars_of("Новый комментарий по задаче «");
    push_str(&mut message, task.title.as_str());
    push_str(&mut message, "»: ");
    push_str(&mut message, body);
    let id_part: i64 = match comment_id {
        Some(c) => c,
        None => 0,
    };
    let mut recipients: Vec<i64> = Vec::new();
    if task.created_by_user_id != actor_id {
        recipients.push(task.created_by_user_id);
    }
    match task.assigned_to_user_id {
        Some(a) => {
            if a != actor_id {
                recipients.push(a);
            }
        },
        None => {},
    }
    assert(recipients@ =~= comment_recipients(actor_id, *task));
    let mut out: Vec<Notification> = Vec::new();
    let mut i: usize = 0;
    while i < recipients.len()
        invariant
            i <= recipients.len(),
            recipients@ == comment_recipients(actor_id, *task),
            out@.len() == i,
            message@ == comment_message(task.title@, body@),
            id_part as int == (match comment_id { Some(c) => c as int, None => 0 }),
            forall|k: int| 0 <= k < i ==> is_pending_notice(
                #[trigger] out@[k],
                task.id,
                recipients@[k],
                NotificationType::TaskUpdated,
                comment_message(task.title@, body@),
                comment_dedupe_key(task.task_uid, recipients@[k], comment_id),
                now,
            ),
        decreases recipients.len() - i,
    {
        let recipient = recipients[i];
        let mut key = chars_of("task_comment:");
        push_uid(&mut key, task.task_uid);
        push_str(&mut key, ":");
        push_signed(&mut key, recipient);
        push_str(&mut key, ":");
        push_signed(&mut key, id_part);
        out.push(pending_notice(task.id, recipient, NotificationType::TaskUpdated, &message, &key, now));
        i = i + 1;
    }
    out
}

} // verus!
