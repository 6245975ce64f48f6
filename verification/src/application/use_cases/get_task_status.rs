//! The detail card of a task: who may see it, its history rendered as
//! lines, the description split into lines, the delivery status and the
//! actions offered.  The driver loads the task, history, comments and the
//! assignee's records.
use vstd::prelude::*;

use crate::application::dto::{delivery_status_of, DeliveryStatus, TaskActionView, TaskCommentView, TaskStatusDetails};
use crate::application::policies::{actions_for, RoleAuthorizationPolicy};
use crate::domain::audit::{AuditAction, AuditLogEntry};
use crate::domain::errors::{ctx_one, AppError, AppResult, ContextEntry, ContextValue, ErrorKind};
use crate::domain::notification::NotificationDeliveryState;
use crate::domain::task::entity::{task_uid_text, Task, TaskUid};
use crate::domain::task::types::status_code;
use crate::domain::user::User;
use crate::text::{
    chars_of, clone_opt_string, clone_strings, lines, lines_of, opt_view, push_signed, push_str, signed_decimal,
    str_equal, string_of, trim, trim_chars, views,
};
use crate::time::{format_instant, formatted_date, formatted_instant, Date, Timestamp, TIMESTAMP_LIMIT};

verus! {

/// The task looked up does not exist.
pub fn task_not_found(reference: &str) -> (r: AppError)
    ensures
        r.is_error(ErrorKind::NotFound, "TASK_NOT_FOUND"@),
        r.message_view() == "Task was not found"@,
{
    AppError::not_found(
        "TASK_NOT_FOUND",
        String::from_str("Task was not found"),
        ctx_one("reference", ContextValue::Text(String::from_str(reference))),
    )
}

/// A typed reference that is neither a public code nor a UUID.
pub fn invalid_reference(reference: &str) -> (r: AppError)
    ensures
        r.is_error(ErrorKind::Validation, "TASK_REFERENCE_INVALID"@),
        r.message_view() == "Task reference must be a public task code like T-0042 or a UUID"@,
{
    AppError::business_rule(
        "TASK_REFERENCE_INVALID",
        String::from_str("Task reference must be a public task code like T-0042 or a UUID"),
        ctx_one("reference", ContextValue::Text(String::from_str(reference))),
    )
}

/// Managers, admins, the creator and the assignee may view a task.
pub fn authorize_view(actor: &User, task: &Task) -> (r: AppResult<()>)
    ensures
        r is Ok <==> actor.id is Some && (actor.role.spec_is_manager_or_admin() || actor.id == Some(task.created_by_user_id)
            || task.assigned_to_user_id == actor.id),
        r matches Err(e) ==> e.kind() == ErrorKind::Auth && e.code_view() == (
            if actor.id is None { "UNAUTHENTICATED"@ } else { "UNAUTHORIZED"@ }),
        r matches Err(e) ==> e.message_view() == (
            if actor.id is None { "User must be registered before viewing task status"@ } else { "User may not view the task"@ }),
{
    let actor_id = match actor.id {
        Some(id) => id,
        None => {
            return Err(AppError::unauthenticated(
                String::from_str("User must be registered before viewing task status"),
                ctx_one("telegram_id", ContextValue::Int(actor.telegram_id)),
            ));
        },
    };
    if actor.role.is_manager_or_admin() || actor_id == task.created_by_user_id || task.assigned_to_user_id == Some(actor_id) {
        return Ok(());
    }
    Err(AppError::unauthorized(
        String::from_str("User may not view the task"),
        ctx_one("task_uid", ContextValue::Text(task_uid_text(task.task_uid))),
    ))
}

/// The stored identifier a detail card needs.
pub fn require_task_id(task: &Task) -> (r: AppResult<i64>)
    ensures
        match task.id {
            Some(id) => r == Ok::<i64, AppError>(id),
            None => r matches Err(e) && e.is_error(ErrorKind::Internal, "TASK_ID_MISSING"@),
        },
        r matches Err(e) ==> e.message_view() == "Task must have a database identifier before loading details"@,
{
    match task.id {
        Some(id) => Ok(id),
        None => Err(AppError::internal(
            "TASK_ID_MISSING",
            String::from_str("Task must have a database identifier before loading details"),
            ctx_one("task_uid", ContextValue::Text(task_uid_text(task.task_uid))),
        )),
    }
}

/// The non-blank lines of a description, trimmed.
pub open spec fn description_lines(d: Seq<char>) -> Seq<Seq<char>> {
    trimmed_nonblank(lines(d))
}

pub open spec fn trimmed_nonblank(ls: Seq<Seq<char>>) -> Seq<Seq<char>>
    decreases ls.len(),
{
    if ls.len() == 0 {
        seq![]
    } else {
        let rest = trimmed_nonblank(ls.drop_last());
        if trim(ls.last()).len() > 0 { rest.push(trim(ls.last())) } else { rest }
    }
}

pub fn split_description_lines(description: &str) -> (r: Vec<String>)
    ensures
        views(r@) == description_lines(description@),
{
    let ls = lines_of(description);
    let ghost all = ls@.map_values(|l: Vec<char>| l@);
    let mut out: Vec<String> = Vec::new();
    let mut i: usize = 0;
    while i < ls.len()
        invariant
            i <= ls.len(),
            all == ls@.map_values(|l: Vec<char>| l@),
            views(out@) == trimmed_nonblank(all.take(i as int)),
        decreases ls.len() - i,
    {
        proof {
            assert(all.take(i + 1).drop_last() =~= all.take(i as int));
            assert(all.take(i + 1).last() == ls@[i as int]@);
        }
        let ghost prev = views(out@);
        let t = trim_chars(&ls[i]);
        if t.len() > 0 {
            out.push(string_of(t.as_slice()));
            assert(views(out@) =~= prev.push(t@));
        }
        i = i + 1;
    }
    assert(all.take(ls.len() as int) =~= all);
    out
}

/// "DD.MM.YYYY".
pub fn format_deadline(value: Date) -> (r: String)
    requires
        value.wf(),
    ensures
        r@ == formatted_date(value.days as int, "%d.%m.%Y"@),
{
    value.format("%d.%m.%Y")
}

/// The label of a stored status code in a history line.
pub open spec fn status_label(value: Option<Seq<char>>) -> Seq<char> {
    match value {
        Some(v) => if v == "created"@ {
            "новая"@
        } else if v == "sent"@ {
            "отправлена"@
        } else if v == "in_progress"@ {
            "в работе"@
        } else if v == "blocked"@ {
            "с блокером"@
        } else if v == "in_review"@ {
            "на проверке"@
        } else if v == "completed"@ {
            "завершена"@
        } else if v == "cancelled"@ {
            "отменена"@
        } else {
            "неизвестно"@
        },
        None => "неизвестно"@,
    }
}

pub fn render_history_status(value: Option<&str>) -> (r: &'static str)
    ensures
        r@ == status_label(match value { Some(v) => Some(v@), None => None }),
{
    match value {
        Some(v) => {
            if str_equal(v, "created") {
                "новая"
            } else if str_equal(v, "sent") {
                "отправлена"
            } else if str_equal(v, "in_progress") {
                "в работе"
            } else if str_equal(v, "blocked") {
                "с блокером"
            } else if str_equal(v, "in_review") {
                "на проверке"
            } else if str_equal(v, "completed") {
                "завершена"
            } else if str_equal(v, "cancelled") {
                "отменена"
            } else {
                "неизвестно"
            }
        },
        None => "неизвестно",
    }
}

/// The text stored under `key` (the last entry with that key), when it is
/// text.
pub open spec fn meta_text(entries: Seq<ContextEntry>, key: Seq<char>) -> Option<Seq<char>>
    decreases entries.len(),
{
    if entries.len() == 0 {
        None
    } else if entries.last().key@ == key {
        match entries.last().value {
            ContextValue::Text(s) => Some(s@),
            _ => None,
        }
    } else {
        meta_text(entries.drop_last(), key)
    }
}

fn meta_text_exec(entries: &Vec<ContextEntry>, key: &str) -> (r: Option<String>)
    ensures
        opt_view(r) == meta_text(entries@, key@),
{
    let mut i = entries.len();
    assert(entries@.take(i as int) =~= entries@);
    while i > 0
        invariant
            i <= entries@.len(),
            meta_text(entries@, key@) == meta_text(entries@.take(i as int), key@),
        decreases i,
    {
        proof {
            assert(entries@.take(i as int).drop_last() =~= entries@.take(i - 1));
            assert(entries@.take(i as int).last() == entries@[i - 1]);
        }
        if str_equal(entries[i - 1].key.as_str(), key) {
            return match &entries[i - 1].value {
                ContextValue::Text(s) => Some(s.clone()),
                _ => None,
            };
        }
        i = i - 1;
    }
    None
}

/// What a history line says about an audit entry.
pub open spec fn history_details(e: AuditLogEntry) -> Seq<char> {
    match e.action {
        AuditAction::Created => "задача создана"@,
        AuditAction::Sent => "уведомление доставлено исполнителю"@,
        AuditAction::Assigned | AuditAction::Reassigned => "исполнитель обновлён"@,
        AuditAction::ReviewRequested => "задача отправлена на проверку"@,
        AuditAction::Blocked => match meta_text(e.metadata@, "reason"@) {
            Some(reason) => "зафиксирован блокер: "@ + reason,
            None => "зафиксирован блокер"@,
        },
        AuditAction::Commented => match meta_text(e.metadata@, "preview"@) {
            Some(preview) => "добавлен комментарий: "@ + preview,
            None => "добавлен комментарий"@,
        },
        AuditAction::StatusChanged | AuditAction::Cancelled => status_label(opt_view(e.old_status)) + " → "@
            + status_label(opt_view(e.new_status)),
        AuditAction::Edited => "карточка задачи обновлена"@,
        AuditAction::EmployeesSynced => "справочник сотрудников синхронизирован"@,
    }
}

/// "DD.MM.YYYY HH:MM: details".
pub open spec fn history_line(e: AuditLogEntry) -> Seq<char> {
    formatted_instant(e.created_at as int, "%d.%m.%Y %H:%M"@) + ": "@ + history_details(e)
}

fn opt_str(o: &Option<String>) -> (r: Option<&str>)
    ensures
        match r { Some(s) => Some(s@), None => None::<Seq<char>> } == opt_view(*o),
{
    match o {
        Some(s) => Some(s.as_str()),
        None => None,
    }
}

pub fn render_history_entry(entry: &AuditLogEntry) -> (r: String)
    requires
        -TIMESTAMP_LIMIT <= entry.created_at <= TIMESTAMP_LIMIT,
    ensures
        r@ == history_line(*entry),
{
    let timestamp = format_instant(entry.created_at, "%d.%m.%Y %H:%M");
    let mut out = chars_of(timestamp.as_str());
    push_str(&mut out, ": ");
    match entry.action {
        AuditAction::Created => push_str(&mut out, "задача создана"),
        AuditAction::Sent => push_str(&mut out, "уведомление доставлено исполнителю"),
        AuditAction::Assigned | AuditAction::Reassigned => push_str(&mut out, "исполнитель обновлён"),
        AuditAction::ReviewRequested => push_str(&mut out, "задача отправлена на проверку"),
        AuditAction::Blocked => match meta_text_exec(&entry.metadata, "reason") {
            Some(reason) => {
                push_str(&mut out, "зафиксирован блокер: ");
                push_str(&mut out, reason.as_str());
            },
            None => push_str(&mut out, "зафиксирован блокер"),
        },
        AuditAction::Commented => match meta_text_exec(&entry.metadata, "preview") {
            Some(preview) => {
                push_str(&mut out, "добавлен комментарий: ");
                push_str(&mut out, preview.as_str());
            },
            None => push_str(&mut out, "добавлен комментарий"),
        },
        AuditAction::StatusChanged | AuditAction::Cancelled => {
            push_str(&mut out, render_history_status(opt_str(&entry.old_status)));
            push_str(&mut out, " → ");
            push_str(&mut out, render_history_status(opt_str(&entry.new_status)));
        },
        AuditAction::Edited => push_str(&mut out, "карточка задачи обновлена"),
        AuditAction::EmployeesSynced => push_str(&mut out, "справочник сотрудников синхронизирован"),
    }
    string_of(out.as_slice())
}

/// How an assigned user is named: `@username`, else the full name, else
/// `user:{id}`.
pub open spec fn user_display(u: User, user_id: i64) -> Seq<char> {
    match opt_view(u.telegram_username) {
        Some(name) => "@"@ + name,
        None => match opt_view(u.full_name) {
            Some(full) => full,
            None => "user:"@ + signed_decimal(user_id as int),
        },
    }
}

pub fn display_user(user: &User, user_id: i64) -> (r: String)
    ensures
        r@ == user_display(*user, user_id),
{
    match &user.telegram_username {
        Some(name) => {
            let mut out = chars_of("@");
            push_str(&mut out, name.as_str());
            string_of(out.as_slice())
        },
        None => match &user.full_name {
            Some(full) => full.clone(),
            None => {
                let mut out = chars_of("user:");
                push_signed(&mut out, user_id);
                string_of(out.as_slice())
            },
        },
    }
}

/// The delivery status on the card: creator only without assignee; none
/// without a stored task; waiting for registration without a known user;
/// otherwise from the latest assignment notice.
pub open spec fn card_delivery_status(task: Task, user: Option<User>, latest: Option<NotificationDeliveryState>) -> Option<DeliveryStatus> {
    let has_assignee = task.assigned_to_user_id is Some || task.assigned_to_employee_id is Some;
    if !has_assignee {
        Some(DeliveryStatus::CreatorOnly)
    } else if task.id is None {
        None
    } else if task.assigned_to_user_id is None || user is None {
        Some(DeliveryStatus::PendingAssigneeRegistration)
    } else {
        Some(delivery_status_of(latest, true, user.unwrap().last_chat_id is Some))
    }
}

pub fn delivery_status_for(task: &Task, user: Option<&User>, latest: Option<NotificationDeliveryState>) -> (r: Option<DeliveryStatus>)
    ensures
        r == card_delivery_status(*task, match user { Some(u) => Some(*u), None => None }, latest),
{
    let has_assignee = task.assigned_to_user_id.is_some() || task.assigned_to_employee_id.is_some();
    if !has_assignee {
        return Some(DeliveryStatus::CreatorOnly);
    }
    if task.id.is_none() {
        return None;
    }
    if task.assigned_to_user_id.is_none() {
        return Some(DeliveryStatus::PendingAssigneeRegistration);
    }
    match user {
        Some(u) => Some(DeliveryStatus::from_assignment_notification(latest, true, u.last_chat_id.is_some())),
        None => Some(DeliveryStatus::PendingAssigneeRegistration),
    }
}

/// The detail card of `task` for `actor`.
pub fn status_details(
    actor: &User,
    task: &Task,
    history: &Vec<AuditLogEntry>,
    comments: Vec<TaskCommentView>,
    assignee_display: Option<String>,
    delivery_status: Option<DeliveryStatus>,
) -> (r: TaskStatusDetails)
    requires
        task.deadline matches Some(d) ==> d.wf(),
        forall|i: int| 0 <= i < history@.len() ==> -TIMESTAMP_LIMIT <= #[trigger] history@[i].created_at <= TIMESTAMP_LIMIT,
    ensures
        r.task_uid == task.task_uid,
        r.title@ == task.title@,
        r.status@ == status_code(task.status),
        opt_view(r.deadline) == match task.deadline {
            Some(d) => Some(formatted_date(d.days as int, "%d.%m.%Y"@)),
            None => None,
        },
        r.expected_result@ == task.expected_result@,
        views(r.description_lines@) == description_lines(task.description@),
        views(r.acceptance_criteria@) == views(task.acceptance_criteria@),
        r.history_entries@.len() == history@.len(),
        forall|i: int| 0 <= i < history@.len() ==> (#[trigger] r.history_entries@[i])@ == history_line(history@[i]),
        r.assignee_display == assignee_display,
        r.delivery_status == delivery_status,
        opt_view(r.blocked_reason) == opt_view(task.blocked_reason),
        r.comments == comments,
        r.available_actions@ == actions_for(actor, task),
{
    let mut entries: Vec<String> = Vec::new();
    let mut i: usize = 0;
    while i < history.len()
        invariant
            i <= history@.len(),
            forall|k: int| 0 <= k < history@.len() ==> -TIMESTAMP_LIMIT <= #[trigger] history@[k].created_at <= TIMESTAMP_LIMIT,
            entries@.len() == i,
            forall|k: int| 0 <= k < i ==> (#[trigger] entries@[k])@ == history_line(history@[k]),
        decreases history.len() - i,
    {
        entries.push(render_history_entry(&history[i]));
        i = i + 1;
    }
    let deadline = match task.deadline {
        Some(d) => Some(format_deadline(d)),
        None => None,
    };
    TaskStatusDetails {
        task_uid: task.task_uid,
        title: task.title.clone(),
        status: task.status.to_text(),
        deadline,
        expected_result: task.expected_result.clone(),
        description_lines: split_description_lines(task.description.as_str()),
        acceptance_criteria: clone_strings(&task.acceptance_criteria),
        history_entries: entries,
        assignee_display,
        delivery_status,
        blocked_reason: clone_opt_string(&task.blocked_reason),
        comments,
        available_actions: RoleAuthorizationPolicy::available_actions(actor, task),
    }
}

} // verus!
