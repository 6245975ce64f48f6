//! Decisions of task creation from an incoming message: which assignee
//! lookup to run, the message type recorded, the creator-facing messages,
//! the delivery status and the assignment notice.  Transcription, the task
//! generator and persistence are driven by the caller.
use vstd::prelude::*;

use crate::application::dto::{DeliveryStatus, TaskCreationOutcome, TaskCreationSummary};
use crate::application::ports::PersistedTask;
use crate::application::use_cases::assignee_resolution::ResolvedAssignee;
use crate::domain::audit::{AuditAction, AuditLogEntry};
use crate::domain::deadline::{
    kernel_rejects, opt_text, resolves_to, Deadline, DeadlineInput, DeadlineResolver, DeadlineSource, NOW_LIMIT,
};
use crate::domain::errors::{ctx_one, ctx_two, AppError, AppResult, ContextEntry, ContextValue, ErrorKind};
use crate::domain::message::{IncomingMessage, MessageContent, ParsedTaskRequest, VoiceAttachment};
use crate::domain::notification::{Notification, NotificationDeliveryState, NotificationType};
use crate::domain::task::entity::{card_lines, push_uid, task_uid_text, uid_text, Task};
use crate::domain::task::types::{status_code, MessageType, TaskStatus};
use crate::domain::user::{User, DEFAULT_USER_TIMEZONE};
use crate::task_codes::{format_public_task_code_or_placeholder, public_code_or_placeholder};
use crate::text::{chars_of, join_with, opt_view, push_signed, push_str, signed_decimal, string_of};
use crate::time::{formatted_date, tz_known, Date, TimeZoneName, Timestamp};

verus! {

/// How the creator settled the assignee before creation.
#[derive(Debug, Clone, Copy, PartialEq, Eq, Structural)]
pub enum TaskAssigneeDecision {
    /// Resolve from the assignee named in the message.
    Auto,
    /// The creator picked this employee.
    EmployeeId(i64),
    /// The creator chose to leave the task unassigned.
    CreateUnassigned,
}

/// The assignee lookup to run for a new task.
#[derive(Debug)]
pub enum AssigneeRequest {
    Unassigned,
    EmployeeId(i64),
    Query(String),
}

/// An explicit decision wins; otherwise the parsed request's assignee is
/// resolved unless the message asked for no assignee.
pub fn assignee_request(parsed: &ParsedTaskRequest, decision: TaskAssigneeDecision) -> (r: AssigneeRequest)
    ensures
        match decision {
            TaskAssigneeDecision::CreateUnassigned => r is Unassigned,
            TaskAssigneeDecision::EmployeeId(id) => r == AssigneeRequest::EmployeeId(id),
            TaskAssigneeDecision::Auto => if parsed.explicit_unassigned || parsed.assignee_name is None {
                r is Unassigned
            } else {
                r matches AssigneeRequest::Query(q) && Some(q@) == opt_view(parsed.assignee_name)
            },
        },
{
    match decision {
        TaskAssigneeDecision::CreateUnassigned => AssigneeRequest::Unassigned,
        TaskAssigneeDecision::EmployeeId(id) => AssigneeRequest::EmployeeId(id),
        TaskAssigneeDecision::Auto => {
            if parsed.explicit_unassigned {
                return AssigneeRequest::Unassigned;
            }
            match &parsed.assignee_name {
                Some(name) => AssigneeRequest::Query(name.clone()),
                None => AssigneeRequest::Unassigned,
            }
        },
    }
}

/// Voice when the text came from a voice note or the message is one.
pub open spec fn spec_task_message_type(content: MessageContent, is_voice_origin: bool) -> MessageType {
    if is_voice_origin || content is Voice {
        MessageType::Voice
    } else {
        MessageType::Text
    }
}

pub fn task_message_type(content: &MessageContent, is_voice_origin: bool) -> (r: MessageType)
    ensures
        r == spec_task_message_type(*content, is_voice_origin),
{
    if is_voice_origin {
        return MessageType::Voice;
    }
    match content {
        MessageContent::Voice { .. } => MessageType::Voice,
        _ => MessageType::Text,
    }
}

pub open spec fn spec_message_type_label(content: MessageContent) -> Seq<char> {
    match content {
        MessageContent::Text { .. } => "text"@,
        MessageContent::Voice { .. } => "voice"@,
        MessageContent::Command { .. } => "command"@,
    }
}

pub fn message_type_label(content: &MessageContent) -> (r: &'static str)
    ensures
        r@ == spec_message_type_label(*content),
{
    match content {
        MessageContent::Text { .. } => "text",
        MessageContent::Voice { .. } => "voice",
        MessageContent::Command { .. } => "command",
    }
}

/// The voice note of a message; transcription previews need one.
pub fn require_voice(message: &IncomingMessage) -> (r: AppResult<&VoiceAttachment>)
    ensures
        r is Ok <==> message.content is Voice,
        r matches Ok(v) ==> message.content == (MessageContent::Voice { voice: *v }),
        r matches Err(e) ==> e.is_error(ErrorKind::Validation, "VOICE_MESSAGE_REQUIRED"@),
        r matches Err(e) ==> e.message_view() == "Voice transcription preview requires a voice message"@,
{
    match &message.content {
        MessageContent::Voice { voice } => Ok(voice),
        other => Err(AppError::business_rule(
            "VOICE_MESSAGE_REQUIRED",
            String::from_str("Voice transcription preview requires a voice message"),
            ctx_one("message_type", ContextValue::Text(String::from_str(message_type_label(other)))),
        )),
    }
}

/// The stored identifier of a registered user.
pub fn required_user_id(user: &User) -> (r: AppResult<i64>)
    ensures
        r is Ok <==> user.id is Some,
        r matches Ok(id) ==> user.id == Some(id),
        r matches Err(e) ==> e.is_error(ErrorKind::Internal, "USER_ID_MISSING"@),
        r matches Err(e) ==> e.message_view() == "Persisted user must contain a database identifier"@,
{
    match user.id {
        Some(id) => Ok(id),
        None => Err(AppError::internal(
            "USER_ID_MISSING",
            String::from_str("Persisted user must contain a database identifier"),
            ctx_one("telegram_id", ContextValue::Int(user.telegram_id)),
        )),
    }
}

/// What the creator is told about delivery.
pub open spec fn spec_delivery_hint(status: DeliveryStatus) -> Seq<char> {
    match status {
        DeliveryStatus::DeliveredToAssignee => "Исполнителю уже доставлено уведомление."@,
        DeliveryStatus::PendingDelivery => "Уведомление поставлено в очередь на отправку исполнителю."@,
        DeliveryStatus::PendingAssigneeRegistration =>
            "Исполнитель найден, но ещё не запускал бота. После /start уведомления начнут приходить напрямую."@,
        DeliveryStatus::RetryPending => "Доставка временно не удалась. Бот попробует отправить уведомление повторно."@,
        DeliveryStatus::Failed => "Задача создана, но доставить уведомление исполнителю пока не получилось."@,
        DeliveryStatus::CreatorOnly => "Задача создана без прямой доставки исполнителю."@,
    }
}

pub fn delivery_hint(status: DeliveryStatus) -> (r: &'static str)
    ensures
        r@ == spec_delivery_hint(status),
{
    match status {
        DeliveryStatus::DeliveredToAssignee => "Исполнителю уже доставлено уведомление.",
        DeliveryStatus::PendingDelivery => "Уведомление поставлено в очередь на отправку исполнителю.",
        DeliveryStatus::PendingAssigneeRegistration =>
            "Исполнитель найден, но ещё не запускал бота. После /start уведомления начнут приходить напрямую.",
        DeliveryStatus::RetryPending => "Доставка временно не удалась. Бот попробует отправить уведомление повторно.",
        DeliveryStatus::Failed => "Задача создана, но доставить уведомление исполнителю пока не получилось.",
        DeliveryStatus::CreatorOnly => "Задача создана без прямой доставки исполнителю.",
    }
}

/// The card of a task without mention, as the creator and assignee see it.
pub open spec fn task_card(t: Task) -> Seq<char> {
    join_with(card_lines(t@, None), '\n')
}

/// The confirmation sent to the creator of a new task.
pub open spec fn creator_message(t: Task, status: DeliveryStatus) -> Seq<char> {
    "Задача сохранена.\nID: "@ + public_code_or_placeholder(t.id) + "\nСтатус: "@ + status_code(t.status)
        + "\n"@ + spec_delivery_hint(status) + "\n\n"@ + task_card(t)
}

pub fn build_creator_message(task: &Task, delivery_status: DeliveryStatus) -> (r: String)
    requires
        task.deadline matches Some(d) ==> d.wf(),
    ensures
        r@ == creator_message(*task, delivery_status),
{
    let mut out = chars_of("Задача сохранена.\nID: ");
    push_str(&mut out, format_public_task_code_or_placeholder(task.id).as_str());
    push_str(&mut out, "\nСтатус: ");
    push_str(&mut out, task.status.as_code());
    push_str(&mut out, "\n");
    push_str(&mut out, delivery_hint(delivery_status));
    push_str(&mut out, "\n\n");
    push_str(&mut out, task.render_for_telegram(None).as_str());
    string_of(out.as_slice())
}

/// The answer to a message that was already turned into a task.
pub open spec fn duplicate_message(t: Task) -> Seq<char> {
    "Похоже, это сообщение уже было обработано раньше. Дубликат не создан, открывайте существующую карточку.\n\nID: "@
        + public_code_or_placeholder(t.id) + "\nСтатус: "@ + status_code(t.status)
}

pub fn build_duplicate_message(task: &Task) -> (r: String)
    ensures
        r@ == duplicate_message(*task),
{
    let mut out = chars_of(
        "Похоже, это сообщение уже было обработано раньше. Дубликат не создан, открывайте существующую карточку.\n\nID: ",
    );
    push_str(&mut out, format_public_task_code_or_placeholder(task.id).as_str());
    push_str(&mut out, "\nСтатус: ");
    push_str(&mut out, task.status.as_code());
    string_of(out.as_slice())
}

/// Delivery status shown for an existing task found again: waiting for the
/// employee to register, queued for a registered user, or creator only.
pub open spec fn duplicate_delivery_status(task: Task) -> DeliveryStatus {
    if task.assigned_to_employee_id is Some && task.assigned_to_user_id is None {
        DeliveryStatus::PendingAssigneeRegistration
    } else if task.assigned_to_user_id is Some {
        DeliveryStatus::PendingDelivery
    } else {
        DeliveryStatus::CreatorOnly
    }
}

pub fn resolve_duplicate_delivery_status(task: &Task) -> (r: DeliveryStatus)
    ensures
        r == duplicate_delivery_status(*task),
{
    if task.assigned_to_employee_id.is_some() && task.assigned_to_user_id.is_none() {
        return DeliveryStatus::PendingAssigneeRegistration;
    }
    if task.assigned_to_user_id.is_some() {
        return DeliveryStatus::PendingDelivery;
    }
    DeliveryStatus::CreatorOnly
}

/// What follows the idempotent insert of a new task.
#[derive(Debug)]
pub enum PersistStep {
    /// The task is new: log it and deliver it.
    Continue(Task),
    /// The message was already a task: answer with that task and stop,
    /// with no audit entry and no notice.
    Finish(TaskCreationOutcome),
}

/// A freshly stored task goes on to logging and delivery; one that existed
/// already is answered as a duplicate of that task.
pub fn persist_step(persisted: PersistedTask) -> (r: PersistStep)
    ensures
        match persisted {
            PersistedTask::Created(t) => r == PersistStep::Continue(t),
            PersistedTask::Existing(t) => r matches PersistStep::Finish(TaskCreationOutcome::DuplicateFound(s)) && {
                &&& s.task_uid == t.task_uid
                &&& s.message@ == duplicate_message(t)
                &&& s.delivery_status == duplicate_delivery_status(t)
                &&& s.task.task_uid == t.task_uid
                &&& s.task.title@ == t.title@
                &&& s.task.status == t.status
                &&& s.task.deadline == t.deadline
                &&& s.task.delivery_status == Some(duplicate_delivery_status(t))
            },
        },
{
    match persisted {
        PersistedTask::Created(task) => PersistStep::Continue(task),
        PersistedTask::Existing(task) => {
            let status = resolve_duplicate_delivery_status(&task);
            let message = build_duplicate_message(&task);
            PersistStep::Finish(TaskCreationOutcome::DuplicateFound(TaskCreationSummary::from_task(&task, message, status)))
        },
    }
}

/// Delivery status previewed for a resolved assignee: nobody means creator
/// only; a user with a chat gets direct delivery; anyone else waits for
/// registration.
pub fn preview_delivery_status(resolved: &ResolvedAssignee) -> (r: DeliveryStatus)
    ensures
        r == (if resolved.employee is None && resolved.user is None {
            DeliveryStatus::CreatorOnly
        } else if resolved.user matches Some(u) && u.last_chat_id is Some {
            DeliveryStatus::PendingDelivery
        } else {
            DeliveryStatus::PendingAssigneeRegistration
        }),
{
    let has_employee_match = resolved.employee.is_some();
    let has_direct_user = match &resolved.user {
        Some(user) => user.last_chat_id.is_some(),
        None => false,
    };
    if !has_employee_match && resolved.user.is_none() {
        return DeliveryStatus::CreatorOnly;
    }
    if has_direct_user {
        return DeliveryStatus::PendingDelivery;
    }
    DeliveryStatus::PendingAssigneeRegistration
}

/// `task_assigned:{task uid}:{recipient}`: one assignment notice per task
/// and recipient.
pub open spec fn assignment_dedupe_key(uid: u128, recipient: i64) -> Seq<char> {
    "task_assigned:"@ + uid_text(uid) + ":"@ + signed_decimal(recipient as int)
}

/// Delivery of a new task's assignment: no user means waiting for the
/// employee to register (or creator only without a match); a user without
/// chat or identifier waits for registration; otherwise the card is queued.
pub fn assignment_delivery(
    task: &Task,
    assignee_user: Option<&User>,
    has_employee_match: bool,
    now: Timestamp,
) -> (r: (DeliveryStatus, Option<Notification>))
    requires
        task.deadline matches Some(d) ==> d.wf(),
    ensures
        r.1 is Some <==> r.0 == DeliveryStatus::PendingDelivery,
        match assignee_user {
            None => r.0 == (if has_employee_match {
                DeliveryStatus::PendingAssigneeRegistration
            } else {
                DeliveryStatus::CreatorOnly
            }),
            Some(u) => if u.last_chat_id is None || u.id is None {
                r.0 == DeliveryStatus::PendingAssigneeRegistration
            } else {
                r.1 matches Some(n) && {
                    &&& n.id is None
                    &&& n.task_id == task.id
                    &&& Some(n.recipient_user_id) == u.id
                    &&& n.notification_type == NotificationType::TaskAssigned
                    &&& n.message@ == task_card(*task)
                    &&& n.dedupe_key@ == assignment_dedupe_key(task.task_uid, n.recipient_user_id)
                    &&& n.telegram_message_id is None
                    &&& n.delivery_state == NotificationDeliveryState::Pending
                    &&& !n.is_sent && !n.is_read && n.attempt_count == 0
                    &&& n.sent_at is None && n.read_at is None && n.next_attempt_at is None
                    &&& n.last_error_code is None
                    &&& n.created_at == now
                }
            },
        },
{
    let user = match assignee_user {
        Some(user) => user,
        None => {
            let status = if has_employee_match {
                DeliveryStatus::PendingAssigneeRegistration
            } else {
                DeliveryStatus::CreatorOnly
            };
            return (status, None);
        },
    };
    if user.last_chat_id.is_none() {
        return (DeliveryStatus::PendingAssigneeRegistration, None);
    }
    let recipient_user_id = match user.id {
        Some(id) => id,
        None => return (DeliveryStatus::PendingAssigneeRegistration, None),
    };
    let mut key = chars_of("task_assigned:");
    push_uid(&mut key, task.task_uid);
    push_str(&mut key, ":");
    push_signed(&mut key, recipient_user_id);
    let notification = Notification {
        id: None,
        task_id: task.id,
        recipient_user_id,
        notification_type: NotificationType::TaskAssigned,
        message: task.render_for_telegram(None),
        dedupe_key: string_of(key.as_slice()),
        telegram_message_id: None,
        delivery_state: NotificationDeliveryState::Pending,
        is_sent: false,
        is_read: false,
        attempt_count: 0,
        sent_at: None,
        read_at: None,
        next_attempt_at: None,
        last_error_code: None,
        created_at: now,
    };
    (DeliveryStatus::PendingDelivery, Some(notification))
}

/// The audit record of a new task: who created it and whom it went to.
pub fn task_created_audit_entry(task: &Task, creator_id: Option<i64>, assignee_id: Option<i64>, now: Timestamp) -> (r: AppResult<AuditLogEntry>)
    requires
        task.deadline matches Some(d) ==> d.wf(),
    ensures
        r is Ok <==> task.id is Some,
        r matches Ok(e) ==> {
            &&& Some(e.task_id) == task.id
            &&& e.id is None
            &&& e.action == AuditAction::Created
            &&& e.old_status is None
            &&& opt_view(e.new_status) == Some(status_code(TaskStatus::Created))
            &&& e.changed_by_user_id == creator_id
            &&& e.created_at == now
            &&& e.metadata@.len() == 2
            &&& e.metadata@[0].key@ == "assigned_to_user_id"@
            &&& e.metadata@[1].key@ == "deadline"@
        },
        r matches Err(e) ==> e.is_error(ErrorKind::Internal, "TASK_ID_MISSING"@),
        r matches Err(e) ==> e.message_view() == "Persisted task must contain a database identifier"@,
{
    let task_id = match task.id {
        Some(id) => id,
        None => {
            return Err(AppError::internal(
                "TASK_ID_MISSING",
                String::from_str("Persisted task must contain a database identifier"),
                ctx_one("task_uid", ContextValue::Text(task_uid_text(task.task_uid))),
            ));
        },
    };
    let assignee = match assignee_id {
        Some(id) => ContextValue::Int(id),
        None => ContextValue::Null,
    };
    let deadline = match task.deadline {
        Some(d) => ContextValue::Text(d.format("%Y-%m-%d")),
        None => ContextValue::Null,
    };
    Ok(AuditLogEntry {
        id: None,
        task_id,
        action: AuditAction::Created,
        old_status: None,
        new_status: Some(TaskStatus::Created.to_text()),
        changed_by_user_id: creator_id,
        metadata: ctx_two("assigned_to_user_id", assignee, "deadline", deadline),
        created_at: now,
    })
}

/// The zone a creator's deadline is read in: their own, else the fleet
/// default, else UTC.
pub open spec fn deadline_zone(creator_timezone: Seq<char>) -> Option<Seq<char>> {
    if tz_known(creator_timezone) {
        Some(creator_timezone)
    } else if tz_known(DEFAULT_USER_TIMEZONE@) {
        Some(DEFAULT_USER_TIMEZONE@)
    } else if tz_known("UTC"@) {
        Some("UTC"@)
    } else {
        None
    }
}

pub open spec fn is_no_deadline(d: Deadline) -> bool {
    d.utc is None && d.local_date is None && d.raw_fragment is None && d.source == DeadlineSource::NoneProvided
        && d.confidence == 0
}

/// The deadline of a creator's text and the AI's hint, read in the
/// creator's zone (see [`deadline_zone`]); when the kernel rejects the text
/// there is no deadline.
pub fn creator_deadline(original_text: &str, creator_timezone: &str, ai_iso_hint: Option<&str>, now: Timestamp) -> (d: Deadline)
    requires
        -NOW_LIMIT <= now <= NOW_LIMIT,
    ensures
        match deadline_zone(creator_timezone@) {
            None => is_no_deadline(d),
            Some(z) => if kernel_rejects(original_text@, opt_text(ai_iso_hint), z, now, None) {
                is_no_deadline(d)
            } else {
                resolves_to(Ok::<Deadline, AppError>(d), original_text@, opt_text(ai_iso_hint), z, now, None)
            },
        },
{
    let zone = match TimeZoneName::parse(creator_timezone) {
        Some(z) => Some(z),
        None => match TimeZoneName::parse(DEFAULT_USER_TIMEZONE) {
            Some(z) => Some(z),
            None => TimeZoneName::parse("UTC"),
        },
    };
    let zone = match zone {
        Some(z) => z,
        None => return Deadline::none(),
    };
    let input = DeadlineInput { text: original_text, ai_iso_hint, user_timezone: &zone, now_utc: now, calendar: None };
    match DeadlineResolver::resolve(input) {
        Ok(d) => d,
        Err(_) => Deadline::none(),
    }
}

/// How a resolved assignee is named in a preview: the employee's full
/// name, else the user's `@username`, else the user's name, else
/// "Unassigned".
pub open spec fn assignee_display(resolved: ResolvedAssignee) -> Seq<char> {
    match resolved.employee {
        Some(e) => e.full_name@,
        None => match resolved.user {
            Some(u) => match u.telegram_username {
                Some(name) => "@"@ + name@,
                None => match u.full_name {
                    Some(full) => full@,
                    None => "Unassigned"@,
                },
            },
            None => "Unassigned"@,
        },
    }
}

pub fn resolved_assignee_display(resolved: &ResolvedAssignee) -> (r: String)
    ensures
        r@ == assignee_display(*resolved),
{
    match &resolved.employee {
        Some(e) => e.full_name.clone(),
        None => match &resolved.user {
            Some(u) => match &u.telegram_username {
                Some(name) => {
                    let mut out = chars_of("@");
                    push_str(&mut out, name.as_str());
                    string_of(out.as_slice())
                },
                None => match &u.full_name {
                    Some(full) => full.clone(),
                    None => String::from_str("Unassigned"),
                },
            },
            None => String::from_str("Unassigned"),
        },
    }
}

/// The deadline label of a preview: the kernel's local date, else the date
/// the request parser found, both as "DD.MM.YYYY".
pub fn preview_deadline_label(deadline: &Deadline, parsed_deadline: Option<Date>) -> (r: Option<String>)
    requires
        deadline.local_date matches Some(d) ==> d.wf(),
        parsed_deadline matches Some(d) ==> d.wf(),
    ensures
        match deadline.local_date {
            Some(d) => r matches Some(s) && s@ == formatted_date(d.days as int, "%d.%m.%Y"@),
            None => match parsed_deadline {
                Some(d) => r matches Some(s) && s@ == formatted_date(d.days as int, "%d.%m.%Y"@),
                None => r is None,
            },
        },
{
    match deadline.local_label() {
        Some(label) => Some(label),
        None => match parsed_deadline {
            Some(d) => Some(d.format("%d.%m.%Y")),
            None => None,
        },
    }
}

} // verus!
