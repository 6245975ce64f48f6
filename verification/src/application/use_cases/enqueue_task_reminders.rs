//! Reminders about deadlines: the day before a task is due its assignee is
//! reminded, and every third day of being overdue its author and assignee
//! are alerted.  The driver loads the due and overdue tasks and queues the
//! notices computed here.
use vstd::prelude::*;

use crate::domain::notification::{Notification, NotificationDeliveryState, NotificationType};
use crate::domain::task::entity::{push_uid, uid_text, Task};
use crate::text::{chars_of, push_signed, push_str, signed_decimal, string_of};
use crate::time::{formatted_date, Date, Timestamp, DATE_DAYS_MAX};

verus! {

/// Tasks loaded per reminder run.
pub const REMINDER_TASK_FETCH_LIMIT: i64 = 200;
/// Overdue alerts repeat every this many days.
pub const OVERDUE_ALERT_PERIOD_DAYS: i64 = 3;

/// A fresh pending notice of `kind` about `task_id`.
pub open spec fn is_pending_notice(
    n: Notification,
    task_id: Option<i64>,
    recipient: i64,
    kind: NotificationType,
    message: Seq<char>,
    dedupe_key: Seq<char>,
    now: Timestamp,
) -> bool {
    &&& n.id is None
    &&& n.task_id == task_id
    &&& n.recipient_user_id == recipient
    &&& n.notification_type == kind
    &&& n.message@ == message
    &&& n.dedupe_key@ == dedupe_key
    &&& n.telegram_message_id is None
    &&& n.delivery_state == NotificationDeliveryState::Pending
    &&& !n.is_sent && !n.is_read && n.attempt_count == 0
    &&& n.sent_at is None && n.read_at is None && n.next_attempt_at is None
    &&& n.last_error_code is None
    &&& n.created_at == now
}

pub(crate) fn pending_notice(
    task_id: Option<i64>,
    recipient: i64,
    kind: NotificationType,
    message: &Vec<char>,
    dedupe_key: &Vec<char>,
    now: Timestamp,
) -> (r: Notification)
    ensures
        is_pending_notice(r, task_id, recipient, kind, message@, dedupe_key@, now),
{
    Notification {
        id: None,
        task_id,
        recipient_user_id: recipient,
        notification_type: kind,
        message: string_of(message.as_slice()),
        dedupe_key: string_of(dedupe_key.as_slice()),
        telegram_message_id: None,
        delivery_state: NotificationDeliveryState::Pending,
        is_sent: false,
        is_read: false,
        attempt_count: 0,
        sent_at: None,
        read_at: None,
        next_attempt_at: None,
        last_error_code: None,
        created_at: now,
    }
}

/// The day whose deadlines are reminded of: tomorrow.
pub fn reminder_due_date(today: Date) -> (r: Date)
    requires
        today.wf(),
        today.days < DATE_DAYS_MAX,
    ensures
        r.days == today.days + 1,
        r.wf(),
{
    today.add_days(1)
}

pub open spec fn reminder_message(title: Seq<char>) -> Seq<char> {
    "Напоминание: задача «"@ + title + "» должна быть готова завтра."@
}

pub open spec fn reminder_dedupe_key(task: Task, due: Date) -> Seq<char> {
    "deadline_reminder:"@ + uid_text(task.task_uid) + ":"@ + formatted_date(due.days as int, "%Y-%m-%d"@)
}

/// The reminder to the assignee of a task due on `due`; none for a task
/// without an assignee.
pub fn deadline_reminder(task: &Task, due: Date, now: Timestamp) -> (r: Option<Notification>)
    requires
        due.wf(),
    ensures
        r is Some <==> task.assigned_to_user_id is Some,
        r matches Some(n) ==> is_pending_notice(
            n,
            task.id,
            task.assigned_to_user_id->0,
            NotificationType::DeadlineReminder,
            reminder_message(task.title@),
            reminder_dedupe_key(*task, due),
            now,
        ),
{
    let recipient = match task.assigned_to_user_id {
        Some(id) => id,
        None => return None,
    };
    let mut message = chars_of("Напоминание: задача «");
    push_str(&mut message, task.title.as_str());
    push_str(&mut message, "» должна быть готова завтра.");
    let mut key = chars_of("deadline_reminder:");
    push_uid(&mut key, task.task_uid);
    push_str(&mut key, ":");
    let date_text = due.format("%Y-%m-%d");
    push_str(&mut key, date_text.as_str());
    Some(pending_notice(task.id, recipient, NotificationType::DeadlineReminder, &message, &key, now))
}

/// The task's deadline lies a whole number of alert periods before `today`.
pub open spec fn alert_day(today: Date, deadline: Date) -> bool {
    (today.days - deadline.days) % (OVERDUE_ALERT_PERIOD_DAYS as int) == 0
}

pub open spec fn overdue_message(title: Seq<char>, days: int) -> Seq<char> {
    "Задача «"@ + title + "» просрочена уже на "@ + signed_decimal(days) + " дн."@
}

pub open spec fn overdue_dedupe_key(task: Task, recipient: i64, days: int) -> Seq<char> {
    "overdue:"@ + uid_text(task.task_uid) + ":"@ + signed_decimal(recipient as int) + ":"@ + signed_decimal(days)
}

/// Who is alerted about an overdue task: its author, then its assignee.
pub open spec fn overdue_recipients(task: Task) -> Seq<i64> {
    match task.assigned_to_user_id {
        Some(a) => seq![task.created_by_user_id, a],
        None => seq![task.created_by_user_id],
    }
}

/// The alerts about an overdue task on `today`: on every third day past the
/// deadline, one to the author and one to the assignee, if any; none for a
/// task without a deadline or on other days.
pub fn overdue_alerts(task: &Task, today: Date, now: Timestamp) -> (r: Vec<Notification>)
    requires
        today.wf(),
        task.deadline matches Some(d) ==> d.wf(),
    ensures
        match task.deadline {
            None => r@.len() == 0,
            Some(d) => if !alert_day(today, d) {
                r@.len() == 0
            } else {
                &&& r@.len() == overdue_recipients(*task).len()
                &&& forall|i: int| 0 <= i < r@.len() ==> is_pending_notice(
                    #[trigger] r@[i],
                    task.id,
                    overdue_recipients(*task)[i],
                    NotificationType::TaskUpdated,
                    overdue_message(task.title@, today.days - d.days),
                    overdue_dedupe_key(*task, overdue_recipients(*task)[i], today.days - d.days),
                    now,
                )
            },
        },
{
    let mut out: Vec<Notification> = Vec::new();
    let deadline = match task.deadline {
        Some(d) => d,
        None => return out,
    };
    let overdue_days: i64 = today.days - deadline.days;
    if overdue_days % OVERDUE_ALERT_PERIOD_DAYS != 0 {
        return out;
    }
    let mut message = chars_of("Задача «");
    push_str(&mut message, task.title.as_str());
    push_str(&mut message, "» просрочена уже на ");
    push_signed(&mut message, overdue_days);
    push_str(&mut message, " дн.");
    let mut recipients: Vec<i64> = Vec::new();
    recipients.push(task.created_by_user_id);
    match task.assigned_to_user_id {
        Some(a) => recipients.push(a),
        None => {},
    }
    assert(recipients@ =~= overdue_recipients(*task));
    let mut i: usize = 0;
    while i < recipients.len()
        invariant
            i <= recipients.len(),
            recipients@ == overdue_recipients(*task),
            out@.len() == i,
            message@ == overdue_message(task.title@, overdue_days as int),
            overdue_days == today.days - deadline.days,
            forall|k: int| 0 <= k < i ==> is_pending_notice(
                #[trigger] out@[k],
                task.id,
                recipients@[k],
                NotificationType::TaskUpdated,
                overdue_message(task.title@, overdue_days as int),
                overdue_dedupe_key(*task, recipients@[k], overdue_days as int),
                now,
            ),
        decreases recipients.len() - i,
    {
        let recipient = recipients[i];
        let mut key = chars_of("overdue:");
        push_uid(&mut key, task.task_uid);
        push_str(&mut key, ":");
        push_signed(&mut key, recipient);
        push_str(&mut key, ":");
        push_signed(&mut key, overdue_days);
        out.push(pending_notice(task.id, recipient, NotificationType::TaskUpdated, &message, &key, now));
        i = i + 1;
    }
    out
}

} // verus!
