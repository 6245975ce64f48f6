//! Decisions of the SLA escalation worker: the SLA state of a task from the
//! days left to its deadline, whether the stored state must be rewritten,
//! whether the escalation level rises, and the notification sent when it
//! does.  The scan, the writes and the queueing are done by the driver.
use vstd::prelude::*;

use crate::application::ports::SlaTaskRow;
use crate::domain::notification::{Notification, NotificationDeliveryState, NotificationType};
use crate::domain::sla::{sla_code, SlaState};
use crate::domain::task::entity::{push_uid, uid_text};
use crate::text::{chars_of, decimal, opt_view, push_decimal, push_signed, push_str, signed_decimal, str_equal, string_of};
use crate::time::{formatted_date, Date, Timestamp, TIMESTAMP_LIMIT};

verus! {

/// Active tasks scanned per tick.
pub const SLA_SCAN_LIMIT: i64 = 500;
/// Delay before the first delivery attempt of an escalation notice.
pub const SLA_NOTIFICATION_DELAY_SECONDS: i64 = 5;
/// Date format used in escalation notices.
pub const SLA_DATE_FORMAT: &'static str = "%d.%m.%Y";

/// SLA state and escalation level for the days left to a deadline:
/// breached (2) when past, at risk (1) on the day before and the day itself,
/// healthy (0) otherwise.
pub open spec fn sla_target(days_remaining: int) -> (SlaState, i32) {
    if days_remaining < 0 {
        (SlaState::Breached, 2)
    } else if days_remaining <= 1 {
        (SlaState::AtRisk, 1)
    } else {
        (SlaState::Healthy, 0)
    }
}

pub fn sla_target_for(days_remaining: i64) -> (r: (SlaState, i32))
    ensures
        r == sla_target(days_remaining as int),
{
    if days_remaining < 0 {
        (SlaState::Breached, 2)
    } else if days_remaining <= 1 {
        (SlaState::AtRisk, 1)
    } else {
        (SlaState::Healthy, 0)
    }
}

/// What the worker does with one task row.
#[derive(Debug, Clone, Copy, PartialEq, Eq, Structural)]
pub enum SlaUpdatePlan {
    /// The stored state and level already cover the current state.
    Unchanged,
    /// Store `state` and `level`; `escalate` when the level rises above the
    /// last recorded one.
    Persist { state: SlaState, level: i32, days_remaining: i64, escalate: bool },
}

/// The plan for a task whose stored state is `current` and last level
/// `last_level`, `days` before its deadline.
pub open spec fn sla_plan(current: Option<Seq<char>>, last_level: i32, days: int) -> SlaUpdatePlan {
    let (state, level) = sla_target(days);
    if current == Some(sla_code(state)) && last_level >= level {
        SlaUpdatePlan::Unchanged
    } else {
        SlaUpdatePlan::Persist {
            state,
            level,
            days_remaining: days as i64,
            escalate: level > last_level && level != 0,
        }
    }
}

/// Plans the SLA update of one task on `today`.
pub fn plan_sla_update(task: &SlaTaskRow, today: Date) -> (r: SlaUpdatePlan)
    requires
        task.deadline.wf(),
        today.wf(),
    ensures
        r == sla_plan(opt_view(task.current_sla_state), task.sla_last_level, task.deadline.days - today.days),
{
    let days_remaining = task.deadline.days - today.days;
    let (state, level) = sla_target_for(days_remaining);
    let already_at_state = match &task.current_sla_state {
        Some(code) => str_equal(code.as_str(), state.as_code()),
        None => false,
    };
    let already_at_level = task.sla_last_level >= level;
    if already_at_state && already_at_level {
        SlaUpdatePlan::Unchanged
    } else {
        SlaUpdatePlan::Persist {
            state,
            level,
            days_remaining,
            escalate: level > task.sla_last_level && level != 0,
        }
    }
}

/// The escalation notice for a task that moved to `state`, `days` before
/// its deadline (formatted as `date`).
pub open spec fn sla_message(title: Seq<char>, state: SlaState, date: Seq<char>, days: int) -> Seq<char> {
    if state == SlaState::AtRisk {
        "⚠️ Задача «"@ + title + "» приближается к дедлайну ("@ + date + ").\nОстался "@
            + decimal(if days > 0 { days as nat } else { 0 }) + " дн. — проверьте статус."@
    } else {
        "🔴 Задача «"@ + title + "» просрочена (дедлайн "@ + date
            + " прошёл).\nСрочно обновите статус или сообщите ответственному."@
    }
}

/// `sla:{task uid}:level:{level}`: at most one notice per task and level.
pub open spec fn sla_dedupe_key(uid: u128, level: i32) -> Seq<char> {
    "sla:"@ + uid_text(uid) + ":level:"@ + signed_decimal(level as int)
}

/// The notice sent when a task escalates to `state` at `level` on `today`;
/// none when nobody is assigned or the state is healthy.
pub fn sla_escalation_notification(
    task: &SlaTaskRow,
    state: SlaState,
    level: i32,
    today: Date,
    now: Timestamp,
) -> (r: Option<Notification>)
    requires
        task.deadline.wf(),
        today.wf(),
        -TIMESTAMP_LIMIT <= now <= TIMESTAMP_LIMIT,
    ensures
        r is None <==> task.assigned_to_user_id is None || state == SlaState::Healthy,
        r matches Some(n) ==> {
            &&& n.id is None
            &&& n.task_id == Some(task.id)
            &&& Some(n.recipient_user_id) == task.assigned_to_user_id
            &&& n.notification_type == NotificationType::SlaEscalation
            &&& n.message@ == sla_message(
                task.title@,
                state,
                formatted_date(task.deadline.days as int, SLA_DATE_FORMAT@),
                task.deadline.days - today.days,
            )
            &&& n.dedupe_key@ == sla_dedupe_key(task.task_uid, level)
            &&& n.telegram_message_id is None
            &&& n.delivery_state == NotificationDeliveryState::Pending
            &&& !n.is_sent && !n.is_read && n.attempt_count == 0
            &&& n.sent_at is None && n.read_at is None
            &&& n.next_attempt_at == Some((now + SLA_NOTIFICATION_DELAY_SECONDS) as Timestamp)
            &&& n.last_error_code is None
            &&& n.created_at == now
        },
{
    let recipient_user_id = match task.assigned_to_user_id {
        Some(id) => id,
        None => return None,
    };
    let days_remaining = task.deadline.days - today.days;
    let date = task.deadline.format(SLA_DATE_FORMAT);
    let mut message: Vec<char>;
    match state {
        SlaState::Healthy => return None,
        SlaState::AtRisk => {
            message = chars_of("⚠️ Задача «");
            push_str(&mut message, task.title.as_str());
            push_str(&mut message, "» приближается к дедлайну (");
            push_str(&mut message, date.as_str());
            push_str(&mut message, ").\nОстался ");
            let shown: u64 = if days_remaining > 0 { days_remaining as u64 } else { 0 };
            push_decimal(&mut message, shown);
            push_str(&mut message, " дн. — проверьте статус.");
        },
        SlaState::Breached => {
            message = chars_of("🔴 Задача «");
            push_str(&mut message, task.title.as_str());
            push_str(&mut message, "» просрочена (дедлайн ");
            push_str(&mut message, date.as_str());
            push_str(&mut message, " прошёл).\nСрочно обновите статус или сообщите ответственному.");
        },
    }
    let mut key = chars_of("sla:");
    push_uid(&mut key, task.task_uid);
    push_str(&mut key, ":level:");
    push_signed(&mut key, level as i64);
    Some(Notification {
        id: None,
        task_id: Some(task.id),
        recipient_user_id,
        notification_type: NotificationType::SlaEscalation,
        message: string_of(message.as_slice()),
        dedupe_key: string_of(key.as_slice()),
        telegram_message_id: None,
        delivery_state: NotificationDeliveryState::Pending,
        is_sent: false,
        is_read: false,
        attempt_count: 0,
        sent_at: None,
        read_at: None,
        next_attempt_at: Some(now + SLA_NOTIFICATION_DELAY_SECONDS),
        last_error_code: None,
        created_at: now,
    })
}

/// Once a plan has been stored, planning again on the same day changes
/// nothing.
pub proof fn sla_plan_is_idempotent(current: Option<Seq<char>>, last_level: i32, days: int)
    ensures
        sla_plan(current, last_level, days) matches SlaUpdatePlan::Persist { state, level, .. } ==>
            sla_plan(Some(sla_code(state)), level, days) == SlaUpdatePlan::Unchanged,
{
}

/// An escalation is raised only when the level rises, and never for a
/// healthy task.
pub proof fn sla_escalates_only_upwards(current: Option<Seq<char>>, last_level: i32, days: int)
    ensures
        sla_plan(current, last_level, days) matches SlaUpdatePlan::Persist { state, level, escalate, .. } ==>
            (escalate ==> level > last_level && state != SlaState::Healthy),
{
}

/// A plan escalates exactly when the task reaches a worse, non-healthy
/// level than the last one recorded; in particular a task found past its
/// deadline whose last recorded level is below breached is always escalated.
pub proof fn escalation_follows_a_worsening_level(current: Option<Seq<char>>, last_level: i32, days: int)
    ensures
        sla_plan(current, last_level, days) matches SlaUpdatePlan::Persist { state, level, escalate, .. }
            ==> (escalate <==> (state != SlaState::Healthy && level > last_level)),
        days < 0 && last_level < 2 ==> (sla_plan(current, last_level, days) matches SlaUpdatePlan::Persist {
            state,
            escalate,
            ..
        } && state == SlaState::Breached && escalate),
        days == 0 && last_level < 1 ==> (sla_plan(current, last_level, days) matches SlaUpdatePlan::Persist {
            state,
            escalate,
            ..
        } && state == SlaState::AtRisk && escalate),
{
}

/// The SLA state follows the days left: breached exactly when the deadline
/// has passed, at risk on the day before and the day itself, healthy
/// otherwise; the level rises with the state (0, 1, 2).
pub proof fn sla_state_follows_days_left(days: int)
    ensures
        (sla_target(days).0 == SlaState::Breached) <==> days < 0,
        (sla_target(days).0 == SlaState::AtRisk) <==> (0 <= days && days <= 1),
        (sla_target(days).0 == SlaState::Healthy) <==> days > 1,
        sla_target(days).1 == (if days < 0 { 2i32 } else if days <= 1 { 1i32 } else { 0i32 }),
{
}

} // verus!
