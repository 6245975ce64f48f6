//! Delivery of queued notifications: whether a notice can be sent at all,
//! what a delivery attempt's result means (sent, permanently failed, or
//! retried after an exponential back-off), and the task bookkeeping after
//! an assignment notice went out.  The driver sends and stores.
use vstd::prelude::*;

use crate::text::{lemma_pow2_30, lemma_pow2_mono, pow2};

use crate::domain::audit::{AuditAction, AuditLogEntry};
use crate::domain::errors::{ctx_one, ContextValue};
use crate::domain::notification::NotificationType;
use crate::domain::task::entity::Task;
use crate::domain::task::types::{status_code, TaskStatus};
use crate::domain::user::User;
use crate::text::{opt_view, str_equal};
use crate::time::Timestamp;

verus! {

pub const RECIPIENT_MISSING_ERROR: &'static str = "RECIPIENT_MISSING";
pub const CHAT_ID_MISSING_ERROR: &'static str = "CHAT_ID_MISSING";
pub const TELEGRAM_SEND_FAILED_ERROR: &'static str = "TELEGRAM_SEND_FAILED";
/// The bot was blocked by the recipient.
pub const TELEGRAM_BOT_BLOCKED: &'static str = "TELEGRAM_BOT_BLOCKED";
/// The recipient's chat no longer exists.
pub const TELEGRAM_CHAT_NOT_FOUND: &'static str = "TELEGRAM_CHAT_NOT_FOUND";
/// Notices fetched per delivery run.
pub const PENDING_NOTIFICATION_BATCH_SIZE: i64 = 50;
/// Deliveries in flight at once.
pub const MAX_CONCURRENT_NOTIFICATION_DELIVERIES: usize = 8;
/// Attempts after which a transient failure becomes permanent.
pub const MAX_NOTIFICATION_RETRY_ATTEMPTS: i32 = 4;
/// Back-off of the first retry, in seconds.
pub const NOTIFICATION_RETRY_BASE_SECONDS: i64 = 60;
/// Longest back-off, in seconds.
pub const NOTIFICATION_RETRY_MAX_SECONDS: i64 = 3600;

/// Where a notice goes: the recipient's chat, or why it cannot be sent.
pub fn delivery_chat(recipient: Option<&User>) -> (r: Result<i64, &'static str>)
    ensures
        match recipient {
            None => r matches Err(code) && code@ == RECIPIENT_MISSING_ERROR@,
            Some(u) => match u.last_chat_id {
                Some(chat) => r matches Ok(c) && c == chat,
                None => r matches Err(code) && code@ == CHAT_ID_MISSING_ERROR@,
            },
        },
{
    match recipient {
        None => Err(RECIPIENT_MISSING_ERROR),
        Some(user) => match user.last_chat_id {
            Some(chat) => Ok(chat),
            None => Err(CHAT_ID_MISSING_ERROR),
        },
    }
}

/// Back-off before the next attempt: the base doubled per earlier attempt,
/// at most the maximum.
pub open spec fn retry_delay(next_attempt_count: int) -> int {
    let exponent: nat = if next_attempt_count - 1 > 0 { (next_attempt_count - 1) as nat } else { 0 };
    let e: nat = if exponent > 30 { 30 } else { exponent };
    let d = NOTIFICATION_RETRY_BASE_SECONDS * pow2(e);
    if d < NOTIFICATION_RETRY_MAX_SECONDS { d } else { NOTIFICATION_RETRY_MAX_SECONDS as int }
}

proof fn lemma_pow2_bounds(n: nat)
    requires
        n <= 30,
    ensures
        1 <= pow2(n) <= 1_073_741_824,
{
    lemma_pow2_mono(n, 30);
    lemma_pow2_30();
}

pub fn retry_delay_seconds(next_attempt_count: i32) -> (r: i64)
    ensures
        r == retry_delay(next_attempt_count as int),
        NOTIFICATION_RETRY_BASE_SECONDS <= r <= NOTIFICATION_RETRY_MAX_SECONDS,
{
    let exponent: u32 = if next_attempt_count > 1 { (next_attempt_count - 1) as u32 } else { 0 };
    let e: u32 = if exponent > 30 { 30 } else { exponent };
    let mut factor: i64 = 1;
    let mut k: u32 = 0;
    while k < e
        invariant
            k <= e <= 30,
            factor == pow2(k as nat),
            1 <= factor <= 1_073_741_824,
        decreases e - k,
    {
        proof {
            lemma_pow2_bounds((k + 1) as nat);
        }
        factor = factor * 2;
        k = k + 1;
    }
    let delay = NOTIFICATION_RETRY_BASE_SECONDS * factor;
    if delay < NOTIFICATION_RETRY_MAX_SECONDS { delay } else { NOTIFICATION_RETRY_MAX_SECONDS }
}

/// What to record after a delivery attempt.
#[derive(Debug)]
pub enum DeliveryStep {
    /// Sent as Telegram message `message_id`.
    MarkSent { message_id: i32 },
    /// Given up with this error code.
    MarkFailed { error_code: String },
    /// Retry after `delay_seconds`.
    RetryLater { delay_seconds: i64, error_code: String },
}

/// Bot blocked or chat gone: retrying cannot help.
pub open spec fn permanent_error(code: Seq<char>) -> bool {
    code == TELEGRAM_BOT_BLOCKED@ || code == TELEGRAM_CHAT_NOT_FOUND@
}

/// The step for an attempt whose result is the sent message id or the
/// error code; `attempt_count` attempts were made before it.
pub fn delivery_step(result: Result<i32, &str>, attempt_count: i32) -> (r: DeliveryStep)
    requires
        attempt_count < i32::MAX,
    ensures
        match result {
            Ok(id) => r == (DeliveryStep::MarkSent { message_id: id }),
            Err(code) => if permanent_error(code@) {
                r matches DeliveryStep::MarkFailed { error_code } && error_code@ == code@
            } else if attempt_count + 1 >= MAX_NOTIFICATION_RETRY_ATTEMPTS {
                r matches DeliveryStep::MarkFailed { error_code } && error_code@ == TELEGRAM_SEND_FAILED_ERROR@
            } else {
                r matches DeliveryStep::RetryLater { delay_seconds, error_code }
                    && delay_seconds == retry_delay(attempt_count + 1)
                    && error_code@ == TELEGRAM_SEND_FAILED_ERROR@
            },
        },
{
    match result {
        Ok(id) => DeliveryStep::MarkSent { message_id: id },
        Err(code) => {
            if str_equal(code, TELEGRAM_BOT_BLOCKED) || str_equal(code, TELEGRAM_CHAT_NOT_FOUND) {
                return DeliveryStep::MarkFailed { error_code: String::from_str(code) };
            }
            let next_attempt_count = attempt_count + 1;
            if next_attempt_count >= MAX_NOTIFICATION_RETRY_ATTEMPTS {
                return DeliveryStep::MarkFailed { error_code: String::from_str(TELEGRAM_SEND_FAILED_ERROR) };
            }
            DeliveryStep::RetryLater {
                delay_seconds: retry_delay_seconds(next_attempt_count),
                error_code: String::from_str(TELEGRAM_SEND_FAILED_ERROR),
            }
        },
    }
}

/// A delivered assignment notice moves a task that was only created to
/// "sent".
pub fn should_mark_task_sent(notification_type: NotificationType, task: Option<&Task>) -> (r: bool)
    ensures
        r == (notification_type == NotificationType::TaskAssigned && (task matches Some(t) && t.status == TaskStatus::Created)),
{
    if notification_type != NotificationType::TaskAssigned {
        return false;
    }
    match task {
        Some(t) => t.status == TaskStatus::Created,
        None => false,
    }
}

/// The audit record of the move to "sent" of a stored task.
pub fn task_sent_entry(stored: &Task, now: Timestamp) -> (r: Option<AuditLogEntry>)
    ensures
        r is Some <==> stored.id is Some,
        r matches Some(e) ==> {
            &&& Some(e.task_id) == stored.id
            &&& e.id is None
            &&& e.action == AuditAction::Sent
            &&& opt_view(e.old_status) == Some(status_code(TaskStatus::Created))
            &&& opt_view(e.new_status) == Some(status_code(TaskStatus::Sent))
            &&& e.changed_by_user_id is None
            &&& e.metadata@.len() == 1
            &&& e.metadata@[0].key@ == "delivery_channel"@
            &&& e.created_at == now
        },
{
    let task_id = match stored.id {
        Some(id) => id,
        None => return None,
    };
    Some(AuditLogEntry {
        id: None,
        task_id,
        action: AuditAction::Sent,
        old_status: Some(TaskStatus::Created.to_text()),
        new_status: Some(TaskStatus::Sent.to_text()),
        changed_by_user_id: None,
        metadata: ctx_one("delivery_channel", ContextValue::Text(String::from_str("telegram"))),
        created_at: now,
    })
}

/// Back-off never exceeds the maximum and never shrinks with more attempts.
pub proof fn retry_delay_is_monotone_and_capped(a: int, b: int)
    requires
        a <= b,
    ensures
        retry_delay(a) <= retry_delay(b),
        NOTIFICATION_RETRY_BASE_SECONDS <= retry_delay(b) <= NOTIFICATION_RETRY_MAX_SECONDS,
{
    let ea: nat = if a - 1 > 0 { (a - 1) as nat } else { 0 };
    let eb: nat = if b - 1 > 0 { (b - 1) as nat } else { 0 };
    let ca: nat = if ea > 30 { 30 } else { ea };
    let cb: nat = if eb > 30 { 30 } else { eb };
    lemma_pow2_mono(ca, cb);
}

} // verus!
