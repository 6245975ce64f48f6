//! Decisions of the recurrence scheduler: for each due rule, whether to
//! create a task from its template, and when the rule fires next.  The
//! driver that lists due rules, loads templates and writes results is
//! outside the verified library.
use vstd::prelude::*;

use crate::application::ports::{RecurrenceRuleRow, TaskTemplateRow};
use crate::domain::recurrence::{cron_next, cron_valid, CronExpression, RecurrenceRule, TaskTemplateBody};
use crate::domain::task::entity::{Task, TaskUid, TaskView};
use crate::domain::task::types::{MessageType, TaskPriority, TaskStatus};
use crate::text::{chars_of, clone_strings, push_signed, push_str, signed_decimal, string_of, trim, views};
use crate::time::{tz_known, Timestamp, TIMESTAMP_LIMIT};

verus! {

/// Due rules handled in one scheduler tick.
pub const MAX_RULES_PER_TICK: i64 = 50;

pub open spec fn opt_ts(o: Option<int>) -> Option<Timestamp> {
    match o {
        Some(t) => Some(t as Timestamp),
        None => None,
    }
}

/// The next firing of a stored rule after `from`, or `None` when its
/// expression or zone does not parse.
pub open spec fn next_run(cron_expr: Seq<char>, tz_code: Seq<char>, from: int) -> Option<int> {
    let expr = trim(cron_expr);
    if expr.len() > 0 && cron_valid(expr) && tz_known(tz_code) {
        cron_next(expr, tz_code, from)
    } else {
        None
    }
}

/// Parses the stored expression and zone and computes the next firing after
/// `from`; any parse failure gives `None`.
pub fn compute_next_run(cron_expr: &str, tz_code: &str, from: Timestamp) -> (r: Option<Timestamp>)
    requires
        -TIMESTAMP_LIMIT <= from <= TIMESTAMP_LIMIT,
    ensures
        r == opt_ts(next_run(cron_expr@, tz_code@, from as int)),
{
    let cron = match CronExpression::parse(cron_expr) {
        Ok(cron) => cron,
        Err(_) => return None,
    };
    let zone = match RecurrenceRule::parse_timezone(tz_code) {
        Ok(zone) => zone,
        Err(_) => return None,
    };
    cron.next_fire_after(from, &zone)
}

/// `recurrence:{rule id}:{now}`: the idempotency key of the task a rule
/// creates at `now`.
pub open spec fn recurrence_source_key(rule_id: i64, now: Timestamp) -> Seq<char> {
    "recurrence:"@ + signed_decimal(rule_id as int) + ":"@ + signed_decimal(now as int)
}

/// The text a template task records as its originating message.
pub open spec fn template_origin(code: Seq<char>) -> Seq<char> {
    "Автозадача из шаблона «"@ + code + "»"@
}

/// The task a rule creates from its template at `now`.
pub open spec fn template_task(
    rule: RecurrenceRuleRow,
    template: TaskTemplateRow,
    body: TaskTemplateBody,
    now: Timestamp,
    task_uid: TaskUid,
) -> TaskView {
    TaskView {
        id: None,
        task_uid,
        version: 1,
        source_message_key: recurrence_source_key(rule.id, now),
        created_by_user_id: rule.owner_user_id,
        assigned_to_user_id: None,
        assigned_to_employee_id: None,
        title: template.title@,
        description: body.description@,
        acceptance_criteria: views(body.acceptance_criteria@),
        expected_result: body.expected_result@,
        deadline: None,
        deadline_raw: None,
        original_message: template_origin(template.code@),
        message_type: MessageType::Text,
        ai_model_used: seq![],
        ai_response_raw: seq![],
        status: TaskStatus::Created,
        priority: TaskPriority::Medium,
        blocked_reason: None,
        telegram_chat_id: 0,
        telegram_message_id: 0,
        telegram_task_message_id: None,
        tags: views(body.tags@),
        created_at: now,
        sent_at: None,
        started_at: None,
        blocked_at: None,
        review_requested_at: None,
        completed_at: None,
        cancelled_at: None,
        updated_at: now,
    }
}

/// Builds the task a rule creates from its template.
pub fn task_from_template(
    rule: &RecurrenceRuleRow,
    template: &TaskTemplateRow,
    body: &TaskTemplateBody,
    now: Timestamp,
    task_uid: TaskUid,
) -> (r: Task)
    ensures
        r@ == template_task(*rule, *template, *body, now, task_uid),
{
    let mut key = chars_of("recurrence:");
    push_signed(&mut key, rule.id);
    push_str(&mut key, ":");
    push_signed(&mut key, now);
    let mut origin = chars_of("Автозадача из шаблона «");
    push_str(&mut origin, template.code.as_str());
    push_str(&mut origin, "»");
    let task = Task {
        id: None,
        task_uid,
        version: 1,
        source_message_key: string_of(key.as_slice()),
        created_by_user_id: rule.owner_user_id,
        assigned_to_user_id: None,
        assigned_to_employee_id: None,
        title: template.title.clone(),
        description: body.description.clone(),
        acceptance_criteria: clone_strings(&body.acceptance_criteria),
        expected_result: body.expected_result.clone(),
        deadline: None,
        deadline_raw: None,
        original_message: string_of(origin.as_slice()),
        message_type: MessageType::Text,
        ai_model_used: String::new(),
        ai_response_raw: String::new(),
        status: TaskStatus::Created,
        priority: TaskPriority::Medium,
        blocked_reason: None,
        telegram_chat_id: 0,
        telegram_message_id: 0,
        telegram_task_message_id: None,
        tags: clone_strings(&body.tags),
        created_at: now,
        sent_at: None,
        started_at: None,
        blocked_at: None,
        review_requested_at: None,
        completed_at: None,
        cancelled_at: None,
        updated_at: now,
    };
    assert(task@.ai_model_used =~= seq![]);
    assert(task@.ai_response_raw =~= seq![]);
    task
}

/// What loading a rule's template gave.
#[derive(Debug)]
pub enum TemplateLookup {
    /// The template row and its decoded body.
    Found(TaskTemplateRow, TaskTemplateBody),
    /// No active template with that id.
    Missing,
    /// The store could not be read; worth retrying.
    LoadFailed,
    /// The stored body does not decode.
    BodyInvalid,
}

/// What to do with one due rule.
#[derive(Debug)]
pub enum RecurrenceAction {
    /// Leave the rule untouched; it is retried on the next tick.
    Retry,
    /// Record the run and store the next firing.
    Advance { next_run_at: Option<Timestamp> },
    /// Create the task (idempotently), then record the run.
    CreateAndAdvance { task: Task, next_run_at: Option<Timestamp> },
}

/// A rule without a template, or whose template is missing or broken, is
/// only advanced; a failed load is retried; otherwise the template's task is
/// created and the rule advanced.
pub open spec fn recurrence_action_ok(rule: RecurrenceRuleRow, lookup: TemplateLookup, now: Timestamp, task_uid: TaskUid, a: RecurrenceAction) -> bool {
    let next = opt_ts(next_run(rule.cron_expression@, rule.timezone@, now as int));
    if rule.template_id is None {
        a matches RecurrenceAction::Advance { next_run_at } && next_run_at == next
    } else {
        match lookup {
            TemplateLookup::LoadFailed => a is Retry,
            TemplateLookup::Missing => a matches RecurrenceAction::Advance { next_run_at } && next_run_at == next,
            TemplateLookup::BodyInvalid => a matches RecurrenceAction::Advance { next_run_at } && next_run_at == next,
            TemplateLookup::Found(template, body) => a matches RecurrenceAction::CreateAndAdvance { task, next_run_at }
                && task@ == template_task(rule, template, body, now, task_uid) && next_run_at == next,
        }
    }
}

/// Decides what happens to one due rule at `now`.
pub fn decide_recurrence(rule: &RecurrenceRuleRow, lookup: TemplateLookup, now: Timestamp, task_uid: TaskUid) -> (r: RecurrenceAction)
    requires
        -TIMESTAMP_LIMIT <= now <= TIMESTAMP_LIMIT,
    ensures
        recurrence_action_ok(*rule, lookup, now, task_uid, r),
{
    if rule.template_id.is_none() {
        let next_run_at = compute_next_run(rule.cron_expression.as_str(), rule.timezone.as_str(), now);
        return RecurrenceAction::Advance { next_run_at };
    }
    match lookup {
        TemplateLookup::LoadFailed => RecurrenceAction::Retry,
        TemplateLookup::Missing => {
            let next_run_at = compute_next_run(rule.cron_expression.as_str(), rule.timezone.as_str(), now);
            RecurrenceAction::Advance { next_run_at }
        },
        TemplateLookup::BodyInvalid => {
            let next_run_at = compute_next_run(rule.cron_expression.as_str(), rule.timezone.as_str(), now);
            RecurrenceAction::Advance { next_run_at }
        },
        TemplateLookup::Found(template, body) => {
            let task = task_from_template(rule, &template, &body, now, task_uid);
            let next_run_at = compute_next_run(rule.cron_expression.as_str(), rule.timezone.as_str(), now);
            RecurrenceAction::CreateAndAdvance { task, next_run_at }
        },
    }
}

} // verus!
