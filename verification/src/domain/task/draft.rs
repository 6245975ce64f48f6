use vstd::prelude::*;

use crate::domain::errors::{ctx_empty, ctx_one, ctx_two, AppError, AppResult, ContextValue};
use crate::limits::{
    MAX_ACCEPTANCE_CRITERIA, MAX_TASK_ACCEPTANCE_CRITERION_LENGTH,
    MAX_TASK_EXPECTED_RESULT_LENGTH, MAX_TASK_STEPS, MAX_TASK_STEP_LENGTH,
    MAX_TASK_TITLE_LENGTH, MIN_TASK_STEPS,
};
use crate::text::{clone_opt_string, views};

verus! {

/// Title length bounds of the draft schema (in characters).
pub const DRAFT_TITLE_MIN_CHARS: usize = 1;
pub const DRAFT_TITLE_MAX_CHARS: usize = 100;

/// The structured AI-produced representation of a new task.
#[derive(Debug)]
pub struct StructuredTaskDraft {
    pub title: String,
    pub expected_result: String,
    pub steps: Vec<String>,
    pub acceptance_criteria: Vec<String>,
    /// ISO-8601 or bare `YYYY-MM-DD` deadline suggested by the AI; never
    /// trusted without the deadline kernel.
    pub deadline_iso: Option<String>,
    /// Explicit refusal marker: the model declined to produce a task.
    pub refused: bool,
    pub refusal_reason: Option<String>,
}

/// Some element of `items` is longer than `limit` characters.
pub open spec fn any_longer(items: Seq<Seq<char>>, limit: nat) -> bool {
    exists|i: int| 0 <= i < items.len() && items[i].len() > limit
}

impl StructuredTaskDraft {
    /// The code of the first business rule the draft breaks, if any.
    pub open spec fn rule_violation(&self) -> Option<Seq<char>> {
        let steps = views(self.steps@);
        let criteria = views(self.acceptance_criteria@);
        if self.refused {
            Some("TASK_DRAFT_REFUSED"@)
        } else if !(DRAFT_TITLE_MIN_CHARS <= self.title@.len() <= DRAFT_TITLE_MAX_CHARS)
            || self.expected_result@.len() < 1 {
            Some("TASK_DRAFT_INVALID"@)
        } else if !(MIN_TASK_STEPS <= steps.len() <= MAX_TASK_STEPS) {
            Some("TASK_STEPS_INVALID"@)
        } else if criteria.len() > MAX_ACCEPTANCE_CRITERIA {
            Some("TASK_ACCEPTANCE_CRITERIA_INVALID"@)
        } else if self.title@.len() > MAX_TASK_TITLE_LENGTH {
            Some("TASK_TITLE_TOO_LONG"@)
        } else if self.expected_result@.len() > MAX_TASK_EXPECTED_RESULT_LENGTH {
            Some("TASK_EXPECTED_RESULT_TOO_LONG"@)
        } else if any_longer(steps, MAX_TASK_STEP_LENGTH as nat) {
            Some("TASK_STEP_TOO_LONG"@)
        } else if any_longer(criteria, MAX_TASK_ACCEPTANCE_CRITERION_LENGTH as nat) {
            Some("TASK_ACCEPTANCE_CRITERION_TOO_LONG"@)
        } else {
            None
        }
    }

    /// The message that goes with `rule_violation`.
    pub open spec fn rule_message(&self) -> Seq<char> {
        let steps = views(self.steps@);
        let criteria = views(self.acceptance_criteria@);
        if self.refused {
            "AI refused to produce a task for this input"@
        } else if !(DRAFT_TITLE_MIN_CHARS <= self.title@.len() <= DRAFT_TITLE_MAX_CHARS)
            || self.expected_result@.len() < 1 {
            "AI response does not match the expected schema"@
        } else if !(MIN_TASK_STEPS <= steps.len() <= MAX_TASK_STEPS) {
            "Task must contain between 1 and 7 concrete steps"@
        } else if criteria.len() > MAX_ACCEPTANCE_CRITERIA {
            "Task contains too many acceptance criteria"@
        } else if self.title@.len() > MAX_TASK_TITLE_LENGTH {
            "Task title is too long"@
        } else if self.expected_result@.len() > MAX_TASK_EXPECTED_RESULT_LENGTH {
            "Task expected result is too long"@
        } else if any_longer(steps, MAX_TASK_STEP_LENGTH as nat) {
            "Task contains a step that is too long for Telegram delivery"@
        } else {
            "Task contains an acceptance criterion that is too long for Telegram delivery"@
        }
    }

    /// Validates the schema and every domain-level business rule: step
    /// count, field lengths for Telegram delivery and the number of
    /// acceptance criteria.  All failures are validation errors whose code
    /// names the first broken rule.
    pub fn validate_business_rules(&self) -> (r: AppResult<()>)
        ensures
            r is Ok <==> self.rule_violation() is None,
            r matches Err(e) ==> e.kind() == crate::domain::errors::ErrorKind::Validation
                && Some(e.code_view()) == self.rule_violation(),
            r matches Err(e) ==> e.message_view() == self.rule_message(),
    {
        if self.refused {
            let reason = match clone_opt_string(&self.refusal_reason) {
                Some(text) => ContextValue::Text(text),
                None => ContextValue::Null,
            };
            return Err(AppError::business_rule(
                "TASK_DRAFT_REFUSED",
                String::from_str("AI refused to produce a task for this input"),
                ctx_one("reason", reason),
            ));
        }
        let title_len = self.title.as_str().unicode_len();
        let expected_len = self.expected_result.as_str().unicode_len();
        if title_len < DRAFT_TITLE_MIN_CHARS || title_len > DRAFT_TITLE_MAX_CHARS || expected_len < 1 {
            return Err(AppError::schema_validation(
                "TASK_DRAFT_INVALID",
                String::from_str("AI response does not match the expected schema"),
                ctx_one(
                    "errors",
                    ContextValue::Text(String::from_str("title: length 1..=100; expected_result: length >= 1")),
                ),
            ));
        }
        let step_count = self.steps.len();
        if step_count < MIN_TASK_STEPS || step_count > MAX_TASK_STEPS {
            return Err(AppError::business_rule(
                "TASK_STEPS_INVALID",
                String::from_str("Task must contain between 1 and 7 concrete steps"),
                ctx_one("count", ContextValue::Int(step_count as i64)),
            ));
        }
        if self.acceptance_criteria.len() > MAX_ACCEPTANCE_CRITERIA {
            return Err(AppError::business_rule(
                "TASK_ACCEPTANCE_CRITERIA_INVALID",
                String::from_str("Task contains too many acceptance criteria"),
                ctx_one("count", ContextValue::Int(self.acceptance_criteria.len() as i64)),
            ));
        }
        if title_len > MAX_TASK_TITLE_LENGTH {
            return Err(AppError::business_rule(
                "TASK_TITLE_TOO_LONG",
                String::from_str("Task title is too long"),
                ctx_one("limit", ContextValue::Int(MAX_TASK_TITLE_LENGTH as i64)),
            ));
        }
        if expected_len > MAX_TASK_EXPECTED_RESULT_LENGTH {
            return Err(AppError::business_rule(
                "TASK_EXPECTED_RESULT_TOO_LONG",
                String::from_str("Task expected result is too long"),
                ctx_one("limit", ContextValue::Int(MAX_TASK_EXPECTED_RESULT_LENGTH as i64)),
            ));
        }
        if let Some(step_length) = first_longer(&self.steps, MAX_TASK_STEP_LENGTH) {
            return Err(AppError::business_rule(
                "TASK_STEP_TOO_LONG",
                String::from_str("Task contains a step that is too long for Telegram delivery"),
                ctx_two(
                    "limit",
                    ContextValue::Int(MAX_TASK_STEP_LENGTH as i64),
                    "length",
                    ContextValue::Int(step_length as i64),
                ),
            ));
        }
        if let Some(criterion_length) = first_longer(
            &self.acceptance_criteria,
            MAX_TASK_ACCEPTANCE_CRITERION_LENGTH,
        ) {
            return Err(AppError::business_rule(
                "TASK_ACCEPTANCE_CRITERION_TOO_LONG",
                String::from_str(
                    "Task contains an acceptance criterion that is too long for Telegram delivery",
                ),
                ctx_two(
                    "limit",
                    ContextValue::Int(MAX_TASK_ACCEPTANCE_CRITERION_LENGTH as i64),
                    "length",
                    ContextValue::Int(criterion_length as i64),
                ),
            ));
        }
        Ok(())
    }
}

/// Length (in characters) of the first item longer than `limit`.
fn first_longer(items: &Vec<String>, limit: usize) -> (r: Option<usize>)
    requires
        items@.len() <= MAX_TASK_STEPS || items@.len() <= MAX_ACCEPTANCE_CRITERIA,
    ensures
        r is Some <==> any_longer(views(items@), limit as nat),
        r matches Some(n) ==> n > limit,
{
    let mut i: usize = 0;
    while i < items.len()
        invariant
            i <= items@.len(),
            forall|j: int| 0 <= j < i ==> views(items@)[j].len() <= limit,
        decreases items.len() - i,
    {
        let n = items[i].as_str().unicode_len();
        if n > limit {
            assert(views(items@)[i as int].len() > limit);
            return Some(n);
        }
        i = i + 1;
    }
    None
}

} // verus!
