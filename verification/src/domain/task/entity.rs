use vstd::prelude::*;

use crate::domain::errors::{ctx_empty, ctx_one, ctx_two, AppError, AppResult, ContextValue, ErrorKind};
use crate::domain::task::draft::StructuredTaskDraft;
use crate::domain::task::types::{
    status_terminal, transition_allowed, MessageType, TaskPriority, TaskStatus,
};
use crate::limits::MAX_TASK_BLOCKER_REASON_LENGTH;
use crate::text::{
    chars_of, clone_opt_string, clone_strings, decimal, join_chars, join_strings, join_with,
    lines, lines_of, opt_view, push_chars, push_decimal, push_str, string_of, trim, views,
};
use crate::time::{Date, Timestamp};

verus! {

/// A task's public identifier: the 128 bits of a UUID (v7 for new tasks).
pub type TaskUid = u128;

/// Wraps `uuid::Uuid::now_v7()`: a fresh time-ordered identifier.  Nothing is
/// stated of its value, which rests on the clock and the OS random source.
/// The call has no arguments to guard: uuid panics when the system clock
/// reads before 1970 or the OS yields no random bytes, and no `requires` can
/// rule out either.
#[verifier::external_body]
pub(crate) fn fresh_task_uid() -> TaskUid {
    uuid::Uuid::now_v7().as_u128()
}

/// Lower-case hexadecimal digit of `d` (< 16).
pub open spec fn hex_char(d: nat) -> char {
    if d < 10 {
        ((d + 48) as u32) as char
    } else {
        ((d + 87) as u32) as char
    }
}

/// The last `n` hexadecimal digits of `u`, most significant first.
pub open spec fn hex_digits(u: nat, n: nat) -> Seq<char>
    decreases n,
{
    if n == 0 {
        seq![]
    } else {
        hex_digits(u / 16, (n - 1) as nat).push(hex_char(u % 16))
    }
}

/// The hyphenated lower-case form of a UUID (8-4-4-4-12 hex digits), as
/// `uuid` displays it.
pub open spec fn uid_text(u: TaskUid) -> Seq<char> {
    let h = hex_digits(u as nat, 32);
    h.subrange(0, 8) + seq!['-'] + h.subrange(8, 12) + seq!['-'] + h.subrange(12, 16) + seq!['-']
        + h.subrange(16, 20) + seq!['-'] + h.subrange(20, 32)
}

fn hex_digit(d: u128) -> (c: char)
    requires
        d < 16,
    ensures
        c == hex_char(d as nat),
{
    let code: u8 = if d < 10 { (d as u8) + 48 } else { (d as u8) + 87 };
    code as char
}

fn push_hex(out: &mut Vec<char>, u: u128, n: u32)
    ensures
        final(out)@ == old(out)@ + hex_digits(u as nat, n as nat),
    decreases n,
{
    if n > 0 {
        push_hex(out, u / 16, n - 1);
        out.push(hex_digit(u % 16));
        assert(hex_digits(u as nat, n as nat) == hex_digits((u / 16) as nat, (n - 1) as nat).push(hex_char((u % 16) as nat)));
    }
}

proof fn lemma_hex_len(u: nat, n: nat)
    ensures
        hex_digits(u, n).len() == n,
    decreases n,
{
    if n > 0 {
        lemma_hex_len(u / 16, (n - 1) as nat);
    }
}

fn push_range(out: &mut Vec<char>, h: &Vec<char>, a: usize, b: usize)
    requires
        a <= b <= h.len(),
    ensures
        final(out)@ == old(out)@ + h@.subrange(a as int, b as int),
{
    let ghost start = out@;
    let mut i = a;
    while i < b
        invariant
            a <= i <= b <= h.len(),
            out@ == start + h@.subrange(a as int, i as int),
        decreases b - i,
    {
        out.push(h[i]);
        i = i + 1;
        assert(out@ =~= start + h@.subrange(a as int, i as int));
    }
}

/// Appends the hyphenated form of `u`.
pub fn push_uid(out: &mut Vec<char>, u: TaskUid)
    ensures
        final(out)@ == old(out)@ + uid_text(u),
{
    let mut h: Vec<char> = Vec::new();
    push_hex(&mut h, u, 32);
    proof {
        lemma_hex_len(u as nat, 32);
    }
    assert(h@ =~= hex_digits(u as nat, 32));
    let ghost start = out@;
    push_range(out, &h, 0, 8);
    out.push('-');
    push_range(out, &h, 8, 12);
    out.push('-');
    push_range(out, &h, 12, 16);
    out.push('-');
    push_range(out, &h, 16, 20);
    out.push('-');
    push_range(out, &h, 20, 32);
    assert(out@ =~= start + uid_text(u));
}

/// The hyphenated text of a task identifier.
pub fn task_uid_text(u: TaskUid) -> (r: String)
    ensures
        r@ == uid_text(u),
{
    let mut out: Vec<char> = Vec::new();
    push_uid(&mut out, u);
    assert(out@ =~= uid_text(u));
    string_of(out.as_slice())
}

/// The central aggregate for a work item.
///
/// Mutations return a new `Task`; every mutating operation increments
/// `version` for optimistic locking in the persistence layer.
#[derive(Debug)]
pub struct Task {
    pub id: Option<i64>,
    pub task_uid: TaskUid,
    pub version: i64,
    pub source_message_key: String,
    pub created_by_user_id: i64,
    pub assigned_to_user_id: Option<i64>,
    pub assigned_to_employee_id: Option<i64>,
    pub title: String,
    pub description: String,
    pub acceptance_criteria: Vec<String>,
    pub expected_result: String,
    pub deadline: Option<Date>,
    pub deadline_raw: Option<String>,
    pub original_message: String,
    pub message_type: MessageType,
    pub ai_model_used: String,
    pub ai_response_raw: String,
    pub status: TaskStatus,
    pub priority: TaskPriority,
    pub blocked_reason: Option<String>,
    pub telegram_chat_id: i64,
    pub telegram_message_id: i32,
    pub telegram_task_message_id: Option<i32>,
    pub tags: Vec<String>,
    pub created_at: Timestamp,
    pub sent_at: Option<Timestamp>,
    pub started_at: Option<Timestamp>,
    pub blocked_at: Option<Timestamp>,
    pub review_requested_at: Option<Timestamp>,
    pub completed_at: Option<Timestamp>,
    pub cancelled_at: Option<Timestamp>,
    pub updated_at: Timestamp,
}

/// Mathematical value of a [`Task`]: strings as character sequences.
pub struct TaskView {
    pub id: Option<i64>,
    pub task_uid: TaskUid,
    pub version: i64,
    pub source_message_key: Seq<char>,
    pub created_by_user_id: i64,
    pub assigned_to_user_id: Option<i64>,
    pub assigned_to_employee_id: Option<i64>,
    pub title: Seq<char>,
    pub description: Seq<char>,
    pub acceptance_criteria: Seq<Seq<char>>,
    pub expected_result: Seq<char>,
    pub deadline: Option<Date>,
    pub deadline_raw: Option<Seq<char>>,
    pub original_message: Seq<char>,
    pub message_type: MessageType,
    pub ai_model_used: Seq<char>,
    pub ai_response_raw: Seq<char>,
    pub status: TaskStatus,
    pub priority: TaskPriority,
    pub blocked_reason: Option<Seq<char>>,
    pub telegram_chat_id: i64,
    pub telegram_message_id: i32,
    pub telegram_task_message_id: Option<i32>,
    pub tags: Seq<Seq<char>>,
    pub created_at: Timestamp,
    pub sent_at: Option<Timestamp>,
    pub started_at: Option<Timestamp>,
    pub blocked_at: Option<Timestamp>,
    pub review_requested_at: Option<Timestamp>,
    pub completed_at: Option<Timestamp>,
    pub cancelled_at: Option<Timestamp>,
    pub updated_at: Timestamp,
}

/// Aggregate statistics computed over a set of tasks for a single user.
#[derive(Debug, Clone, Copy, PartialEq, Eq, Structural)]
pub struct TaskStats {
    pub created_count: i64,
    pub completed_count: i64,
    pub active_count: i64,
    pub overdue_count: i64,
    pub average_completion_hours: Option<i64>,
}

/// First-entry timestamp rule: entering `target` records `now` unless a
/// timestamp was already recorded; every other value is kept.
pub open spec fn mark(next: TaskStatus, target: TaskStatus, current: Option<Timestamp>, now: Timestamp) -> Option<Timestamp> {
    if next == target {
        match current {
            Some(t) => Some(t),
            None => Some(now),
        }
    } else {
        current
    }
}

fn mark_timestamp(next: TaskStatus, target: TaskStatus, current: Option<Timestamp>, now: Timestamp) -> (r: Option<Timestamp>)
    ensures
        r == mark(next, target, current, now),
{
    if next == target {
        match current {
            Some(t) => Some(t),
            None => Some(now),
        }
    } else {
        current
    }
}

impl View for Task {
    type V = TaskView;

    open spec fn view(&self) -> TaskView {
        TaskView {
            id: self.id,
            task_uid: self.task_uid,
            version: self.version,
            source_message_key: self.source_message_key@,
            created_by_user_id: self.created_by_user_id,
            assigned_to_user_id: self.assigned_to_user_id,
            assigned_to_employee_id: self.assigned_to_employee_id,
            title: self.title@,
            description: self.description@,
            acceptance_criteria: views(self.acceptance_criteria@),
            expected_result: self.expected_result@,
            deadline: self.deadline,
            deadline_raw: opt_view(self.deadline_raw),
            original_message: self.original_message@,
            message_type: self.message_type,
            ai_model_used: self.ai_model_used@,
            ai_response_raw: self.ai_response_raw@,
            status: self.status,
            priority: self.priority,
            blocked_reason: opt_view(self.blocked_reason),
            telegram_chat_id: self.telegram_chat_id,
            telegram_message_id: self.telegram_message_id,
            telegram_task_message_id: self.telegram_task_message_id,
            tags: views(self.tags@),
            created_at: self.created_at,
            sent_at: self.sent_at,
            started_at: self.started_at,
            blocked_at: self.blocked_at,
            review_requested_at: self.review_requested_at,
            completed_at: self.completed_at,
            cancelled_at: self.cancelled_at,
            updated_at: self.updated_at,
        }
    }
}

/// The task after a permitted move to `next` at `now`.
pub open spec fn transitioned(t: TaskView, next: TaskStatus, now: Timestamp) -> TaskView {
    TaskView {
        version: (t.version + 1) as i64,
        status: next,
        updated_at: now,
        sent_at: mark(next, TaskStatus::Sent, t.sent_at, now),
        started_at: mark(next, TaskStatus::InProgress, t.started_at, now),
        blocked_at: mark(next, TaskStatus::Blocked, t.blocked_at, now),
        review_requested_at: mark(next, TaskStatus::InReview, t.review_requested_at, now),
        completed_at: mark(next, TaskStatus::Completed, t.completed_at, now),
        cancelled_at: mark(next, TaskStatus::Cancelled, t.cancelled_at, now),
        blocked_reason: if next == TaskStatus::Blocked { t.blocked_reason } else { None },
        ..t
    }
}

/// The task after reassignment to the given user / employee at `now`.
pub open spec fn reassigned(t: TaskView, user: Option<i64>, employee: Option<i64>, now: Timestamp) -> TaskView {
    TaskView {
        version: (t.version + 1) as i64,
        assigned_to_user_id: user,
        assigned_to_employee_id: employee,
        status: TaskStatus::Created,
        started_at: None,
        blocked_at: None,
        review_requested_at: None,
        completed_at: None,
        cancelled_at: None,
        sent_at: None,
        blocked_reason: None,
        updated_at: now,
        ..t
    }
}

impl Task {
    /// A copy of the task with the same value.
    pub fn duplicate(&self) -> (r: Task)
        ensures
            r@ == self@,
    {
        Task {
            id: self.id,
            task_uid: self.task_uid,
            version: self.version,
            source_message_key: self.source_message_key.clone(),
            created_by_user_id: self.created_by_user_id,
            assigned_to_user_id: self.assigned_to_user_id,
            assigned_to_employee_id: self.assigned_to_employee_id,
            title: self.title.clone(),
            description: self.description.clone(),
            acceptance_criteria: clone_strings(&self.acceptance_criteria),
            expected_result: self.expected_result.clone(),
            deadline: self.deadline,
            deadline_raw: clone_opt_string(&self.deadline_raw),
            original_message: self.original_message.clone(),
            message_type: self.message_type,
            ai_model_used: self.ai_model_used.clone(),
            ai_response_raw: self.ai_response_raw.clone(),
            status: self.status,
            priority: self.priority,
            blocked_reason: clone_opt_string(&self.blocked_reason),
            telegram_chat_id: self.telegram_chat_id,
            telegram_message_id: self.telegram_message_id,
            telegram_task_message_id: self.telegram_task_message_id,
            tags: clone_strings(&self.tags),
            created_at: self.created_at,
            sent_at: self.sent_at,
            started_at: self.started_at,
            blocked_at: self.blocked_at,
            review_requested_at: self.review_requested_at,
            completed_at: self.completed_at,
            cancelled_at: self.cancelled_at,
            updated_at: self.updated_at,
        }
    }

    /// Advances the task to `next_status`, recording the first-entry
    /// timestamp of the new status.  Fails with `TASK_TRANSITION_INVALID`
    /// exactly when the state machine has no such edge.
    pub fn transition_to(&self, next_status: TaskStatus, now: Timestamp) -> (r: AppResult<Task>)
        requires
            self.version < i64::MAX,
        ensures
            r is Ok <==> transition_allowed(self.status, next_status),
            r matches Ok(t) ==> t@ == transitioned(self@, next_status, now),
            r matches Err(e) ==> e.is_error(ErrorKind::Validation, "TASK_TRANSITION_INVALID"@),
            r matches Err(e) ==> e.message_view() == "Task status transition is not allowed"@,
    {
        if !self.status.can_transition_to(next_status) {
            return Err(AppError::business_rule(
                "TASK_TRANSITION_INVALID",
                String::from_str("Task status transition is not allowed"),
                ctx_two(
                    "from",
                    ContextValue::Text(self.status.to_text()),
                    "to",
                    ContextValue::Text(next_status.to_text()),
                ),
            ));
        }
        let mut next_task = self.duplicate();
        next_task.version = self.version + 1;
        next_task.status = next_status;
        next_task.updated_at = now;
        next_task.sent_at = mark_timestamp(next_status, TaskStatus::Sent, self.sent_at, now);
        next_task.started_at = mark_timestamp(next_status, TaskStatus::InProgress, self.started_at, now);
        next_task.blocked_at = mark_timestamp(next_status, TaskStatus::Blocked, self.blocked_at, now);
        next_task.review_requested_at = mark_timestamp(
            next_status,
            TaskStatus::InReview,
            self.review_requested_at,
            now,
        );
        next_task.completed_at = mark_timestamp(next_status, TaskStatus::Completed, self.completed_at, now);
        next_task.cancelled_at = mark_timestamp(next_status, TaskStatus::Cancelled, self.cancelled_at, now);
        if next_status != TaskStatus::Blocked {
            next_task.blocked_reason = None;
        }
        Ok(next_task)
    }

    /// Transitions the task to `Blocked` and records the trimmed blocker
    /// reason.  An empty reason fails with `TASK_BLOCKER_EMPTY`, an overlong
    /// one with `TASK_BLOCKER_TOO_LONG`, a forbidden transition with
    /// `TASK_TRANSITION_INVALID`.
    pub fn apply_blocker(&self, reason: &str, now: Timestamp) -> (r: AppResult<Task>)
        requires
            self.version < i64::MAX,
        ensures
            r is Ok <==> trim(reason@).len() > 0
                && trim(reason@).len() <= MAX_TASK_BLOCKER_REASON_LENGTH
                && transition_allowed(self.status, TaskStatus::Blocked),
            r matches Ok(t) ==> t@ == (TaskView {
                blocked_reason: Some(trim(reason@)),
                ..transitioned(self@, TaskStatus::Blocked, now)
            }),
            r matches Err(e) ==> e.kind() == ErrorKind::Validation && e.code_view() == (
                if trim(reason@).len() == 0 {
                    "TASK_BLOCKER_EMPTY"@
                } else if trim(reason@).len() > MAX_TASK_BLOCKER_REASON_LENGTH {
                    "TASK_BLOCKER_TOO_LONG"@
                } else {
                    "TASK_TRANSITION_INVALID"@
                }),
            r matches Err(e) ==> e.message_view() == (
                if trim(reason@).len() == 0 {
                    "Blocker reason cannot be empty"@
                } else if trim(reason@).len() > MAX_TASK_BLOCKER_REASON_LENGTH {
                    "Blocker reason is too long"@
                } else {
                    "Task status transition is not allowed"@
                }),
    {
        let normalized = crate::text::trim_str(reason);
        let count = normalized.len();
        if count == 0 {
            return Err(AppError::business_rule(
                "TASK_BLOCKER_EMPTY",
                String::from_str("Blocker reason cannot be empty"),
                ctx_empty(),
            ));
        }
        if count > MAX_TASK_BLOCKER_REASON_LENGTH {
            return Err(AppError::business_rule(
                "TASK_BLOCKER_TOO_LONG",
                String::from_str("Blocker reason is too long"),
                ctx_one("limit", ContextValue::Int(MAX_TASK_BLOCKER_REASON_LENGTH as i64)),
            ));
        }
        let mut next_task = self.transition_to(TaskStatus::Blocked, now)?;
        next_task.blocked_reason = Some(string_of(normalized.as_slice()));
        Ok(next_task)
    }

    /// Assigns the task to a new owner and resets all progress.  Completed or
    /// cancelled tasks cannot be reassigned (`TASK_REASSIGN_TERMINAL`).
    pub fn reassign(
        &self,
        assigned_to_user_id: Option<i64>,
        assigned_to_employee_id: Option<i64>,
        now: Timestamp,
    ) -> (r: AppResult<Task>)
        requires
            self.version < i64::MAX,
        ensures
            r is Ok <==> !status_terminal(self.status),
            r matches Ok(t) ==> t@ == reassigned(self@, assigned_to_user_id, assigned_to_employee_id, now),
            r matches Err(e) ==> e.is_error(ErrorKind::Validation, "TASK_REASSIGN_TERMINAL"@),
            r matches Err(e) ==> e.message_view() == "Completed or cancelled task cannot be reassigned"@,
    {
        if self.status.is_terminal() {
            return Err(AppError::business_rule(
                "TASK_REASSIGN_TERMINAL",
                String::from_str("Completed or cancelled task cannot be reassigned"),
                ctx_one("status", ContextValue::Text(self.status.to_text())),
            ));
        }
        let mut next_task = self.duplicate();
        next_task.version = self.version + 1;
        next_task.assigned_to_user_id = assigned_to_user_id;
        next_task.assigned_to_employee_id = assigned_to_employee_id;
        next_task.status = TaskStatus::Created;
        next_task.started_at = None;
        next_task.blocked_at = None;
        next_task.review_requested_at = None;
        next_task.completed_at = None;
        next_task.cancelled_at = None;
        next_task.sent_at = None;
        next_task.blocked_reason = None;
        next_task.updated_at = now;
        Ok(next_task)
    }

    /// Links a registered user account to a task assigned through the
    /// employee directory, keeping the current status.  Already-linked tasks
    /// come back unchanged; tasks without an employee assignment fail with
    /// `TASK_EMPLOYEE_ASSIGNMENT_MISSING`.
    pub fn link_registered_assignee(&self, assigned_to_user_id: i64, now: Timestamp) -> (r: AppResult<Task>)
        requires
            self.assigned_to_employee_id is Some && self.assigned_to_user_id != Some(assigned_to_user_id)
                ==> self.version < i64::MAX,
        ensures
            r is Ok <==> self.assigned_to_employee_id is Some,
            r matches Ok(t) ==> t@ == linked_to_user(self@, assigned_to_user_id, now),
            r matches Err(e) ==> e.is_error(ErrorKind::Validation, "TASK_EMPLOYEE_ASSIGNMENT_MISSING"@),
            r matches Err(e) ==> e.message_view()
                == "Task cannot be linked to a registered assignee without an employee assignment"@,
    {
        if self.assigned_to_employee_id.is_none() {
            return Err(AppError::business_rule(
                "TASK_EMPLOYEE_ASSIGNMENT_MISSING",
                String::from_str(
                    "Task cannot be linked to a registered assignee without an employee assignment",
                ),
                ctx_empty(),
            ));
        }
        if self.assigned_to_user_id == Some(assigned_to_user_id) {
            return Ok(self.duplicate());
        }
        let mut next_task = self.duplicate();
        next_task.version = self.version + 1;
        next_task.assigned_to_user_id = Some(assigned_to_user_id);
        next_task.updated_at = now;
        Ok(next_task)
    }

    pub open spec fn spec_review_required(&self) -> bool {
        match self.assigned_to_user_id {
            Some(user_id) => user_id != self.created_by_user_id,
            None => false,
        }
    }

    /// `true` when creator and assignee are different people, so the work
    /// must be reviewed before it closes.
    pub fn review_required(&self) -> (r: bool)
        ensures
            r == self.spec_review_required(),
    {
        match self.assigned_to_user_id {
            Some(user_id) => user_id != self.created_by_user_id,
            None => false,
        }
    }
}

/// The fields of a new task built from a validated draft.
pub open spec fn new_task_view(
    uid: TaskUid,
    source_message_key: Seq<char>,
    created_by_user_id: i64,
    assigned_to_user_id: Option<i64>,
    assigned_to_employee_id: Option<i64>,
    draft_title: Seq<char>,
    draft_steps: Seq<Seq<char>>,
    draft_criteria: Seq<Seq<char>>,
    draft_expected: Seq<char>,
    deadline: Option<Date>,
    deadline_raw: Option<Seq<char>>,
    original_message: Seq<char>,
    message_type: MessageType,
    ai_model_used: Seq<char>,
    ai_response_raw: Seq<char>,
    telegram_chat_id: i64,
    telegram_message_id: i32,
    now: Timestamp,
) -> TaskView {
    TaskView {
        id: None,
        task_uid: uid,
        version: 0,
        source_message_key,
        created_by_user_id,
        assigned_to_user_id,
        assigned_to_employee_id,
        title: draft_title,
        description: join_with(draft_steps, '\n'),
        acceptance_criteria: draft_criteria,
        expected_result: draft_expected,
        deadline,
        deadline_raw,
        original_message,
        message_type,
        ai_model_used,
        ai_response_raw,
        status: TaskStatus::Created,
        priority: TaskPriority::Medium,
        blocked_reason: None,
        telegram_chat_id,
        telegram_message_id,
        telegram_task_message_id: None,
        tags: seq![],
        created_at: now,
        sent_at: None,
        started_at: None,
        blocked_at: None,
        review_requested_at: None,
        completed_at: None,
        cancelled_at: None,
        updated_at: now,
    }
}

/// The numbered step lines of a card: "1. first", "2. second", …
pub open spec fn numbered(steps: Seq<Seq<char>>) -> Seq<Seq<char>> {
    Seq::new(steps.len(), |i: int| decimal((i + 1) as nat) + ". "@ + steps[i])
}

/// The bullet lines of a card: "- item".
pub open spec fn bulleted(items: Seq<Seq<char>>) -> Seq<Seq<char>> {
    Seq::new(items.len(), |i: int| "- "@ + items[i])
}

/// The lines of the Telegram card of a task.
pub open spec fn card_lines(t: TaskView, mention: Option<Seq<char>>) -> Seq<Seq<char>> {
    let head: Seq<Seq<char>> = match mention {
        Some(m) => seq![m, seq![]],
        None => seq![],
    };
    let criteria: Seq<Seq<char>> = if t.acceptance_criteria.len() > 0 {
        seq![seq![], "Критерии приёма:"@] + bulleted(t.acceptance_criteria)
    } else {
        seq![]
    };
    let deadline_text = match t.deadline {
        Some(d) => crate::time::formatted_date(d.days as int, "%d.%m.%Y"@),
        None => "Срок не указан"@,
    };
    head + seq!["Заголовок: "@ + t.title, seq![], "Описание (пошагово):"@]
        + numbered(lines(t.description))
        + seq![seq![], "Ожидаемый результат: "@ + t.expected_result]
        + criteria
        + seq![seq![], "Срок выполнения: "@ + deadline_text]
}

fn prefixed(prefix: &str, body: &Vec<char>) -> (r: Vec<char>)
    ensures
        r@ == prefix@ + body@,
{
    let mut out: Vec<char> = Vec::new();
    push_str(&mut out, prefix);
    push_chars(&mut out, body);
    out
}

fn line_of(s: &str) -> (r: Vec<char>)
    ensures
        r@ == s@,
{
    chars_of(s)
}

impl Task {
    /// Creates a new task from an AI-produced draft.  The draft's business
    /// rules are checked first, so an invalid draft is rejected with the
    /// error of [`StructuredTaskDraft::validate_business_rules`].
    #[allow(clippy::too_many_arguments)]
    pub fn new(
        source_message_key: String,
        created_by_user_id: i64,
        assigned_to_user_id: Option<i64>,
        assigned_to_employee_id: Option<i64>,
        draft: StructuredTaskDraft,
        deadline: Option<Date>,
        deadline_raw: Option<String>,
        original_message: String,
        message_type: MessageType,
        ai_model_used: String,
        ai_response_raw: String,
        telegram_chat_id: i64,
        telegram_message_id: i32,
        now: Timestamp,
    ) -> (r: AppResult<Task>)
        ensures
            r is Ok <==> draft.rule_violation() is None,
            r matches Ok(t) ==> t@ == new_task_view(
                t.task_uid,
                source_message_key@,
                created_by_user_id,
                assigned_to_user_id,
                assigned_to_employee_id,
                draft.title@,
                views(draft.steps@),
                views(draft.acceptance_criteria@),
                draft.expected_result@,
                deadline,
                opt_view(deadline_raw),
                original_message@,
                message_type,
                ai_model_used@,
                ai_response_raw@,
                telegram_chat_id,
                telegram_message_id,
                now,
            ),
            r matches Err(e) ==> e.kind() == ErrorKind::Validation
                && Some(e.code_view()) == draft.rule_violation()
                && e.message_view() == draft.rule_message(),
    {
        draft.validate_business_rules()?;
        let description = string_of(join_strings(&draft.steps, '\n').as_slice());
        let task = Task {
            id: None,
            task_uid: fresh_task_uid(),
            version: 0,
            source_message_key,
            created_by_user_id,
            assigned_to_user_id,
            assigned_to_employee_id,
            title: draft.title,
            description,
            acceptance_criteria: draft.acceptance_criteria,
            expected_result: draft.expected_result,
            deadline,
            deadline_raw,
            original_message,
            message_type,
            ai_model_used,
            ai_response_raw,
            status: TaskStatus::Created,
            priority: TaskPriority::Medium,
            blocked_reason: None,
            telegram_chat_id,
            telegram_message_id,
            telegram_task_message_id: None,
            tags: Vec::new(),
            created_at: now,
            sent_at: None,
            started_at: None,
            blocked_at: None,
            review_requested_at: None,
            completed_at: None,
            cancelled_at: None,
            updated_at: now,
        };
        assert(views(task.tags@) =~= seq![]);
        Ok(task)
    }

    /// Renders the task as a Telegram-ready card, with an optional mention
    /// of the assignee on top.
    pub fn render_for_telegram(&self, assignee_mention: Option<&str>) -> (r: String)
        requires
            self.deadline matches Some(d) ==> d.wf(),
        ensures
            r@ == join_with(card_lines(self@, match assignee_mention {
                Some(m) => Some(m@),
                None => None,
            }), '\n'),
    {
        let ghost mention = match assignee_mention {
            Some(m) => Some(m@),
            None => None,
        };
        let mut out: Vec<Vec<char>> = Vec::new();
        if let Some(mention_text) = assignee_mention {
            out.push(line_of(mention_text));
            out.push(Vec::new());
        }
        let ghost head = out@.map_values(|l: Vec<char>| l@);
        assert(head =~= match mention {
            Some(m) => seq![m, seq![]],
            None => seq![],
        });
        let title_line = prefixed("Заголовок: ", &chars_of(self.title.as_str()));
        out.push(title_line);
        out.push(Vec::new());
        out.push(line_of("Описание (пошагово):"));
        let ghost mid = out@.map_values(|l: Vec<char>| l@);
        assert(mid =~= head + seq!["Заголовок: "@ + self@.title, seq![], "Описание (пошагово):"@]);
        let steps = lines_of(self.description.as_str());
        let ghost step_views = steps@.map_values(|l: Vec<char>| l@);
        let mut i: usize = 0;
        while i < steps.len()
            invariant
                i <= steps@.len(),
                step_views == steps@.map_values(|l: Vec<char>| l@),
                out@.map_values(|l: Vec<char>| l@) == mid + numbered(step_views).take(i as int),
            decreases steps.len() - i,
        {
            let mut line: Vec<char> = Vec::new();
            push_decimal(&mut line, (i + 1) as u64);
            push_str(&mut line, ". ");
            push_chars(&mut line, &steps[i]);
            assert(line@ == numbered(step_views)[i as int]);
            let ghost before = out@.map_values(|l: Vec<char>| l@);
            out.push(line);
            assert(out@.map_values(|l: Vec<char>| l@) =~= before.push(numbered(step_views)[i as int]));
            assert(numbered(step_views).take(i + 1) =~= numbered(step_views).take(i as int).push(numbered(step_views)[i as int]));
            i = i + 1;
        }
        assert(numbered(step_views).take(steps.len() as int) =~= numbered(step_views));
        out.push(Vec::new());
        out.push(prefixed("Ожидаемый результат: ", &chars_of(self.expected_result.as_str())));
        let ghost before_criteria = out@.map_values(|l: Vec<char>| l@);
        assert(before_criteria =~= mid + numbered(lines(self@.description)) + seq![seq![], "Ожидаемый результат: "@ + self@.expected_result]);
        let ghost crit = views(self.acceptance_criteria@);
        if self.acceptance_criteria.len() > 0 {
            out.push(Vec::new());
            out.push(line_of("Критерии приёма:"));
            let ghost start = out@.map_values(|l: Vec<char>| l@);
            let mut j: usize = 0;
            while j < self.acceptance_criteria.len()
                invariant
                    j <= self.acceptance_criteria@.len(),
                    crit == views(self.acceptance_criteria@),
                    out@.map_values(|l: Vec<char>| l@) == start + bulleted(crit).take(j as int),
                decreases self.acceptance_criteria.len() - j,
            {
                let line = prefixed("- ", &chars_of(self.acceptance_criteria[j].as_str()));
                assert(line@ == bulleted(crit)[j as int]);
                let ghost before = out@.map_values(|l: Vec<char>| l@);
                out.push(line);
                assert(out@.map_values(|l: Vec<char>| l@) =~= before.push(bulleted(crit)[j as int]));
                assert(bulleted(crit).take(j + 1) =~= bulleted(crit).take(j as int).push(bulleted(crit)[j as int]));
                j = j + 1;
            }
            assert(bulleted(crit).take(self.acceptance_criteria@.len() as int) =~= bulleted(crit));
            assert(out@.map_values(|l: Vec<char>| l@) =~= before_criteria + (seq![seq![], "Критерии приёма:"@] + bulleted(crit)));
        } else {
            assert(out@.map_values(|l: Vec<char>| l@) =~= before_criteria + seq![]);
        }
        let ghost after_criteria = out@.map_values(|l: Vec<char>| l@);
        out.push(Vec::new());
        let deadline_text = match self.deadline {
            Some(date) => chars_of(date.format("%d.%m.%Y").as_str()),
            None => chars_of("Срок не указан"),
        };
        out.push(prefixed("Срок выполнения: ", &deadline_text));
        proof {
            let expected = card_lines(self@, mention);
            let criteria: Seq<Seq<char>> = if crit.len() > 0 {
                seq![seq![], "Критерии приёма:"@] + bulleted(crit)
            } else {
                seq![]
            };
            assert(after_criteria == before_criteria + criteria);
            assert(out@.map_values(|l: Vec<char>| l@) =~= after_criteria + seq![seq![], "Срок выполнения: "@ + deadline_text@]);
            assert(out@.map_values(|l: Vec<char>| l@) =~= expected);
        }
        string_of(join_chars(&out, '\n').as_slice())
    }
}

/// The views of a sequence of tasks, in order.
pub open spec fn task_views(v: Seq<Task>) -> Seq<TaskView> {
    v.map_values(|t: Task| t@)
}

/// A task linked to the registered user `user_id`: unchanged when already
/// linked to them, otherwise that user with the version bumped.
pub open spec fn linked_to_user(t: TaskView, user_id: i64, now: Timestamp) -> TaskView {
    if t.assigned_to_user_id == Some(user_id) {
        t
    } else {
        TaskView { version: (t.version + 1) as i64, assigned_to_user_id: Some(user_id), updated_at: now, ..t }
    }
}

/// Linking the same user twice is linking once: the second link leaves the
/// task as the first one left it.  It holds for every task, at any version:
/// after the first link the task is linked to that user, so the second call
/// of `Task::link_registered_assignee` needs no version headroom at all
/// (its `requires` asks for one only when the version is bumped), and it
/// succeeds exactly when the first one did.
pub proof fn linking_twice_is_linking_once(t: TaskView, user_id: i64, first: Timestamp, second: Timestamp)
    ensures
        linked_to_user(linked_to_user(t, user_id, first), user_id, second) == linked_to_user(t, user_id, first),
        linked_to_user(t, user_id, first).assigned_to_user_id == Some(user_id),
        t.assigned_to_user_id != Some(user_id) && t.version < i64::MAX
            ==> linked_to_user(t, user_id, first).version == t.version + 1,
        linked_to_user(t, user_id, first).assigned_to_employee_id == t.assigned_to_employee_id,
        linked_to_user(t, user_id, first).status == t.status,
{
}

} // verus!
