use vstd::prelude::*;

verus! {

/// The lifecycle status of a task.  Valid transitions are encoded in
/// [`TaskStatus::can_transition_to`]; `Completed` and `Cancelled` are
/// terminal.
#[derive(Debug, Clone, Copy, PartialEq, Eq, Structural)]
pub enum TaskStatus {
    Created,
    Sent,
    InProgress,
    Blocked,
    InReview,
    Completed,
    Cancelled,
}

#[derive(Debug, Clone, Copy, PartialEq, Eq, Structural)]
pub enum TaskPriority {
    Low,
    Medium,
    High,
    Urgent,
}

#[derive(Debug, Clone, Copy, PartialEq, Eq, Structural)]
pub enum MessageType {
    Text,
    Voice,
}

/// The permitted edges of the task state machine.
pub open spec fn transition_allowed(from: TaskStatus, to: TaskStatus) -> bool {
    match (from, to) {
        (TaskStatus::Created, TaskStatus::Sent) => true,
        (TaskStatus::Created, TaskStatus::InProgress) => true,
        (TaskStatus::Created, TaskStatus::Blocked) => true,
        (TaskStatus::Created, TaskStatus::Cancelled) => true,
        (TaskStatus::Sent, TaskStatus::InProgress) => true,
        (TaskStatus::Sent, TaskStatus::Blocked) => true,
        (TaskStatus::Sent, TaskStatus::InReview) => true,
        (TaskStatus::Sent, TaskStatus::Cancelled) => true,
        (TaskStatus::InProgress, TaskStatus::Blocked) => true,
        (TaskStatus::InProgress, TaskStatus::InReview) => true,
        (TaskStatus::InProgress, TaskStatus::Cancelled) => true,
        (TaskStatus::Blocked, TaskStatus::InProgress) => true,
        (TaskStatus::Blocked, TaskStatus::InReview) => true,
        (TaskStatus::Blocked, TaskStatus::Cancelled) => true,
        (TaskStatus::InReview, TaskStatus::InProgress) => true,
        (TaskStatus::InReview, TaskStatus::Completed) => true,
        (TaskStatus::InReview, TaskStatus::Cancelled) => true,
        _ => false,
    }
}

pub open spec fn status_terminal(s: TaskStatus) -> bool {
    s == TaskStatus::Completed || s == TaskStatus::Cancelled
}

/// Storage / display code of a status (`snake_case`).
pub open spec fn status_code(s: TaskStatus) -> Seq<char> {
    match s {
        TaskStatus::Created => "created"@,
        TaskStatus::Sent => "sent"@,
        TaskStatus::InProgress => "in_progress"@,
        TaskStatus::Blocked => "blocked"@,
        TaskStatus::InReview => "in_review"@,
        TaskStatus::Completed => "completed"@,
        TaskStatus::Cancelled => "cancelled"@,
    }
}

impl TaskStatus {
    /// Returns `true` if moving from `self` to `next` is a permitted
    /// state-machine edge.
    pub fn can_transition_to(self, next: Self) -> (r: bool)
        ensures
            r == transition_allowed(self, next),
    {
        match (self, next) {
            (TaskStatus::Created, TaskStatus::Sent)
            | (TaskStatus::Created, TaskStatus::InProgress)
            | (TaskStatus::Created, TaskStatus::Blocked)
            | (TaskStatus::Created, TaskStatus::Cancelled)
            | (TaskStatus::Sent, TaskStatus::InProgress)
            | (TaskStatus::Sent, TaskStatus::Blocked)
            | (TaskStatus::Sent, TaskStatus::InReview)
            | (TaskStatus::Sent, TaskStatus::Cancelled)
            | (TaskStatus::InProgress, TaskStatus::Blocked)
            | (TaskStatus::InProgress, TaskStatus::InReview)
            | (TaskStatus::InProgress, TaskStatus::Cancelled)
            | (TaskStatus::Blocked, TaskStatus::InProgress)
            | (TaskStatus::Blocked, TaskStatus::InReview)
            | (TaskStatus::Blocked, TaskStatus::Cancelled)
            | (TaskStatus::InReview, TaskStatus::InProgress)
            | (TaskStatus::InReview, TaskStatus::Completed)
            | (TaskStatus::InReview, TaskStatus::Cancelled) => true,
            _ => false,
        }
    }

    /// Returns `true` for statuses no further work can reverse.
    pub fn is_terminal(self) -> (r: bool)
        ensures
            r == status_terminal(self),
    {
        match self {
            TaskStatus::Completed | TaskStatus::Cancelled => true,
            _ => false,
        }
    }

    /// The `snake_case` code the status is displayed and stored as.
    pub fn as_code(self) -> (r: &'static str)
        ensures
            r@ == status_code(self),
    {
        match self {
            TaskStatus::Created => "created",
            TaskStatus::Sent => "sent",
            TaskStatus::InProgress => "in_progress",
            TaskStatus::Blocked => "blocked",
            TaskStatus::InReview => "in_review",
            TaskStatus::Completed => "completed",
            TaskStatus::Cancelled => "cancelled",
        }
    }

    /// The display text of the status (same as its code).
    pub fn to_text(self) -> (r: String)
        ensures
            r@ == status_code(self),
    {
        String::from_str(self.as_code())
    }
}

/// Terminal statuses have no outgoing edge: once a task is completed or
/// cancelled, no transition leaves that status.
pub proof fn terminal_status_has_no_successor(from: TaskStatus, to: TaskStatus)
    requires
        status_terminal(from),
    ensures
        !transition_allowed(from, to),
{
}

/// No edge leads back to `Created`, and no status transitions to itself.
pub proof fn transitions_never_return_to_created(from: TaskStatus, to: TaskStatus)
    requires
        transition_allowed(from, to),
    ensures
        to != TaskStatus::Created,
        to != from,
{
}

/// `Completed` is reachable only from `InReview`: every completion is
/// preceded by a review.
pub proof fn completion_only_from_review(from: TaskStatus)
    requires
        transition_allowed(from, TaskStatus::Completed),
    ensures
        from == TaskStatus::InReview,
{
}

/// Every non-terminal status can still be cancelled.
pub proof fn open_status_can_be_cancelled(from: TaskStatus)
    requires
        !status_terminal(from),
    ensures
        transition_allowed(from, TaskStatus::Cancelled),
{
}

/// Status codes are pairwise distinct, so a stored code names one status.
pub proof fn status_codes_are_distinct(a: TaskStatus, b: TaskStatus)
    requires
        a != b,
    ensures
        status_code(a) != status_code(b),
{
    reveal_strlit("created");
    reveal_strlit("sent");
    reveal_strlit("in_progress");
    reveal_strlit("blocked");
    reveal_strlit("in_review");
    reveal_strlit("completed");
    reveal_strlit("cancelled");
    if status_code(a) == status_code(b) {
        assert(status_code(a).len() == status_code(b).len());
        assert(status_code(a)[0] == status_code(b)[0]);
        assert(status_code(a)[1] == status_code(b)[1]);
    }
}

/// Work can resume from every open status: created, sent, blocked and
/// returned-from-review tasks can all move (back) to in-progress.
pub proof fn open_work_can_resume(s: TaskStatus)
    requires
        !status_terminal(s),
        s != TaskStatus::InProgress,
    ensures
        transition_allowed(s, TaskStatus::InProgress),
{
}

/// Open work can be blocked and handed in for review: a created task can be
/// sent or blocked, and every sent, started or blocked task can go to review.
pub proof fn open_work_can_be_blocked_or_reviewed()
    ensures
        transition_allowed(TaskStatus::Created, TaskStatus::Sent),
        forall|s: TaskStatus| s == TaskStatus::Created || s == TaskStatus::Sent || s == TaskStatus::InProgress
            ==> #[trigger] transition_allowed(s, TaskStatus::Blocked),
        forall|s: TaskStatus| s == TaskStatus::Sent || s == TaskStatus::InProgress || s == TaskStatus::Blocked
            ==> #[trigger] transition_allowed(s, TaskStatus::InReview),
{
}

} // verus!
