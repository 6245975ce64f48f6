//! View models handed to the presentation layer.
use vstd::prelude::*;

use crate::domain::comment::{CommentKind, TaskComment};
use crate::domain::employee::EmployeeMatch;
use crate::domain::notification::NotificationDeliveryState;
use crate::domain::task::{Task, TaskStats, TaskStatus};
use crate::domain::task::entity::TaskUid;
use crate::text::{clone_opt_string, opt_view};
use crate::time::{format_instant, Date, TIMESTAMP_LIMIT};

verus! {

#[derive(Debug)]
pub enum TaskCreationOutcome {
    Created(TaskCreationSummary),
    /// A task for this message existed already; no second task, audit
    /// entry or notice follows.
    DuplicateFound(TaskCreationSummary),
    ClarificationRequired(ClarificationRequest),
}

#[derive(Debug)]
pub struct TaskCreationSummary {
    pub task_uid: TaskUid,
    pub message: String,
    pub delivery_status: DeliveryStatus,
    pub task: TaskListItem,
}

#[derive(Debug)]
pub struct ClarificationRequest {
    pub message: String,
    pub requested_query: Option<String>,
    pub allow_unassigned: bool,
    pub candidates: Vec<EmployeeCandidateView>,
}

#[derive(Debug)]
pub struct EmployeeCandidateView {
    pub full_name: String,
    pub telegram_username: Option<String>,
    pub confidence: u8,
}

#[derive(Debug, Clone, Copy, PartialEq, Eq, Structural)]
pub enum DeliveryStatus {
    DeliveredToAssignee,
    PendingDelivery,
    PendingAssigneeRegistration,
    RetryPending,
    Failed,
    CreatorOnly,
}

#[derive(Debug)]
pub struct TaskListPage {
    pub sections: Vec<TaskListSection>,
    pub next_cursor: Option<String>,
}

#[derive(Debug)]
pub struct TaskListSection {
    pub title: String,
    pub tasks: Vec<TaskListItem>,
}

#[derive(Debug)]
pub struct TaskListItem {
    pub task_uid: TaskUid,
    pub title: String,
    pub status: TaskStatus,
    pub deadline: Option<Date>,
    pub assigned_to_display: Option<String>,
    pub delivery_status: Option<DeliveryStatus>,
    pub highlight: Option<String>,
}

#[derive(Debug)]
pub struct TaskStatusSummary {
    pub task_uid: TaskUid,
    pub status: TaskStatus,
    pub message: String,
}

#[derive(Debug)]
pub struct TaskCommentView {
    pub kind: CommentKind,
    pub body: String,
    pub created_at: String,
}

#[derive(Debug)]
pub struct TaskStatusDetails {
    pub task_uid: TaskUid,
    pub title: String,
    pub status: String,
    pub deadline: Option<String>,
    pub expected_result: String,
    pub description_lines: Vec<String>,
    pub acceptance_criteria: Vec<String>,
    pub history_entries: Vec<String>,
    pub assignee_display: Option<String>,
    pub delivery_status: Option<DeliveryStatus>,
    pub blocked_reason: Option<String>,
    pub comments: Vec<TaskCommentView>,
    pub available_actions: Vec<TaskActionView>,
}

#[derive(Debug, Clone, Copy, PartialEq, Eq, Structural)]
pub struct StatsView {
    pub created_count: i64,
    pub completed_count: i64,
    pub active_count: i64,
    pub overdue_count: i64,
    pub average_completion_hours: Option<i64>,
}

#[derive(Debug, Clone, Copy, PartialEq, Eq, Structural)]
pub enum TaskActionView {
    StartProgress,
    SubmitForReview,
    ApproveReview,
    ReturnToWork,
    Cancel,
    ReportBlocker,
    AddComment,
    Reassign,
}

impl TaskCreationSummary {
    pub fn from_task(task: &Task, message: String, delivery_status: DeliveryStatus) -> (r: Self)
        ensures
            r.task_uid == task.task_uid,
            r.message@ == message@,
            r.delivery_status == delivery_status,
            r.task.task_uid == task.task_uid,
            r.task.title@ == task.title@,
            r.task.status == task.status,
            r.task.deadline == task.deadline,
            r.task.assigned_to_display is None,
            r.task.delivery_status == Some(delivery_status),
            r.task.highlight is None,
    {
        TaskCreationSummary {
            task_uid: task.task_uid,
            message,
            delivery_status,
            task: TaskListItem::from_task(task, None, Some(delivery_status), None),
        }
    }
}

impl EmployeeCandidateView {
    pub fn from_match(value: &EmployeeMatch) -> (r: Self)
        ensures
            r.full_name@ == value.employee.full_name@,
            opt_view(r.telegram_username) == opt_view(value.employee.telegram_username),
            r.confidence == value.confidence,
    {
        EmployeeCandidateView {
            full_name: value.employee.full_name.clone(),
            telegram_username: clone_opt_string(&value.employee.telegram_username),
            confidence: value.confidence,
        }
    }
}

impl TaskListItem {
    pub fn from_task(
        task: &Task,
        assigned_to_display: Option<String>,
        delivery_status: Option<DeliveryStatus>,
        highlight: Option<String>,
    ) -> (r: Self)
        ensures
            r.task_uid == task.task_uid,
            r.title@ == task.title@,
            r.status == task.status,
            r.deadline == task.deadline,
            r.assigned_to_display == assigned_to_display,
            r.delivery_status == delivery_status,
            r.highlight == highlight,
    {
        TaskListItem {
            task_uid: task.task_uid,
            title: task.title.clone(),
            status: task.status,
            deadline: task.deadline,
            assigned_to_display,
            delivery_status,
            highlight,
        }
    }
}

impl TaskCommentView {
    /// The comment with its timestamp rendered as `dd.mm.YYYY HH:MM` (UTC).
    pub fn from_comment(comment: &TaskComment) -> (r: Self)
        requires
            -TIMESTAMP_LIMIT <= comment.created_at <= TIMESTAMP_LIMIT,
        ensures
            r.kind == comment.kind,
            r.body@ == comment.body@,
            r.created_at@ == crate::time::formatted_instant(comment.created_at as int, "%d.%m.%Y %H:%M"@),
    {
        TaskCommentView {
            kind: comment.kind,
            body: comment.body.clone(),
            created_at: format_instant(comment.created_at, "%d.%m.%Y %H:%M"),
        }
    }
}

/// Delivery status of a task's assignment notification, as shown to the
/// creator.
pub open spec fn delivery_status_of(
    state: Option<NotificationDeliveryState>,
    has_assignee: bool,
    direct_delivery_possible: bool,
) -> DeliveryStatus {
    if !has_assignee {
        DeliveryStatus::CreatorOnly
    } else if !direct_delivery_possible {
        DeliveryStatus::PendingAssigneeRegistration
    } else {
        match state {
            Some(NotificationDeliveryState::Sent) => DeliveryStatus::DeliveredToAssignee,
            Some(NotificationDeliveryState::RetryPending) => DeliveryStatus::RetryPending,
            Some(NotificationDeliveryState::Failed) => DeliveryStatus::Failed,
            _ => DeliveryStatus::PendingDelivery,
        }
    }
}

impl DeliveryStatus {
    pub fn from_assignment_notification(
        state: Option<NotificationDeliveryState>,
        has_assignee: bool,
        direct_delivery_possible: bool,
    ) -> (r: Self)
        ensures
            r == delivery_status_of(state, has_assignee, direct_delivery_possible),
    {
        if !has_assignee {
            return DeliveryStatus::CreatorOnly;
        }
        if !direct_delivery_possible {
            return DeliveryStatus::PendingAssigneeRegistration;
        }
        match state {
            Some(NotificationDeliveryState::Sent) => DeliveryStatus::DeliveredToAssignee,
            Some(NotificationDeliveryState::RetryPending) => DeliveryStatus::RetryPending,
            Some(NotificationDeliveryState::Failed) => DeliveryStatus::Failed,
            Some(NotificationDeliveryState::Pending) | None => DeliveryStatus::PendingDelivery,
        }
    }
}

impl StatsView {
    /// The view of a stats snapshot (the `From<TaskStats>` conversion).
    pub fn from_stats(value: TaskStats) -> (r: Self)
        ensures
            r.created_count == value.created_count,
            r.completed_count == value.completed_count,
            r.active_count == value.active_count,
            r.overdue_count == value.overdue_count,
            r.average_completion_hours == value.average_completion_hours,
    {
        StatsView {
            created_count: value.created_count,
            completed_count: value.completed_count,
            active_count: value.active_count,
            overdue_count: value.overdue_count,
            average_completion_hours: value.average_completion_hours,
        }
    }
}

} // verus!
