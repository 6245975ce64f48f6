//! Role-based authorization rules for tasks and the admin panel.
use vstd::prelude::*;

use crate::application::dto::TaskActionView;
use crate::domain::errors::{ctx_one, ctx_two, AppError, AppResult, ContextEntry, ContextValue, ErrorKind};
use crate::domain::task::types::status_terminal;
use crate::domain::task::{Task, TaskStatus};
use crate::domain::task::entity::task_uid_text;
use crate::domain::user::{User, UserRole};

verus! {

/// A non-admin tried an admin-only action.
pub const FORBIDDEN_ADMIN_ONLY: &'static str = "FORBIDDEN_ADMIN_ONLY";
/// A deactivated account tried to act.
pub const FORBIDDEN_ACCOUNT_DEACTIVATED: &'static str = "FORBIDDEN_ACCOUNT_DEACTIVATED";
/// An admin tried to change their own role or deactivate themselves.
pub const FORBIDDEN_SELF_TARGET: &'static str = "FORBIDDEN_SELF_TARGET";

pub struct RoleAuthorizationPolicy;

/// `actor` may act on `task` as manager/admin, creator or assignee.
pub open spec fn is_participant_or_manager(actor: &User, task: &Task) -> bool {
    actor.role.spec_is_manager_or_admin() || actor.id == Some(task.created_by_user_id)
        || (actor.id is Some && task.assigned_to_user_id == actor.id)
}

pub open spec fn creator_may(task_status: TaskStatus, next: TaskStatus) -> bool {
    match next {
        TaskStatus::Completed | TaskStatus::Cancelled => true,
        TaskStatus::InProgress => task_status == TaskStatus::InReview,
        _ => false,
    }
}

pub open spec fn assignee_may(next: TaskStatus) -> bool {
    next == TaskStatus::InProgress || next == TaskStatus::InReview || next == TaskStatus::Blocked
        || next == TaskStatus::Cancelled
}

pub open spec fn manager_may(next: TaskStatus) -> bool {
    next == TaskStatus::InProgress || next == TaskStatus::Completed || next == TaskStatus::Cancelled
}

/// Who may move `task` to `next`: any admin; the creator for completion,
/// cancellation and returning reviewed work; the assignee for progress,
/// review, blockers and cancellation; managers for progress, completion and
/// cancellation.
pub open spec fn may_change_status(actor: &User, task: &Task, next: TaskStatus) -> bool {
    match actor.id {
        None => false,
        Some(id) => actor.role.spec_is_admin()
            || (id == task.created_by_user_id && creator_may(task.status, next))
            || (task.assigned_to_user_id == Some(id) && assignee_may(next))
            || (actor.role.spec_is_manager_or_admin() && manager_may(next)),
    }
}

/// Status actually applied for a requested one: an assignee (not creator,
/// not manager) completing review-required work sends it to review; other
/// completions of review-required work need the task to be in review.
pub open spec fn normalized_status(actor: &User, task: &Task, requested: TaskStatus) -> Option<TaskStatus> {
    if requested == TaskStatus::Completed && task.spec_review_required()
        && actor.id != Some(task.created_by_user_id) && !actor.role.spec_is_manager_or_admin() {
        Some(TaskStatus::InReview)
    } else if requested == TaskStatus::Completed && task.spec_review_required()
        && task.status != TaskStatus::InReview {
        None
    } else {
        Some(requested)
    }
}

/// The actions offered on a task card, in display order.
pub open spec fn actions_for(actor: &User, task: &Task) -> Seq<TaskActionView> {
    let is_assignee = actor.id is Some && task.assigned_to_user_id == actor.id;
    let is_creator = actor.id == Some(task.created_by_user_id);
    let is_admin = actor.role.spec_is_admin();
    let can_manage = is_creator || actor.role.spec_is_manager_or_admin();
    let s = task.status;
    let start: Seq<TaskActionView> = if (s == TaskStatus::Created || s == TaskStatus::Sent || s == TaskStatus::Blocked)
        && (is_assignee || is_admin) { seq![TaskActionView::StartProgress] } else { seq![] };
    let submit: Seq<TaskActionView> = if (s == TaskStatus::Sent || s == TaskStatus::InProgress || s == TaskStatus::Blocked)
        && (is_assignee || is_admin) { seq![TaskActionView::SubmitForReview] } else { seq![] };
    let review: Seq<TaskActionView> = if s == TaskStatus::InReview && can_manage {
        seq![TaskActionView::ApproveReview, TaskActionView::ReturnToWork]
    } else { seq![] };
    let blocker: Seq<TaskActionView> = if (s == TaskStatus::Created || s == TaskStatus::Sent
        || s == TaskStatus::InProgress || s == TaskStatus::Blocked) && (is_assignee || is_admin) {
        seq![TaskActionView::ReportBlocker]
    } else { seq![] };
    let reassign: Seq<TaskActionView> = if !status_terminal(s) && can_manage {
        seq![TaskActionView::Reassign]
    } else { seq![] };
    let cancel: Seq<TaskActionView> = if !status_terminal(s) && (is_assignee || can_manage) {
        seq![TaskActionView::Cancel]
    } else { seq![] };
    start + submit + review + blocker + reassign + cancel + seq![TaskActionView::AddComment]
}

fn self_target_context(actor: &User, target: &User, operation: &str) -> (r: Vec<ContextEntry>)
    ensures
        r@.len() == 3,
        r@[0].key@ == "operation"@,
        r@[1].key@ == "telegram_id"@,
        r@[1].value == ContextValue::Int(actor.telegram_id),
        r@[2].key@ == "target_role"@,
{
    let mut context = ctx_two(
        "operation",
        ContextValue::Text(String::from_str(operation)),
        "telegram_id",
        ContextValue::Int(actor.telegram_id),
    );
    context.push(ContextEntry {
        key: String::from_str("target_role"),
        value: ContextValue::Text(String::from_str(target.role.as_str())),
    });
    context
}

fn actor_label(actor: &User) -> (r: ContextValue)
    ensures
        r == ContextValue::Int(actor.telegram_id),
{
    ContextValue::Int(actor.telegram_id)
}

/// The message telling an unregistered user they cannot `action`.
pub open spec fn unregistered_message(action: Seq<char>) -> Seq<char> {
    "User must be registered before they can "@ + action
}

fn required_actor_id(actor: &User, action: &str) -> (r: AppResult<i64>)
    ensures
        r matches Ok(id) ==> actor.id == Some(id),
        r is Err <==> actor.id is None,
        r matches Err(e) ==> e.is_error(ErrorKind::Auth, "UNAUTHENTICATED"@),
        r matches Err(e) ==> e.message_view() == unregistered_message(action@),
{
    match actor.id {
        Some(id) => Ok(id),
        None => {
            let mut message = String::from_str("User must be registered before they can ");
            message.append(action);
            Err(AppError::unauthenticated(message, ctx_one("telegram_id", actor_label(actor))))
        },
    }
}

fn creator_can_change_status(task: &Task, next_status: TaskStatus) -> (r: bool)
    ensures
        r == creator_may(task.status, next_status),
{
    match next_status {
        TaskStatus::Completed | TaskStatus::Cancelled => true,
        TaskStatus::InProgress => task.status == TaskStatus::InReview,
        TaskStatus::Created | TaskStatus::Sent | TaskStatus::Blocked | TaskStatus::InReview => false,
    }
}

/// Statuses an assignee may set.
pub fn assignee_can_change_status(next_status: TaskStatus) -> (r: bool)
    ensures
        r == assignee_may(next_status),
{
    match next_status {
        TaskStatus::InProgress | TaskStatus::InReview | TaskStatus::Blocked | TaskStatus::Cancelled => true,
        _ => false,
    }
}

/// Statuses a manager may set.
pub fn manager_can_change_status(next_status: TaskStatus) -> (r: bool)
    ensures
        r == manager_may(next_status),
{
    match next_status {
        TaskStatus::InProgress | TaskStatus::Completed | TaskStatus::Cancelled => true,
        _ => false,
    }
}

impl RoleAuthorizationPolicy {
    /// Only managers and admins see team dashboards.
    pub fn ensure_can_view_team_tasks(actor: &User) -> (r: AppResult<()>)
        ensures
            r is Ok <==> actor.role.spec_is_manager_or_admin(),
            r matches Err(e) ==> e.is_error(ErrorKind::Auth, "UNAUTHORIZED"@),
            r matches Err(e) ==> e.message_view() == "Only managers and admins can view team task dashboards"@,
    {
        if actor.role.is_manager_or_admin() {
            return Ok(());
        }
        Err(AppError::unauthorized(
            String::from_str("Only managers and admins can view team task dashboards"),
            ctx_one("telegram_id", actor_label(actor)),
        ))
    }

    /// Only managers and admins see team stats.
    pub fn ensure_can_view_team_stats(actor: &User) -> (r: AppResult<()>)
        ensures
            r is Ok <==> actor.role.spec_is_manager_or_admin(),
            r matches Err(e) ==> e.is_error(ErrorKind::Auth, "UNAUTHORIZED"@),
            r matches Err(e) ==> e.message_view() == "Only managers and admins can view team stats"@,
    {
        if actor.role.is_manager_or_admin() {
            return Ok(());
        }
        Err(AppError::unauthorized(
            String::from_str("Only managers and admins can view team stats"),
            ctx_one("telegram_id", actor_label(actor)),
        ))
    }

    /// Only admins trigger the employee sync.
    pub fn ensure_can_sync_employees(actor: &User) -> (r: AppResult<()>)
        ensures
            r is Ok <==> actor.role.spec_is_admin(),
            r matches Err(e) ==> e.is_error(ErrorKind::Auth, "UNAUTHORIZED"@),
            r matches Err(e) ==> e.message_view() == "Only admins can trigger employee sync"@,
    {
        if actor.role.is_admin() {
            return Ok(());
        }
        Err(AppError::unauthorized(
            String::from_str("Only admins can trigger employee sync"),
            ctx_one("telegram_id", actor_label(actor)),
        ))
    }

    /// Gate at the top of every admin-panel action: the account must be
    /// active (else `FORBIDDEN_ACCOUNT_DEACTIVATED`) and an admin (else
    /// `FORBIDDEN_ADMIN_ONLY`).
    pub fn ensure_can_access_admin_panel(actor: &User) -> (r: AppResult<()>)
        ensures
            r is Ok <==> actor.deactivated_at is None && actor.role.spec_is_admin(),
            r matches Err(e) ==> e.kind() == ErrorKind::Auth && e.code_view() == (
                if actor.deactivated_at is Some { FORBIDDEN_ACCOUNT_DEACTIVATED@ } else { FORBIDDEN_ADMIN_ONLY@ }),
            r matches Err(e) ==> e.message_view() == (if actor.deactivated_at is Some { "This account is deactivated"@ } else { "Only admins can open the admin panel"@ }),
    {
        Self::ensure_active(actor)?;
        if actor.role.is_admin() {
            return Ok(());
        }
        Err(AppError::forbidden(
            FORBIDDEN_ADMIN_ONLY,
            String::from_str("Only admins can open the admin panel"),
            ctx_two(
                "telegram_id",
                actor_label(actor),
                "role",
                ContextValue::Text(String::from_str(actor.role.as_str())),
            ),
        ))
    }

    pub open spec fn same_person(actor: &User, target: &User) -> bool {
        (actor.id is Some && actor.id == target.id) || actor.telegram_id == target.telegram_id
    }

    pub open spec fn admin_gate_code(actor: &User, target: &User) -> Option<Seq<char>> {
        if actor.deactivated_at is Some {
            Some(FORBIDDEN_ACCOUNT_DEACTIVATED@)
        } else if !actor.role.spec_is_admin() {
            Some(FORBIDDEN_ADMIN_ONLY@)
        } else if Self::same_person(actor, target) {
            Some(FORBIDDEN_SELF_TARGET@)
        } else {
            None
        }
    }

    pub open spec fn admin_gate_message(actor: &User, target: &User) -> Seq<char> {
        if actor.deactivated_at is Some {
            "This account is deactivated"@
        } else if !actor.role.spec_is_admin() {
            "Only admins can open the admin panel"@
        } else {
            "An admin cannot apply this action to themselves"@
        }
    }

    /// Changing another user's role: admin panel access, and never oneself.
    pub fn ensure_can_manage_roles(actor: &User, target: &User) -> (r: AppResult<()>)
        ensures
            r is Ok <==> Self::admin_gate_code(actor, target) is None,
            r matches Err(e) ==> e.kind() == ErrorKind::Auth
                && Some(e.code_view()) == Self::admin_gate_code(actor, target),
            r matches Err(e) ==> e.message_view() == Self::admin_gate_message(actor, target),
    {
        Self::ensure_can_access_admin_panel(actor)?;
        Self::ensure_not_self(actor, target, "manage_roles")
    }

    /// Toggling feature flags: admin panel access.
    pub fn ensure_can_toggle_features(actor: &User) -> (r: AppResult<()>)
        ensures
            r is Ok <==> actor.deactivated_at is None && actor.role.spec_is_admin(),
            r matches Err(e) ==> e.kind() == ErrorKind::Auth && e.code_view() == (
                if actor.deactivated_at is Some { FORBIDDEN_ACCOUNT_DEACTIVATED@ } else { FORBIDDEN_ADMIN_ONLY@ }),
            r matches Err(e) ==> e.message_view() == (if actor.deactivated_at is Some { "This account is deactivated"@ } else { "Only admins can open the admin panel"@ }),
    {
        Self::ensure_can_access_admin_panel(actor)
    }

    /// Deactivating another user: admin panel access, and never oneself.
    pub fn ensure_can_deactivate_user(actor: &User, target: &User) -> (r: AppResult<()>)
        ensures
            r is Ok <==> Self::admin_gate_code(actor, target) is None,
            r matches Err(e) ==> e.kind() == ErrorKind::Auth
                && Some(e.code_view()) == Self::admin_gate_code(actor, target),
            r matches Err(e) ==> e.message_view() == Self::admin_gate_message(actor, target),
    {
        Self::ensure_can_access_admin_panel(actor)?;
        Self::ensure_not_self(actor, target, "deactivate_user")
    }

    /// Reading admin-panel screens: admin panel access.
    pub fn ensure_can_view_admin_panel(actor: &User) -> (r: AppResult<()>)
        ensures
            r is Ok <==> actor.deactivated_at is None && actor.role.spec_is_admin(),
            r matches Err(e) ==> e.kind() == ErrorKind::Auth && e.code_view() == (
                if actor.deactivated_at is Some { FORBIDDEN_ACCOUNT_DEACTIVATED@ } else { FORBIDDEN_ADMIN_ONLY@ }),
            r matches Err(e) ==> e.message_view() == (if actor.deactivated_at is Some { "This account is deactivated"@ } else { "Only admins can open the admin panel"@ }),
    {
        Self::ensure_can_access_admin_panel(actor)
    }

    /// Deactivated accounts may do nothing (`FORBIDDEN_ACCOUNT_DEACTIVATED`).
    pub fn ensure_active(actor: &User) -> (r: AppResult<()>)
        ensures
            r is Ok <==> actor.deactivated_at is None,
            r matches Err(e) ==> e.is_error(ErrorKind::Auth, FORBIDDEN_ACCOUNT_DEACTIVATED@),
            r matches Err(e) ==> e.message_view() == "This account is deactivated"@,
    {
        if actor.deactivated_at.is_some() {
            return Err(AppError::forbidden(
                FORBIDDEN_ACCOUNT_DEACTIVATED,
                String::from_str("This account is deactivated"),
                ctx_one("telegram_id", actor_label(actor)),
            ));
        }
        Ok(())
    }

    fn ensure_not_self(actor: &User, target: &User, operation: &str) -> (r: AppResult<()>)
        ensures
            r is Ok <==> !Self::same_person(actor, target),
            r matches Err(e) ==> e.is_error(ErrorKind::Auth, FORBIDDEN_SELF_TARGET@),
            r matches Err(e) ==> e.message_view() == "An admin cannot apply this action to themselves"@,
    {
        let same_persistent_id = match (actor.id, target.id) {
            (Some(a), Some(b)) => a == b,
            _ => false,
        };
        let same_telegram_id = actor.telegram_id == target.telegram_id;
        if same_persistent_id || same_telegram_id {
            return Err(AppError::forbidden(
                FORBIDDEN_SELF_TARGET,
                String::from_str("An admin cannot apply this action to themselves"),
                self_target_context(actor, target, operation),
            ));
        }
        Ok(())
    }

    /// The admin role.
    pub const ADMIN_ROLE: UserRole = UserRole::Admin;

    /// Managers, admins, the creator and the assignee may view a task.
    pub fn ensure_can_view_task(actor: &User, task: &Task) -> (r: AppResult<()>)
        ensures
            r is Ok <==> actor.id is Some && is_participant_or_manager(actor, task),
            r matches Err(e) ==> e.kind() == ErrorKind::Auth && e.code_view() == (
                if actor.id is None { "UNAUTHENTICATED"@ } else { "UNAUTHORIZED"@ }),
            r matches Err(e) ==> e.message_view() == (if actor.id is None { unregistered_message("view task status"@) } else { "User may not view the task"@ }),
    {
        let actor_id = required_actor_id(actor, "view task status")?;
        if actor.role.is_manager_or_admin() || actor_id == task.created_by_user_id
            || task.assigned_to_user_id == Some(actor_id) {
            return Ok(());
        }
        Err(AppError::unauthorized(
            String::from_str("User may not view the task"),
            ctx_one("task_uid", ContextValue::Text(task_uid_text(task.task_uid))),
        ))
    }

    /// Managers, admins, the creator and the assignee may comment.
    pub fn ensure_can_comment(actor: &User, task: &Task) -> (r: AppResult<()>)
        ensures
            r is Ok <==> actor.id is Some && is_participant_or_manager(actor, task),
            r matches Err(e) ==> e.kind() == ErrorKind::Auth && e.code_view() == (
                if actor.id is None { "UNAUTHENTICATED"@ } else { "UNAUTHORIZED"@ }),
            r matches Err(e) ==> e.message_view() == (if actor.id is None { unregistered_message("comment on a task"@) } else { "User may not comment on the task"@ }),
    {
        let actor_id = required_actor_id(actor, "comment on a task")?;
        if actor.role.is_manager_or_admin() || actor_id == task.created_by_user_id
            || task.assigned_to_user_id == Some(actor_id) {
            return Ok(());
        }
        Err(AppError::unauthorized(
            String::from_str("User may not comment on the task"),
            ctx_one("task_uid", ContextValue::Text(task_uid_text(task.task_uid))),
        ))
    }

    /// Only the assignee or an admin may mark a task as blocked.
    pub fn ensure_can_report_blocker(actor: &User, task: &Task) -> (r: AppResult<()>)
        ensures
            r is Ok <==> actor.id is Some && (actor.role.spec_is_admin() || task.assigned_to_user_id == actor.id),
            r matches Err(e) ==> e.kind() == ErrorKind::Auth && e.code_view() == (
                if actor.id is None { "UNAUTHENTICATED"@ } else { "UNAUTHORIZED"@ }),
            r matches Err(e) ==> e.message_view() == (if actor.id is None { unregistered_message("report a blocker"@) } else { "Only the assignee or admin can mark a task as blocked"@ }),
    {
        let actor_id = required_actor_id(actor, "report a blocker")?;
        if actor.role.is_admin() || task.assigned_to_user_id == Some(actor_id) {
            return Ok(());
        }
        Err(AppError::unauthorized(
            String::from_str("Only the assignee or admin can mark a task as blocked"),
            ctx_one("task_uid", ContextValue::Text(task_uid_text(task.task_uid))),
        ))
    }

    /// The creator, the assignee, managers and admins may reassign.
    pub fn ensure_can_reassign(actor: &User, task: &Task) -> (r: AppResult<()>)
        ensures
            r is Ok <==> actor.id is Some && is_participant_or_manager(actor, task),
            r matches Err(e) ==> e.kind() == ErrorKind::Auth && e.code_view() == (
                if actor.id is None { "UNAUTHENTICATED"@ } else { "UNAUTHORIZED"@ }),
            r matches Err(e) ==> e.message_view() == (if actor.id is None { unregistered_message("reassign tasks"@) } else { "Only the creator, assignee, manager, or admin can reassign a task"@ }),
    {
        let actor_id = required_actor_id(actor, "reassign tasks")?;
        let can_reassign = actor.role.is_manager_or_admin() || task.created_by_user_id == actor_id
            || task.assigned_to_user_id == Some(actor_id);
        if can_reassign {
            return Ok(());
        }
        Err(AppError::unauthorized(
            String::from_str("Only the creator, assignee, manager, or admin can reassign a task"),
            ctx_one("actor_user_id", ContextValue::Int(actor_id)),
        ))
    }

    /// The status to apply for a requested one (see [`normalized_status`]);
    /// a completion that must first go through review fails with
    /// `TASK_REVIEW_REQUIRED`.
    pub fn normalize_requested_status(actor: &User, task: &Task, requested_status: TaskStatus) -> (r: AppResult<TaskStatus>)
        ensures
            r is Ok <==> normalized_status(actor, task, requested_status) is Some,
            r matches Ok(s) ==> normalized_status(actor, task, requested_status) == Some(s),
            r matches Err(e) ==> e.is_error(ErrorKind::Validation, "TASK_REVIEW_REQUIRED"@),
            r matches Err(e) ==> e.message_view() == "Task must go through review before final completion"@,
    {
        let review_required = task.review_required();
        if requested_status == TaskStatus::Completed && review_required {
            let is_creator = actor.id == Some(task.created_by_user_id);
            if !is_creator && !actor.role.is_manager_or_admin() {
                return Ok(TaskStatus::InReview);
            }
        }
        if requested_status == TaskStatus::Completed && review_required && task.status != TaskStatus::InReview {
            return Err(AppError::business_rule(
                "TASK_REVIEW_REQUIRED",
                String::from_str("Task must go through review before final completion"),
                ctx_one("task_uid", ContextValue::Text(task_uid_text(task.task_uid))),
            ));
        }
        Ok(requested_status)
    }

    /// Authorizes moving `task` to `next_status` (see [`may_change_status`]).
    pub fn ensure_can_change_status(actor: &User, task: &Task, next_status: TaskStatus) -> (r: AppResult<()>)
        ensures
            r is Ok <==> may_change_status(actor, task, next_status),
            r matches Err(e) ==> e.kind() == ErrorKind::Auth && e.code_view() == (
                if actor.id is None { "UNAUTHENTICATED"@ } else { "UNAUTHORIZED"@ }),
            r matches Err(e) ==> e.message_view() == (if actor.id is None { unregistered_message("change task status"@) } else { "User may not change the task status"@ }),
    {
        let actor_id = required_actor_id(actor, "change task status")?;
        if actor.role.is_admin() {
            return Ok(());
        }
        if actor_id == task.created_by_user_id && creator_can_change_status(task, next_status) {
            return Ok(());
        }
        if task.assigned_to_user_id == Some(actor_id) && assignee_can_change_status(next_status) {
            return Ok(());
        }
        if actor.role.is_manager_or_admin() && manager_can_change_status(next_status) {
            return Ok(());
        }
        Err(AppError::unauthorized(
            String::from_str("User may not change the task status"),
            ctx_one("next_status", ContextValue::Text(next_status.to_text())),
        ))
    }

    /// The actions offered to `actor` on the task card (see [`actions_for`]).
    pub fn available_actions(actor: &User, task: &Task) -> (r: Vec<TaskActionView>)
        ensures
            r@ == actions_for(actor, task),
    {
        let mut actions: Vec<TaskActionView> = Vec::new();
        let actor_id = actor.id;
        let is_assignee = actor_id.is_some() && task.assigned_to_user_id == actor_id;
        let is_creator = actor_id == Some(task.created_by_user_id);
        let is_admin = actor.role.is_admin();
        let can_manage = is_creator || actor.role.is_manager_or_admin();
        let s = task.status;
        if (s == TaskStatus::Created || s == TaskStatus::Sent || s == TaskStatus::Blocked) && (is_assignee || is_admin) {
            actions.push(TaskActionView::StartProgress);
        }
        if (s == TaskStatus::Sent || s == TaskStatus::InProgress || s == TaskStatus::Blocked) && (is_assignee || is_admin) {
            actions.push(TaskActionView::SubmitForReview);
        }
        if s == TaskStatus::InReview && can_manage {
            actions.push(TaskActionView::ApproveReview);
            actions.push(TaskActionView::ReturnToWork);
        }
        if (s == TaskStatus::Created || s == TaskStatus::Sent || s == TaskStatus::InProgress || s == TaskStatus::Blocked)
            && (is_assignee || is_admin) {
            actions.push(TaskActionView::ReportBlocker);
        }
        if !s.is_terminal() && can_manage {
            actions.push(TaskActionView::Reassign);
        }
        if !s.is_terminal() && (is_assignee || can_manage) {
            actions.push(TaskActionView::Cancel);
        }
        actions.push(TaskActionView::AddComment);
        assert(actions@ =~= actions_for(actor, task));
        actions
    }
}

/// A registered admin may move any task to any status (the state machine
/// still decides whether the move exists).
pub proof fn admin_may_change_any_status(actor: &User, task: &Task, next: TaskStatus)
    requires
        actor.id is Some,
        actor.role == UserRole::Admin,
    ensures
        may_change_status(actor, task, next),
{
}

/// Unregistered users may change no status.
pub proof fn unregistered_may_change_nothing(actor: &User, task: &Task, next: TaskStatus)
    requires
        actor.id is None,
    ensures
        !may_change_status(actor, task, next),
{
}

/// A completed or cancelled task offers nothing but commenting.
pub proof fn terminal_task_offers_only_comment(actor: &User, task: &Task)
    requires
        status_terminal(task.status),
    ensures
        actions_for(actor, task) == seq![TaskActionView::AddComment],
{
    assert(actions_for(actor, task) =~= seq![TaskActionView::AddComment]);
}

/// Every card offers commenting, as its last action.
pub proof fn comment_always_offered_last(actor: &User, task: &Task)
    ensures
        actions_for(actor, task).len() > 0,
        actions_for(actor, task).last() == TaskActionView::AddComment,
{
}

/// A review-required task is completed only out of review: normalising a
/// completion request yields `Completed` only when the task is in review.
pub proof fn review_required_completion_needs_review(actor: &User, task: &Task)
    requires
        task.spec_review_required(),
        normalized_status(actor, task, TaskStatus::Completed) == Some(TaskStatus::Completed),
    ensures
        task.status == TaskStatus::InReview,
{
}

} // verus!
