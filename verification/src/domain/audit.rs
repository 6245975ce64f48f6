use vstd::prelude::*;

use crate::domain::errors::ContextEntry;
use crate::time::Timestamp;

verus! {

#[derive(Debug)]
pub struct AuditLogEntry {
    pub id: Option<i64>,
    pub task_id: i64,
    pub action: AuditAction,
    pub old_status: Option<String>,
    pub new_status: Option<String>,
    pub changed_by_user_id: Option<i64>,
    /// Flat key/value metadata (e.g. `reason`, `preview`).
    pub metadata: Vec<ContextEntry>,
    pub created_at: Timestamp,
}

#[derive(Debug, Clone, Copy, PartialEq, Eq, Structural)]
pub enum AuditAction {
    Created,
    Sent,
    Assigned,
    StatusChanged,
    ReviewRequested,
    Reassigned,
    Blocked,
    Commented,
    Edited,
    Cancelled,
    EmployeesSynced,
}

/// Every event of the admin and security audit logs.
#[derive(Debug, Clone, Copy, PartialEq, Eq, Structural)]
pub enum AuditActionCode {
    UserOnboardingStarted,
    UserOnboardingCompleted,
    UserOnboardingAbandoned,
    UserEmployeeLinked,
    UserEmployeeUnlinked,
    RoleElevatedByBootstrap,
    RoleChangedByAdmin,
    UserDeactivatedByAdmin,
    UserReactivatedByAdmin,
    AdminFeatureToggled,
    ForbiddenActionAttempted,
    CallbackAuthorshipViolation,
    RateLimitExceeded,
    AdminNonceExpired,
}

pub open spec fn action_code(a: AuditActionCode) -> Seq<char> {
    match a {
        AuditActionCode::UserOnboardingStarted => "user_onboarding_started"@,
        AuditActionCode::UserOnboardingCompleted => "user_onboarding_completed"@,
        AuditActionCode::UserOnboardingAbandoned => "user_onboarding_abandoned"@,
        AuditActionCode::UserEmployeeLinked => "user_employee_linked"@,
        AuditActionCode::UserEmployeeUnlinked => "user_employee_unlinked"@,
        AuditActionCode::RoleElevatedByBootstrap => "role_elevated_by_bootstrap"@,
        AuditActionCode::RoleChangedByAdmin => "role_changed_by_admin"@,
        AuditActionCode::UserDeactivatedByAdmin => "user_deactivated_by_admin"@,
        AuditActionCode::UserReactivatedByAdmin => "user_reactivated_by_admin"@,
        AuditActionCode::AdminFeatureToggled => "admin_feature_toggled"@,
        AuditActionCode::ForbiddenActionAttempted => "forbidden_action_attempted"@,
        AuditActionCode::CallbackAuthorshipViolation => "callback_authorship_violation"@,
        AuditActionCode::RateLimitExceeded => "rate_limit_exceeded"@,
        AuditActionCode::AdminNonceExpired => "admin_nonce_expired"@,
    }
}

impl AuditActionCode {
    pub fn as_code(self) -> (r: &'static str)
        ensures
            r@ == action_code(self),
    {
        match self {
            AuditActionCode::UserOnboardingStarted => "user_onboarding_started",
            AuditActionCode::UserOnboardingCompleted => "user_onboarding_completed",
            AuditActionCode::UserOnboardingAbandoned => "user_onboarding_abandoned",
            AuditActionCode::UserEmployeeLinked => "user_employee_linked",
            AuditActionCode::UserEmployeeUnlinked => "user_employee_unlinked",
            AuditActionCode::RoleElevatedByBootstrap => "role_elevated_by_bootstrap",
            AuditActionCode::RoleChangedByAdmin => "role_changed_by_admin",
            AuditActionCode::UserDeactivatedByAdmin => "user_deactivated_by_admin",
            AuditActionCode::UserReactivatedByAdmin => "user_reactivated_by_admin",
            AuditActionCode::AdminFeatureToggled => "admin_feature_toggled",
            AuditActionCode::ForbiddenActionAttempted => "forbidden_action_attempted",
            AuditActionCode::CallbackAuthorshipViolation => "callback_authorship_violation",
            AuditActionCode::RateLimitExceeded => "rate_limit_exceeded",
            AuditActionCode::AdminNonceExpired => "admin_nonce_expired",
        }
    }
}

/// Audit codes are pairwise distinct: a stored code names exactly one
/// event, so dashboards and alerts read the same vocabulary.
pub proof fn audit_codes_are_distinct(a: AuditActionCode, b: AuditActionCode)
    requires
        a != b,
    ensures
        action_code(a) != action_code(b),
{
    reveal_strlit("user_onboarding_started");
    reveal_strlit("user_onboarding_completed");
    reveal_strlit("user_onboarding_abandoned");
    reveal_strlit("user_employee_linked");
    reveal_strlit("user_employee_unlinked");
    reveal_strlit("role_elevated_by_bootstrap");
    reveal_strlit("role_changed_by_admin");
    reveal_strlit("user_deactivated_by_admin");
    reveal_strlit("user_reactivated_by_admin");
    reveal_strlit("admin_feature_toggled");
    reveal_strlit("forbidden_action_attempted");
    reveal_strlit("callback_authorship_violation");
    reveal_strlit("rate_limit_exceeded");
    reveal_strlit("admin_nonce_expired");
    if action_code(a) == action_code(b) {
        assert(action_code(a).len() == action_code(b).len());
        assert(action_code(a)[0] == action_code(b)[0]);
        assert(action_code(a)[5] == action_code(b)[5]);
        assert(action_code(a)[16] == action_code(b)[16]);
    }
}

/// A privileged state transition (role change, (de)activation, …).
#[derive(Debug)]
pub struct AdminAuditEntry {
    pub id: Option<i64>,
    /// `None`: performed by the platform itself (bootstrap).
    pub actor_user_id: Option<i64>,
    pub target_user_id: Option<i64>,
    pub action_code: AuditActionCode,
    pub metadata: Vec<ContextEntry>,
    pub created_at: Timestamp,
}

/// An attempted-but-denied or suspicious event.
#[derive(Debug)]
pub struct SecurityAuditEntry {
    pub id: Option<i64>,
    pub actor_user_id: Option<i64>,
    pub telegram_id: Option<i64>,
    pub event_code: AuditActionCode,
    pub metadata: Vec<ContextEntry>,
    pub created_at: Timestamp,
}

} // verus!
