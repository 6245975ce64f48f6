//! Admin-panel decisions: the gates each action passes and the audit record
//! each successful action leaves.  The driver reads and writes users and
//! flags between them.
use vstd::prelude::*;

use crate::application::policies::{RoleAuthorizationPolicy, FORBIDDEN_ACCOUNT_DEACTIVATED, FORBIDDEN_ADMIN_ONLY};
use crate::domain::audit::{AdminAuditEntry, AuditActionCode};
use crate::domain::errors::{ctx_empty, ctx_one, ctx_two, AppError, AppResult, ContextEntry, ContextValue, ErrorKind};
use crate::domain::user::{User, UserRole};
use crate::time::Timestamp;

verus! {

pub const USER_NOT_FOUND: &'static str = "USER_NOT_FOUND";
pub const ACTOR_NOT_FOUND: &'static str = "ACTOR_NOT_FOUND";
/// Most audit entries shown at once.
pub const MAX_AUDIT_PAGE: u32 = 50;

/// The target user of an admin action, which must exist.
pub fn require_target(user: Option<User>, target_user_id: i64) -> (r: AppResult<User>)
    ensures
        match user {
            Some(u) => r == Ok::<User, AppError>(u),
            None => r matches Err(e) && e.is_error(ErrorKind::NotFound, USER_NOT_FOUND@),
        },
        user is None ==> (r matches Err(e) && e.message_view() == "Requested user does not exist"@),
{
    match user {
        Some(u) => Ok(u),
        None => Err(AppError::not_found(
            USER_NOT_FOUND,
            String::from_str("Requested user does not exist"),
            ctx_one("target_user_id", ContextValue::Int(target_user_id)),
        )),
    }
}

/// The acting admin's identifier.
pub fn require_actor_id(actor: &User) -> (r: AppResult<i64>)
    ensures
        match actor.id {
            Some(id) => r == Ok::<i64, AppError>(id),
            None => r matches Err(e) && e.is_error(ErrorKind::Auth, "UNAUTHENTICATED"@),
        },
        actor.id is None ==> (r matches Err(e) && e.message_view() == "Actor must be registered"@),
{
    match actor.id {
        Some(id) => Ok(id),
        None => Err(AppError::unauthenticated(String::from_str("Actor must be registered"), ctx_empty())),
    }
}

/// The audit page size: within `1..=50`.
pub fn clamp_audit_limit(limit: u32) -> (r: i64)
    ensures
        r == (if limit < 1 { 1 } else if limit > MAX_AUDIT_PAGE { MAX_AUDIT_PAGE as int } else { limit as int }),
{
    let clamped = if limit < 1 { 1 } else if limit > MAX_AUDIT_PAGE { MAX_AUDIT_PAGE } else { limit };
    clamped as i64
}

/// The gates of a role change: the panel, then the role policy, then a
/// registered actor.
pub fn authorize_role_change(actor: &User, target: &User) -> (r: AppResult<i64>)
    ensures
        r is Ok <==> RoleAuthorizationPolicy::admin_gate_code(actor, target) is None && actor.id is Some,
        r matches Ok(id) ==> actor.id == Some(id),
        r matches Err(e) ==> e.kind() == ErrorKind::Auth,
        r matches Err(e) ==> e.code_view() == (match RoleAuthorizationPolicy::admin_gate_code(actor, target) { Some(c) => c, None => "UNAUTHENTICATED"@ }),
        r matches Err(e) ==> e.message_view() == (if RoleAuthorizationPolicy::admin_gate_code(actor, target) is Some { RoleAuthorizationPolicy::admin_gate_message(actor, target) } else { "Actor must be registered"@ }),
{
    RoleAuthorizationPolicy::ensure_can_manage_roles(actor, target)?;
    require_actor_id(actor)
}

/// The gates of a deactivation.
pub fn authorize_deactivation(actor: &User, target: &User) -> (r: AppResult<i64>)
    ensures
        r is Ok <==> RoleAuthorizationPolicy::admin_gate_code(actor, target) is None && actor.id is Some,
        r matches Ok(id) ==> actor.id == Some(id),
        r matches Err(e) ==> e.kind() == ErrorKind::Auth,
        r matches Err(e) ==> e.code_view() == (match RoleAuthorizationPolicy::admin_gate_code(actor, target) { Some(c) => c, None => "UNAUTHENTICATED"@ }),
        r matches Err(e) ==> e.message_view() == (if RoleAuthorizationPolicy::admin_gate_code(actor, target) is Some { RoleAuthorizationPolicy::admin_gate_message(actor, target) } else { "Actor must be registered"@ }),
{
    RoleAuthorizationPolicy::ensure_can_deactivate_user(actor, target)?;
    require_actor_id(actor)
}

/// The gates of a reactivation or a feature toggle.
pub fn authorize_admin_action(actor: &User) -> (r: AppResult<i64>)
    ensures
        r is Ok <==> actor.deactivated_at is None && actor.role.spec_is_admin() && actor.id is Some,
        r matches Ok(id) ==> actor.id == Some(id),
        r matches Err(e) ==> e.kind() == ErrorKind::Auth,
        r matches Err(e) ==> e.code_view() == (if actor.deactivated_at is Some { FORBIDDEN_ACCOUNT_DEACTIVATED@ } else if !actor.role.spec_is_admin() { FORBIDDEN_ADMIN_ONLY@ } else { "UNAUTHENTICATED"@ }),
        r matches Err(e) ==> e.message_view() == (if actor.deactivated_at is Some { "This account is deactivated"@ } else if !actor.role.spec_is_admin() { "Only admins can open the admin panel"@ } else { "Actor must be registered"@ }),
{
    RoleAuthorizationPolicy::ensure_can_access_admin_panel(actor)?;
    require_actor_id(actor)
}

/// The record of a role change of `target` to `next_role`.
pub fn role_change_entry(actor: &User, target: &User, target_user_id: i64, next_role: UserRole, now: Timestamp) -> (r: AdminAuditEntry)
    ensures
        r.id is None,
        r.actor_user_id == actor.id,
        r.target_user_id == Some(target_user_id),
        r.action_code == AuditActionCode::RoleChangedByAdmin,
        r.metadata@.len() == 3,
        r.metadata@[0].key@ == "previous_role"@,
        r.metadata@[0].value matches ContextValue::Text(s) && s@ == target.role.spec_as_str(),
        r.metadata@[1].key@ == "next_role"@,
        r.metadata@[1].value matches ContextValue::Text(s) && s@ == next_role.spec_as_str(),
        r.metadata@[2].key@ == "target_telegram_id"@,
        r.metadata@[2].value == ContextValue::Int(target.telegram_id),
        r.created_at == now,
{
    let mut metadata: Vec<ContextEntry> = Vec::new();
    metadata.push(ContextEntry {
        key: String::from_str("previous_role"),
        value: ContextValue::Text(String::from_str(target.role.as_str())),
    });
    metadata.push(ContextEntry {
        key: String::from_str("next_role"),
        value: ContextValue::Text(String::from_str(next_role.as_str())),
    });
    metadata.push(ContextEntry { key: String::from_str("target_telegram_id"), value: ContextValue::Int(target.telegram_id) });
    AdminAuditEntry {
        id: None,
        actor_user_id: actor.id,
        target_user_id: Some(target_user_id),
        action_code: AuditActionCode::RoleChangedByAdmin,
        metadata,
        created_at: now,
    }
}

/// The record of a deactivation of `target`.
pub fn deactivation_entry(actor: &User, target: &User, target_user_id: i64, now: Timestamp) -> (r: AdminAuditEntry)
    ensures
        r.id is None,
        r.actor_user_id == actor.id,
        r.target_user_id == Some(target_user_id),
        r.action_code == AuditActionCode::UserDeactivatedByAdmin,
        r.metadata@.len() == 2,
        r.metadata@[0].key@ == "target_telegram_id"@,
        r.metadata@[0].value == ContextValue::Int(target.telegram_id),
        r.metadata@[1].key@ == "previous_role"@,
        r.metadata@[1].value matches ContextValue::Text(s) && s@ == target.role.spec_as_str(),
        r.created_at == now,
{
    AdminAuditEntry {
        id: None,
        actor_user_id: actor.id,
        target_user_id: Some(target_user_id),
        action_code: AuditActionCode::UserDeactivatedByAdmin,
        metadata: ctx_two(
            "target_telegram_id",
            ContextValue::Int(target.telegram_id),
            "previous_role",
            ContextValue::Text(String::from_str(target.role.as_str())),
        ),
        created_at: now,
    }
}

/// The record of a reactivation of `target`.
pub fn reactivation_entry(actor: &User, target: &User, target_user_id: i64, now: Timestamp) -> (r: AdminAuditEntry)
    ensures
        r.id is None,
        r.actor_user_id == actor.id,
        r.target_user_id == Some(target_user_id),
        r.action_code == AuditActionCode::UserReactivatedByAdmin,
        r.metadata@.len() == 1,
        r.metadata@[0].key@ == "target_telegram_id"@,
        r.metadata@[0].value == ContextValue::Int(target.telegram_id),
        r.created_at == now,
{
    AdminAuditEntry {
        id: None,
        actor_user_id: actor.id,
        target_user_id: Some(target_user_id),
        action_code: AuditActionCode::UserReactivatedByAdmin,
        metadata: ctx_one("target_telegram_id", ContextValue::Int(target.telegram_id)),
        created_at: now,
    }
}

/// The record of a feature toggle.
pub fn feature_toggle_entry(actor: &User, flag_key: &str, enabled: bool, now: Timestamp) -> (r: AdminAuditEntry)
    ensures
        r.id is None,
        r.actor_user_id == actor.id,
        r.target_user_id is None,
        r.action_code == AuditActionCode::AdminFeatureToggled,
        r.metadata@.len() == 2,
        r.metadata@[0].key@ == "flag_key"@,
        r.metadata@[0].value matches ContextValue::Text(s) && s@ == flag_key@,
        r.metadata@[1].key@ == "enabled"@,
        r.metadata@[1].value == ContextValue::Bool(enabled),
        r.created_at == now,
{
    AdminAuditEntry {
        id: None,
        actor_user_id: actor.id,
        target_user_id: None,
        action_code: AuditActionCode::AdminFeatureToggled,
        metadata: ctx_two("flag_key", ContextValue::Text(String::from_str(flag_key)), "enabled", ContextValue::Bool(enabled)),
        created_at: now,
    }
}

/// An unknown feature-flag key.
pub fn unknown_feature_flag(flag_key: &str) -> (r: AppError)
    ensures
        r.is_error(ErrorKind::NotFound, "UNKNOWN_FEATURE_FLAG"@),
        r.message_view() == "feature flag key is not recognised"@,
{
    AppError::not_found(
        "UNKNOWN_FEATURE_FLAG",
        String::from_str("feature flag key is not recognised"),
        ctx_one("flag_key", ContextValue::Text(String::from_str(flag_key))),
    )
}

} // verus!
