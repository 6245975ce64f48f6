//! Task statistics: who may see which scope, and how long the team-wide
//! figures are served from a cache.  The driver runs the count queries and
//! holds the cache.
use vstd::prelude::*;

use crate::application::policies::RoleAuthorizationPolicy;
use crate::domain::errors::{ctx_one, AppError, AppResult, ContextValue, ErrorKind};
use crate::domain::user::User;

verus! {

/// The team-wide figures are recounted at most once per this many seconds.
pub const GLOBAL_STATS_TTL_SECONDS: u64 = 60;

#[derive(Debug, Clone, Copy, PartialEq, Eq, Structural)]
pub enum StatsScope {
    /// The caller's own tasks.
    Personal,
    /// Every task.
    Team,
}

/// Which counts to run.
#[derive(Debug, Clone, Copy, PartialEq, Eq, Structural)]
pub enum StatsQuery {
    /// Counts over the tasks of this user.
    ForUser(i64),
    /// Counts over every task.
    Global,
}

/// The counts a registered caller may see in `scope`: their own, or, for a
/// manager or admin, the team's.
pub fn stats_query(actor: &User, scope: StatsScope) -> (r: AppResult<StatsQuery>)
    ensures
        match actor.id {
            None => r matches Err(e) && e.is_error(ErrorKind::Auth, "UNAUTHENTICATED"@),
            Some(id) => match scope {
                StatsScope::Personal => r == Ok::<StatsQuery, AppError>(StatsQuery::ForUser(id)),
                StatsScope::Team => if actor.role.spec_is_manager_or_admin() {
                    r == Ok::<StatsQuery, AppError>(StatsQuery::Global)
                } else {
                    r matches Err(e) && e.is_error(ErrorKind::Auth, "UNAUTHORIZED"@)
                },
            },
        },
        r matches Err(e) ==> e.message_view() == (
            if actor.id is None { "User must be registered before viewing stats"@ } else { "Only managers and admins can view team stats"@ }),
{
    let actor_id = match actor.id {
        Some(id) => id,
        None => {
            return Err(AppError::unauthenticated(
                String::from_str("User must be registered before viewing stats"),
                ctx_one("telegram_id", ContextValue::Int(actor.telegram_id)),
            ));
        },
    };
    match scope {
        StatsScope::Personal => Ok(StatsQuery::ForUser(actor_id)),
        StatsScope::Team => {
            match RoleAuthorizationPolicy::ensure_can_view_team_stats(actor) {
                Ok(()) => Ok(StatsQuery::Global),
                Err(e) => Err(e),
            }
        },
    }
}

/// Cached team figures fetched `elapsed_millis` ago may still be served.
pub fn global_stats_cache_fresh(elapsed_millis: u64) -> (r: bool)
    ensures
        r == (elapsed_millis < GLOBAL_STATS_TTL_SECONDS * 1000),
{
    elapsed_millis < GLOBAL_STATS_TTL_SECONDS * 1000
}

} // verus!
