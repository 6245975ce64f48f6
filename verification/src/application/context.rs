//! The per-turn "who and when" handed to the use cases: the actor's
//! identity and role, the Telegram chat the turn came from, a trace id and
//! one instant frozen for the whole turn.
use vstd::prelude::*;

use crate::domain::user::UserRole;
use crate::time::Timestamp;

verus! {

/// The inbound Telegram chat of a turn.
#[derive(Debug, Clone, Copy, PartialEq, Eq, Structural)]
pub struct TelegramChatContext {
    pub chat_id: i64,
    pub telegram_user_id: i64,
}

/// The bot speaks Russian only; the locale is carried for later use.
#[derive(Debug, Clone, Copy, PartialEq, Eq, Structural)]
pub enum Locale {
    RussianPrimary,
}

impl Default for Locale {
    fn default() -> (r: Locale)
        ensures
            r == Locale::RussianPrimary,
    {
        Locale::RussianPrimary
    }
}

/// The role-shaped identity of the actor; `user_id` is `None` before
/// registration.
#[derive(Debug, Clone, Copy, PartialEq, Eq, Structural)]
pub struct PrincipalIdentity {
    pub user_id: Option<i64>,
    pub role: UserRole,
    pub locale: Locale,
}

/// Immutable per-turn context.  `trace_id` is the turn's UUID as an
/// integer; `now` is frozen for the whole turn.
#[derive(Debug, Clone, Copy)]
pub struct PrincipalContext {
    pub identity: PrincipalIdentity,
    pub telegram: TelegramChatContext,
    pub trace_id: u128,
    pub now: Timestamp,
}

impl PrincipalContext {
    pub fn new(identity: PrincipalIdentity, telegram: TelegramChatContext, trace_id: u128, now: Timestamp) -> (r: Self)
        ensures
            r.identity == identity,
            r.telegram == telegram,
            r.trace_id == trace_id,
            r.now == now,
    {
        PrincipalContext { identity, telegram, trace_id, now }
    }

    /// A context for a turn before registration: no user id and the
    /// ordinary user role, so every policy treats it as unprivileged.
    pub fn anonymous(telegram: TelegramChatContext, trace_id: u128, now: Timestamp) -> (r: Self)
        ensures
            r.identity == (PrincipalIdentity { user_id: None, role: UserRole::User, locale: Locale::RussianPrimary }),
            r.telegram == telegram,
            r.trace_id == trace_id,
            r.now == now,
    {
        PrincipalContext {
            identity: PrincipalIdentity { user_id: None, role: UserRole::User, locale: Locale::default() },
            telegram,
            trace_id,
            now,
        }
    }

    pub fn is_anonymous(&self) -> (r: bool)
        ensures
            r == self.identity.user_id is None,
    {
        self.identity.user_id.is_none()
    }

    pub fn role(&self) -> (r: UserRole)
        ensures
            r == self.identity.role,
    {
        self.identity.role
    }

    pub fn user_id(&self) -> (r: Option<i64>)
        ensures
            r == self.identity.user_id,
    {
        self.identity.user_id
    }

    pub fn telegram_user_id(&self) -> (r: i64)
        ensures
            r == self.telegram.telegram_user_id,
    {
        self.telegram.telegram_user_id
    }

    pub fn chat_id(&self) -> (r: i64)
        ensures
            r == self.telegram.chat_id,
    {
        self.telegram.chat_id
    }
}

} // verus!
