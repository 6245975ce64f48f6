//! Application error taxonomy.  Every error carries a stable machine code, a
//! human message and a flat key/value context used for diagnostics.
use vstd::prelude::*;

use crate::text::str_equal;

verus! {

/// A context value: the flat JSON scalars that error contexts hold.
#[derive(Debug)]
pub enum ContextValue {
    Null,
    Bool(bool),
    Int(i64),
    Text(String),
}

/// One `key: value` pair of an error context.
#[derive(Debug)]
pub struct ContextEntry {
    pub key: String,
    pub value: ContextValue,
}

/// The category of an [`AppError`]; it decides the HTTP status and whether a
/// retry makes sense.
#[derive(Debug, Clone, Copy, PartialEq, Eq, Structural)]
pub enum ErrorKind {
    Validation,
    Auth,
    NotFound,
    Conflict,
    RateLimit,
    Network,
    Timeout,
    Internal,
}

#[derive(Debug)]
pub enum AppError {
    Validation { code: &'static str, message: String, context: Vec<ContextEntry> },
    Auth { code: &'static str, message: String, context: Vec<ContextEntry> },
    NotFound { code: &'static str, message: String, context: Vec<ContextEntry> },
    Conflict { code: &'static str, message: String, context: Vec<ContextEntry> },
    RateLimit { code: &'static str, message: String, context: Vec<ContextEntry> },
    Network { code: &'static str, message: String, context: Vec<ContextEntry> },
    Timeout { code: &'static str, message: String, context: Vec<ContextEntry> },
    Internal { code: &'static str, message: String, context: Vec<ContextEntry> },
}

pub type AppResult<T> = Result<T, AppError>;

/// A context with no entries.
pub fn ctx_empty() -> (r: Vec<ContextEntry>)
    ensures
        r@.len() == 0,
{
    Vec::new()
}

/// A context with exactly one entry.
pub fn ctx_one(key: &str, value: ContextValue) -> (r: Vec<ContextEntry>)
    ensures
        r@.len() == 1,
        r@[0].key@ == key@,
        r@[0].value == value,
{
    let mut v = Vec::new();
    v.push(ContextEntry { key: String::from_str(key), value });
    v
}

/// A context with two entries, in the given order.
pub fn ctx_two(k1: &str, v1: ContextValue, k2: &str, v2: ContextValue) -> (r: Vec<ContextEntry>)
    ensures
        r@.len() == 2,
        r@[0].key@ == k1@,
        r@[0].value == v1,
        r@[1].key@ == k2@,
        r@[1].value == v2,
{
    let mut v = Vec::new();
    v.push(ContextEntry { key: String::from_str(k1), value: v1 });
    v.push(ContextEntry { key: String::from_str(k2), value: v2 });
    v
}

/// `entries` without any entry whose key is `key`, order preserved.
pub open spec fn without_key(entries: Seq<ContextEntry>, key: Seq<char>) -> Seq<ContextEntry>
    decreases entries.len(),
{
    if entries.len() == 0 {
        entries
    } else {
        let rest = without_key(entries.drop_last(), key);
        if entries.last().key@ == key {
            rest
        } else {
            rest.push(entries.last())
        }
    }
}

impl AppError {
    pub open spec fn kind(&self) -> ErrorKind {
        match self {
            AppError::Validation { .. } => ErrorKind::Validation,
            AppError::Auth { .. } => ErrorKind::Auth,
            AppError::NotFound { .. } => ErrorKind::NotFound,
            AppError::Conflict { .. } => ErrorKind::Conflict,
            AppError::RateLimit { .. } => ErrorKind::RateLimit,
            AppError::Network { .. } => ErrorKind::Network,
            AppError::Timeout { .. } => ErrorKind::Timeout,
            AppError::Internal { .. } => ErrorKind::Internal,
        }
    }

    pub open spec fn code_view(&self) -> Seq<char> {
        match self {
            AppError::Validation { code, .. } => code@,
            AppError::Auth { code, .. } => code@,
            AppError::NotFound { code, .. } => code@,
            AppError::Conflict { code, .. } => code@,
            AppError::RateLimit { code, .. } => code@,
            AppError::Network { code, .. } => code@,
            AppError::Timeout { code, .. } => code@,
            AppError::Internal { code, .. } => code@,
        }
    }

    pub open spec fn message_view(&self) -> Seq<char> {
        match self {
            AppError::Validation { message, .. } => message@,
            AppError::Auth { message, .. } => message@,
            AppError::NotFound { message, .. } => message@,
            AppError::Conflict { message, .. } => message@,
            AppError::RateLimit { message, .. } => message@,
            AppError::Network { message, .. } => message@,
            AppError::Timeout { message, .. } => message@,
            AppError::Internal { message, .. } => message@,
        }
    }

    pub open spec fn context_view(&self) -> Seq<ContextEntry> {
        match self {
            AppError::Validation { context, .. } => context@,
            AppError::Auth { context, .. } => context@,
            AppError::NotFound { context, .. } => context@,
            AppError::Conflict { context, .. } => context@,
            AppError::RateLimit { context, .. } => context@,
            AppError::Network { context, .. } => context@,
            AppError::Timeout { context, .. } => context@,
            AppError::Internal { context, .. } => context@,
        }
    }

    /// The error with the given kind, code, message and context.
    pub open spec fn is_error(&self, kind: ErrorKind, code: Seq<char>) -> bool {
        self.kind() == kind && self.code_view() == code
    }

    pub fn schema_validation(code: &'static str, message: String, context: Vec<ContextEntry>) -> (r: Self)
        ensures
            r == (AppError::Validation { code, message, context }),
    {
        AppError::Validation { code, message, context }
    }

    pub fn business_rule(code: &'static str, message: String, context: Vec<ContextEntry>) -> (r: Self)
        ensures
            r == (AppError::Validation { code, message, context }),
    {
        AppError::Validation { code, message, context }
    }

    pub fn unauthenticated(message: String, context: Vec<ContextEntry>) -> (r: Self)
        ensures
            r == (AppError::Auth { code: "UNAUTHENTICATED", message, context }),
    {
        AppError::Auth { code: "UNAUTHENTICATED", message, context }
    }

    pub fn unauthorized(message: String, context: Vec<ContextEntry>) -> (r: Self)
        ensures
            r == (AppError::Auth { code: "UNAUTHORIZED", message, context }),
    {
        AppError::Auth { code: "UNAUTHORIZED", message, context }
    }

    /// An access-denied error with a caller-chosen code (status 403).
    pub fn forbidden(code: &'static str, message: String, context: Vec<ContextEntry>) -> (r: Self)
        ensures
            r == (AppError::Auth { code, message, context }),
    {
        AppError::Auth { code, message, context }
    }

    pub fn not_found(code: &'static str, message: String, context: Vec<ContextEntry>) -> (r: Self)
        ensures
            r == (AppError::NotFound { code, message, context }),
    {
        AppError::NotFound { code, message, context }
    }

    pub fn conflict(code: &'static str, message: String, context: Vec<ContextEntry>) -> (r: Self)
        ensures
            r == (AppError::Conflict { code, message, context }),
    {
        AppError::Conflict { code, message, context }
    }

    pub fn rate_limit(message: String, context: Vec<ContextEntry>) -> (r: Self)
        ensures
            r == (AppError::RateLimit { code: "RATE_LIMITED", message, context }),
    {
        AppError::RateLimit { code: "RATE_LIMITED", message, context }
    }

    pub fn network(code: &'static str, message: String, context: Vec<ContextEntry>) -> (r: Self)
        ensures
            r == (AppError::Network { code, message, context }),
    {
        AppError::Network { code, message, context }
    }

    pub fn timeout(code: &'static str, message: String, context: Vec<ContextEntry>) -> (r: Self)
        ensures
            r == (AppError::Timeout { code, message, context }),
    {
        AppError::Timeout { code, message, context }
    }

    pub fn internal(code: &'static str, message: String, context: Vec<ContextEntry>) -> (r: Self)
        ensures
            r == (AppError::Internal { code, message, context }),
    {
        AppError::Internal { code, message, context }
    }

    pub fn code(&self) -> (r: &'static str)
        ensures
            r@ == self.code_view(),
    {
        match self {
            AppError::Validation { code, .. } => code,
            AppError::Auth { code, .. } => code,
            AppError::NotFound { code, .. } => code,
            AppError::Conflict { code, .. } => code,
            AppError::RateLimit { code, .. } => code,
            AppError::Network { code, .. } => code,
            AppError::Timeout { code, .. } => code,
            AppError::Internal { code, .. } => code,
        }
    }

    pub fn message(&self) -> (r: &str)
        ensures
            r@ == self.message_view(),
    {
        match self {
            AppError::Validation { message, .. } => message.as_str(),
            AppError::Auth { message, .. } => message.as_str(),
            AppError::NotFound { message, .. } => message.as_str(),
            AppError::Conflict { message, .. } => message.as_str(),
            AppError::RateLimit { message, .. } => message.as_str(),
            AppError::Network { message, .. } => message.as_str(),
            AppError::Timeout { message, .. } => message.as_str(),
            AppError::Internal { message, .. } => message.as_str(),
        }
    }

    pub fn context(&self) -> (r: &Vec<ContextEntry>)
        ensures
            r@ == self.context_view(),
    {
        match self {
            AppError::Validation { context, .. } => context,
            AppError::Auth { context, .. } => context,
            AppError::NotFound { context, .. } => context,
            AppError::Conflict { context, .. } => context,
            AppError::RateLimit { context, .. } => context,
            AppError::Network { context, .. } => context,
            AppError::Timeout { context, .. } => context,
            AppError::Internal { context, .. } => context,
        }
    }

    pub open spec fn spec_status_code(&self) -> u16 {
        match self.kind() {
            ErrorKind::Validation => 400,
            ErrorKind::Auth => if self.code_view() == "UNAUTHENTICATED"@ { 401 } else { 403 },
            ErrorKind::NotFound => 404,
            ErrorKind::Conflict => 409,
            ErrorKind::RateLimit => 429,
            ErrorKind::Network => 503,
            ErrorKind::Timeout => 504,
            ErrorKind::Internal => 500,
        }
    }

    /// HTTP status that presents this error.
    pub fn status_code(&self) -> (r: u16)
        ensures
            r == self.spec_status_code(),
    {
        match self {
            AppError::Validation { .. } => 400,
            AppError::Auth { code, .. } => {
                if str_equal(code, "UNAUTHENTICATED") {
                    401
                } else {
                    403
                }
            },
            AppError::NotFound { .. } => 404,
            AppError::Conflict { .. } => 409,
            AppError::RateLimit { .. } => 429,
            AppError::Network { .. } => 503,
            AppError::Timeout { .. } => 504,
            AppError::Internal { .. } => 500,
        }
    }

    /// Transient failures (network, timeout, internal) are worth retrying.
    pub fn should_retry(&self) -> (r: bool)
        ensures
            r == (self.kind() == ErrorKind::Network || self.kind() == ErrorKind::Timeout
                || self.kind() == ErrorKind::Internal),
    {
        match self {
            AppError::Network { .. } | AppError::Timeout { .. } | AppError::Internal { .. } => true,
            _ => false,
        }
    }

    /// Returns the same error with `key` set to `value` in its context: any
    /// earlier entry for `key` is dropped and the new entry is appended.
    pub fn with_context(self, key: &'static str, value: ContextValue) -> (r: Self)
        ensures
            r.kind() == self.kind(),
            r.code_view() == self.code_view(),
            r.message_view() == self.message_view(),
            r.context_view().len() > 0,
            r.context_view().drop_last() == without_key(self.context_view(), key@),
            r.context_view().last().key@ == key@,
            r.context_view().last().value == value,
    {
        let ghost old_ctx = self.context_view();
        let (kind, code, message, context) = match self {
            AppError::Validation { code, message, context } => (ErrorKind::Validation, code, message, context),
            AppError::Auth { code, message, context } => (ErrorKind::Auth, code, message, context),
            AppError::NotFound { code, message, context } => (ErrorKind::NotFound, code, message, context),
            AppError::Conflict { code, message, context } => (ErrorKind::Conflict, code, message, context),
            AppError::RateLimit { code, message, context } => (ErrorKind::RateLimit, code, message, context),
            AppError::Network { code, message, context } => (ErrorKind::Network, code, message, context),
            AppError::Timeout { code, message, context } => (ErrorKind::Timeout, code, message, context),
            AppError::Internal { code, message, context } => (ErrorKind::Internal, code, message, context),
        };
        let mut rest = context;
        let mut kept: Vec<ContextEntry> = Vec::new();
        let ghost mut taken: int = 0;
        while rest.len() > 0
            invariant
                0 <= taken <= old_ctx.len(),
                rest@ == old_ctx.skip(taken),
                kept@ == without_key(old_ctx.take(taken), key@),
            decreases rest.len(),
        {
            let entry = rest.remove(0);
            proof {
                assert(old_ctx.take(taken + 1).drop_last() =~= old_ctx.take(taken));
                assert(old_ctx.take(taken + 1).last() == old_ctx[taken]);
                assert(old_ctx.skip(taken + 1) =~= old_ctx.skip(taken).remove(0));
            }
            if !str_equal(entry.key.as_str(), key) {
                kept.push(entry);
            }
            proof {
                taken = taken + 1;
            }
        }
        proof {
            assert(old_ctx.take(taken) =~= old_ctx);
        }
        kept.push(ContextEntry { key: String::from_str(key), value });
        proof {
            assert(kept@.drop_last() =~= without_key(old_ctx, key@));
        }
        match kind {
            ErrorKind::Validation => AppError::Validation { code, message, context: kept },
            ErrorKind::Auth => AppError::Auth { code, message, context: kept },
            ErrorKind::NotFound => AppError::NotFound { code, message, context: kept },
            ErrorKind::Conflict => AppError::Conflict { code, message, context: kept },
            ErrorKind::RateLimit => AppError::RateLimit { code, message, context: kept },
            ErrorKind::Network => AppError::Network { code, message, context: kept },
            ErrorKind::Timeout => AppError::Timeout { code, message, context: kept },
            ErrorKind::Internal => AppError::Internal { code, message, context: kept },
        }
    }
}

} // verus!
