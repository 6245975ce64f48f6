//! Write-back of self-registered employees to the directory spreadsheet.
//! Rows wait in a queue; each flush appends a batch, stamps successes and
//! counts failures, backing off exponentially and abandoning a row after
//! [`MAX_WRITE_BACK_ATTEMPTS`] failures.  Without a configured gateway the
//! feature is off and every operation is a no-op.
use vstd::prelude::*;

use crate::text::{lemma_pow2_mono, pow2};

verus! {

/// Consecutive failures after which a row is abandoned.
pub const MAX_WRITE_BACK_ATTEMPTS: u32 = 5;
/// Rows processed per flush.
pub const MAX_FLUSH_BATCH_SIZE: i64 = 20;
/// Longest back-off between two attempts, in minutes (4 h).
pub const MAX_WRITE_BACK_BACKOFF_MINUTES: i64 = 240;

/// A queued write-back row.
#[derive(Debug)]
pub struct PendingSheetWrite {
    pub id: i64,
    pub employee_id: i64,
    pub telegram_id: i64,
    pub full_name: String,
    pub telegram_username: Option<String>,
    pub error_count: u32,
}

/// The write-back use case over a queue store `R` and an optional
/// spreadsheet gateway `G`.
pub struct SheetsWriteBackUseCase<R, G> {
    sync_repository: R,
    /// `None` when write-back is not configured.
    gateway: Option<G>,
}

impl<R, G> SheetsWriteBackUseCase<R, G> {
    pub closed spec fn spec_enabled(&self) -> bool {
        self.gateway is Some
    }

    pub closed spec fn spec_sync_repository(&self) -> R {
        self.sync_repository
    }

    /// A use case that writes back through `gateway`.
    pub fn new(sync_repository: R, gateway: G) -> (r: Self)
        ensures
            r.spec_enabled(),
            r.spec_sync_repository() == sync_repository,
    {
        SheetsWriteBackUseCase { sync_repository, gateway: Some(gateway) }
    }

    /// A use case with write-back switched off.
    pub fn disabled(sync_repository: R) -> (r: Self)
        ensures
            !r.spec_enabled(),
            r.spec_sync_repository() == sync_repository,
    {
        SheetsWriteBackUseCase { sync_repository, gateway: None }
    }

    /// Whether rows are queued and flushed at all.
    pub fn is_enabled(&self) -> (r: bool)
        ensures
            r == self.spec_enabled(),
    {
        self.gateway.is_some()
    }

    pub fn sync_repository(&self) -> (r: &R)
        ensures
            *r == self.spec_sync_repository(),
    {
        &self.sync_repository
    }

    pub fn gateway(&self) -> (r: Option<&G>)
        ensures
            (r is Some) == self.spec_enabled(),
    {
        match &self.gateway {
            Some(g) => Some(g),
            None => None,
        }
    }

    pub closed spec fn spec_gateway(&self) -> Option<G> {
        self.gateway
    }

    /// The store an `enqueue` writes to: none when write-back is off.
    pub open spec fn spec_enqueue_target(&self) -> Option<R> {
        if self.spec_enabled() { Some(self.spec_sync_repository()) } else { None }
    }

    /// The store and gateway a `flush` works through: none when write-back
    /// is off.
    pub open spec fn spec_flush_targets(&self) -> Option<(R, G)> {
        match self.spec_gateway() {
            Some(g) => Some((self.spec_sync_repository(), g)),
            None => None,
        }
    }

    /// Where to queue a row; `None` means the enqueue is a no-op.
    pub fn enqueue_target(&self) -> (r: Option<&R>)
        ensures
            match self.spec_enqueue_target() {
                Some(repo) => r matches Some(x) && *x == repo,
                None => r is None,
            },
    {
        match &self.gateway {
            Some(_) => Some(&self.sync_repository),
            None => None,
        }
    }

    /// What a flush reads and appends through; `None` means the flush is a
    /// no-op.
    pub fn flush_targets(&self) -> (r: Option<(&R, &G)>)
        ensures
            match self.spec_flush_targets() {
                Some((repo, gateway)) => r matches Some((x, y)) && *x == repo && *y == gateway,
                None => r is None,
            },
    {
        match &self.gateway {
            Some(g) => Some((&self.sync_repository, g)),
            None => None,
        }
    }
}

/// With write-back switched off, enqueue and flush touch neither the queue
/// store nor any gateway: both are no-ops.
pub proof fn disabled_write_back_makes_no_calls<R, G>(s: SheetsWriteBackUseCase<R, G>)
    requires
        !s.spec_enabled(),
    ensures
        s.spec_enqueue_target() is None,
        s.spec_flush_targets() is None,
{
}

/// What happened to one row of a flush.
#[derive(Debug, Clone, Copy, PartialEq, Eq, Structural)]
pub enum WriteBackStep {
    /// Appended: stamp the row as written.
    MarkWritten,
    /// Failed: record the error; `abandoned` when this was the last attempt.
    RecordError { error_count: u32, abandoned: bool },
}

/// The step for a row after the gateway answered.
/// The failure count after one more failure, held at the counter's top.
pub open spec fn next_error_count(error_count: u32) -> u32 {
    if error_count < u32::MAX { (error_count + 1) as u32 } else { u32::MAX }
}

pub fn write_back_step(row: &PendingSheetWrite, appended: bool) -> (r: WriteBackStep)
    ensures
        appended ==> r == WriteBackStep::MarkWritten,
        !appended ==> r == (WriteBackStep::RecordError {
            error_count: next_error_count(row.error_count),
            abandoned: next_error_count(row.error_count) >= MAX_WRITE_BACK_ATTEMPTS,
        }),
{
    if appended {
        WriteBackStep::MarkWritten
    } else {
        let error_count = if row.error_count < u32::MAX { row.error_count + 1 } else { u32::MAX };
        WriteBackStep::RecordError { error_count, abandoned: error_count >= MAX_WRITE_BACK_ATTEMPTS }
    }
}

/// Back-off before the next attempt after `error_count` failures:
/// `2^error_count` minutes, at most four hours.
pub open spec fn backoff_minutes(error_count: nat) -> int {
    if pow2(error_count) < MAX_WRITE_BACK_BACKOFF_MINUTES { pow2(error_count) } else { MAX_WRITE_BACK_BACKOFF_MINUTES as int }
}

pub fn retry_delay_minutes(error_count: u32) -> (r: i64)
    ensures
        r == backoff_minutes(error_count as nat),
{
    let mut value: i64 = 1;
    let mut k: u32 = 0;
    while k < error_count && value < MAX_WRITE_BACK_BACKOFF_MINUTES
        invariant
            k <= error_count,
            value == pow2(k as nat),
            1 <= value <= 2 * MAX_WRITE_BACK_BACKOFF_MINUTES,
        decreases error_count - k,
    {
        value = value * 2;
        k = k + 1;
    }
    proof {
        if k < error_count {
            lemma_pow2_mono(k as nat, error_count as nat);
        }
    }
    if value < MAX_WRITE_BACK_BACKOFF_MINUTES { value } else { MAX_WRITE_BACK_BACKOFF_MINUTES }
}

/// The back-off never shrinks as failures accumulate, and never exceeds
/// four hours.
pub proof fn backoff_is_monotone_and_capped(a: nat, b: nat)
    requires
        a <= b,
    ensures
        backoff_minutes(a) <= backoff_minutes(b),
        1 <= backoff_minutes(b) <= MAX_WRITE_BACK_BACKOFF_MINUTES,
{
    lemma_pow2_mono(a, b);
}

} // verus!
