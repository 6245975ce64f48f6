//! Plain data exchanged with the persistence and service adapters.  The
//! adapters themselves live outside the verified library.
use vstd::prelude::*;

use crate::domain::task::draft::StructuredTaskDraft;
use crate::domain::task::entity::{Task, TaskUid};
use crate::domain::user::User;
use crate::domain::voice::VoiceProcessingRecord;
use crate::time::{Date, Timestamp};

verus! {

/// Result of an idempotent insert: the new row, or the one already there.
#[derive(Debug)]
pub enum PersistedTask {
    Created(Task),
    Existing(Task),
}

/// Result of promoting a bootstrap administrator.
#[derive(Debug)]
pub enum BootstrapPromotion {
    Elevated(User),
    AlreadyAdmin(User),
}

/// The kind of directory row that owns a set of person trigrams.
#[derive(Debug, Clone, Copy, PartialEq, Eq, Hash, Structural)]
pub enum PersonTrigramOwnerKind {
    Employee,
    User,
}

impl PersonTrigramOwnerKind {
    pub open spec fn spec_as_code(self) -> Seq<char> {
        match self {
            PersonTrigramOwnerKind::Employee => "employee"@,
            PersonTrigramOwnerKind::User => "user"@,
        }
    }

    pub fn as_code(self) -> (r: &'static str)
        ensures
            r@ == self.spec_as_code(),
    {
        match self {
            PersonTrigramOwnerKind::Employee => "employee",
            PersonTrigramOwnerKind::User => "user",
        }
    }
}

/// Outcome of a compare-and-swap state transition of a voice record.
#[derive(Debug)]
pub enum VoiceTransitionOutcome {
    Transitioned(VoiceProcessingRecord),
    StaleExpectedState,
    NotFound,
    InvalidTransition,
}

/// The deadline-related columns of an active task, scanned by the SLA worker.
#[derive(Debug)]
pub struct SlaTaskRow {
    pub id: i64,
    pub task_uid: TaskUid,
    pub title: String,
    pub deadline: Date,
    pub created_at: Timestamp,
    pub assigned_to_user_id: Option<i64>,
    /// Persisted SLA state code; `None` when never written.
    pub current_sla_state: Option<String>,
    /// Last escalation level recorded (0 = none fired yet).
    pub sla_last_level: i32,
}

/// A recurrence rule as stored: the expression and zone are unchecked text.
#[derive(Debug)]
pub struct RecurrenceRuleRow {
    pub id: i64,
    pub template_id: Option<i64>,
    pub owner_user_id: i64,
    pub cron_expression: String,
    pub timezone: String,
}

/// A template row as stored; `body` is the encoded template body.
#[derive(Debug)]
pub struct TaskTemplateRow {
    pub id: i64,
    pub code: String,
    pub title: String,
    pub body: String,
    pub created_by_user_id: Option<i64>,
}

/// What the task generator returned for a message.
#[derive(Debug)]
pub struct GeneratedTask {
    pub model_name: String,
    pub raw_response: String,
    pub structured_task: StructuredTaskDraft,
}

} // verus!
