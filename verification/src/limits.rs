//! Product limits shared by the domain rules.
use vstd::prelude::*;

verus! {

pub const MIN_TASK_STEPS: usize = 1;
pub const MAX_TASK_STEPS: usize = 7;
pub const MAX_ACCEPTANCE_CRITERIA: usize = 10;
pub const MAX_TASK_TITLE_LENGTH: usize = 100;
pub const MAX_TASK_EXPECTED_RESULT_LENGTH: usize = 500;
pub const MAX_TASK_STEP_LENGTH: usize = 300;
pub const MAX_TASK_ACCEPTANCE_CRITERION_LENGTH: usize = 300;
pub const MAX_TASK_BLOCKER_REASON_LENGTH: usize = 500;
pub const MAX_TASK_COMMENT_LENGTH: usize = 1000;
pub const MAX_MESSAGE_LENGTH: usize = 4096;
pub const MAX_TRANSCRIPT_LENGTH: usize = 4000;
pub const MIN_TASK_DESCRIPTION_LENGTH: usize = 10;
pub const MANAGER_INBOX_STALE_DAYS: i64 = 3;
pub const DEFAULT_PAGE_SIZE: u32 = 10;
pub const MAX_PAGE_SIZE: u32 = 50;
/// Minimum normalised Levenshtein similarity, in percent, for a fuzzy
/// employee-name suggestion.
pub const MIN_EMPLOYEE_MATCH_SIMILARITY_PERCENT: u64 = 70;

/// Tasks counted in one daily summary.
pub const MAX_DAILY_SUMMARY_TASKS: usize = 20;
/// Tasks named in the preview of a daily summary.
pub const MAX_DAILY_SUMMARY_PREVIEW_TASKS: usize = 5;
/// Open tasks scanned per summary recipient slot.
pub const DAILY_SUMMARY_OPEN_TASK_SCAN_MULTIPLIER: usize = 10;
/// Recent comments shown with a task's details.
pub const MAX_TASK_CONTEXT_PREVIEW_COMMENTS: usize = 5;

} // verus!
