use vstd::prelude::*;

use crate::domain::errors::{ctx_empty, ctx_one, AppError, AppResult, ContextValue, ErrorKind};
use crate::limits::MAX_TASK_COMMENT_LENGTH;
use crate::text::{string_of, trim, trim_str};
use crate::time::Timestamp;

verus! {

#[derive(Debug, Clone, Copy, PartialEq, Eq, Structural)]
pub enum CommentKind {
    Context,
    Blocker,
    System,
}

#[derive(Debug)]
pub struct TaskComment {
    pub id: Option<i64>,
    pub task_id: i64,
    pub author_user_id: i64,
    pub kind: CommentKind,
    pub body: String,
    pub created_at: Timestamp,
}

impl TaskComment {
    /// A comment with its body trimmed.  An empty body fails with
    /// `TASK_COMMENT_EMPTY`, one over `MAX_TASK_COMMENT_LENGTH` characters
    /// with `TASK_COMMENT_TOO_LONG`.
    pub fn new(task_id: i64, author_user_id: i64, kind: CommentKind, body: &str, created_at: Timestamp) -> (r: AppResult<TaskComment>)
        ensures
            r is Ok <==> 0 < trim(body@).len() <= MAX_TASK_COMMENT_LENGTH,
            r matches Ok(c) ==> c.id is None && c.task_id == task_id && c.author_user_id == author_user_id
                && c.kind == kind && c.body@ == trim(body@) && c.created_at == created_at,
            r matches Err(e) ==> e.kind() == ErrorKind::Validation && e.code_view() == (
                if trim(body@).len() == 0 { "TASK_COMMENT_EMPTY"@ } else { "TASK_COMMENT_TOO_LONG"@ }),
            r matches Err(e) ==> e.message_view() == (
                if trim(body@).len() == 0 { "Task comment cannot be empty"@ } else { "Task comment is too long"@ }),
    {
        let normalized = trim_str(body);
        if normalized.len() == 0 {
            return Err(AppError::business_rule(
                "TASK_COMMENT_EMPTY",
                String::from_str("Task comment cannot be empty"),
                ctx_empty(),
            ));
        }
        if normalized.len() > MAX_TASK_COMMENT_LENGTH {
            return Err(AppError::business_rule(
                "TASK_COMMENT_TOO_LONG",
                String::from_str("Task comment is too long"),
                ctx_one("limit", ContextValue::Int(MAX_TASK_COMMENT_LENGTH as i64)),
            ));
        }
        Ok(TaskComment {
            id: None,
            task_id,
            author_user_id,
            kind,
            body: string_of(normalized.as_slice()),
            created_at,
        })
    }
}

} // verus!
