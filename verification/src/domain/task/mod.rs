//! Domain aggregate for work items: the status state machine, the AI draft
//! with its validation, and the `Task` aggregate itself.
pub mod draft;
pub mod entity;
pub mod types;

pub use draft::StructuredTaskDraft;
pub use entity::{Task, TaskStats, TaskView};
pub use types::{MessageType, TaskPriority, TaskStatus};
