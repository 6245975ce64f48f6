//! Task-intake bot core: domain model, policies and the pure decisions of the
//! application use cases, with their contracts proved by Verus.
pub mod application;
pub mod config;
pub mod domain;
pub mod limits;
pub mod text;
pub mod task_codes;
pub mod time;
