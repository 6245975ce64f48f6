pub mod process_recurrence_rules;
pub mod update_sla_states;
pub mod assignee_resolution;
pub mod create_task_from_message;
pub mod bootstrap_admins;
pub mod enqueue_daily_summaries;
pub mod register_user;
pub mod onboarding;
pub mod sheets_write_back;
pub mod search_tasks;
pub mod list_tasks;
pub mod get_task_status;
pub mod update_task_status;
pub mod admin;
pub mod process_notifications;
pub mod seed_aliases;
pub mod collect_stats;
pub mod enqueue_task_reminders;
pub mod reassign_task;
pub mod report_task_blocker;
pub mod add_task_comment;
