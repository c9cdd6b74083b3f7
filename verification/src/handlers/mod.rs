//! What each command does.

pub mod activate_state;
pub mod activate_task;
pub mod assign_task;
pub mod cancel_task;
pub mod cancel_timer;
pub mod child_completed;
pub mod complete_execution;
pub mod complete_state;
pub mod complete_task;
pub mod complete_thread;
pub mod continue_;
pub mod create_execution;
pub mod create_flow;
pub mod dispatch;
pub mod fail_task;
pub mod lifecycle;
pub mod phases;
pub mod process_child_completed;
pub mod release_task_lease;
pub mod replay;
pub mod resolve;
pub mod shared;
pub mod spawn_thread;
pub mod state_handler;
pub mod states;
pub mod terminate_execution;
pub mod terminate_state;
pub mod terminate_thread;
pub mod trigger_timer;
