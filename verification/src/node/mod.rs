//! The tree of nodes by id: the executions, activities, timers and tasks of one machine, the store that
//! holds them, and the handlers that arm and fire timers, fan out branches and drain owners.

pub mod activate_timer;
pub mod child_finalized;
pub mod complete_timer;
pub mod outbox;
pub mod processor;
pub mod spawn_branch;
pub mod storage;
