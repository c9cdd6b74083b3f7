//! The projection of the log: one row per object.

pub mod activity;
pub mod counter;
pub mod execution;
pub mod listing;
pub mod order;
pub mod projection;
pub mod scope;
pub mod store;
pub mod task;
pub mod thread;
pub mod timer;
pub mod validity;
