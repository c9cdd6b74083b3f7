//! The vocabulary of the engine: objects, commands, events and the entries of the log.

pub mod activity;
pub mod command;
pub mod context;
pub mod entry;
pub mod error;
pub mod event;
pub mod execution;
pub mod flow;
pub mod meta;
pub mod reject;
pub mod shown;
pub mod state_path;
pub mod status;
pub mod task;
pub mod thread;
pub mod timer;
