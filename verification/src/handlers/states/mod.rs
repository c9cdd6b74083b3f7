//! The states.

pub mod choice;
pub mod common;
pub mod fail;
pub mod harness;
pub mod map;
pub mod parallel;
pub mod pass;
pub mod succeed;
pub mod task;
pub mod wait;
