//! An execution engine for state machines in the Amazon States Language.
//!
//! A run is a chain of causes. A [`types::command::Command`] is dispatched to its handler, which emits
//! [`types::event::Event`]s and further commands; they are appended to the log as one batch, closed by a
//! marker. The [`storage::store::Store`] is the fold of the events, and of nothing else: whoever reads the
//! log can rebuild it.
//!
//! Everything here is a function of its arguments. The instant of a dispatch and the next uid are
//! arguments; so is the table of expressions that have been evaluated. A dispatch that needs an
//! evaluation it does not have says so, and is run again with the answer.
//!
//! - `asl`, `value`, `number`, `text`, `id` and `types` hold the data.
//! - `storage`, `applier` and `query` hold the store, the fold, and reads.
//! - `handler`, `handlers` and `eval_env` hold the handlers of commands, and of the steps of states.
//! - `log`, `leader`, `follower`, `processing` and `stream_processor` drive a log.
//! - `node` holds the tree of nodes by id.
//! - `hook`, `scheduler`, `job_api`, `result` and `trace` face the outside.
//! - `laws` holds what all of this promises, told of inputs and results.

pub mod applier;
pub mod asl;
pub mod eval_env;
pub mod follower;
pub mod handler;
pub mod handlers;
pub mod hook;
pub mod id;
pub mod job_api;
pub mod laws;
pub mod leader;
pub mod log;
pub mod node;
pub mod number;
pub mod processing;
pub mod query;
pub mod result;
pub mod scheduler;
pub mod storage;
pub mod stream_processor;
pub mod text;
pub mod trace;
pub mod types;
pub mod value;
