//! The seam for observers.

use vstd::prelude::*;

use crate::id::RequestId;
use crate::types::event::Event;
use crate::types::reject::Reject;

verus! {

/// Observes what the engine has established. An observer learns of facts after they are durable; it
/// directs nothing, and what it does not care for it leaves out.
pub trait Hook {
    /// An event was applied, and the batch that it is in was committed.
    fn on_event_applied(&self, event: &Event) {
    }

    /// A command that a client awaits was refused.
    fn on_command_rejected(&self, request_id: RequestId, reject: &Reject) {
    }
}

} // verus!
