//! The `Succeed` state: ends its thread with its output.

use vstd::prelude::*;

use crate::asl::{SucceedState, State};

verus! {

/// Builds the handler of a `Succeed`.
pub struct SucceedStateHandlerFactory;

impl SucceedStateHandlerFactory {
    /// An empty definition of the state that this factory serves.
    pub fn state(&self) -> (r: State)
        ensures
            r is Succeed,
    {
        State::Succeed(SucceedState { comment: None, output: None })
    }

    /// The handler bound to `state`, which must be a `Succeed`.
    pub fn create<'a>(&self, state: &'a State) -> (r: SucceedStateHandler<'a>)
        requires
            state is Succeed,
        ensures
            *state == State::Succeed(*r.state),
    {
        match state {
            State::Succeed(s) => SucceedStateHandler { state: s },
            _ => SucceedStateHandler { state: vstd::pervasive::unreached() },
        }
    }
}

/// The handler of one `Succeed`.
pub struct SucceedStateHandler<'a> {
    pub state: &'a SucceedState,
}

} // verus!
