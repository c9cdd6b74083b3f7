//! The `Pass` state: passes its input on, by way of its `Assign` and its `Output`.

use vstd::prelude::*;

use crate::asl::{PassState, State};

verus! {

/// Builds the handler of a `Pass`.
pub struct PassStateHandlerFactory;

impl PassStateHandlerFactory {
    /// An empty definition of the state that this factory serves.
    pub fn state(&self) -> (r: State)
        ensures
            r is Pass,
    {
        State::Pass(
            PassState { comment: None, output: None, assign: None, next: None, end: None },
        )
    }

    /// The handler bound to `state`, which must be a `Pass`.
    pub fn create<'a>(&self, state: &'a State) -> (r: PassStateHandler<'a>)
        requires
            state is Pass,
        ensures
            *state == State::Pass(*r.state),
    {
        match state {
            State::Pass(s) => PassStateHandler { state: s },
            _ => PassStateHandler { state: vstd::pervasive::unreached() },
        }
    }
}

/// The handler of one `Pass`.
pub struct PassStateHandler<'a> {
    pub state: &'a PassState,
}

} // verus!
