//! Refusals.

use vstd::prelude::*;

use crate::id::RequestId;

verus! {

/// Why a command was refused.
#[derive(Clone, Copy, Debug, PartialEq, Eq, Structural)]
pub enum RejectionType {
    NotFound,
    InvalidState,
    StateConflict,
    ProcessingError,
    AlreadyExists,
    InvalidArgument,
}

impl View for RejectionType {
    type V = RejectionType;

    open spec fn view(&self) -> RejectionType {
        *self
    }
}

impl DeepView for RejectionType {
    type V = RejectionType;

    open spec fn deep_view(&self) -> RejectionType {
        self.view()
    }
}

/// The record of a refused command.
#[derive(Debug, PartialEq, Eq)]
pub struct Reject {
    pub request_id: RequestId,
    pub rejection_type: RejectionType,
    pub rejection_reason: String,
}

/// What a [`Reject`] holds.
pub struct RejectView {
    pub request_id: RequestId,
    pub rejection_type: RejectionType,
    pub rejection_reason: Seq<char>,
}

impl View for Reject {
    type V = RejectView;

    open spec fn view(&self) -> RejectView {
        RejectView {
            request_id: self.request_id,
            rejection_type: self.rejection_type,
            rejection_reason: self.rejection_reason@,
        }
    }
}

impl DeepView for Reject {
    type V = RejectView;

    open spec fn deep_view(&self) -> RejectView {
        self.view()
    }
}

impl Clone for Reject {
    fn clone(&self) -> (r: Self)
        ensures
            r@ == self@,
    {
        Reject {
            request_id: self.request_id,
            rejection_type: self.rejection_type,
            rejection_reason: self.rejection_reason.clone(),
        }
    }
}

} // verus!
