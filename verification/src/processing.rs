//! The role that a stream processor plays.

use vstd::prelude::*;
use vstd::string::*;

use crate::eval_env::{Question, QuestionView};
use crate::follower::Follower;
use crate::leader::Leader;
use crate::storage::store::{Store, StoreView};
use crate::types::entry::{Entry, EntryView};

verus! {

/// The role: one that decides, or one that only replicates.
#[derive(Debug, PartialEq, Eq)]
pub enum StateMachine {
    Leader(Leader),
    Follower(Follower),
}

/// The name of a role.
pub open spec fn role_label(role: StateMachine) -> Seq<char> {
    match role {
        StateMachine::Leader(_) => "leader"@,
        StateMachine::Follower(_) => "follower"@,
    }
}

impl StateMachine {
    /// The name of the role.
    pub fn label(&self) -> (r: &'static str)
        ensures
            r@ == role_label(*self),
    {
        match self {
            StateMachine::Leader(_) => "leader",
            StateMachine::Follower(_) => "follower",
        }
    }
}

/// What processing a command gives: the entries to write, the store with their events folded in, and
/// the question that must be answered first, if there is one.
#[derive(Debug, PartialEq, Eq)]
pub struct CommandProcessed {
    pub entries: Vec<Entry>,
    pub work: Store,
    pub question: Option<Question>,
}

/// What a [`CommandProcessed`] holds.
pub struct CommandProcessedView {
    pub entries: Seq<EntryView>,
    pub work: StoreView,
    pub question: Option<QuestionView>,
}

impl View for CommandProcessed {
    type V = CommandProcessedView;

    open spec fn view(&self) -> CommandProcessedView {
        CommandProcessedView {
            entries: self.entries.deep_view(),
            work: self.work@,
            question: self.question.deep_view(),
        }
    }
}

} // verus!
