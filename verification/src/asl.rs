//! State machine definitions: the part of the Amazon States Language that the engine runs.
//!
//! A definition is only ever read, so contracts speak of these types as they are.

use vstd::prelude::*;

use crate::types::task::RetryPolicy;
use crate::value::{Member, Value};

verus! {

/// A machine: the states of its top-level table, and the one it starts in.
#[derive(Debug, PartialEq, Eq)]
pub struct StateMachine {
    pub start_at: String,
    pub states: Vec<NamedState>,
    pub timeout_seconds: Option<i64>,
}

/// One entry of a `States` table.
#[derive(Debug, PartialEq, Eq)]
pub struct NamedState {
    pub name: String,
    pub state: State,
}

/// A state.
#[derive(Debug, PartialEq, Eq)]
pub enum State {
    Pass(PassState),
    Choice(ChoiceState),
    Succeed(SucceedState),
    Fail(FailState),
    Wait(WaitState),
    Task(TaskState),
    Parallel(ParallelState),
    ItemMap(MapState),
}

/// What an `Assign` binds: an object whose members are evaluated.
#[derive(Debug, PartialEq, Eq)]
pub struct AssignObject(pub Vec<Member>);

/// An integer, or an expression that gives one.
#[derive(Debug, PartialEq, Eq)]
pub enum IntOrExpr {
    Int(i64),
    Expr(String),
}

#[derive(Debug, Default, PartialEq, Eq)]
pub struct PassState {
    pub comment: Option<String>,
    pub output: Option<Value>,
    pub assign: Option<AssignObject>,
    pub next: Option<String>,
    pub end: Option<bool>,
}

/// When a rule of a `Choice` matches.
#[derive(Debug, PartialEq, Eq)]
pub enum ChoiceCondition {
    Bool(bool),
    Expr(String),
}

#[derive(Debug, PartialEq, Eq)]
pub struct ChoiceRule {
    pub condition: Option<ChoiceCondition>,
    pub next: String,
    pub assign: Option<AssignObject>,
    pub output: Option<Value>,
}

#[derive(Debug, Default, PartialEq, Eq)]
pub struct ChoiceState {
    pub comment: Option<String>,
    pub output: Option<Value>,
    pub assign: Option<AssignObject>,
    pub default: Option<String>,
    pub choices: Vec<ChoiceRule>,
}

#[derive(Debug, Default, PartialEq, Eq)]
pub struct SucceedState {
    pub comment: Option<String>,
    pub output: Option<Value>,
}

#[derive(Debug, Default, PartialEq, Eq)]
pub struct FailState {
    pub comment: Option<String>,
    pub cause: Option<String>,
    pub error: Option<String>,
}

/// The instant at which a `Wait` resumes, in RFC 3339, or an expression that gives one.
#[derive(Debug, PartialEq, Eq)]
pub enum WaitTimestamp {
    Literal(String),
    Expr(String),
}

#[derive(Debug, Default, PartialEq, Eq)]
pub struct WaitState {
    pub comment: Option<String>,
    pub output: Option<Value>,
    pub assign: Option<AssignObject>,
    pub next: Option<String>,
    pub end: Option<bool>,
    pub seconds: Option<IntOrExpr>,
    pub timestamp: Option<WaitTimestamp>,
}

/// What happens on an error that no retry is left for.
#[derive(Debug, PartialEq, Eq)]
pub struct Catcher {
    pub error_equals: Vec<String>,
    pub next: String,
    pub assign: Option<AssignObject>,
    pub output: Option<Value>,
}

#[derive(Debug, Default, PartialEq, Eq)]
pub struct TaskState {
    pub comment: Option<String>,
    pub output: Option<Value>,
    pub assign: Option<AssignObject>,
    pub next: Option<String>,
    pub end: Option<bool>,
    pub resource: String,
    pub arguments: Option<Value>,
    pub timeout_seconds: Option<IntOrExpr>,
    /// The retriers, each with the ladder of its delays.
    pub retry: Vec<RetryPolicy>,
    pub catch: Vec<Catcher>,
}

/// One branch of a `Parallel`.
#[derive(Debug, PartialEq, Eq)]
pub struct Branch {
    pub start_at: String,
    pub states: Vec<NamedState>,
}

#[derive(Debug, PartialEq, Eq)]
pub struct ParallelState {
    pub comment: Option<String>,
    pub output: Option<Value>,
    pub assign: Option<AssignObject>,
    pub next: Option<String>,
    pub end: Option<bool>,
    pub branches: Vec<Branch>,
    pub arguments: Option<Value>,
}

/// The machine that a `Map` runs for each of its items.
#[derive(Debug, PartialEq, Eq)]
pub struct ItemProcessor {
    pub start_at: String,
    pub states: Vec<NamedState>,
}

/// The items of a `Map`, or an expression that gives them.
#[derive(Debug, PartialEq, Eq)]
pub enum MapItems {
    Array(Vec<Value>),
    Expr(String),
}

#[derive(Debug, PartialEq, Eq)]
pub struct MapState {
    pub comment: Option<String>,
    pub output: Option<Value>,
    pub assign: Option<AssignObject>,
    pub next: Option<String>,
    pub end: Option<bool>,
    pub item_processor: Option<ItemProcessor>,
    pub items: Option<MapItems>,
    pub max_concurrency: Option<IntOrExpr>,
}

/// What every state of a definition that can be run satisfies: a `Wait` says when it resumes in
/// exactly one way, here and in every table below.
pub open spec fn state_valid(state: State) -> bool
    decreases state,
{
    match state {
        State::Wait(w) => w.seconds is Some <==> w.timestamp is None,
        State::Parallel(p) => forall|i: int, j: int|
            #![trigger p.branches@[i].states@[j]]
            0 <= i < p.branches@.len() && 0 <= j < p.branches@[i].states@.len() ==> state_valid(
                p.branches@[i].states@[j].state,
            ),
        State::ItemMap(m) => match m.item_processor {
            Some(p) => forall|j: int|
                #![trigger p.states@[j]]
                0 <= j < p.states@.len() ==> state_valid(p.states@[j].state),
            None => true,
        },
        _ => true,
    }
}

/// Every state of the table is valid.
pub open spec fn table_valid(table: Seq<NamedState>) -> bool {
    forall|j: int| #![trigger table[j]] 0 <= j < table.len() ==> state_valid(table[j].state)
}

/// Every state of the machine is valid.
pub open spec fn machine_valid(sm: StateMachine) -> bool {
    table_valid(sm.states@)
}

/// Whether every state of the table is valid.
fn check_table(table: &Vec<NamedState>) -> (r: bool)
    ensures
        r == table_valid(table@),
    decreases table,
{
    let mut i: usize = 0;
    while i < table.len()
        invariant
            i <= table.len(),
            forall|j: int| 0 <= j < i ==> state_valid((#[trigger] table@[j]).state),
        decreases table.len() - i,
    {
        proof {
            broadcast use vstd::std_specs::vec::axiom_vec_index_decreases;

            assert(decreases_to!(*table => table[i as int]));
            assert(decreases_to!(table[i as int] => table[i as int].state));
        }
        if !check_state(&table[i].state) {
            return false;
        }
        i += 1;
    }
    true
}

/// Whether a state is valid.
fn check_state(state: &State) -> (r: bool)
    ensures
        r == state_valid(*state),
    decreases state,
{
    match state {
        State::Wait(w) => w.seconds.is_some() == w.timestamp.is_none(),
        State::Parallel(p) => {
            let mut i: usize = 0;
            while i < p.branches.len()
                invariant
                    i <= p.branches.len(),
                    *state == State::Parallel(*p),
                    forall|k: int| 0 <= k < i ==> table_valid((#[trigger] p.branches@[k]).states@),
                decreases p.branches.len() - i,
            {
                proof {
                    broadcast use vstd::std_specs::vec::axiom_vec_index_decreases;

                    assert(decreases_to!(*state => (*state)->Parallel_0));
                    assert(decreases_to!(*p => p.branches));
                    assert(decreases_to!(p.branches => p.branches[i as int]));
                    assert(decreases_to!(p.branches[i as int] => p.branches[i as int].states));
                }
                if !check_table(&p.branches[i].states) {
                    return false;
                }
                i += 1;
            }
            assert forall|i: int, j: int|
                #![trigger p.branches@[i].states@[j]]
                0 <= i < p.branches@.len() && 0 <= j
                    < p.branches@[i].states@.len() implies state_valid(
                p.branches@[i].states@[j].state,
            ) by {
                assert(table_valid(p.branches@[i].states@));
            }
            true
        },
        State::ItemMap(m) => match &m.item_processor {
            Some(p) => {
                proof {
                    assert(decreases_to!(*state => (*state)->ItemMap_0));
                    assert(decreases_to!(*m => m.item_processor));
                    assert(decreases_to!(m.item_processor => m.item_processor->0));
                    assert(decreases_to!(*p => p.states));
                }
                check_table(&p.states)
            },
            None => true,
        },
        _ => true,
    }
}

impl StateMachine {
    /// Whether every state of the machine is valid, in every table of it.
    pub fn validate(&self) -> (r: bool)
        ensures
            r == machine_valid(*self),
    {
        check_table(&self.states)
    }
}

} // verus!
