//! Finding things: the machine of a version, and the state at a path.

use vstd::prelude::*;

use crate::asl::{
    machine_valid, state_valid, MapState, NamedState, ParallelState, State, StateMachine,
};
use crate::handler::{lemma_definition_position, machine_of, HandlerContext};
use crate::handlers::resolve::{
    scope_state, state_at, state_for, state_in, state_position, token_index, walk,
};
use crate::storage::execution::ExecutionRecordView;
use crate::storage::scope::{machine_for, ScopeRecordView};
use crate::storage::store::StoreView;
use crate::storage::thread::ThreadRecordView;
use crate::text::{decimal, digits_value, law_decimal_round_trip};
use crate::types::error::{ExecutionErrorView, RuntimeErrorView};
use crate::types::meta::{reference_text, ObjectReferenceView};

verus! {

/// The machine of a version is that of the first definition of that version; a version without a definition
/// is not found.
pub proof fn law_machine_is_that_of_the_version(
    ctx: HandlerContext,
    version: ObjectReferenceView,
    i: int,
)
    requires
        forall|j: int| 0 <= j < i ==> (#[trigger] ctx.definitions@[j]).version@ != version,
    ensures
        0 <= i < ctx.definitions@.len() && ctx.definitions@[i].version@ == version ==> machine_of(
            ctx,
            version,
        ) == Ok::<_, ExecutionErrorView>(ctx.definitions@[i].machine),
        i == ctx.definitions@.len() ==> machine_of(ctx, version) == Err::<StateMachine, _>(
            ExecutionErrorView::Runtime(
                RuntimeErrorView::StateNotFound("flow version "@ + reference_text(version)),
            ),
        ),
{
    if 0 <= i < ctx.definitions@.len() && ctx.definitions@[i].version@ == version {
        lemma_definition_position(ctx.definitions@, version, i);
    }
    if i == ctx.definitions@.len() {
        lemma_definition_position(ctx.definitions@, version, i);
    }
}

/// A scope runs the machine of the version that its execution was created with.
pub proof fn law_scope_runs_the_machine_of_its_execution(
    ctx: HandlerContext,
    s: StoreView,
    thread: ThreadRecordView,
    execution: ExecutionRecordView,
)
    ensures
        machine_for(ctx, s, ScopeRecordView::Execution(execution)) == machine_of(
            ctx,
            execution.value.flow_version,
        ),
        s.execution(thread.value.execution) == Ok::<_, ExecutionErrorView>(Some(execution))
            ==> machine_for(ctx, s, ScopeRecordView::Thread(thread)) == machine_of(
            ctx,
            execution.value.flow_version,
        ),
        s.execution(thread.value.execution) matches Ok(None) ==> machine_for(
            ctx,
            s,
            ScopeRecordView::Thread(thread),
        ) is Err,
{
}

proof fn lemma_position(table: Seq<NamedState>, name: Seq<char>, i: int)
    requires
        0 <= i <= table.len(),
        i < table.len() ==> table[i].name@ == name,
        forall|j: int| 0 <= j < i ==> (#[trigger] table[j]).name@ != name,
    ensures
        state_position(table, name) == i,
    decreases table.len(),
{
    if i > 0 {
        assert(table[0].name@ != name);
        let rest = table.drop_first();
        assert forall|j: int| 0 <= j < i - 1 implies (#[trigger] rest[j]).name@ != name by {
            assert(rest[j] == table[j + 1]);
        }
        if i < table.len() {
            assert(rest[i - 1] == table[i]);
        }
        lemma_position(rest, name, i - 1);
    }
}

/// A state is found in a table by its name, and one that the table does not have is not found.
pub proof fn law_state_is_found_by_name(table: Vec<NamedState>, name: Seq<char>, i: int)
    requires
        forall|j: int| 0 <= j < i ==> (#[trigger] table@[j]).name@ != name,
    ensures
        0 <= i < table@.len() && table@[i].name@ == name ==> state_in(table, name) == Ok::<
            _,
            ExecutionErrorView,
        >(table@[i].state),
        i == table@.len() ==> state_in(table, name) == Err::<State, _>(
            ExecutionErrorView::Runtime(RuntimeErrorView::StateNotFound(name)),
        ),
{
    if 0 <= i < table@.len() && table@[i].name@ == name {
        lemma_position(table@, name, i);
    }
    if i == table@.len() {
        lemma_position(table@, name, i);
    }
}

/// A top-level state is found in the table of the machine.
pub proof fn law_top_level_state_is_found(sm: StateMachine, name: Seq<char>)
    ensures
        state_at(sm, seq!["States"@, name]) == state_in(sm.states, name),
        state_for(sm, None, name) == state_in(sm.states, name),
        state_for(sm, Some(seq!["States"@]), name) == state_in(sm.states, name),
{
    assert(seq!["States"@, name].last() == name);
}

/// A walk that has reached a table goes on from it.
proof fn lemma_walk_on(
    table: Vec<NamedState>,
    tokens: Seq<Seq<char>>,
    more: Seq<Seq<char>>,
    reached: Vec<NamedState>,
)
    requires
        tokens.len() > 0,
        tokens.last() == "States"@,
        walk(table, tokens) == Ok::<_, ExecutionErrorView>(reached),
        more.len() > 0,
    ensures
        walk(table, tokens + more) == walk(reached, seq!["States"@] + more),
    decreases tokens.len(),
{
    let all = tokens + more;
    assert(all[0] == tokens[0]);
    if tokens.len() == 1 {
        assert(all =~= seq!["States"@] + more);
    } else {
        assert(all[1] == tokens[1]);
        match state_in(table, tokens[1]) {
            Ok(State::Parallel(p)) => {
                assert(all[2] == tokens[2] && all[3] == tokens[3]);
                let index = token_index(tokens[3])->0;
                let inner = p.branches@[index as int].states;
                assert(all.skip(4) =~= tokens.skip(4) + more);
                if tokens.len() == 4 {
                    assert(tokens.skip(4) =~= Seq::empty());
                    assert(tokens.last() == tokens[3]);
                    lemma_states_is_no_index();
                } else {
                    assert(tokens.skip(4).last() == tokens.last());
                    lemma_walk_on(inner, tokens.skip(4), more, reached);
                }
            },
            Ok(State::ItemMap(m)) => {
                assert(all[2] == tokens[2]);
                let inner = m.item_processor->0.states;
                assert(all.skip(3) =~= tokens.skip(3) + more);
                if tokens.len() == 3 {
                    assert(tokens.last() == tokens[2]);
                    reveal_strlit("States");
                    reveal_strlit("ItemProcessor");
                    assert("States"@.len() != "ItemProcessor"@.len());
                } else {
                    assert(tokens.skip(3).last() == tokens.last());
                    lemma_walk_on(inner, tokens.skip(3), more, reached);
                }
            },
            _ => {},
        }
    }
}

proof fn lemma_states_is_no_index()
    ensures
        token_index("States"@) is None,
{
    reveal_strlit("States");
    let s = "States"@;
    assert(s[0] == 'S');
    assert(s.last() == 's');
    assert(digits_value(s) is None);
}

proof fn lemma_decimal_index(i: usize)
    ensures
        token_index(decimal(i as nat)) == Some(i),
{
    let d = decimal(i as nat);
    law_decimal_round_trip(i as nat);
    lemma_decimal_starts_with_a_digit(i as nat);
    assert(d[0] != '+');
}

proof fn lemma_decimal_starts_with_a_digit(n: nat)
    ensures
        decimal(n).len() > 0,
        decimal(n)[0] != '+',
    decreases n,
{
    if n >= 10 {
        lemma_decimal_starts_with_a_digit(n / 10);
        assert(decimal(n)[0] == decimal(n / 10)[0]);
    }
}

/// The states of a branch are found under the path of their `Parallel`, by the number of the branch: in the
/// table of that branch.
pub proof fn law_branch_state_is_found(
    sm: StateMachine,
    table: Seq<Seq<char>>,
    reached: Vec<NamedState>,
    outer: Seq<char>,
    p: ParallelState,
    i: usize,
    name: Seq<char>,
)
    requires
        table.len() > 0,
        table.last() == "States"@,
        walk(sm.states, table) == Ok::<_, ExecutionErrorView>(reached),
        state_in(reached, outer) == Ok::<_, ExecutionErrorView>(State::Parallel(p)),
        i < p.branches@.len(),
    ensures
        ({
            let inner = table + seq![outer, "Branches"@, decimal(i as nat), "States"@];
            &&& walk(sm.states, inner) == Ok::<_, ExecutionErrorView>(
                p.branches@[i as int].states,
            )
            &&& state_at(sm, inner.push(name)) == state_in(p.branches@[i as int].states, name)
            &&& state_for(sm, Some(inner), name) == state_in(p.branches@[i as int].states, name)
        }),
{
    let more = seq![outer, "Branches"@, decimal(i as nat), "States"@];
    let inner = table + more;
    lemma_walk_on(sm.states, table, more, reached);
    lemma_decimal_index(i);
    let tokens = seq!["States"@] + more;
    assert(tokens =~= seq!["States"@, outer, "Branches"@, decimal(i as nat), "States"@]);
    assert(tokens.skip(4) =~= seq!["States"@]);
    assert(walk(p.branches@[i as int].states, seq!["States"@]) == Ok::<_, ExecutionErrorView>(
        p.branches@[i as int].states,
    ));
    assert(inner.push(name).drop_last() =~= inner);
    assert(inner.push(name).last() == name);
}

/// The states of an item are found under the path of their `Map`: in the table of its item processor.
pub proof fn law_item_state_is_found(
    sm: StateMachine,
    table: Seq<Seq<char>>,
    reached: Vec<NamedState>,
    outer: Seq<char>,
    m: MapState,
    name: Seq<char>,
)
    requires
        table.len() > 0,
        table.last() == "States"@,
        walk(sm.states, table) == Ok::<_, ExecutionErrorView>(reached),
        state_in(reached, outer) == Ok::<_, ExecutionErrorView>(State::ItemMap(m)),
        m.item_processor is Some,
    ensures
        ({
            let inner = table + seq![outer, "ItemProcessor"@, "States"@];
            &&& walk(sm.states, inner) == Ok::<_, ExecutionErrorView>(m.item_processor->0.states)
            &&& state_at(sm, inner.push(name)) == state_in(m.item_processor->0.states, name)
            &&& state_for(sm, Some(inner), name) == state_in(m.item_processor->0.states, name)
        }),
{
    let more = seq![outer, "ItemProcessor"@, "States"@];
    let inner = table + more;
    lemma_walk_on(sm.states, table, more, reached);
    let tokens = seq!["States"@] + more;
    assert(tokens =~= seq!["States"@, outer, "ItemProcessor"@, "States"@]);
    assert(tokens.skip(3) =~= seq!["States"@]);
    assert(walk(m.item_processor->0.states, seq!["States"@]) == Ok::<_, ExecutionErrorView>(
        m.item_processor->0.states,
    ));
    assert(inner.push(name).drop_last() =~= inner);
    assert(inner.push(name).last() == name);
}

/// A branch that a `Parallel` does not have is not found, and neither is anything under a state that is no
/// container.
pub proof fn law_paths_that_lead_nowhere(
    sm: StateMachine,
    name: Seq<char>,
    state: State,
    i: usize,
    rest: Seq<Seq<char>>,
)
    requires
        state_in(sm.states, name) == Ok::<_, ExecutionErrorView>(state),
        rest.len() > 0,
    ensures
        state matches State::Parallel(p) && i >= p.branches@.len() ==> walk(
            sm.states,
            seq!["States"@, name, "Branches"@, decimal(i as nat)] + rest,
        ) is Err,
        !(state is Parallel) && !(state is ItemMap) ==> walk(
            sm.states,
            seq!["States"@, name] + rest,
        ) is Err,
{
    lemma_decimal_index(i);
    let a = seq!["States"@, name, "Branches"@, decimal(i as nat)] + rest;
    let b = seq!["States"@, name] + rest;
    assert(a[0] == "States"@ && a[1] == name && a[2] == "Branches"@ && a[3] == decimal(i as nat));
    assert(b[0] == "States"@ && b[1] == name);
}

/// The state of a scope is looked up in the machine that it runs: in the table that a thread runs in, and
/// for an execution in the table of the machine.
pub proof fn law_scope_state_is_looked_up_in_its_table(
    ctx: HandlerContext,
    s: StoreView,
    thread: ThreadRecordView,
    execution: ExecutionRecordView,
    sm: StateMachine,
    name: Seq<char>,
)
    ensures
        machine_for(ctx, s, ScopeRecordView::Thread(thread)) == Ok::<_, ExecutionErrorView>(sm)
            ==> scope_state(ctx, s, ScopeRecordView::Thread(thread), name) == state_for(
            sm,
            Some(thread.value.state_path),
            name,
        ),
        machine_for(ctx, s, ScopeRecordView::Execution(execution)) == Ok::<_, ExecutionErrorView>(
            sm,
        ) ==> scope_state(ctx, s, ScopeRecordView::Execution(execution), name) == state_in(
            sm.states,
            name,
        ),
{
}

/// A `Wait` says when it resumes in exactly one way.
pub open spec fn resumes_one_way(state: State) -> bool {
    state matches State::Wait(w) ==> (w.seconds is Some && w.timestamp is None) || (w.seconds is None
        && w.timestamp is Some)
}

/// In a valid machine every `Wait` says when it resumes in exactly one way, at the top and in the tables of
/// containers; and a machine without containers whose `Wait`s do is valid.
pub proof fn law_valid_machine_resumes_its_waits_one_way(sm: StateMachine, i: int, j: int, k: int)
    ensures
        machine_valid(sm) && 0 <= i < sm.states@.len() ==> {
            &&& resumes_one_way(sm.states@[i].state)
            &&& sm.states@[i].state matches State::Parallel(p) ==> (0 <= j < p.branches@.len() && 0
                <= k < p.branches@[j].states@.len() ==> resumes_one_way(
                p.branches@[j].states@[k].state,
            ) && state_valid(p.branches@[j].states@[k].state))
            &&& sm.states@[i].state matches State::ItemMap(m) ==> (m.item_processor matches Some(p)
                ==> (0 <= k < p.states@.len() ==> resumes_one_way(p.states@[k].state)
                && state_valid(p.states@[k].state)))
        },
        (forall|n: int|
            0 <= n < sm.states@.len() ==> resumes_one_way((#[trigger] sm.states@[n]).state) && !(
            sm.states@[n].state is Parallel) && !(sm.states@[n].state is ItemMap)) ==> machine_valid(
            sm,
        ),
{
    if machine_valid(sm) && 0 <= i < sm.states@.len() {
        assert(state_valid(sm.states@[i].state));
        if let State::Parallel(p) = sm.states@[i].state {
            if 0 <= j < p.branches@.len() && 0 <= k < p.branches@[j].states@.len() {
                assert(state_valid(p.branches@[j].states@[k].state));
            }
        }
        if let State::ItemMap(m) = sm.states@[i].state {
            if let Some(p) = m.item_processor {
                if 0 <= k < p.states@.len() {
                    assert(state_valid(p.states@[k].state));
                }
            }
        }
    }
    if forall|n: int|
        0 <= n < sm.states@.len() ==> resumes_one_way((#[trigger] sm.states@[n]).state) && !(
        sm.states@[n].state is Parallel) && !(sm.states@[n].state is ItemMap) {
        assert forall|n: int| #![trigger sm.states@[n]] 0 <= n < sm.states@.len() implies state_valid(
            sm.states@[n].state,
        ) by {
            assert(resumes_one_way(sm.states@[n].state));
        }
    }
}

} // verus!
