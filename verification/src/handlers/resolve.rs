//! Finding a state, or a table of states, in a machine.

use vstd::prelude::*;
use vstd::string::*;

use crate::asl::{machine_valid, state_valid, table_valid, NamedState, State, StateMachine};
use crate::handler::HandlerContext;
use crate::storage::scope::{machine_for, ScopeRecord, ScopeRecordView};
use crate::storage::store::{Store, StoreView};
use crate::text::{decimal, decimal_text, digits_value, join3, parse_digits, same_text};
use crate::types::error::{
    invalid_definition, state_not_found, ExecutionError, ExecutionErrorView,
};
use crate::types::state_path::{state_name, StatePath};

verus! {

/// Where the state `name` stands in a table, or the size of the table when it is not there.
pub open spec fn state_position(table: Seq<NamedState>, name: Seq<char>) -> int
    decreases table.len(),
{
    if table.len() == 0 || table[0].name@ == name {
        0
    } else {
        1 + state_position(table.drop_first(), name)
    }
}

/// What looking up a state in a table gives.
pub open spec fn state_in(table: Vec<NamedState>, name: Seq<char>) -> Result<
    State,
    ExecutionErrorView,
> {
    let i = state_position(table@, name);
    if i < table@.len() {
        Ok(table@[i].state)
    } else {
        Err(state_not_found(name))
    }
}

proof fn lemma_state_position(table: Seq<NamedState>, name: Seq<char>, i: int)
    requires
        0 <= i <= table.len(),
        i < table.len() ==> table[i].name@ == name,
        forall|j: int| 0 <= j < i ==> (#[trigger] table[j]).name@ != name,
    ensures
        state_position(table, name) == i,
    decreases table.len(),
{
    if i > 0 {
        assert(table[0].name@ != name);
        let rest = table.drop_first();
        assert forall|j: int| 0 <= j < i - 1 implies (#[trigger] rest[j]).name@ != name by {
            assert(rest[j] == table[j + 1]);
        }
        lemma_state_position(rest, name, i - 1);
    }
}

/// Looks up a state in a table.
pub fn find_state<'a>(table: &'a Vec<NamedState>, name: &str) -> (r: Result<
    &'a State,
    ExecutionError,
>)
    ensures
        match r {
            Ok(s) => state_in(*table, name@) == Ok::<State, ExecutionErrorView>(*s),
            Err(e) => state_in(*table, name@) == Err::<State, _>(e@),
        },
{
    let mut i: usize = 0;
    while i < table.len()
        invariant
            i <= table.len(),
            forall|j: int| 0 <= j < i ==> (#[trigger] table@[j]).name@ != name@,
        decreases table.len() - i,
    {
        if same_text(table[i].name.as_str(), name) {
            proof {
                lemma_state_position(table@, name@, i as int);
            }
            return Ok(&table[i].state);
        }
        i += 1;
    }
    proof {
        lemma_state_position(table@, name@, i as int);
    }
    Err(ExecutionError::state_not_found(name.to_owned()))
}

/// Looks up a state in the machine's top-level table.
pub fn resolve_state<'a>(sm: &'a StateMachine, name: &str) -> (r: Result<
    &'a State,
    ExecutionError,
>)
    ensures
        match r {
            Ok(s) => state_in(sm.states, name@) == Ok::<State, ExecutionErrorView>(*s),
            Err(e) => state_in(sm.states, name@) == Err::<State, _>(e@),
        },
{
    find_state(&sm.states, name)
}

/// The index that a token writes: decimal digits, with a plus sign in front or without.
pub open spec fn token_index(token: Seq<char>) -> Option<usize> {
    let digits = if token.len() > 0 && token[0] == '+' {
        token.skip(1)
    } else {
        token
    };
    match digits_value(digits) {
        Some(n) if n <= usize::MAX => Some(n as usize),
        _ => None,
    }
}

/// Reads the index that a token writes.
pub fn parse_index(token: &str) -> (r: Option<usize>)
    ensures
        r == token_index(token@),
{
    let signed = token.unicode_len() > 0 && token.get_char(0) == '+';
    let from: usize = if signed {
        1
    } else {
        0
    };
    assert(token@.skip(0) =~= token@);
    match parse_digits(token, from, usize::MAX as u64) {
        Some(n) => Some(n as usize),
        None => None,
    }
}

/// The table that a pointer leads to from `table`. Each descent is the opener `States`, the name of
/// a container, and the child of it: `Branches` and an index for a `Parallel`, `ItemProcessor` for a
/// `Map`. A pointer that ends, before an opener or behind one, names the table that it stands on.
pub open spec fn walk(table: Vec<NamedState>, tokens: Seq<Seq<char>>) -> Result<
    Vec<NamedState>,
    ExecutionErrorView,
>
    decreases tokens.len(),
{
    if tokens.len() == 0 {
        Ok(table)
    } else if tokens[0] != "States"@ {
        Err(
            invalid_definition(
                "state_path malformed: expected 'States', got '"@ + tokens[0] + "'"@,
            ),
        )
    } else if tokens.len() == 1 {
        Ok(table)
    } else {
        match state_in(table, tokens[1]) {
            Err(e) => Err(e),
            Ok(State::Parallel(p)) => {
                if tokens.len() < 3 || tokens[2] != "Branches"@ {
                    Err(invalid_definition("state_path malformed: expected 'Branches'"@))
                } else if tokens.len() < 4 {
                    Err(state_not_found("state_path truncated at branch index"@))
                } else {
                    match token_index(tokens[3]) {
                        None => Err(
                            invalid_definition("state_path branch index is not an integer"@),
                        ),
                        Some(index) => if index < p.branches@.len() {
                            walk(p.branches@[index as int].states, tokens.skip(4))
                        } else {
                            Err(
                                state_not_found(
                                    "branch index "@ + decimal(index as nat) + " of state "@
                                        + tokens[1],
                                ),
                            )
                        },
                    }
                }
            },
            Ok(State::ItemMap(m)) => {
                if tokens.len() < 3 || tokens[2] != "ItemProcessor"@ {
                    Err(invalid_definition("state_path malformed: expected 'ItemProcessor'"@))
                } else {
                    match m.item_processor {
                        None => Err(
                            invalid_definition(
                                "Map state '"@ + tokens[1] + "' has no ItemProcessor"@,
                            ),
                        ),
                        Some(processor) => walk(processor.states, tokens.skip(3)),
                    }
                }
            },
            Ok(_) => Err(
                invalid_definition(
                    "state_path step '"@ + tokens[1] + "' is not a Parallel or Map state"@,
                ),
            ),
        }
    }
}

/// Finds the table that a pointer leads to from the machine's top-level table. The machine is only
/// walked, never copied.
pub fn resolve_states_map<'a>(sm: &'a StateMachine, pointer: &StatePath) -> (r: Result<
    &'a Vec<NamedState>,
    ExecutionError,
>)
    ensures
        match r {
            Ok(t) => walk(sm.states, pointer@) == Ok::<Vec<NamedState>, ExecutionErrorView>(*t),
            Err(e) => walk(sm.states, pointer@) == Err::<Vec<NamedState>, _>(e@),
        },
{
    let tokens = &pointer.tokens;
    let ghost all = pointer@;
    let mut states: &'a Vec<NamedState> = &sm.states;
    let mut i: usize = 0;
    assert(all.skip(0) =~= all);
    loop
        invariant
            all == pointer@,
            *tokens == pointer.tokens,
            i <= tokens.len(),
            walk(sm.states, all) == walk(*states, all.skip(i as int)),
        decreases tokens.len() - i,
    {
        let ghost rest = all.skip(i as int);
        if i >= tokens.len() {
            return Ok(states);
        }
        assert(rest[0] == tokens@[i as int]@);
        if !same_text(tokens[i].as_str(), "States") {
            return Err(
                ExecutionError::invalid_definition(
                    join3(
                        "state_path malformed: expected 'States', got '",
                        tokens[i].as_str(),
                        "'",
                    ),
                ),
            );
        }
        if i + 1 >= tokens.len() {
            return Ok(states);
        }
        let name = &tokens[i + 1];
        assert(rest[1] == name@);
        let state = match find_state(states, name.as_str()) {
            Ok(state) => state,
            Err(e) => return Err(e),
        };
        match state {
            State::Parallel(p) => {
                if i + 2 < tokens.len() {
                    assert(rest[2] == tokens@[i + 2]@);
                }
                if i + 2 >= tokens.len() || !same_text(tokens[i + 2].as_str(), "Branches") {
                    return Err(
                        ExecutionError::invalid_definition(
                            "state_path malformed: expected 'Branches'".to_owned(),
                        ),
                    );
                }
                if i + 3 >= tokens.len() {
                    return Err(
                        ExecutionError::state_not_found(
                            "state_path truncated at branch index".to_owned(),
                        ),
                    );
                }
                assert(rest[3] == tokens@[i + 3]@);
                let index = match parse_index(tokens[i + 3].as_str()) {
                    Some(index) => index,
                    None => return Err(
                        ExecutionError::invalid_definition(
                            "state_path branch index is not an integer".to_owned(),
                        ),
                    ),
                };
                if index >= p.branches.len() {
                    return Err(
                        ExecutionError::state_not_found(
                            join3(
                                "branch index ",
                                decimal_text(index as u128).as_str(),
                                " of state ",
                            ).concat(name.as_str()),
                        ),
                    );
                }
                assert(rest.skip(4) =~= all.skip(i + 4));
                states = &p.branches[index].states;
                i += 4;
            },
            State::ItemMap(m) => {
                if i + 2 < tokens.len() {
                    assert(rest[2] == tokens@[i + 2]@);
                }
                if i + 2 >= tokens.len() || !same_text(tokens[i + 2].as_str(), "ItemProcessor") {
                    return Err(
                        ExecutionError::invalid_definition(
                            "state_path malformed: expected 'ItemProcessor'".to_owned(),
                        ),
                    );
                }
                let processor = match &m.item_processor {
                    Some(processor) => processor,
                    None => return Err(
                        ExecutionError::invalid_definition(
                            join3("Map state '", name.as_str(), "' has no ItemProcessor"),
                        ),
                    ),
                };
                assert(rest.skip(3) =~= all.skip(i + 3));
                states = &processor.states;
                i += 3;
            },
            _ => {
                return Err(
                    ExecutionError::invalid_definition(
                        join3(
                            "state_path step '",
                            name.as_str(),
                            "' is not a Parallel or Map state",
                        ),
                    ),
                );
            },
        }
    }
}

/// What looking up the state `name` in the table that a scope runs in gives. A thread runs in the
/// table that its path leads to; an execution, which has no path, in the top-level one.
pub open spec fn state_for(
    sm: StateMachine,
    scope_path: Option<Seq<Seq<char>>>,
    name: Seq<char>,
) -> Result<State, ExecutionErrorView> {
    match scope_path {
        Some(pointer) => match walk(sm.states, pointer) {
            Ok(table) => state_in(table, name),
            Err(e) => Err(e),
        },
        None => state_in(sm.states, name),
    }
}

/// Looks up the state `name` in the table that a scope runs in.
pub fn resolve_state_for<'a>(
    sm: &'a StateMachine,
    scope_path: Option<&StatePath>,
    name: &str,
) -> (r: Result<&'a State, ExecutionError>)
    ensures
        match r {
            Ok(s) => state_for(*sm, scope_path.deep_view(), name@) == Ok::<
                State,
                ExecutionErrorView,
            >(*s),
            Err(e) => state_for(*sm, scope_path.deep_view(), name@) == Err::<State, _>(e@),
        },
{
    match scope_path {
        Some(pointer) => {
            let table = match resolve_states_map(sm, pointer) {
                Ok(table) => table,
                Err(e) => return Err(e),
            };
            find_state(table, name)
        },
        None => resolve_state(sm, name),
    }
}

/// What looking up a state by its full path gives: a path of two tokens names a state of the
/// top-level table, any other a state of the table that its parent leads to.
pub open spec fn state_at(sm: StateMachine, path: Seq<Seq<char>>) -> Result<
    State,
    ExecutionErrorView,
> {
    if path.len() == 2 {
        state_in(sm.states, state_name(path))
    } else {
        match walk(
            sm.states,
            if path.len() == 0 {
                path
            } else {
                path.drop_last()
            },
        ) {
            Ok(table) => state_in(table, state_name(path)),
            Err(e) => Err(e),
        }
    }
}

/// Looks up a state by its full path.
pub fn resolve_state_from_path<'a>(sm: &'a StateMachine, path: &StatePath) -> (r: Result<
    &'a State,
    ExecutionError,
>)
    ensures
        match r {
            Ok(s) => state_at(*sm, path@) == Ok::<State, ExecutionErrorView>(*s),
            Err(e) => state_at(*sm, path@) == Err::<State, _>(e@),
        },
{
    let leaf = path.state_name();
    if path.tokens.len() == 2 {
        return resolve_state(sm, leaf.as_str());
    }
    let parent = path.parent();
    let table = match resolve_states_map(sm, &parent) {
        Ok(table) => table,
        Err(e) => return Err(e),
    };
    find_state(table, leaf.as_str())
}

/// What looking up the state `name` of a scope gives.
pub open spec fn scope_state(
    ctx: HandlerContext,
    s: StoreView,
    scope: ScopeRecordView,
    name: Seq<char>,
) -> Result<State, ExecutionErrorView> {
    match machine_for(ctx, s, scope) {
        Err(e) => Err(e),
        Ok(sm) => state_for(sm, scope.state_path(), name),
    }
}

/// Looks up the state `name` of a scope.
pub fn resolve_scope_state<'a>(
    ctx: &'a HandlerContext,
    storage: &Store,
    scope: &ScopeRecord,
    name: &str,
) -> (r: Result<&'a State, ExecutionError>)
    ensures
        match r {
            Ok(s) => scope_state(*ctx, storage@, scope@, name@) == Ok::<State, ExecutionErrorView>(
                *s,
            ),
            Err(e) => scope_state(*ctx, storage@, scope@, name@) == Err::<State, _>(e@),
        },
{
    match ctx.machine_for_scope(storage, scope) {
        Ok(sm) => resolve_state_for(sm, scope.state_path(), name),
        Err(e) => Err(e),
    }
}

proof fn lemma_state_in_valid(table: Vec<NamedState>, name: Seq<char>)
    requires
        table_valid(table@),
    ensures
        state_in(table, name) matches Ok(s) ==> state_valid(s),
{
    lemma_position_in(table@, name);
}

proof fn lemma_position_in(table: Seq<NamedState>, name: Seq<char>)
    ensures
        0 <= state_position(table, name) <= table.len(),
    decreases table.len(),
{
    if table.len() > 0 && table[0].name@ != name {
        lemma_position_in(table.drop_first(), name);
    }
}

proof fn lemma_walk_valid(table: Vec<NamedState>, tokens: Seq<Seq<char>>)
    requires
        table_valid(table@),
    ensures
        walk(table, tokens) matches Ok(t) ==> table_valid(t@),
    decreases tokens.len(),
{
    if tokens.len() >= 2 {
        lemma_state_in_valid(table, tokens[1]);
        match state_in(table, tokens[1]) {
            Ok(State::Parallel(p)) => {
                if tokens.len() >= 4 {
                    if let Some(index) = token_index(tokens[3]) {
                        if index < p.branches@.len() {
                            let below = p.branches@[index as int].states;
                            assert forall|j: int|
                                #![trigger below@[j]]
                                0 <= j < below@.len() implies state_valid(below@[j].state) by {
                                assert(state_valid(p.branches@[index as int].states@[j].state));
                            }
                            lemma_walk_valid(below, tokens.skip(4));
                        }
                    }
                }
            },
            Ok(State::ItemMap(m)) => {
                if let Some(p) = m.item_processor {
                    if tokens.len() >= 3 {
                        lemma_walk_valid(p.states, tokens.skip(3));
                    }
                }
            },
            _ => {},
        }
    }
}

/// Whatever path leads to a state of a valid machine, the state is valid.
pub proof fn law_resolved_state_is_valid(sm: StateMachine, path: Seq<Seq<char>>)
    requires
        machine_valid(sm),
    ensures
        state_at(sm, path) matches Ok(s) ==> state_valid(s),
{
    if path.len() == 2 {
        lemma_state_in_valid(sm.states, state_name(path));
    } else {
        let parent = if path.len() == 0 {
            path
        } else {
            path.drop_last()
        };
        lemma_walk_valid(sm.states, parent);
        if let Ok(table) = walk(sm.states, parent) {
            lemma_state_in_valid(table, state_name(path));
        }
    }
}

} // verus!
