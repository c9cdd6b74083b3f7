//! The `Map` state.

use vstd::prelude::*;

use crate::asl::{IntOrExpr, MapItems, MapState};
use crate::eval_env::{EvalEnv, QuestionView};
use crate::handler::World;
use crate::handlers::states::common::{fail_container, finish_container};
use crate::handlers::states::map::{
    completed_items, first_batch, item_completed, item_outputs, items_spawned,
    lemma_completed_items, map_activated, map_child_completed, map_items, map_items_asked,
    map_limit, map_limit_asked, map_plan, map_plan_asked, refill, runs_item,
};
use crate::laws::{braced, gives, named_by, sent};
use crate::laws::evaluation::law_expressions_stand_in_braces;
use crate::laws::parallel::{all_completed, gathered, thread_in};
use crate::number::whole_value;
use crate::storage::store::StoreView;
use crate::types::activity::{ActivityStateView, ActivityView, MapActivityStateView, SlotView};
use crate::types::command::{CommandView, SpawnThreadView};
use crate::types::context::StatesView;
use crate::types::entry::EntryPayloadView;
use crate::types::error::{ExecutionErrorView, RuntimeErrorView};
use crate::types::meta::ObjectReferenceView;
use crate::types::state_path::state_name;
use crate::types::status::TerminationReasonView;
use crate::value::{Json, MemberView};

verus! {

/// The items that a `Map` is to run: those of its definition, the array that its expression gives, or the
/// array that it was entered with.
pub open spec fn iterates(
    env: EvalEnv,
    m: MapState,
    raw_input: Json,
    states: StatesView,
    variables: Seq<MemberView>,
    items: Seq<Json>,
) -> bool {
    match m.items {
        Some(MapItems::Array(listed)) => items == listed.deep_view(),
        Some(MapItems::Expr(text)) => exists|source: Seq<char>|
            text@ == #[trigger] braced(source) && gives(
                env,
                source,
                states,
                variables,
                Json::Array(items),
            ),
        None => raw_input == Json::Array(items),
    }
}

/// The number of items that may run at once, zero for no limit.
pub open spec fn allows(
    env: EvalEnv,
    m: MapState,
    states: StatesView,
    variables: Seq<MemberView>,
    limit: usize,
) -> bool {
    match m.max_concurrency {
        None => limit == 0,
        Some(IntOrExpr::Int(n)) => n >= 0 && n <= usize::MAX && limit == n,
        Some(IntOrExpr::Expr(text)) => exists|source: Seq<char>, v: Json|
            text@ == #[trigger] braced(source) && #[trigger] gives(
                env,
                source,
                states,
                variables,
                v,
            ) && (whole_value(v) matches Some(n) && 0 <= n && limit == if n <= usize::MAX {
                n
            } else {
                usize::MAX as int
            }),
    }
}

/// The items of the plan are exactly those that the `Map` iterates, in order, and nothing is left to ask.
pub proof fn law_items_are_what_the_map_iterates(
    w: World,
    env: EvalEnv,
    m: MapState,
    name: Seq<char>,
    raw_input: Json,
    states: StatesView,
    variables: Seq<MemberView>,
    items: Seq<Json>,
)
    requires
        iterates(env, m, raw_input, states, variables, items),
    ensures
        map_items(env, m, name, raw_input, states, variables) == Ok::<_, ExecutionErrorView>(items),
        map_items_asked(w, env, m, states, variables) == w,
{
    if let Some(MapItems::Expr(text)) = m.items {
        let source = choose|source: Seq<char>|
            text@ == #[trigger] braced(source) && gives(
                env,
                source,
                states,
                variables,
                Json::Array(items),
            );
        law_expressions_stand_in_braces(source, text@);
    }
}

/// A `Map` needs an array: an expression that gives anything else, and an input that is none where there
/// are no `Items`, are refused by the name of the state; an error of the evaluation passes through.
pub proof fn law_items_must_be_an_array(
    w: World,
    env: EvalEnv,
    m: MapState,
    name: Seq<char>,
    raw_input: Json,
    states: StatesView,
    variables: Seq<MemberView>,
    source: Seq<char>,
)
    ensures
        ({
            let given = map_items(env, m, name, raw_input, states, variables);
            let refused = |message: Seq<char>|
                Err::<Seq<Json>, _>(
                    ExecutionErrorView::Runtime(
                        RuntimeErrorView::InvalidDefinition("Map '"@ + name + message),
                    ),
                );
            &&& m.items is None && !(raw_input is Array) ==> given == refused(
                "' has no Items and its input is not an array"@,
            )
            &&& m.items matches Some(MapItems::Expr(text)) ==> (text@ == braced(source) ==> {
                let question = QuestionView::Expression { source, states, variables };
                &&& map_items_asked(w, env, m, states, variables) == w.asked(env, question)
                &&& match env.answer(question) {
                    Some(Ok(Json::Array(items))) => given == Ok::<_, ExecutionErrorView>(items),
                    Some(Ok(_)) => given == refused(
                        "' Items expression did not evaluate to an array"@,
                    ),
                    Some(Err(e)) => given == Err::<Seq<Json>, _>(e),
                    None => given is Err,
                }
            })
        }),
{
    law_expressions_stand_in_braces(source, source);
    if let Some(MapItems::Expr(text)) = m.items {
        law_expressions_stand_in_braces(source, text@);
    }
}

/// The limit is the one that the definition gives, or the whole number that its expression does.
pub proof fn law_limit_is_what_the_map_allows(
    w: World,
    env: EvalEnv,
    m: MapState,
    states: StatesView,
    variables: Seq<MemberView>,
    limit: usize,
)
    requires
        allows(env, m, states, variables, limit),
    ensures
        map_limit(env, m, states, variables) == Ok::<_, ExecutionErrorView>(limit),
        map_limit_asked(w, env, m, states, variables) == w,
{
    if let Some(IntOrExpr::Expr(text)) = m.max_concurrency {
        let (source, v) = choose|source: Seq<char>, v: Json|
            text@ == #[trigger] braced(source) && #[trigger] gives(
                env,
                source,
                states,
                variables,
                v,
            ) && (whole_value(v) matches Some(n) && 0 <= n && limit == if n <= usize::MAX {
                n
            } else {
                usize::MAX as int
            });
        law_expressions_stand_in_braces(source, text@);
    }
}

/// A limit that is no whole number from zero on is refused.
pub proof fn law_bad_limit_is_refused(
    env: EvalEnv,
    m: MapState,
    states: StatesView,
    variables: Seq<MemberView>,
    source: Seq<char>,
    v: Json,
)
    ensures
        m.max_concurrency matches Some(IntOrExpr::Int(n)) && n < 0 ==> map_limit(
            env,
            m,
            states,
            variables,
        ) == Err::<usize, _>(
            ExecutionErrorView::Runtime(
                RuntimeErrorView::InvalidDefinition(
                    "Map MaxConcurrency must be a non-negative integer"@,
                ),
            ),
        ),
        m.max_concurrency matches Some(IntOrExpr::Expr(text)) && text@ == braced(source) && gives(
            env,
            source,
            states,
            variables,
            v,
        ) && !(whole_value(v) matches Some(n) && n >= 0) ==> map_limit(env, m, states, variables)
            == Err::<usize, _>(
            ExecutionErrorView::Runtime(
                RuntimeErrorView::InvalidDefinition(
                    "Map MaxConcurrency expression must evaluate to a non-negative integer"@,
                ),
            ),
        ),
{
    if let Some(IntOrExpr::Expr(text)) = m.max_concurrency {
        law_expressions_stand_in_braces(source, text@);
    }
}

/// The plan of a `Map` holds its items, their number and its limit, and no child yet.
pub proof fn law_plan_holds_the_items(
    w: World,
    env: EvalEnv,
    m: MapState,
    a: ActivityView,
    states: StatesView,
    variables: Seq<MemberView>,
    items: Seq<Json>,
    limit: usize,
)
    requires
        iterates(env, m, a.raw_input, states, variables, items),
        allows(env, m, states, variables, limit),
        items.len() <= usize::MAX,
    ensures
        map_plan(env, m, a, states, variables) matches Ok(plan) && {
            &&& plan.items == items
            &&& plan.total == items.len()
            &&& plan.max_concurrency == limit
            &&& plan.children.len() == 0
        },
        map_plan_asked(w, env, m, a, states, variables) == w,
{
    let name = state_name(a.state_path);
    law_items_are_what_the_map_iterates(
        w,
        env,
        m,
        name,
        a.raw_input,
        states,
        variables,
        items,
    );
    law_limit_is_what_the_map_allows(w, env, m, states, variables, limit);
}

/// The birth of the item `i`: in the table of the item processor, from its first state, with that item as
/// the input.
pub open spec fn item_birth(
    owner: ObjectReferenceView,
    a: ActivityView,
    m: MapState,
    items: Seq<Json>,
    i: int,
) -> EntryPayloadView {
    sent(
        CommandView::SpawnThread(
            SpawnThreadView {
                owner,
                execution: a.execution,
                state_path: Some(a.state_path + seq!["ItemProcessor"@, "States"@]),
                index: i as usize,
                start_at: match m.item_processor {
                    Some(p) => p.start_at@,
                    None => Seq::empty(),
                },
                input: items[i],
            },
        ),
    )
}

proof fn lemma_spawned(
    w: World,
    owner: ObjectReferenceView,
    a: ActivityView,
    m: MapState,
    items: Seq<Json>,
    from: nat,
    count: nat,
)
    requires
        from + count <= items.len(),
    ensures
        ({
            let after = items_spawned(w, owner, a, m, items, from, count);
            &&& after == (World { chain: after.chain, ..w })
            &&& after.chain == w.chain + Seq::new(
                count,
                |k: int| item_birth(owner, a, m, items, from + k),
            )
        }),
    decreases count,
{
    if count > 0 {
        let less = (count - 1) as nat;
        lemma_spawned(w, owner, a, m, items, from, less);
        assert(a.state_path.push("ItemProcessor"@).push("States"@) =~= a.state_path
            + seq!["ItemProcessor"@, "States"@]);
        let after = items_spawned(w, owner, a, m, items, from, count);
        assert(after.chain =~= w.chain + Seq::new(
            count,
            |k: int| item_birth(owner, a, m, items, from + k),
        ));
    } else {
        assert(w.chain =~= w.chain + Seq::new(
            0,
            |k: int| item_birth(owner, a, m, items, from + k),
        ));
    }
}

/// An activated `Map` starts its first items, in order: all of them without a limit, and otherwise as many
/// as may run at once.
pub proof fn law_first_items_are_started(
    w: World,
    env: EvalEnv,
    m: MapState,
    a: ActivityView,
    variables: Seq<MemberView>,
    plan: MapActivityStateView,
)
    requires
        a.activity_state == Some(ActivityStateView::ItemMap(plan)),
        plan.total == plan.items.len(),
        plan.total > 0,
    ensures
        ({
            let after = map_activated(w, env, m, a, variables);
            let n: nat = if plan.max_concurrency == 0 || plan.items.len() < plan.max_concurrency {
                plan.items.len()
            } else {
                plan.max_concurrency as nat
            };
            &&& after.chain == w.chain + Seq::new(
                n,
                |i: int| item_birth(named_by(a.meta), a, m, plan.items, i),
            )
            &&& after.store == w.store
        }),
{
    let n = first_batch(plan) as nat;
    lemma_spawned(w, named_by(a.meta), a, m, plan.items, 0, n);
    assert(Seq::new(n, |k: int| item_birth(named_by(a.meta), a, m, plan.items, 0 + k))
        =~= Seq::new(n, |i: int| item_birth(named_by(a.meta), a, m, plan.items, i)));
}

/// A `Map` without items finishes at once, with nothing.
pub proof fn law_map_without_items_finishes(
    w: World,
    env: EvalEnv,
    m: MapState,
    a: ActivityView,
    variables: Seq<MemberView>,
    plan: MapActivityStateView,
)
    requires
        a.activity_state == Some(ActivityStateView::ItemMap(plan)),
        plan.total == 0,
    ensures
        map_activated(w, env, m, a, variables) == finish_container(
            w,
            env,
            named_by(a.meta),
            a,
            variables,
            m.assign,
            m.output.deep_view(),
            m.next.deep_view(),
            m.end,
            Json::Array(Seq::empty()),
        ),
{
}

proof fn lemma_all_counted(s: StoreView, slots: Seq<SlotView>)
    requires
        all_completed(s, slots),
    ensures
        completed_items(s, slots) == slots.len(),
    decreases slots.len(),
{
    if slots.len() > 0 {
        let init = slots.drop_last();
        assert forall|i: int| 0 <= i < init.len() implies (#[trigger] init[i]).thread.kind is Thread && (
        thread_in(s, init, i) matches Some(row) && row.value.status is Completed) by {
            assert(init[i] == slots[i]);
            assert(thread_in(s, slots, i) == thread_in(s, init, i));
        }
        lemma_all_counted(s, init);
        assert(slots[slots.len() - 1] == slots.last());
        assert(thread_in(s, slots, slots.len() - 1) is Some);
    }
}

/// A `Map` whose items have all completed finishes with the array of their outputs, in the order of the
/// items, whatever order they settled in.
pub proof fn law_outputs_are_gathered_in_the_order_of_the_items(
    w: World,
    env: EvalEnv,
    m: MapState,
    activity: ObjectReferenceView,
    a: ActivityView,
    variables: Seq<MemberView>,
    child: ObjectReferenceView,
    plan: MapActivityStateView,
    i: int,
)
    requires
        w.store.activity(activity) matches Ok(Some(row)) && row.value.activity_state == Some(
            ActivityStateView::ItemMap(plan),
        ),
        plan.children.len() == plan.total,
        all_completed(w.store, plan.children),
        0 <= i < plan.children.len(),
        plan.children[i].thread == child,
    ensures
        map_child_completed(w, env, m, activity, a, variables, child) == finish_container(
            w,
            env,
            named_by(a.meta),
            a,
            variables,
            m.assign,
            m.output.deep_view(),
            m.next.deep_view(),
            m.end,
            Json::Array(gathered(w.store, plan.children)),
        ),
{
    lemma_all_counted(w.store, plan.children);
    assert(thread_in(w.store, plan.children, i) is Some);
    assert(item_outputs(w.store, plan.children) =~= gathered(w.store, plan.children));
}

/// An item that did not complete fails the `Map` at once, and a child that is none of its items does
/// nothing.
pub proof fn law_failed_item_fails_the_map(
    w: World,
    env: EvalEnv,
    m: MapState,
    activity: ObjectReferenceView,
    a: ActivityView,
    variables: Seq<MemberView>,
    child: ObjectReferenceView,
    plan: MapActivityStateView,
)
    requires
        w.store.activity(activity) matches Ok(Some(row)) && row.value.activity_state == Some(
            ActivityStateView::ItemMap(plan),
        ),
    ensures
        (forall|i: int| 0 <= i < plan.children.len() ==> (#[trigger] plan.children[i]).thread
            != child) ==> map_child_completed(w, env, m, activity, a, variables, child) == w,
        (exists|i: int|
            0 <= i < plan.children.len() && (#[trigger] plan.children[i]).thread == child) && !(
        w.store.thread(child) matches Ok(Some(t)) && t.value.status is Completed)
            ==> map_child_completed(w, env, m, activity, a, variables, child) == fail_container(
            w,
            a,
            TerminationReasonView::Failed {
                error: ExecutionErrorView::Runtime(
                    RuntimeErrorView::StateFailed {
                        state: if a.state_path.len() == 0 {
                            Seq::empty()
                        } else {
                            a.state_path[a.state_path.len() - 1]
                        },
                        error: "Map item failed"@,
                        output: Json::Null,
                    },
                ),
            },
        ),
{
}

/// How many of the threads in the slots have completed.
pub open spec fn done_among(s: StoreView, slots: Seq<SlotView>) -> nat {
    slots.filter(
        |slot: SlotView| s.thread(slot.thread) matches Ok(Some(t)) && t.value.status is Completed,
    ).len()
}

proof fn lemma_counts(s: StoreView, slots: Seq<SlotView>)
    ensures
        completed_items(s, slots) == done_among(s, slots),
    decreases slots.len(),
{
    reveal(Seq::filter);
    if slots.len() > 0 {
        lemma_counts(s, slots.drop_last());
    }
}

/// A settled item makes room: the next items that were not started yet are, in order, as many as the limit
/// leaves room for beside the ones that still run. No item is started twice, and none is passed over.
pub proof fn law_room_is_refilled_in_order(
    w: World,
    env: EvalEnv,
    m: MapState,
    activity: ObjectReferenceView,
    a: ActivityView,
    variables: Seq<MemberView>,
    child: ObjectReferenceView,
    plan: MapActivityStateView,
    i: int,
)
    requires
        w.store.activity(activity) matches Ok(Some(row)) && row.value.activity_state == Some(
            ActivityStateView::ItemMap(plan),
        ),
        plan.total == plan.items.len(),
        plan.children.len() <= plan.total,
        0 <= i < plan.children.len(),
        plan.children[i].thread == child,
        w.store.thread(child) matches Ok(Some(t)) && t.value.status is Completed,
        done_among(w.store, plan.children) < plan.total,
    ensures
        ({
            let after = map_child_completed(w, env, m, activity, a, variables, child);
            let started = plan.children.len();
            let running = started - done_among(w.store, plan.children);
            let room = if plan.max_concurrency == 0 {
                plan.total - running
            } else {
                plan.max_concurrency - running
            };
            let left = plan.total - started;
            let n = if room <= 0 {
                0
            } else if room < left {
                room
            } else {
                left
            };
            &&& after.chain == w.chain + Seq::new(
                n as nat,
                |k: int| item_birth(activity, a, m, plan.items, started + k),
            )
            &&& after.store == w.store
        }),
{
    lemma_counts(w.store, plan.children);
    lemma_completed_items(w.store, plan.children);
    let n = refill(plan, completed_items(w.store, plan.children));
    lemma_spawned(w, activity, a, m, plan.items, plan.children.len(), n);
    assert(runs_item(plan.children, child));
    assert(item_completed(w.store, child));
}

} // verus!
