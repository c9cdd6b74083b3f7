//! The `Map` state: runs its item processor once per item, at most so many at a time.

use vstd::prelude::*;
use vstd::string::*;

use crate::asl::{IntOrExpr, MapItems, MapState, State};
use crate::eval_env::EvalEnv;
use crate::handler::{Collector, World};
use crate::handlers::shared::{as_option, eval_string_or_expr, text_asked, text_reply};
use crate::handlers::states::common::{
    fail_container, finish_container, run_fail_container, run_finish_container,
};
use crate::number::whole_value;
use crate::storage::order::{activity_ok, state_ok, store_ok};
use crate::storage::store::{Store, StoreView};
use crate::text::join3;
use crate::types::activity::{
    lemma_ascending_len, Activity, ActivityState, ActivityStateView, ActivityView,
    MapActivityState, MapActivityStateView, Slot, SlotView,
};
use crate::types::command::{
    group_command_view, Command, CommandView, SpawnThread, SpawnThreadView,
};
use crate::types::context::{States, StatesView};
use crate::types::error::{
    invalid_definition, ExecutionError, ExecutionErrorView, RuntimeError, RuntimeErrorView,
};
use crate::types::meta::{ObjectReference, ObjectReferenceView};
use crate::types::state_path::{item_processor_path, state_name};
use crate::types::status::{failed, TerminationReason, TerminationReasonView};
use crate::value::{lemma_array_view, Json, MemberView, Value, Variables};

verus! {

broadcast use group_command_view;

/// The items that a `Map` iterates: those of its definition, what its expression gives, or its
/// input, which must be an array.
pub open spec fn map_items(
    env: EvalEnv,
    m: MapState,
    name: Seq<char>,
    raw_input: Json,
    states: StatesView,
    variables: Seq<MemberView>,
) -> Result<Seq<Json>, ExecutionErrorView> {
    match m.items {
        Some(MapItems::Array(items)) => Ok(items.deep_view()),
        Some(MapItems::Expr(expr)) => match text_reply(env, expr@, states, variables) {
            Err(e) => Err(e),
            Ok(Json::Array(items)) => Ok(items),
            Ok(_) => Err(
                invalid_definition(
                    "Map '"@ + name + "' Items expression did not evaluate to an array"@,
                ),
            ),
        },
        None => match raw_input {
            Json::Array(items) => Ok(items),
            _ => Err(
                invalid_definition(
                    "Map '"@ + name + "' has no Items and its input is not an array"@,
                ),
            ),
        },
    }
}

/// What finding the items leaves.
pub open spec fn map_items_asked(
    w: World,
    env: EvalEnv,
    m: MapState,
    states: StatesView,
    variables: Seq<MemberView>,
) -> World {
    match m.items {
        Some(MapItems::Expr(expr)) => text_asked(w, env, expr@, states, variables),
        _ => w,
    }
}

/// The number of items that may be in flight at once, zero for no limit: that of the definition, or
/// a non-negative integer that its expression gives.
pub open spec fn map_limit(
    env: EvalEnv,
    m: MapState,
    states: StatesView,
    variables: Seq<MemberView>,
) -> Result<usize, ExecutionErrorView> {
    match m.max_concurrency {
        None => Ok(0),
        Some(IntOrExpr::Int(n)) => if n >= 0 {
            Ok(n as usize)
        } else {
            Err(invalid_definition("Map MaxConcurrency must be a non-negative integer"@))
        },
        Some(IntOrExpr::Expr(expr)) => match text_reply(env, expr@, states, variables) {
            Err(e) => Err(e),
            Ok(value) => match whole_value(value) {
                Some(n) if n >= 0 => Ok(
                    if n <= usize::MAX {
                        n as usize
                    } else {
                        usize::MAX
                    },
                ),
                _ => Err(
                    invalid_definition(
                        "Map MaxConcurrency expression must evaluate to a non-negative integer"@,
                    ),
                ),
            },
        },
    }
}

/// What finding the limit leaves.
pub open spec fn map_limit_asked(
    w: World,
    env: EvalEnv,
    m: MapState,
    states: StatesView,
    variables: Seq<MemberView>,
) -> World {
    match m.max_concurrency {
        Some(IntOrExpr::Expr(expr)) => text_asked(w, env, expr@, states, variables),
        _ => w,
    }
}

/// The plan that a `Map` makes of its input.
pub open spec fn map_plan(
    env: EvalEnv,
    m: MapState,
    a: ActivityView,
    states: StatesView,
    variables: Seq<MemberView>,
) -> Result<MapActivityStateView, ExecutionErrorView> {
    match map_items(env, m, state_name(a.state_path), a.raw_input, states, variables) {
        Err(e) => Err(e),
        Ok(items) => match map_limit(env, m, states, variables) {
            Err(e) => Err(e),
            Ok(max_concurrency) => Ok(
                MapActivityStateView {
                    items,
                    total: items.len() as usize,
                    max_concurrency,
                    children: Seq::empty(),
                },
            ),
        },
    }
}

/// What making the plan leaves.
pub open spec fn map_plan_asked(
    w: World,
    env: EvalEnv,
    m: MapState,
    a: ActivityView,
    states: StatesView,
    variables: Seq<MemberView>,
) -> World {
    let w1 = map_items_asked(w, env, m, states, variables);
    match map_items(env, m, state_name(a.state_path), a.raw_input, states, variables) {
        Err(_) => w1,
        Ok(_) => map_limit_asked(w1, env, m, states, variables),
    }
}

/// The state that the item processor starts in.
pub open spec fn item_start(m: MapState) -> Seq<char> {
    match m.item_processor {
        Some(p) => p.start_at@,
        None => Seq::empty(),
    }
}

/// The item at `index`.
pub open spec fn item_at(items: Seq<Json>, index: int) -> Json {
    if 0 <= index < items.len() {
        items[index]
    } else {
        Json::Null
    }
}

/// What spawning `count` items from `from` on leaves.
pub open spec fn items_spawned(
    w: World,
    owner: ObjectReferenceView,
    a: ActivityView,
    m: MapState,
    items: Seq<Json>,
    from: nat,
    count: nat,
) -> World
    decreases count,
{
    if count == 0 {
        w
    } else {
        let index = (from + count - 1) as nat;
        items_spawned(w, owner, a, m, items, from, (count - 1) as nat).command(
            CommandView::SpawnThread(
                SpawnThreadView {
                    owner,
                    execution: a.execution,
                    state_path: Some(item_processor_path(a.state_path)),
                    index: index as usize,
                    start_at: item_start(m),
                    input: item_at(items, index as int),
                },
            ),
        )
    }
}

/// The number of items spawned first: all of them, or as many as the limit allows.
pub open spec fn first_batch(plan: MapActivityStateView) -> usize {
    if plan.max_concurrency == 0 || plan.max_concurrency > plan.total {
        plan.total
    } else {
        plan.max_concurrency
    }
}

/// What follows the activation of a `Map`: its first items are spawned, and one without items
/// finishes at once.
pub open spec fn map_activated(
    w: World,
    env: EvalEnv,
    m: MapState,
    a: ActivityView,
    variables: Seq<MemberView>,
) -> World {
    match a.activity_state {
        Some(ActivityStateView::ItemMap(plan)) => {
            let spawned = items_spawned(
                w,
                a.reference(),
                a,
                m,
                plan.items,
                0,
                first_batch(plan) as nat,
            );
            if plan.total == 0 {
                finish_map(spawned, env, m, a.reference(), a, variables, Json::Array(Seq::empty()))
            } else {
                spawned
            }
        },
        _ => w,
    }
}

/// The success finish of a `Map` with the outputs of its items.
pub open spec fn finish_map(
    w: World,
    env: EvalEnv,
    m: MapState,
    activity: ObjectReferenceView,
    a: ActivityView,
    variables: Seq<MemberView>,
    aggregated: Json,
) -> World {
    finish_container(
        w,
        env,
        activity,
        a,
        variables,
        m.assign,
        m.output.deep_view(),
        m.next.deep_view(),
        m.end,
        aggregated,
    )
}

/// Whether the thread of an item has completed.
pub open spec fn item_completed(s: StoreView, thread: ObjectReferenceView) -> bool {
    s.thread(thread) matches Ok(Some(t)) && t.value.status is Completed
}

/// How many of the spawned items have completed.
pub open spec fn completed_items(s: StoreView, slots: Seq<SlotView>) -> nat
    decreases slots.len(),
{
    if slots.len() == 0 {
        0
    } else {
        let before = completed_items(s, slots.drop_last());
        if item_completed(s, slots.last().thread) {
            before + 1
        } else {
            before
        }
    }
}

/// The output of the thread of an item.
pub open spec fn item_output(s: StoreView, thread: ObjectReferenceView) -> Json {
    match s.thread(thread) {
        Ok(Some(t)) => match t.value.output {
            Some(v) => v,
            None => Json::Null,
        },
        _ => Json::Null,
    }
}

/// The outputs of the items, in the order of their indices.
pub open spec fn item_outputs(s: StoreView, slots: Seq<SlotView>) -> Seq<Json> {
    Seq::new(slots.len(), |i: int| item_output(s, slots[i].thread))
}

/// Whether a thread runs one of the items.
pub open spec fn runs_item(slots: Seq<SlotView>, thread: ObjectReferenceView) -> bool {
    exists|i: int| 0 <= i < slots.len() && (#[trigger] slots[i]).thread == thread
}

/// The number of items to spawn when `completed` of the spawned ones have completed: as many as the
/// limit leaves room for, of those not spawned yet.
pub open spec fn refill(plan: MapActivityStateView, completed: nat) -> nat {
    let spawned = plan.children.len();
    let in_flight = spawned - completed;
    let capacity = if plan.max_concurrency == 0 {
        plan.total as int
    } else {
        plan.max_concurrency as int
    };
    let free = if capacity > in_flight {
        capacity - in_flight
    } else {
        0
    };
    let left = plan.total - spawned;
    (if free < left {
        free
    } else {
        left
    }) as nat
}

/// Why a `Map` fails when an item does.
pub open spec fn item_failure(a: ActivityView) -> TerminationReasonView {
    failed(
        ExecutionErrorView::Runtime(
            RuntimeErrorView::StateFailed {
                state: state_name(a.state_path),
                error: "Map item failed"@,
                output: Json::Null,
            },
        ),
    )
}

/// What a settled child leaves of a running `Map`. A child that is none of its items, or a `Map`
/// that is gone, changes nothing. An item that did not complete fails the `Map`. When all items have
/// completed the `Map` finishes with their outputs; until then freed room is refilled.
pub open spec fn map_child_completed(
    w: World,
    env: EvalEnv,
    m: MapState,
    activity: ObjectReferenceView,
    a: ActivityView,
    variables: Seq<MemberView>,
    child: ObjectReferenceView,
) -> World {
    match w.store.activity(activity) {
        Ok(Some(row)) => match row.value.activity_state {
            Some(ActivityStateView::ItemMap(plan)) => {
                let completed = completed_items(w.store, plan.children);
                if !runs_item(plan.children, child) {
                    w
                } else if !item_completed(w.store, child) {
                    fail_container(w, a, item_failure(a))
                } else if completed == plan.total {
                    finish_map(
                        w,
                        env,
                        m,
                        a.reference(),
                        a,
                        variables,
                        Json::Array(item_outputs(w.store, plan.children)),
                    )
                } else {
                    items_spawned(
                        w,
                        activity,
                        a,
                        m,
                        plan.items,
                        plan.children.len(),
                        refill(plan, completed),
                    )
                }
            },
            _ => w,
        },
        _ => w,
    }
}

/// The completed items are some of the spawned ones.
pub proof fn lemma_completed_items(s: StoreView, slots: Seq<SlotView>)
    ensures
        completed_items(s, slots) <= slots.len(),
    decreases slots.len(),
{
    if slots.len() > 0 {
        lemma_completed_items(s, slots.drop_last());
    }
}

/// Refilling never exceeds the limit, and never spawns an item that the plan does not have.
pub proof fn law_refill_within_limit(s: StoreView, plan: MapActivityStateView)
    requires
        state_ok(Some(ActivityStateView::ItemMap(plan))),
    ensures
        ({
            let completed = completed_items(s, plan.children);
            let in_flight = plan.children.len() - completed;
            let spawned = refill(plan, completed);
            &&& plan.children.len() + spawned <= plan.total
            &&& plan.max_concurrency > 0 && in_flight <= plan.max_concurrency ==> in_flight
                + spawned <= plan.max_concurrency
            &&& plan.max_concurrency == 0 ==> plan.children.len() + spawned == plan.total
                || spawned == plan.total - in_flight
        }),
{
    lemma_completed_items(s, plan.children);
    lemma_ascending_len(plan.children, plan.total as int);
}

/// The first batch stays within the limit and the plan.
pub proof fn law_first_batch_within_limit(plan: MapActivityStateView)
    ensures
        first_batch(plan) <= plan.total,
        plan.max_concurrency > 0 ==> first_batch(plan) <= plan.max_concurrency,
        plan.max_concurrency == 0 ==> first_batch(plan) == plan.total,
{
}

/// Builds the handler of a `Map`.
pub struct MapStateHandlerFactory;

impl MapStateHandlerFactory {
    /// An empty definition of the state that this factory serves.
    pub fn state(&self) -> (r: State)
        ensures
            r is ItemMap,
    {
        State::ItemMap(
            MapState {
                comment: None,
                output: None,
                assign: None,
                next: None,
                end: None,
                item_processor: None,
                items: None,
                max_concurrency: None,
            },
        )
    }

    /// The handler bound to `state`, which must be a `Map`.
    pub fn create<'a>(&self, state: &'a State) -> (r: MapStateHandler<'a>)
        requires
            state is ItemMap,
        ensures
            *state == State::ItemMap(*r.state),
    {
        match state {
            State::ItemMap(s) => MapStateHandler { state: s },
            _ => MapStateHandler { state: vstd::pervasive::unreached() },
        }
    }
}

/// The handler of one `Map`.
pub struct MapStateHandler<'a> {
    pub state: &'a MapState,
}

impl<'a> MapStateHandler<'a> {
    /// Finds the items that the `Map` iterates.
    pub fn resolve_map_items(
        &self,
        out: &mut Collector,
        env: &EvalEnv,
        activity: &Activity,
        variables: &Variables,
        states: &States,
    ) -> (r: Result<Vec<Value>, ExecutionError>)
        ensures
            match r {
                Ok(items) => map_items(
                    *env,
                    *self.state,
                    state_name(activity@.state_path),
                    activity@.raw_input,
                    states@,
                    variables@,
                ) == Ok::<_, ExecutionErrorView>(items.deep_view()),
                Err(e) => map_items(
                    *env,
                    *self.state,
                    state_name(activity@.state_path),
                    activity@.raw_input,
                    states@,
                    variables@,
                ) == Err::<Seq<Json>, _>(e@),
            },
            final(out)@ == map_items_asked(old(out)@, *env, *self.state, states@, variables@),
    {
        broadcast use lemma_array_view;

        let name = activity.state_path.state_name();
        match &self.state.items {
            Some(MapItems::Array(items)) => {
                let r = items.clone();
                assert(r.deep_view() =~= items.deep_view());
                Ok(r)
            },
            Some(MapItems::Expr(expr)) => {
                let evaluated = match eval_string_or_expr(
                    out,
                    env,
                    expr.as_str(),
                    states,
                    variables,
                ) {
                    Ok(v) => v,
                    Err(e) => return Err(e),
                };
                match evaluated {
                    Value::Array(items) => Ok(items),
                    _ => Err(
                        ExecutionError::invalid_definition(
                            join3(
                                "Map '",
                                name.as_str(),
                                "' Items expression did not evaluate to an array",
                            ),
                        ),
                    ),
                }
            },
            None => match &activity.raw_input {
                Value::Array(items) => {
                    let r = items.clone();
                    assert(r.deep_view() =~= items.deep_view());
                    Ok(r)
                },
                _ => Err(
                    ExecutionError::invalid_definition(
                        join3(
                            "Map '",
                            name.as_str(),
                            "' has no Items and its input is not an array",
                        ),
                    ),
                ),
            },
        }
    }

    /// Finds the number of items that may be in flight at once.
    pub fn resolve_max_concurrency(
        &self,
        out: &mut Collector,
        env: &EvalEnv,
        variables: &Variables,
        states: &States,
    ) -> (r: Result<usize, ExecutionError>)
        ensures
            match r {
                Ok(n) => map_limit(*env, *self.state, states@, variables@) == Ok::<
                    _,
                    ExecutionErrorView,
                >(n),
                Err(e) => map_limit(*env, *self.state, states@, variables@) == Err::<usize, _>(e@),
            },
            final(out)@ == map_limit_asked(old(out)@, *env, *self.state, states@, variables@),
    {
        match &self.state.max_concurrency {
            None => Ok(0),
            Some(IntOrExpr::Int(n)) => {
                if *n >= 0 {
                    Ok(#[verifier::truncate]
                    (*n as usize))
                } else {
                    Err(
                        ExecutionError::invalid_definition(
                            "Map MaxConcurrency must be a non-negative integer".to_owned(),
                        ),
                    )
                }
            },
            Some(IntOrExpr::Expr(expr)) => {
                let evaluated = match eval_string_or_expr(
                    out,
                    env,
                    expr.as_str(),
                    states,
                    variables,
                ) {
                    Ok(v) => v,
                    Err(e) => return Err(e),
                };
                let limit: Option<usize> = match evaluated.whole() {
                    Some(n) => {
                        if n >= 0 {
                            if n <= usize::MAX as i128 {
                                Some(n as usize)
                            } else {
                                Some(usize::MAX)
                            }
                        } else {
                            None
                        }
                    },
                    None => None,
                };
                match limit {
                    Some(n) => Ok(n),
                    None => Err(
                        ExecutionError::invalid_definition(
                            "Map MaxConcurrency expression must evaluate to a non-negative integer".to_owned(),
                        ),
                    ),
                }
            },
        }
    }

    /// Makes the plan of the `Map` from its input.
    pub fn process_input(
        &self,
        out: &mut Collector,
        env: &EvalEnv,
        activity: &Activity,
        variables: &Variables,
        states: &States,
    ) -> (r: Result<MapActivityState, ExecutionError>)
        ensures
            match r {
                Ok(plan) => map_plan(*env, *self.state, activity@, states@, variables@) == Ok::<
                    _,
                    ExecutionErrorView,
                >(plan@),
                Err(e) => map_plan(*env, *self.state, activity@, states@, variables@) == Err::<
                    MapActivityStateView,
                    _,
                >(e@),
            },
            final(out)@ == map_plan_asked(
                old(out)@,
                *env,
                *self.state,
                activity@,
                states@,
                variables@,
            ),
    {
        let items = match self.resolve_map_items(out, env, activity, variables, states) {
            Ok(items) => items,
            Err(e) => return Err(e),
        };
        let max_concurrency = match self.resolve_max_concurrency(out, env, variables, states) {
            Ok(n) => n,
            Err(e) => return Err(e),
        };
        let total = items.len();
        let plan = MapActivityState { items, total, max_concurrency, children: Vec::new() };
        assert(plan@.children =~= Seq::empty());
        Ok(plan)
    }

    fn spawn_items(
        &self,
        out: &mut Collector,
        owner: &ObjectReference,
        activity: &Activity,
        items: &Vec<Value>,
        from: usize,
        count: usize,
    )
        requires
            from + count <= usize::MAX,
        ensures
            final(out)@ == items_spawned(
                old(out)@,
                owner@,
                activity@,
                *self.state,
                items.deep_view(),
                from as nat,
                count as nat,
            ),
    {
        let pointer = activity.state_path.item_processor();
        let start_at = match &self.state.item_processor {
            Some(p) => p.start_at.clone(),
            None => String::new(),
        };
        let ghost before = out@;
        let mut k: usize = 0;
        while k < count
            invariant
                k <= count,
                from + count <= usize::MAX,
                pointer@ == item_processor_path(activity@.state_path),
                start_at@ == item_start(*self.state),
                out@ == items_spawned(
                    before,
                    owner@,
                    activity@,
                    *self.state,
                    items.deep_view(),
                    from as nat,
                    k as nat,
                ),
            decreases count - k,
        {
            let index = from + k;
            let input = if index < items.len() {
                assert(items.deep_view()[index as int] == items@[index as int]@);
                items[index].clone()
            } else {
                Value::Null
            };
            out.append_command(
                Command::SpawnThread(
                    SpawnThread {
                        owner: owner.clone(),
                        execution: activity.execution.clone(),
                        state_path: Some(pointer.clone()),
                        index,
                        start_at: start_at.clone(),
                        input,
                    },
                ),
            );
            k += 1;
        }
    }

    /// Spawns the first items, or finishes a `Map` without items.
    pub fn after_activated(
        &self,
        out: &mut Collector,
        env: &EvalEnv,
        activity: &Activity,
        variables: &Variables,
    )
        requires
            store_ok(old(out)@.store),
            activity_ok(activity@),
        ensures
            final(out)@ == map_activated(
                old(out)@,
                *env,
                *self.state,
                activity@,
                variables@,
            ),
            store_ok(final(out)@.store),
    {
        broadcast use lemma_array_view;

        let plan = match &activity.activity_state {
            Some(ActivityState::ItemMap(plan)) => plan,
            _ => return ,
        };
        let batch = if plan.max_concurrency == 0 || plan.max_concurrency > plan.total {
            plan.total
        } else {
            plan.max_concurrency
        };
        let owner = activity.reference();
        self.spawn_items(out, &owner, activity, &plan.items, 0, batch);
        proof {
            lemma_spawned_store(
                old(out)@,
                owner@,
                activity@,
                *self.state,
                plan.items.deep_view(),
                0,
                batch as nat,
            );
        }
        if plan.total == 0 {
            let none: Vec<Value> = Vec::new();
            assert(none.deep_view() =~= Seq::empty());
            self.finish_map(out, env, &owner, activity, variables, Value::Array(none));
        }
    }

    /// Finishes the `Map` with the outputs of its items.
    pub fn finish_map(
        &self,
        out: &mut Collector,
        env: &EvalEnv,
        activity_ref: &ObjectReference,
        activity: &Activity,
        variables: &Variables,
        aggregated: Value,
    )
        requires
            store_ok(old(out)@.store),
            activity_ok(activity@),
        ensures
            final(out)@ == finish_map(
                old(out)@,
                *env,
                *self.state,
                activity_ref@,
                activity@,
                variables@,
                aggregated@,
            ),
            store_ok(final(out)@.store),
    {
        run_finish_container(
            out,
            env,
            activity_ref,
            activity,
            variables,
            as_option(&self.state.assign),
            as_option(&self.state.output),
            as_option(&self.state.next),
            self.state.end,
            aggregated,
        );
    }

    /// Whether `child` runs one of the items.
    fn runs_item(slots: &Vec<Slot>, child: &ObjectReference) -> (r: bool)
        ensures
            r == runs_item(slots.deep_view(), child@),
    {
        let ghost all = slots.deep_view();
        let mut i: usize = 0;
        while i < slots.len()
            invariant
                i <= slots.len(),
                all == slots.deep_view(),
                forall|j: int| 0 <= j < i ==> (#[trigger] all[j]).thread != child@,
            decreases slots.len() - i,
        {
            assert(all[i as int] == slots@[i as int]@);
            if slots[i].thread.same(child) {
                assert(all[i as int].thread == child@);
                return true;
            }
            i += 1;
        }
        false
    }

    fn item_completed(storage: &Store, thread: &ObjectReference) -> (r: bool)
        ensures
            r == item_completed(storage@, thread@),
    {
        match storage.get_thread(thread) {
            Ok(Some(t)) => t.value.is_terminal() && t.value.status.termination_reason().is_none(),
            _ => false,
        }
    }

    fn completed_items(storage: &Store, slots: &Vec<Slot>) -> (r: usize)
        ensures
            r == completed_items(storage@, slots.deep_view()),
    {
        let ghost all = slots.deep_view();
        let mut n: usize = 0;
        let mut i: usize = 0;
        assert(all.take(0) =~= Seq::empty());
        while i < slots.len()
            invariant
                i <= slots.len(),
                all == slots.deep_view(),
                n <= i,
                n == completed_items(storage@, all.take(i as int)),
            decreases slots.len() - i,
        {
            let ghost next = all.take(i as int + 1);
            assert(next.drop_last() =~= all.take(i as int));
            assert(next.last() == slots@[i as int]@);
            if Self::item_completed(storage, &slots[i].thread) {
                n += 1;
            }
            i += 1;
        }
        assert(all.take(all.len() as int) =~= all);
        n
    }

    fn item_outputs(storage: &Store, slots: &Vec<Slot>) -> (r: Vec<Value>)
        ensures
            r.deep_view() == item_outputs(storage@, slots.deep_view()),
    {
        let mut r: Vec<Value> = Vec::new();
        let mut i: usize = 0;
        while i < slots.len()
            invariant
                i <= slots.len(),
                r@.len() == i,
                forall|j: int|
                    0 <= j < i ==> (#[trigger] r@[j])@ == item_output(
                        storage@,
                        slots@[j]@.thread,
                    ),
            decreases slots.len() - i,
        {
            let output = match storage.get_thread(&slots[i].thread) {
                Ok(Some(t)) => match t.value.output {
                    Some(v) => v,
                    None => Value::Null,
                },
                _ => Value::Null,
            };
            r.push(output);
            i += 1;
        }
        assert(r.deep_view() =~= item_outputs(storage@, slots.deep_view()));
        r
    }

    /// Reacts to a settled child: fails, finishes or refills.
    pub fn child_completed(
        &self,
        out: &mut Collector,
        env: &EvalEnv,
        activity: &ObjectReference,
        activity_value: &Activity,
        variables: &Variables,
        child: &ObjectReference,
    )
        requires
            store_ok(old(out)@.store),
            activity_ok(activity_value@),
        ensures
            final(out)@ == map_child_completed(
                old(out)@,
                *env,
                *self.state,
                activity@,
                activity_value@,
                variables@,
                child@,
            ),
            store_ok(final(out)@.store),
    {
        broadcast use lemma_array_view;

        let act = match out.storage().get_activity(activity) {
            Ok(Some(a)) => a,
            _ => return ,
        };
        let plan = match act.value.activity_state {
            Some(ActivityState::ItemMap(plan)) => plan,
            _ => return ,
        };
        if !Self::runs_item(&plan.children, child) {
            return ;
        }
        if !Self::item_completed(out.storage(), child) {
            let reason = TerminationReason::Failed {
                error: ExecutionError::Runtime(
                    RuntimeError::StateFailed {
                        state: activity_value.state_path.state_name(),
                        error: "Map item failed".to_owned(),
                        output: Value::Null,
                    },
                ),
            };
            run_fail_container(out, activity_value, reason);
            return ;
        }
        let spawned = plan.children.len();
        let completed = Self::completed_items(out.storage(), &plan.children);
        proof {
            lemma_completed_items(out@.store, plan.children.deep_view());
            lemma_ascending_len(plan.children.deep_view(), plan.total as int);
        }
        if completed == plan.total {
            let outputs = Self::item_outputs(out.storage(), &plan.children);
            let reference = activity_value.reference();
            self.finish_map(
                out,
                env,
                &reference,
                activity_value,
                variables,
                Value::Array(outputs),
            );
            return ;
        }
        let in_flight = spawned - completed;
        let capacity = if plan.max_concurrency == 0 {
            plan.total
        } else {
            plan.max_concurrency
        };
        let free = capacity.saturating_sub(in_flight);
        let left = plan.total - spawned;
        let to_spawn = if free < left {
            free
        } else {
            left
        };
        self.spawn_items(out, activity, activity_value, &plan.items, spawned, to_spawn);
        proof {
            lemma_spawned_store(
                old(out)@,
                activity@,
                activity_value@,
                *self.state,
                plan.items.deep_view(),
                spawned as nat,
                to_spawn as nat,
            );
        }
    }
}

/// Spawning only emits commands.
proof fn lemma_spawned_store(
    w: World,
    owner: ObjectReferenceView,
    a: ActivityView,
    m: MapState,
    items: Seq<Json>,
    from: nat,
    count: nat,
)
    ensures
        items_spawned(w, owner, a, m, items, from, count).store == w.store,
    decreases count,
{
    if count > 0 {
        lemma_spawned_store(w, owner, a, m, items, from, (count - 1) as nat);
    }
}

} // verus!
