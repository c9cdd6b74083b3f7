//! The `Parallel` state: runs its branches side by side, and fails as soon as one of them does.

use vstd::prelude::*;

use crate::asl::{Branch, ParallelState, State};
use crate::eval_env::{reply_view, EvalEnv};
use crate::handler::{Collector, World};
use crate::handlers::shared::{as_option, eval_json, json_asked, json_reply};
use crate::handlers::states::common::{
    fail_container, finish_container, run_fail_container, run_finish_container,
};
use crate::storage::order::{activity_ok, store_ok};
use crate::storage::scope::{load_scope_ref, scope_of, ScopeRecord};
use crate::storage::store::{Store, StoreView};
use crate::text::join2;
use crate::types::activity::{
    Activity, ActivityState, ActivityStateView, ActivityView, Slot, SlotView,
};
use crate::types::command::{
    group_command_view, Command, CommandView, SpawnThread, SpawnThreadView,
};
use crate::types::context::{States, StatesView};
use crate::types::error::{state_not_found, ExecutionError, ExecutionErrorView};
use crate::types::meta::{reference_text, ObjectReference, ObjectReferenceView};
use crate::types::state_path::branch_path;
use crate::types::status::{failed, TerminationReason, TerminationReasonView};
use crate::value::{lemma_array_view, Json, MemberView, Value, Variables};

verus! {

broadcast use group_command_view;

/// The input that the branches receive: what `Arguments` evaluates to, or the input of the state.
pub open spec fn arguments_reply(
    env: EvalEnv,
    arguments: Option<Json>,
    a: ActivityView,
    states: StatesView,
    variables: Seq<MemberView>,
) -> Result<Json, ExecutionErrorView> {
    match arguments {
        Some(template) => json_reply(env, template, states, variables),
        None => Ok(a.raw_input),
    }
}

/// What evaluating `Arguments` leaves.
pub open spec fn arguments_asked(
    w: World,
    env: EvalEnv,
    arguments: Option<Json>,
    states: StatesView,
    variables: Seq<MemberView>,
) -> World {
    match arguments {
        Some(template) => json_asked(w, env, template, states, variables),
        None => w,
    }
}

/// Evaluates the `Arguments` of a state, which default to its input.
pub fn eval_arguments(
    out: &mut Collector,
    env: &EvalEnv,
    arguments: Option<&Value>,
    activity: &Activity,
    variables: &Variables,
    states: &States,
) -> (r: Result<Value, ExecutionError>)
    ensures
        reply_view(r) == arguments_reply(
            *env,
            arguments.deep_view(),
            activity@,
            states@,
            variables@,
        ),
        final(out)@ == arguments_asked(
            old(out)@,
            *env,
            arguments.deep_view(),
            states@,
            variables@,
        ),
{
    match arguments {
        Some(template) => eval_json(out, env, template, states, variables),
        None => Ok(activity.raw_input.clone()),
    }
}

/// The input that an activity hands on: its processed one.
pub open spec fn handed_input(a: ActivityView) -> Json {
    match a.input {
        Some(v) => v,
        None => Json::Null,
    }
}

/// The input that an activity hands on.
pub fn hand_input(a: &Activity) -> (r: Value)
    ensures
        r@ == handed_input(a@),
{
    match &a.input {
        Some(v) => v.clone(),
        None => Value::Null,
    }
}

/// What spawning the branches, each in its own table, leaves.
pub open spec fn branches_spawned(w: World, a: ActivityView, branches: Seq<Branch>) -> World
    decreases branches.len(),
{
    if branches.len() == 0 {
        w
    } else {
        let index = (branches.len() - 1) as nat;
        branches_spawned(w, a, branches.drop_last()).command(
            CommandView::SpawnThread(
                SpawnThreadView {
                    owner: a.reference(),
                    execution: a.execution,
                    state_path: Some(branch_path(a.state_path, index)),
                    index: index as usize,
                    start_at: branches.last().start_at@,
                    input: handed_input(a),
                },
            ),
        )
    }
}

proof fn lemma_branches_store(w: World, a: ActivityView, branches: Seq<Branch>)
    ensures
        branches_spawned(w, a, branches).store == w.store,
    decreases branches.len(),
{
    if branches.len() > 0 {
        lemma_branches_store(w, a, branches.drop_last());
    }
}

/// The success finish of a `Parallel` with the outputs of its branches.
pub open spec fn finish_parallel(
    w: World,
    env: EvalEnv,
    p: ParallelState,
    activity: ObjectReferenceView,
    a: ActivityView,
    variables: Seq<MemberView>,
    aggregated: Json,
) -> World {
    finish_container(
        w,
        env,
        activity,
        a,
        variables,
        p.assign,
        p.output.deep_view(),
        p.next.deep_view(),
        p.end,
        aggregated,
    )
}

/// What follows the activation of a `Parallel`: its branches are spawned, and one without branches
/// finishes at once.
pub open spec fn parallel_activated(
    w: World,
    env: EvalEnv,
    p: ParallelState,
    a: ActivityView,
    variables: Seq<MemberView>,
) -> World {
    let spawned = branches_spawned(w, a, p.branches@);
    if p.branches@.len() == 0 {
        finish_parallel(spawned, env, p, a.reference(), a, variables, Json::Array(Seq::empty()))
    } else {
        spawned
    }
}

/// Why a branch fails its `Parallel`, if it does: it has terminated or terminates, or it is gone.
pub open spec fn branch_failure(s: StoreView, thread: ObjectReferenceView) -> Option<
    TerminationReasonView,
> {
    match scope_of(s, thread) {
        Ok(Some(scope)) => scope.status().reason(),
        _ => Some(failed(state_not_found("branch "@ + reference_text(thread)))),
    }
}

/// Why the first branch that fails its `Parallel` does so, in the order of the branches.
pub open spec fn first_failure(s: StoreView, slots: Seq<SlotView>) -> Option<
    TerminationReasonView,
>
    decreases slots.len(),
{
    if slots.len() == 0 {
        None
    } else {
        match first_failure(s, slots.drop_last()) {
            Some(reason) => Some(reason),
            None => branch_failure(s, slots.last().thread),
        }
    }
}

/// Whether every branch has reached its end.
pub open spec fn all_ended(s: StoreView, slots: Seq<SlotView>) -> bool {
    forall|i: int|
        0 <= i < slots.len() ==> (scope_of(s, (#[trigger] slots[i]).thread) matches Ok(Some(scope))
            && scope.status().terminal())
}

/// The output of a branch.
pub open spec fn branch_output(s: StoreView, thread: ObjectReferenceView) -> Json {
    match scope_of(s, thread) {
        Ok(Some(scope)) => match scope.output() {
            Some(v) => v,
            None => Json::Null,
        },
        _ => Json::Null,
    }
}

/// The outputs of the branches, in their order.
pub open spec fn branch_outputs(s: StoreView, slots: Seq<SlotView>) -> Seq<Json> {
    Seq::new(slots.len(), |i: int| branch_output(s, slots[i].thread))
}

/// What a settled child leaves of a running `Parallel`. The first branch that failed fails it, while
/// others may still run. Otherwise nothing happens until the last child is gone; then it finishes
/// with the outputs of its branches.
pub open spec fn parallel_child_completed(
    w: World,
    env: EvalEnv,
    p: ParallelState,
    activity: ObjectReferenceView,
    a: ActivityView,
    variables: Seq<MemberView>,
) -> World {
    match w.store.activity(activity) {
        Ok(Some(row)) => match row.value.activity_state {
            Some(ActivityStateView::Parallel(progress)) => match first_failure(
                w.store,
                progress.branches,
            ) {
                Some(reason) => fail_container(w, a, reason),
                None => if row.active_children.len() > 0 {
                    w
                } else if !all_ended(w.store, progress.branches) {
                    fail_container(w, a, TerminationReasonView::Cancelled)
                } else {
                    finish_parallel(
                        w,
                        env,
                        p,
                        activity,
                        a,
                        variables,
                        Json::Array(branch_outputs(w.store, progress.branches)),
                    )
                },
            },
            _ => w,
        },
        _ => w,
    }
}

/// One failed branch fails the whole `Parallel` at once, whatever the others do.
pub proof fn law_failed_branch_fails_parallel(
    w: World,
    env: EvalEnv,
    p: ParallelState,
    activity: ObjectReferenceView,
    a: ActivityView,
    variables: Seq<MemberView>,
    i: int,
)
    requires
        w.store.activity(activity) matches Ok(Some(row)) && row.value.activity_state matches Some(
            ActivityStateView::Parallel(progress),
        ) && 0 <= i < progress.branches.len() && branch_failure(
            w.store,
            progress.branches[i].thread,
        ) is Some,
    ensures
        exists|reason: TerminationReasonView|
            parallel_child_completed(w, env, p, activity, a, variables) == #[trigger] fail_container(
                w,
                a,
                reason,
            ),
{
    let row = w.store.activity(activity)->Ok_0->0;
    let slots = row.value.activity_state->0->Parallel_0.branches;
    lemma_first_failure(w.store, slots, i);
    let reason = first_failure(w.store, slots)->0;
    assert(parallel_child_completed(w, env, p, activity, a, variables) == fail_container(
        w,
        a,
        reason,
    ));
}

proof fn lemma_first_failure(s: StoreView, slots: Seq<SlotView>, i: int)
    requires
        0 <= i < slots.len(),
        branch_failure(s, slots[i].thread) is Some,
    ensures
        first_failure(s, slots) is Some,
    decreases slots.len(),
{
    if i < slots.len() - 1 {
        lemma_first_failure(s, slots.drop_last(), i);
    }
}

/// Builds the handler of a `Parallel`.
pub struct ParallelStateHandlerFactory;

impl ParallelStateHandlerFactory {
    /// An empty definition of the state that this factory serves.
    pub fn state(&self) -> (r: State)
        ensures
            r is Parallel,
    {
        State::Parallel(
            ParallelState {
                comment: None,
                output: None,
                assign: None,
                next: None,
                end: None,
                branches: Vec::new(),
                arguments: None,
            },
        )
    }

    /// The handler bound to `state`, which must be a `Parallel`.
    pub fn create<'a>(&self, state: &'a State) -> (r: ParallelStateHandler<'a>)
        requires
            state is Parallel,
        ensures
            *state == State::Parallel(*r.state),
    {
        match state {
            State::Parallel(s) => ParallelStateHandler { state: s },
            _ => ParallelStateHandler { state: vstd::pervasive::unreached() },
        }
    }
}

/// The handler of one `Parallel`.
pub struct ParallelStateHandler<'a> {
    pub state: &'a ParallelState,
}

impl<'a> ParallelStateHandler<'a> {
    /// Spawns the branches, or finishes a `Parallel` without branches.
    pub fn after_activated(
        &self,
        out: &mut Collector,
        env: &EvalEnv,
        activity: &Activity,
        variables: &Variables,
    )
        requires
            store_ok(old(out)@.store),
            activity_ok(activity@),
        ensures
            final(out)@ == parallel_activated(
                old(out)@,
                *env,
                *self.state,
                activity@,
                variables@,
            ),
            store_ok(final(out)@.store),
    {
        broadcast use lemma_array_view;

        let owner = activity.reference();
        let ghost all = self.state.branches@;
        let ghost before = out@;
        let mut i: usize = 0;
        assert(all.take(0) =~= Seq::empty());
        while i < self.state.branches.len()
            invariant
                i <= self.state.branches.len(),
                all == self.state.branches@,
                owner@ == activity@.reference(),
                out@ == branches_spawned(before, activity@, all.take(i as int)),
            decreases self.state.branches.len() - i,
        {
            let ghost next = all.take(i as int + 1);
            assert(next.drop_last() =~= all.take(i as int));
            assert(next.last() == all[i as int]);
            out.append_command(
                Command::SpawnThread(
                    SpawnThread {
                        owner: owner.clone(),
                        execution: activity.execution.clone(),
                        state_path: Some(activity.state_path.branch(i)),
                        index: i,
                        start_at: self.state.branches[i].start_at.clone(),
                        input: hand_input(activity),
                    },
                ),
            );
            i += 1;
        }
        assert(all.take(all.len() as int) =~= all);
        proof {
            lemma_branches_store(before, activity@, all);
        }
        if self.state.branches.len() == 0 {
            let none: Vec<Value> = Vec::new();
            assert(none.deep_view() =~= Seq::empty());
            self.finish_parallel(out, env, &owner, activity, variables, Value::Array(none));
        }
    }

    /// Finishes the `Parallel` with the outputs of its branches.
    pub fn finish_parallel(
        &self,
        out: &mut Collector,
        env: &EvalEnv,
        activity_ref: &ObjectReference,
        activity: &Activity,
        variables: &Variables,
        aggregated: Value,
    )
        requires
            store_ok(old(out)@.store),
            activity_ok(activity@),
        ensures
            final(out)@ == finish_parallel(
                old(out)@,
                *env,
                *self.state,
                activity_ref@,
                activity@,
                variables@,
                aggregated@,
            ),
            store_ok(final(out)@.store),
    {
        run_finish_container(
            out,
            env,
            activity_ref,
            activity,
            variables,
            as_option(&self.state.assign),
            as_option(&self.state.output),
            as_option(&self.state.next),
            self.state.end,
            aggregated,
        );
    }

    /// The scopes of the branches, or why the first that fails the `Parallel` does.
    fn load_branches(storage: &Store, slots: &Vec<Slot>) -> (r: Result<
        Vec<ScopeRecord>,
        TerminationReason,
    >)
        ensures
            match r {
                Ok(scopes) => {
                    &&& first_failure(storage@, slots.deep_view()) is None
                    &&& scopes@.len() == slots@.len()
                    &&& forall|j: int|
                        0 <= j < slots@.len() ==> scope_of(
                            storage@,
                            #[trigger] slots.deep_view()[j].thread,
                        ) == Ok::<_, ExecutionErrorView>(Some(scopes@[j]@))
                },
                Err(reason) => first_failure(storage@, slots.deep_view()) == Some(reason@),
            },
    {
        let ghost all = slots.deep_view();
        let mut scopes: Vec<ScopeRecord> = Vec::new();
        let mut i: usize = 0;
        assert(all.take(0) =~= Seq::empty());
        while i < slots.len()
            invariant
                i <= slots.len(),
                all == slots.deep_view(),
                scopes@.len() == i,
                first_failure(storage@, all.take(i as int)) is None,
                forall|j: int|
                    0 <= j < i ==> scope_of(storage@, #[trigger] all[j].thread) == Ok::<
                        _,
                        ExecutionErrorView,
                    >(Some(scopes@[j]@)),
            decreases slots.len() - i,
        {
            let ghost next = all.take(i as int + 1);
            let ghost thread = all[i as int].thread;
            assert(next.drop_last() =~= all.take(i as int));
            assert(next.last() == slots@[i as int]@);
            let scope = match load_scope_ref(storage, &slots[i].thread) {
                Ok(Some(scope)) => scope,
                _ => {
                    let reason = TerminationReason::Failed {
                        error: ExecutionError::state_not_found(
                            join2("branch ", slots[i].thread.text().as_str()),
                        ),
                    };
                    proof {
                        assert(first_failure(storage@, next) == Some(reason@));
                        lemma_failure_extends(storage@, all, i as int + 1);
                    }
                    return Err(reason);
                },
            };
            match scope.termination_reason() {
                Some(reason) => {
                    let reason = reason.clone();
                    proof {
                        assert(first_failure(storage@, next) == Some(reason@));
                        lemma_failure_extends(storage@, all, i as int + 1);
                    }
                    return Err(reason);
                },
                None => {},
            }
            scopes.push(scope);
            i += 1;
        }
        assert(all.take(all.len() as int) =~= all);
        Ok(scopes)
    }

    /// Reacts to a settled child: fails, finishes, or waits for the others.
    pub fn child_completed(
        &self,
        out: &mut Collector,
        env: &EvalEnv,
        activity: &ObjectReference,
        activity_value: &Activity,
        variables: &Variables,
    )
        requires
            store_ok(old(out)@.store),
            activity_ok(activity_value@),
        ensures
            final(out)@ == parallel_child_completed(
                old(out)@,
                *env,
                *self.state,
                activity@,
                activity_value@,
                variables@,
            ),
            store_ok(final(out)@.store),
    {
        broadcast use lemma_array_view;

        let act = match out.storage().get_activity(activity) {
            Ok(Some(a)) => a,
            _ => return ,
        };
        let progress = match act.value.activity_state {
            Some(ActivityState::Parallel(progress)) => progress,
            _ => return ,
        };
        let scopes = match Self::load_branches(out.storage(), &progress.branches) {
            Ok(scopes) => scopes,
            Err(reason) => {
                run_fail_container(out, activity_value, reason);
                return ;
            },
        };
        if act.active_children.len() > 0 {
            return ;
        }
        let ghost slots = progress.branches.deep_view();
        let mut outputs: Vec<Value> = Vec::new();
        let mut i: usize = 0;
        while i < scopes.len()
            invariant
                i <= scopes.len(),
                scopes@.len() == slots.len(),
                outputs@.len() == i,
                out@ == old(out)@,
                forall|j: int|
                    0 <= j < slots.len() ==> scope_of(out@.store, #[trigger] slots[j].thread)
                        == Ok::<_, ExecutionErrorView>(Some(scopes@[j]@)),
                forall|j: int|
                    0 <= j < i ==> {
                        &&& (#[trigger] scopes@[j])@.status().terminal()
                        &&& outputs@[j]@ == branch_output(out@.store, slots[j].thread)
                    },
            ensures
                out@ == old(out)@,
                i <= scopes@.len(),
                outputs@.len() == i,
                i < scopes@.len() ==> !all_ended(out@.store, slots),
                i == scopes@.len() ==> all_ended(out@.store, slots) && outputs.deep_view()
                    =~= branch_outputs(out@.store, slots),
            decreases scopes.len() - i,
        {
            assert(scope_of(out@.store, slots[i as int].thread) == Ok::<_, ExecutionErrorView>(
                Some(scopes@[i as int]@),
            ));
            if !scopes[i].is_terminal() {
                break ;
            }
            let output = match scopes[i].output() {
                Some(v) => v.clone(),
                None => Value::Null,
            };
            outputs.push(output);
            i += 1;
        }
        if i < scopes.len() {
            run_fail_container(out, activity_value, TerminationReason::Cancelled);
            return ;
        }
        self.finish_parallel(
            out,
            env,
            activity,
            activity_value,
            variables,
            Value::Array(outputs),
        );
    }
}

proof fn lemma_failure_extends(s: StoreView, slots: Seq<SlotView>, n: int)
    requires
        0 <= n <= slots.len(),
        first_failure(s, slots.take(n)) is Some,
    ensures
        first_failure(s, slots) == first_failure(s, slots.take(n)),
    decreases slots.len() - n,
{
    if n == slots.len() {
        assert(slots.take(n) =~= slots);
    } else {
        assert(slots.take(n + 1).drop_last() =~= slots.take(n));
        lemma_failure_extends(s, slots, n + 1);
    }
}

} // verus!
