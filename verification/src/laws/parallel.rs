//! The `Parallel` state.

use vstd::prelude::*;

use crate::asl::{Branch, ParallelState};
use crate::eval_env::{EvalEnv, QuestionView};
use crate::handler::World;
use crate::handlers::states::common::{fail_container, finish_container};
use crate::handlers::states::parallel::{
    all_ended, arguments_asked, arguments_reply, branch_output, branch_outputs, branches_spawned,
    first_failure, parallel_activated, parallel_child_completed,
};
use crate::laws::{fills, named_by, sent};
use crate::storage::scope::scope_of;
use crate::storage::store::StoreView;
use crate::storage::thread::ThreadRecordView;
use crate::text::decimal;
use crate::types::activity::{ActivityStateView, ActivityView, SlotView};
use crate::types::command::{CommandView, SpawnThreadView};
use crate::types::context::StatesView;
use crate::types::entry::EntryPayloadView;
use crate::types::error::{ExecutionErrorView, RuntimeErrorView};
use crate::types::meta::{reference_text, ObjectReferenceView};
use crate::types::status::{LifecycleView, TerminationReasonView};
use crate::value::{Json, MemberView};

verus! {

/// The input that a processed activity hands to its children.
pub open spec fn handed(a: ActivityView) -> Json {
    match a.input {
        Some(v) => v,
        None => Json::Null,
    }
}

/// The birth of the branch `i`: in its own table, from its own first state, with the input of the state.
pub open spec fn branch_birth(a: ActivityView, branches: Seq<Branch>, i: int) -> EntryPayloadView {
    sent(
        CommandView::SpawnThread(
            SpawnThreadView {
                owner: named_by(a.meta),
                execution: a.execution,
                state_path: Some(
                    a.state_path + seq!["Branches"@, decimal(i as nat), "States"@],
                ),
                index: i as usize,
                start_at: branches[i].start_at@,
                input: handed(a),
            },
        ),
    )
}

proof fn lemma_spawned(w: World, a: ActivityView, branches: Seq<Branch>)
    ensures
        ({
            let after = branches_spawned(w, a, branches);
            &&& after == (World { chain: after.chain, ..w })
            &&& after.chain.len() == w.chain.len() + branches.len()
            &&& forall|i: int| 0 <= i < w.chain.len() ==> #[trigger] after.chain[i] == w.chain[i]
            &&& forall|i: int|
                0 <= i < branches.len() ==> after.chain[w.chain.len() + i] == #[trigger] branch_birth(
                    a,
                    branches,
                    i,
                )
        }),
    decreases branches.len(),
{
    if branches.len() > 0 {
        let init = branches.drop_last();
        lemma_spawned(w, a, init);
        let before = branches_spawned(w, a, init);
        let after = branches_spawned(w, a, branches);
        let n = init.len() as int;
        assert(a.state_path.push("Branches"@).push(decimal(n as nat)).push("States"@)
            =~= a.state_path + seq!["Branches"@, decimal(n as nat), "States"@]);
        assert forall|i: int| 0 <= i < branches.len() implies after.chain[w.chain.len() + i]
            == #[trigger] branch_birth(a, branches, i) by {
            if i < n {
                assert(init[i] == branches[i]);
                assert(branch_birth(a, init, i) == branch_birth(a, branches, i));
                assert(after.chain[w.chain.len() + i] == before.chain[w.chain.len() + i]);
            }
        }
    }
}

/// A `Parallel` starts each of its branches, in their order, and nothing else: the branch at `i` in the
/// table of that branch and from the state that it starts at.
pub proof fn law_every_branch_is_started(
    w: World,
    env: EvalEnv,
    p: ParallelState,
    a: ActivityView,
    variables: Seq<MemberView>,
)
    requires
        p.branches@.len() > 0,
    ensures
        ({
            let after = parallel_activated(w, env, p, a, variables);
            &&& after.chain == w.chain + Seq::new(
                p.branches@.len(),
                |i: int| branch_birth(a, p.branches@, i),
            )
            &&& after.store == w.store
            &&& after.question == w.question
        }),
{
    lemma_spawned(w, a, p.branches@);
    let after = parallel_activated(w, env, p, a, variables);
    let births = Seq::new(p.branches@.len(), |i: int| branch_birth(a, p.branches@, i));
    assert forall|k: int| 0 <= k < after.chain.len() implies after.chain[k] == (w.chain + births)[k] by {
        if k >= w.chain.len() {
            let i = k - w.chain.len();
            assert(after.chain[w.chain.len() + i] == branch_birth(a, p.branches@, i));
        }
    }
    assert(after.chain =~= w.chain + births);
}

/// A `Parallel` without branches finishes at once, with nothing.
pub proof fn law_parallel_without_branches_finishes(
    w: World,
    env: EvalEnv,
    p: ParallelState,
    a: ActivityView,
    variables: Seq<MemberView>,
)
    requires
        p.branches@.len() == 0,
    ensures
        parallel_activated(w, env, p, a, variables) == finish_container(
            w,
            env,
            named_by(a.meta),
            a,
            variables,
            p.assign,
            p.output.deep_view(),
            p.next.deep_view(),
            p.end,
            Json::Array(Seq::empty()),
        ),
{
}

/// The input that branches and tasks are handed is what `Arguments` evaluates to, or the input of the
/// state without it.
pub proof fn law_arguments_replace_the_input(
    w: World,
    env: EvalEnv,
    arguments: Option<Json>,
    a: ActivityView,
    states: StatesView,
    variables: Seq<MemberView>,
    v: Json,
)
    ensures
        arguments is None ==> arguments_reply(env, arguments, a, states, variables) == Ok::<
            _,
            ExecutionErrorView,
        >(a.raw_input) && arguments_asked(w, env, arguments, states, variables) == w,
        arguments matches Some(template) && fills(env, template, states, variables, v)
            ==> arguments_reply(env, arguments, a, states, variables) == Ok::<
            _,
            ExecutionErrorView,
        >(v) && arguments_asked(w, env, arguments, states, variables) == w,
        arguments matches Some(template) ==> (env.answer(
            QuestionView::Json { template, states, variables },
        ) matches Some(Err(e)) ==> arguments_reply(env, arguments, a, states, variables) == Err::<
            Json,
            _,
        >(e)),
        arguments matches Some(template) ==> arguments_asked(w, env, arguments, states, variables)
            == w.asked(env, QuestionView::Json { template, states, variables }),
{
}

/// The thread of a slot, when it can be read.
pub open spec fn thread_in(s: StoreView, slots: Seq<SlotView>, i: int) -> Option<ThreadRecordView> {
    match s.thread(slots[i].thread) {
        Ok(Some(row)) => Some(row),
        _ => None,
    }
}

/// Every slot holds a thread that has completed.
pub open spec fn all_completed(s: StoreView, slots: Seq<SlotView>) -> bool {
    forall|i: int|
        0 <= i < slots.len() ==> (#[trigger] slots[i]).thread.kind is Thread && (thread_in(
            s,
            slots,
            i,
        ) matches Some(row) && row.value.status is Completed)
}

/// What the threads in the slots gave, slot by slot; a thread without an output gave `null`.
pub open spec fn gathered(s: StoreView, slots: Seq<SlotView>) -> Seq<Json> {
    Seq::new(
        slots.len(),
        |i: int|
            match thread_in(s, slots, i) {
                Some(row) => match row.value.output {
                    Some(v) => v,
                    None => Json::Null,
                },
                None => Json::Null,
            },
    )
}

proof fn lemma_no_failure(s: StoreView, slots: Seq<SlotView>)
    requires
        all_completed(s, slots),
    ensures
        first_failure(s, slots) is None,
    decreases slots.len(),
{
    if slots.len() > 0 {
        let init = slots.drop_last();
        assert forall|i: int| 0 <= i < init.len() implies (#[trigger] init[i]).thread.kind is Thread && (
        thread_in(s, init, i) matches Some(row) && row.value.status is Completed) by {
            assert(init[i] == slots[i]);
            assert(thread_in(s, slots, i) == thread_in(s, init, i));
        }
        lemma_no_failure(s, init);
        assert(slots[slots.len() - 1] == slots.last());
        assert(thread_in(s, slots, slots.len() - 1) is Some);
    }
}

/// A `Parallel` whose branches have all completed finishes with the array of their outputs, in the order
/// of the branches, whatever order they settled in.
pub proof fn law_outputs_are_gathered_in_the_order_of_the_branches(
    w: World,
    env: EvalEnv,
    p: ParallelState,
    activity: ObjectReferenceView,
    a: ActivityView,
    variables: Seq<MemberView>,
    slots: Seq<SlotView>,
)
    requires
        w.store.activity(activity) matches Ok(Some(row)) && row.active_children.len() == 0 && (
        row.value.activity_state matches Some(ActivityStateView::Parallel(progress))
            && progress.branches == slots),
        all_completed(w.store, slots),
    ensures
        parallel_child_completed(w, env, p, activity, a, variables) == finish_container(
            w,
            env,
            activity,
            a,
            variables,
            p.assign,
            p.output.deep_view(),
            p.next.deep_view(),
            p.end,
            Json::Array(gathered(w.store, slots)),
        ),
{
    lemma_no_failure(w.store, slots);
    assert(all_ended(w.store, slots)) by {
        assert forall|i: int| 0 <= i < slots.len() implies (scope_of(
            w.store,
            (#[trigger] slots[i]).thread,
        ) matches Ok(Some(scope)) && scope.status().terminal()) by {
            assert(thread_in(w.store, slots, i) is Some);
        }
    }
    assert(branch_outputs(w.store, slots) =~= gathered(w.store, slots)) by {
        assert forall|i: int| 0 <= i < slots.len() implies branch_output(
            w.store,
            slots[i].thread,
        ) == gathered(w.store, slots)[i] by {
            assert(slots[i].thread.kind is Thread);
            assert(thread_in(w.store, slots, i) is Some);
        }
    }
}

/// The branch fails the `Parallel` for a reason: it was terminated for it or is being so, or it is gone.
pub open spec fn fails_for(
    s: StoreView,
    thread: ObjectReferenceView,
    reason: TerminationReasonView,
) -> bool {
    match s.thread(thread) {
        Ok(Some(row)) => row.value.status == LifecycleView::Terminating(reason) || row.value.status
            == LifecycleView::Terminated(reason),
        _ => reason == (TerminationReasonView::Failed {
            error: ExecutionErrorView::Runtime(
                RuntimeErrorView::StateNotFound("branch "@ + reference_text(thread)),
            ),
        }),
    }
}

proof fn lemma_first_failure_is(
    s: StoreView,
    slots: Seq<SlotView>,
    i: int,
    reason: TerminationReasonView,
)
    requires
        0 <= i < slots.len(),
        forall|j: int|
            0 <= j < i ==> (#[trigger] slots[j]).thread.kind is Thread && (thread_in(s, slots, j)
                matches Some(row) && !(row.value.status is Terminating) && !(
            row.value.status is Terminated)),
        slots[i].thread.kind is Thread,
        fails_for(s, slots[i].thread, reason),
    ensures
        first_failure(s, slots) == Some(reason),
    decreases slots.len(),
{
    let init = slots.drop_last();
    if i < init.len() {
        assert forall|j: int| 0 <= j < i implies (#[trigger] init[j]).thread.kind is Thread && (
        thread_in(s, init, j) matches Some(row) && !(row.value.status is Terminating) && !(
        row.value.status is Terminated)) by {
            assert(init[j] == slots[j]);
            assert(thread_in(s, slots, j) == thread_in(s, init, j));
        }
        assert(init[i] == slots[i]);
        lemma_first_failure_is(s, init, i, reason);
    } else {
        lemma_none_failed(s, init);
        assert(slots.last() == slots[i]);
    }
}

proof fn lemma_none_failed(s: StoreView, slots: Seq<SlotView>)
    requires
        forall|j: int|
            0 <= j < slots.len() ==> (#[trigger] slots[j]).thread.kind is Thread && (thread_in(
                s,
                slots,
                j,
            ) matches Some(row) && !(row.value.status is Terminating) && !(
            row.value.status is Terminated)),
    ensures
        first_failure(s, slots) is None,
    decreases slots.len(),
{
    if slots.len() > 0 {
        let init = slots.drop_last();
        assert forall|j: int| 0 <= j < init.len() implies (#[trigger] init[j]).thread.kind is Thread
            && (thread_in(s, init, j) matches Some(row) && !(row.value.status is Terminating) && !(
        row.value.status is Terminated)) by {
            assert(init[j] == slots[j]);
            assert(thread_in(s, slots, j) == thread_in(s, init, j));
        }
        lemma_none_failed(s, init);
        assert(slots[slots.len() - 1] == slots.last());
        assert(thread_in(s, slots, slots.len() - 1) is Some);
    }
}

/// The first branch that failed, in the order of the branches, fails the `Parallel` for its own reason,
/// while the others may still run.
pub proof fn law_first_failed_branch_gives_the_reason(
    w: World,
    env: EvalEnv,
    p: ParallelState,
    activity: ObjectReferenceView,
    a: ActivityView,
    variables: Seq<MemberView>,
    slots: Seq<SlotView>,
    i: int,
    reason: TerminationReasonView,
)
    requires
        w.store.activity(activity) matches Ok(Some(row)) && row.value.activity_state matches Some(
            ActivityStateView::Parallel(progress),
        ) && progress.branches == slots,
        0 <= i < slots.len(),
        forall|j: int|
            0 <= j < i ==> (#[trigger] slots[j]).thread.kind is Thread && (thread_in(
                w.store,
                slots,
                j,
            ) matches Some(row) && !(row.value.status is Terminating) && !(
            row.value.status is Terminated)),
        slots[i].thread.kind is Thread,
        fails_for(w.store, slots[i].thread, reason),
    ensures
        parallel_child_completed(w, env, p, activity, a, variables) == fail_container(w, a, reason),
{
    lemma_first_failure_is(w.store, slots, i, reason);
}

/// A `Parallel` waits: while no branch has failed and a child is still there, a settled child changes
/// nothing.
pub proof fn law_parallel_waits_for_its_last_child(
    w: World,
    env: EvalEnv,
    p: ParallelState,
    activity: ObjectReferenceView,
    a: ActivityView,
    variables: Seq<MemberView>,
    slots: Seq<SlotView>,
)
    requires
        w.store.activity(activity) matches Ok(Some(row)) && row.active_children.len() > 0 && (
        row.value.activity_state matches Some(ActivityStateView::Parallel(progress))
            && progress.branches == slots),
        forall|j: int|
            0 <= j < slots.len() ==> (#[trigger] slots[j]).thread.kind is Thread && (thread_in(
                w.store,
                slots,
                j,
            ) matches Some(row) && !(row.value.status is Terminating) && !(
            row.value.status is Terminated)),
    ensures
        parallel_child_completed(w, env, p, activity, a, variables) == w,
{
    lemma_none_failed(w.store, slots);
}

/// A `Parallel` without a child left, and without a failed branch, is cancelled when a branch has not come to
/// its end.
pub proof fn law_unfinished_branch_cancels_the_parallel(
    w: World,
    env: EvalEnv,
    p: ParallelState,
    activity: ObjectReferenceView,
    a: ActivityView,
    variables: Seq<MemberView>,
    slots: Seq<SlotView>,
    i: int,
)
    requires
        w.store.activity(activity) matches Ok(Some(row)) && row.active_children.len() == 0 && (
        row.value.activity_state matches Some(ActivityStateView::Parallel(progress))
            && progress.branches == slots),
        forall|j: int|
            0 <= j < slots.len() ==> (#[trigger] slots[j]).thread.kind is Thread && (thread_in(
                w.store,
                slots,
                j,
            ) matches Some(row) && !(row.value.status is Terminating) && !(
            row.value.status is Terminated)),
        0 <= i < slots.len(),
        thread_in(w.store, slots, i) matches Some(row) && !(row.value.status is Completed),
    ensures
        parallel_child_completed(w, env, p, activity, a, variables) == fail_container(
            w,
            a,
            TerminationReasonView::Cancelled,
        ),
{
    lemma_none_failed(w.store, slots);
    assert(slots[i].thread.kind is Thread);
    assert(!all_ended(w.store, slots));
}

} // verus!
