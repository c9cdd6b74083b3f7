//! Entering and completing a state, from the command to the entries.

use vstd::prelude::*;

use crate::asl::{State, StateMachine};
use crate::eval_env::EvalEnv;
use crate::handler::{HandlerContext, World};
use crate::handlers::activate_state::state_activation;
use crate::handlers::dispatch::dispatched;
use crate::handlers::resolve::{scope_state, state_at};
use crate::handlers::shared::timers_cancelled;
use crate::handlers::state_handler::{
    activation_followed, born_activity, completes_directly, entered, finished, initial_state,
    processed, processing_asked,
};
use crate::handlers::states::map::{map_activated, map_plan};
use crate::handlers::states::parallel::parallel_activated;
use crate::handlers::states::task::task_activated;
use crate::id::{Timestamp, Uid};
use crate::laws::{
    but_for_the_question, changed, ends_activity, ends_scope, fills, named_by, seen_on_entry, sent,
    told,
};
use crate::laws::fold::law_activity_is_changed;
use crate::laws::map::{allows, iterates, law_plan_holds_the_items};
use crate::laws::parallel::law_arguments_replace_the_input;
use crate::laws::timers::{armed, law_timer_is_armed, law_wait_resumes_at_its_instant, resumes};
use crate::storage::activity::ActivityRecordView;
use crate::storage::counter::keyed;
use crate::storage::scope::{machine_for, ScopeRecordView};
use crate::storage::store::row_key;
use crate::storage::thread::ThreadRecordView;
use crate::types::activity::{
    ActivityStateView, ActivityView, MapActivityStateView, ParallelActivityStateView, SlotView,
    WaitActivityState,
};
use crate::types::command::{ActivateStateView, CommandView, CompleteStateView};
use crate::types::context::StatesView;
use crate::types::error::{ExecutionErrorView, RuntimeErrorView};
use crate::types::event::EventView;
use crate::types::meta::{
    name_text, reference_text, NameKey, ObjectKind, ObjectMetaView, ObjectNameView,
    ObjectReferenceView,
};
use crate::types::status::{LifecycleView, TerminationReasonView};
use crate::types::timer::TimerPurpose;
use crate::value::{Json, MemberView};

verus! {

/// The command enters `state` in a thread that runs: the thread is its owner, and the state stands at its
/// path in the machine that the thread runs.
pub open spec fn enters(
    w: World,
    ctx: HandlerContext,
    cmd: ActivateStateView,
    thread: ThreadRecordView,
    sm: StateMachine,
    state: State,
) -> bool {
    &&& cmd.owner.kind is Thread
    &&& w.store.thread(cmd.owner) == Ok::<_, ExecutionErrorView>(Some(thread))
    &&& thread.value.status is Running
    &&& machine_for(ctx, w.store, ScopeRecordView::Thread(thread)) == Ok::<_, ExecutionErrorView>(
        sm,
    )
    &&& state_at(sm, cmd.state_path) == Ok::<_, ExecutionErrorView>(state)
}

/// The activity that a state is entered with: a new one under the thread, with the next uid and the next
/// number behind the name of the execution; a container carries an empty plan.
pub open spec fn born(w: World, cmd: ActivateStateView, state: State) -> ActivityView {
    ActivityView {
        meta: ObjectMetaView {
            kind: ObjectKind::Activity,
            name: ObjectNameView {
                base: cmd.execution.name.base,
                key: Some(NameKey::Number(w.store.next_seq)),
            },
            uid: Uid(w.next_uid),
            owner: Some(cmd.owner),
            created_at: w.now,
            updated_at: w.now,
        },
        execution: cmd.execution,
        state_path: cmd.state_path,
        status: LifecycleView::Running,
        raw_input: cmd.input,
        input: None,
        raw_output: None,
        activity_state: match state {
            State::Parallel(_) => Some(
                ActivityStateView::Parallel(ParallelActivityStateView { branches: Seq::empty() }),
            ),
            State::ItemMap(_) => Some(
                ActivityStateView::ItemMap(
                    MapActivityStateView {
                        items: Seq::empty(),
                        total: 0,
                        max_concurrency: 0,
                        children: Seq::empty(),
                    },
                ),
            ),
            _ => None,
        },
        retry_state: None,
        output: None,
    }
}

/// Processing its input makes `input` of what a state was entered with, and lets it carry `carried`: a
/// `Wait` the instant that it resumes at, a `Map` its plan; `Arguments` replace the input of a `Task` and of
/// a `Parallel`.
pub open spec fn prepares(
    env: EvalEnv,
    state: State,
    a: ActivityView,
    variables: Seq<MemberView>,
    now: Timestamp,
    input: Json,
    carried: Option<ActivityStateView>,
) -> bool {
    let states = seen_on_entry(a.raw_input, a.state_path);
    match state {
        State::Wait(s) => {
            &&& input == a.raw_input
            &&& carried matches Some(ActivityStateView::Wait(WaitActivityState { resume_at }))
                && resumes(env, s, states, variables, now, resume_at)
        },
        State::Task(s) => carried == a.activity_state && match s.arguments {
            Some(template) => fills(env, template@, states, variables, input),
            None => input == a.raw_input,
        },
        State::Parallel(s) => carried == a.activity_state && match s.arguments {
            Some(template) => fills(env, template@, states, variables, input),
            None => input == a.raw_input,
        },
        State::ItemMap(s) => {
            &&& input == a.raw_input
            &&& carried matches Some(ActivityStateView::ItemMap(plan)) && {
                &&& plan.items.len() <= usize::MAX
                &&& iterates(env, s, a.raw_input, states, variables, plan.items)
                &&& allows(env, s, states, variables, plan.max_concurrency)
                &&& plan.total == plan.items.len()
                &&& plan.children == Seq::<SlotView>::empty()
            }
        },
        _ => input == a.raw_input && carried == a.activity_state,
    }
}

proof fn lemma_prepares(
    w: World,
    env: EvalEnv,
    state: State,
    a: ActivityView,
    variables: Seq<MemberView>,
    now: Timestamp,
    input: Json,
    carried: Option<ActivityStateView>,
)
    requires
        prepares(env, state, a, variables, now, input, carried),
    ensures
        processed(env, state, a, variables, seen_on_entry(a.raw_input, a.state_path), now) == Ok::<
            _,
            ExecutionErrorView,
        >((input, carried)),
        processing_asked(
            w,
            env,
            state,
            a,
            variables,
            seen_on_entry(a.raw_input, a.state_path),
        ) == w,
{
    let states = seen_on_entry(a.raw_input, a.state_path);
    match state {
        State::Wait(s) => {
            let resume_at = carried->0->Wait_0.resume_at;
            law_wait_resumes_at_its_instant(w, env, s, states, variables, now, resume_at);
        },
        State::Task(s) => law_arguments_replace_the_input(
            w,
            env,
            s.arguments.deep_view(),
            a,
            states,
            variables,
            input,
        ),
        State::Parallel(s) => law_arguments_replace_the_input(
            w,
            env,
            s.arguments.deep_view(),
            a,
            states,
            variables,
            input,
        ),
        State::ItemMap(s) => {
            let plan = carried->0->ItemMap_0;
            law_plan_holds_the_items(
                w,
                env,
                s,
                a,
                states,
                variables,
                plan.items,
                plan.max_concurrency,
            );
            let made = map_plan(env, s, a, states, variables)->Ok_0;
            assert(made.children =~= plan.children);
            assert(made == plan);
        },
        _ => {},
    }
}

proof fn lemma_dispatched(w: World, ctx: HandlerContext, cmd: ActivateStateView)
    ensures
        dispatched(w, ctx, CommandView::ActivateState(cmd)) == state_activation(w, ctx, cmd),
{
    reveal(dispatched);
}

proof fn lemma_entered(
    w: World,
    ctx: HandlerContext,
    cmd: ActivateStateView,
    thread: ThreadRecordView,
    sm: StateMachine,
    state: State,
)
    requires
        enters(w, ctx, cmd, thread, sm, state),
    ensures
        dispatched(w, ctx, CommandView::ActivateState(cmd)) == entered(
            w.minted().drawn(),
            ctx.env,
            state,
            cmd,
            born_activity(w, cmd),
            thread.variables,
        ),
{
    lemma_dispatched(w, ctx, cmd);
    assert(w.minted().drawn().store.thread(cmd.owner) == w.store.thread(cmd.owner));
}

proof fn lemma_born(w: World, cmd: ActivateStateView, state: State)
    ensures
        born(w, cmd, state) == (ActivityView {
            activity_state: initial_state(state),
            ..born_activity(w, cmd)
        }),
{
}

/// What entering leaves once the input is processed.
proof fn lemma_entered_with(
    w: World,
    env: EvalEnv,
    state: State,
    cmd: ActivateStateView,
    born: ActivityView,
    variables: Seq<MemberView>,
    states: StatesView,
    input: Json,
    carried: Option<ActivityStateView>,
)
    requires
        states == seen_on_entry(born.raw_input, born.state_path),
        born.retry_state is None,
        ({
            let a = ActivityView { activity_state: initial_state(state), ..born };
            let wa = w.event(EventView::StateActivating { activity: a });
            &&& processed(env, state, a, variables, states, w.now) == Ok::<_, ExecutionErrorView>(
                (input, carried),
            )
            &&& processing_asked(wa, env, state, a, variables, states) == wa
        }),
    ensures
        ({
            let a = ActivityView { activity_state: initial_state(state), ..born };
            let ready = ActivityView {
                meta: changed(a.meta, w.now),
                input: Some(input),
                activity_state: carried,
                ..a
            };
            let w1 = w.event(EventView::StateActivating { activity: a }).event(
                EventView::StateActivated { activity: ready },
            );
            let step = activation_followed(w1, env, state, ready, variables, states);
            entered(w, env, state, cmd, born, variables) == match step.error {
                Some(e) => step.world.terminate(Some(named_by(born.meta)), cmd.owner, e),
                None => if completes_directly(state) {
                    step.world.command(
                        CommandView::CompleteState(
                            CompleteStateView { activity: named_by(born.meta), output: input },
                        ),
                    )
                } else {
                    step.world
                },
            }
        }),
{
}

/// Entering a state tells that its activity is being activated and that it is, with its processed input;
/// then the state does what it is for. A state that waits for nothing is completed at once with its input,
/// a `Wait` arms its timer, a `Task` is invoked, and a container starts its children.
pub proof fn law_state_is_entered(
    w: World,
    ctx: HandlerContext,
    cmd: ActivateStateView,
    thread: ThreadRecordView,
    sm: StateMachine,
    state: State,
    input: Json,
    carried: Option<ActivityStateView>,
)
    requires
        enters(w, ctx, cmd, thread, sm, state),
        prepares(
            ctx.env,
            state,
            born(w, cmd, state),
            thread.variables,
            w.now,
            input,
            carried,
        ),
    ensures
        ({
            let after = dispatched(w, ctx, CommandView::ActivateState(cmd));
            let a0 = born(w, cmd, state);
            let a1 = ActivityView { input: Some(input), activity_state: carried, ..a0 };
            let w1 = w.minted().drawn().event(EventView::StateActivating { activity: a0 }).event(
                EventView::StateActivated { activity: a1 },
            );
            let activity = named_by(a0.meta);
            &&& w1.chain == w.chain + seq![
                told(EventView::StateActivating { activity: a0 }),
                told(EventView::StateActivated { activity: a1 }),
            ]
            &&& match state {
                State::Wait(_) => after.chain == w1.chain.push(
                    told(
                        EventView::TimerActivated {
                            timer: armed(
                                w1,
                                cmd.execution,
                                activity,
                                TimerPurpose::WaitResume,
                                carried->0->Wait_0.resume_at,
                            ),
                        },
                    ),
                ),
                State::Task(s) => {
                    let step = task_activated(
                        w1,
                        ctx.env,
                        s,
                        a1,
                        thread.variables,
                        seen_on_entry(cmd.input, cmd.state_path),
                    );
                    match step.error {
                        None => after == step.world,
                        Some(error) => {
                            let reason = TerminationReasonView::Failed { error };
                            after.chain == step.world.chain + seq![
                                ends_activity(activity, reason),
                            ] + ends_scope(cmd.owner, reason)
                        },
                    }
                },
                State::Parallel(s) => after == parallel_activated(
                    w1,
                    ctx.env,
                    s,
                    a1,
                    thread.variables,
                ),
                State::ItemMap(s) => after == map_activated(w1, ctx.env, s, a1, thread.variables),
                _ => {
                    &&& after.chain == w1.chain.push(
                        sent(
                            CommandView::CompleteState(
                                CompleteStateView { activity, output: input },
                            ),
                        ),
                    )
                    &&& after.store == w1.store
                },
            }
        }),
{
    let a0 = born(w, cmd, state);
    let a1 = ActivityView { input: Some(input), activity_state: carried, ..a0 };
    let w0 = w.minted().drawn();
    let wa = w0.event(EventView::StateActivating { activity: a0 });
    let w1 = wa.event(EventView::StateActivated { activity: a1 });
    let states = seen_on_entry(cmd.input, cmd.state_path);
    lemma_entered(w, ctx, cmd, thread, sm, state);
    lemma_born(w, cmd, state);
    lemma_prepares(wa, ctx.env, state, a0, thread.variables, w.now, input, carried);
    lemma_entered_with(
        w0,
        ctx.env,
        state,
        cmd,
        born_activity(w, cmd),
        thread.variables,
        states,
        input,
        carried,
    );
    assert(w1.chain =~= w.chain + seq![
        told(EventView::StateActivating { activity: a0 }),
        told(EventView::StateActivated { activity: a1 }),
    ]);
    assert(a1 == (ActivityView {
        meta: changed(a0.meta, w.now),
        input: Some(input),
        activity_state: carried,
        ..a0
    }));
    lemma_followed(w1, ctx.env, state, a1, thread.variables, states);
    let step = activation_followed(w1, ctx.env, state, a1, thread.variables, states);
    if let Some(error) = step.error {
        lemma_terminated(step.world, named_by(a0.meta), cmd.owner, error);
    }
}

proof fn lemma_terminated(
    w: World,
    activity: ObjectReferenceView,
    scope: ObjectReferenceView,
    error: ExecutionErrorView,
)
    ensures
        ({
            let reason = TerminationReasonView::Failed { error };
            w.terminate(Some(activity), scope, error).chain == w.chain + seq![
                ends_activity(activity, reason),
            ] + ends_scope(scope, reason)
        }),
{
    let reason = TerminationReasonView::Failed { error };
    assert(w.terminate(Some(activity), scope, error).chain =~= w.chain + seq![
        ends_activity(activity, reason),
    ] + ends_scope(scope, reason));
}

proof fn lemma_followed(
    w: World,
    env: EvalEnv,
    state: State,
    a: ActivityView,
    variables: Seq<MemberView>,
    states: StatesView,
)
    ensures
        ({
            let step = activation_followed(w, env, state, a, variables, states);
            match state {
                State::Wait(_) => step.error is None && (a.activity_state matches Some(
                    ActivityStateView::Wait(wait),
                ) ==> step.world.chain == w.chain.push(
                    told(
                        EventView::TimerActivated {
                            timer: armed(
                                w,
                                a.execution,
                                named_by(a.meta),
                                TimerPurpose::WaitResume,
                                wait.resume_at,
                            ),
                        },
                    ),
                )),
                State::Task(s) => step == task_activated(w, env, s, a, variables, states),
                State::Parallel(s) => step.error is None && step.world == parallel_activated(
                    w,
                    env,
                    s,
                    a,
                    variables,
                ),
                State::ItemMap(s) => step.error is None && step.world == map_activated(
                    w,
                    env,
                    s,
                    a,
                    variables,
                ),
                _ => step.error is None && step.world == w,
            }
        }),
{
    if let Some(ActivityStateView::Wait(wait)) = a.activity_state {
        law_timer_is_armed(
            w,
            a.execution,
            named_by(a.meta),
            TimerPurpose::WaitResume,
            wait.resume_at,
        );
    }
}

/// A state whose input cannot be processed fails: its activity is told to be activated and then terminated,
/// and the thread with it, with the error of the processing.
pub proof fn law_unprocessed_input_fails_the_thread(
    w: World,
    ctx: HandlerContext,
    cmd: ActivateStateView,
    thread: ThreadRecordView,
    sm: StateMachine,
    state: State,
    error: ExecutionErrorView,
)
    requires
        enters(w, ctx, cmd, thread, sm, state),
        processed(
            ctx.env,
            state,
            born(w, cmd, state),
            thread.variables,
            seen_on_entry(cmd.input, cmd.state_path),
            w.now,
        ) == Err::<(Json, Option<ActivityStateView>), _>(error),
    ensures
        ({
            let after = dispatched(w, ctx, CommandView::ActivateState(cmd));
            let a0 = born(w, cmd, state);
            let reason = TerminationReasonView::Failed { error };
            after.chain == w.chain + seq![told(EventView::StateActivating { activity: a0 })]
                + seq![ends_activity(named_by(a0.meta), reason)] + ends_scope(cmd.owner, reason)
        }),
{
    let a0 = born(w, cmd, state);
    let w0 = w.minted().drawn();
    let wa = w0.event(EventView::StateActivating { activity: a0 });
    let states = seen_on_entry(cmd.input, cmd.state_path);
    lemma_entered(w, ctx, cmd, thread, sm, state);
    lemma_born(w, cmd, state);
    lemma_asking_adds_nothing(wa, ctx.env, state, a0, thread.variables);
    let asked = processing_asked(wa, ctx.env, state, a0, thread.variables, states);
    lemma_entering_fails(
        w0,
        ctx.env,
        state,
        cmd,
        born_activity(w, cmd),
        thread.variables,
        states,
        error,
    );
    lemma_terminated(asked, named_by(a0.meta), cmd.owner, error);
    assert(wa.chain =~= w.chain + seq![told(EventView::StateActivating { activity: a0 })]);
}

proof fn lemma_entering_fails(
    w: World,
    env: EvalEnv,
    state: State,
    cmd: ActivateStateView,
    born: ActivityView,
    variables: Seq<MemberView>,
    states: StatesView,
    error: ExecutionErrorView,
)
    requires
        states == seen_on_entry(born.raw_input, born.state_path),
        born.retry_state is None,
        processed(
            env,
            state,
            (ActivityView { activity_state: initial_state(state), ..born }),
            variables,
            states,
            w.now,
        ) == Err::<(Json, Option<ActivityStateView>), _>(error),
    ensures
        ({
            let a = ActivityView { activity_state: initial_state(state), ..born };
            let wa = w.event(EventView::StateActivating { activity: a });
            entered(w, env, state, cmd, born, variables) == processing_asked(
                wa,
                env,
                state,
                a,
                variables,
                states,
            ).terminate(Some(named_by(born.meta)), cmd.owner, error)
        }),
{
}

proof fn lemma_asking_adds_nothing(
    w: World,
    env: EvalEnv,
    state: State,
    a: ActivityView,
    variables: Seq<MemberView>,
)
    ensures
        but_for_the_question(
            processing_asked(
                w,
                env,
                state,
                a,
                variables,
                seen_on_entry(a.raw_input, a.state_path),
            ),
            w,
        ),
{
}

/// The path of a command names no state: what is looked up in vain fails the execution; a thread that does
/// not run takes no activity.
pub proof fn law_state_that_cannot_be_entered(
    w: World,
    ctx: HandlerContext,
    cmd: ActivateStateView,
    thread: ThreadRecordView,
    sm: StateMachine,
    error: ExecutionErrorView,
)
    requires
        cmd.owner.kind is Thread,
    ensures
        ({
            let after = dispatched(w, ctx, CommandView::ActivateState(cmd));
            let reason = TerminationReasonView::Failed { error };
            &&& w.store.thread(cmd.owner) matches Ok(None) ==> after.chain == w.chain + ends_scope(
                cmd.execution,
                TerminationReasonView::Failed {
                    error: ExecutionErrorView::Runtime(
                        RuntimeErrorView::StateNotFound(
                            "execution "@ + reference_text(cmd.execution),
                        ),
                    ),
                },
            ) && after.store == w.store
            &&& w.store.thread(cmd.owner) == Ok::<_, ExecutionErrorView>(Some(thread))
                && machine_for(ctx, w.store, ScopeRecordView::Thread(thread)) == Ok::<
                _,
                ExecutionErrorView,
            >(sm) && state_at(sm, cmd.state_path) == Err::<State, _>(error) ==> after.chain
                == w.chain + ends_scope(cmd.execution, reason) && after.store == w.store
            &&& w.store.thread(cmd.owner) == Ok::<_, ExecutionErrorView>(Some(thread)) && !(
            thread.value.status is Running) && machine_for(
                ctx,
                w.store,
                ScopeRecordView::Thread(thread),
            ) == Ok::<_, ExecutionErrorView>(sm) && state_at(sm, cmd.state_path) is Ok
                ==> after.chain == w.chain && after.store.rows == w.store.rows
        }),
{
    reveal(dispatched);
    let after = dispatched(w, ctx, CommandView::ActivateState(cmd));
    let missing = TerminationReasonView::Failed {
        error: ExecutionErrorView::Runtime(
            RuntimeErrorView::StateNotFound("execution "@ + reference_text(cmd.execution)),
        ),
    };
    let reason = TerminationReasonView::Failed { error };
    if w.store.thread(cmd.owner) matches Ok(None) {
        assert(after.chain =~= w.chain + ends_scope(cmd.execution, missing));
    }
    if w.store.thread(cmd.owner) == Ok::<_, ExecutionErrorView>(Some(thread)) && machine_for(
        ctx,
        w.store,
        ScopeRecordView::Thread(thread),
    ) == Ok::<_, ExecutionErrorView>(sm) && state_at(sm, cmd.state_path) == Err::<State, _>(error) {
        assert(after.chain =~= w.chain + ends_scope(cmd.execution, reason));
    }
}

/// The command completes an activity that runs, of `state`, under a thread.
pub open spec fn completes(
    w: World,
    ctx: HandlerContext,
    cmd: CompleteStateView,
    row: ActivityRecordView,
    owner: ObjectReferenceView,
    thread: ThreadRecordView,
    state: State,
) -> bool {
    &&& w.store.activity(cmd.activity) == Ok::<_, ExecutionErrorView>(Some(row))
    &&& row.value.status is Running
    &&& row.value.meta.owner == Some(owner)
    &&& w.store.thread(owner) == Ok::<_, ExecutionErrorView>(Some(thread))
    &&& scope_state(
        ctx,
        w.store,
        ScopeRecordView::Thread(thread),
        if row.value.state_path.len() == 0 {
            Seq::empty()
        } else {
            row.value.state_path[row.value.state_path.len() - 1]
        },
    ) == Ok::<_, ExecutionErrorView>(state)
}

/// Completing an activity opens its finish with the output as its raw result, for good. Once no child is
/// left and while the thread runs, the state is finished; an error in that fails the activity and the thread.
/// The timers that bound a `Task` are cancelled first; other children hold the finish back.
pub proof fn law_activity_is_completed(
    w: World,
    ctx: HandlerContext,
    cmd: CompleteStateView,
    row: ActivityRecordView,
    owner: ObjectReferenceView,
    thread: ThreadRecordView,
    state: State,
)
    requires
        completes(w, ctx, cmd, row, owner, thread, state),
    ensures
        ({
            let after = dispatched(w, ctx, CommandView::CompleteState(cmd));
            let a = ActivityView {
                meta: changed(row.value.meta, w.now),
                status: LifecycleView::Completing,
                raw_output: Some(cmd.output),
                ..row.value
            };
            let opened = w.event(EventView::StateCompleting { activity: a });
            let w1 = if state is Task {
                timers_cancelled(opened, cmd.activity)
            } else {
                opened
            };
            &&& (w1.store.activity(cmd.activity) matches Ok(Some(r)) && r.active_children.len() > 0)
                ==> after == w1
            &&& (w1.store.activity(cmd.activity) matches Ok(Some(r)) && r.active_children.len()
                == 0) ==> (w1.store.thread(owner) matches Ok(Some(t)) ==> if t.value.status is Running {
                let step = finished(w1, ctx.env, state, cmd.activity, a, t.variables);
                match step.error {
                    None => after == step.world,
                    Some(error) => {
                        let reason = TerminationReasonView::Failed { error };
                        after.chain == step.world.chain + seq![
                            ends_activity(cmd.activity, reason),
                        ] + ends_scope(owner, reason)
                    },
                }
            } else {
                after == w1
            })
        }),
{
    reveal(dispatched);
    let a = ActivityView {
        meta: changed(row.value.meta, w.now),
        status: LifecycleView::Completing,
        raw_output: Some(cmd.output),
        ..row.value
    };
    let opened = w.event(EventView::StateCompleting { activity: a });
    let w1 = if state is Task {
        timers_cancelled(opened, cmd.activity)
    } else {
        opened
    };
    if let Ok(Some(t)) = w1.store.thread(owner) {
        let step = finished(w1, ctx.env, state, cmd.activity, a, t.variables);
        if let Some(error) = step.error {
            let reason = TerminationReasonView::Failed { error };
            assert(step.world.terminate(Some(cmd.activity), owner, error).chain
                =~= step.world.chain + seq![ends_activity(cmd.activity, reason)] + ends_scope(
                owner,
                reason,
            ));
        }
    }
}

/// The finish of an activity without children is reached: opening it leaves the list of its children and the
/// thread as they were.
pub proof fn law_opening_the_finish_keeps_children_and_thread(
    w: World,
    ctx: HandlerContext,
    cmd: CompleteStateView,
    row: ActivityRecordView,
    owner: ObjectReferenceView,
    thread: ThreadRecordView,
    state: State,
)
    requires
        keyed(w.store),
        completes(w, ctx, cmd, row, owner, thread, state),
    ensures
        ({
            let a = ActivityView {
                meta: changed(row.value.meta, w.now),
                status: LifecycleView::Completing,
                raw_output: Some(cmd.output),
                ..row.value
            };
            let opened = w.event(EventView::StateCompleting { activity: a });
            &&& opened.store.activity(cmd.activity) matches Ok(Some(r)) && r.value == a
                && r.active_children == row.active_children
            &&& opened.store.thread(owner) == Ok::<_, ExecutionErrorView>(Some(thread))
        }),
{
    let a = ActivityView {
        meta: changed(row.value.meta, w.now),
        status: LifecycleView::Completing,
        raw_output: Some(cmd.output),
        ..row.value
    };
    let k = (ObjectKind::Activity, name_text(cmd.activity.name));
    assert(row_key(w.store.rows[k]) == k);
    law_activity_is_changed(w.store, a, w.now, k);
    law_activity_is_changed(w.store, a, w.now, (ObjectKind::Thread, name_text(owner.name)));
}

} // verus!
