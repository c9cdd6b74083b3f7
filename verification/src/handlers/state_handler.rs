//! The two lifecycle steps of a state, entering it and completing it, and what each state adds to
//! them.

use vstd::prelude::*;
use vstd::string::*;

use crate::asl::{state_valid, State};
use crate::eval_env::EvalEnv;
use crate::handler::{Collector, World};
use crate::handlers::shared::{
    as_option, cancel_activity_timers, timers_cancelled,
};
use crate::handlers::states::choice::{
    finish_choice, ChoiceStateHandler, ChoiceStateHandlerFactory,
};
use crate::handlers::states::common::{
    done, failure, finish_stray, finish_success, run_finish_stray, run_finish_success, Step,
};
use crate::handlers::states::fail::{finish_fail, FailStateHandler, FailStateHandlerFactory};
use crate::handlers::states::map::{
    map_activated, map_child_completed, map_plan, map_plan_asked, MapStateHandler,
    MapStateHandlerFactory,
};
use crate::handlers::states::parallel::{
    arguments_asked, arguments_reply, eval_arguments, parallel_activated,
    parallel_child_completed, ParallelStateHandler, ParallelStateHandlerFactory,
};
use crate::handlers::states::pass::{PassStateHandler, PassStateHandlerFactory};
use crate::handlers::states::succeed::{SucceedStateHandler, SucceedStateHandlerFactory};
use crate::handlers::states::task::{task_activated, TaskStateHandler, TaskStateHandlerFactory};
use crate::handlers::states::wait::{
    wait_activated, wait_asked, wait_deadline, WaitStateHandler, WaitStateHandlerFactory,
};
use crate::id::{RequestId, Timestamp, Uid};
use crate::storage::order::{activity_ok, store_ok};
use crate::storage::store::StoreView;
use crate::text::{join2, join3};
use crate::types::activity::{
    no_branches, no_plan, Activity, ActivityState, ActivityStateView, ActivityView,
    MapActivityState, ParallelActivityState, WaitActivityState,
};
use crate::types::command::{
    group_command_view, ActivateState, ActivateStateView, Command, CommandView, CompleteState,
    CompleteStateView,
};
use crate::types::context::{entering, States, StatesView};
use crate::types::entry::EntryPayloadView;
use crate::types::error::{state_not_found, ExecutionError, ExecutionErrorView};
use crate::types::event::{group_event_view, Event, EventView};
use crate::types::meta::{
    born_meta, generated_name, nil_reference, reference_text, ObjectKind, ObjectMeta,
    ObjectReference, ObjectReferenceView,
};
use crate::types::reject::RejectionType;
use crate::types::shown::status_shown;
use crate::types::state_path::state_name;
use crate::types::status::{Lifecycle, LifecycleView};
use crate::value::{Json, MemberView, Value, Variables};

verus! {

broadcast use {group_command_view, group_event_view};

/// Whether the finish of a state may run.
#[derive(Clone, Copy, Debug, PartialEq, Eq)]
pub enum FinishReadiness {
    /// No child outlives the decision.
    Ready,
    /// So many children are still live; the last one to settle finishes the state.
    Waiting { pending: usize },
    /// The activity is gone, or cannot be read.
    Gone,
}

/// What an activity carries from its birth on.
pub open spec fn initial_state(state: State) -> Option<ActivityStateView> {
    match state {
        State::Parallel(_) => Some(ActivityStateView::Parallel(no_branches())),
        State::ItemMap(_) => Some(ActivityStateView::ItemMap(no_plan())),
        _ => None,
    }
}

/// What processing its input makes of an activity: the processed input, and what it carries.
pub open spec fn processed(
    env: EvalEnv,
    state: State,
    a: ActivityView,
    variables: Seq<MemberView>,
    states: StatesView,
    now: Timestamp,
) -> Result<(Json, Option<ActivityStateView>), ExecutionErrorView> {
    match state {
        State::Wait(s) => match wait_deadline(env, s, states, variables, now) {
            Ok(resume_at) => Ok(
                (a.raw_input, Some(ActivityStateView::Wait(WaitActivityState { resume_at }))),
            ),
            Err(e) => Err(e),
        },
        State::Task(s) => match arguments_reply(
            env,
            s.arguments.deep_view(),
            a,
            states,
            variables,
        ) {
            Ok(v) => Ok((v, a.activity_state)),
            Err(e) => Err(e),
        },
        State::Parallel(s) => match arguments_reply(
            env,
            s.arguments.deep_view(),
            a,
            states,
            variables,
        ) {
            Ok(v) => Ok((v, a.activity_state)),
            Err(e) => Err(e),
        },
        State::ItemMap(s) => match map_plan(env, s, a, states, variables) {
            Ok(plan) => Ok((a.raw_input, Some(ActivityStateView::ItemMap(plan)))),
            Err(e) => Err(e),
        },
        _ => Ok((a.raw_input, a.activity_state)),
    }
}

/// What processing the input leaves.
pub open spec fn processing_asked(
    w: World,
    env: EvalEnv,
    state: State,
    a: ActivityView,
    variables: Seq<MemberView>,
    states: StatesView,
) -> World {
    match state {
        State::Wait(s) => wait_asked(w, env, s, states, variables),
        State::Task(s) => arguments_asked(w, env, s.arguments.deep_view(), states, variables),
        State::Parallel(s) => arguments_asked(w, env, s.arguments.deep_view(), states, variables),
        State::ItemMap(s) => map_plan_asked(w, env, s, a, states, variables),
        _ => w,
    }
}

/// What follows the activation of a state.
pub open spec fn activation_followed(
    w: World,
    env: EvalEnv,
    state: State,
    a: ActivityView,
    variables: Seq<MemberView>,
    states: StatesView,
) -> Step {
    match state {
        State::Wait(_) => done(wait_activated(w, a)),
        State::Task(s) => task_activated(w, env, s, a, variables, states),
        State::Parallel(s) => done(parallel_activated(w, env, s, a, variables)),
        State::ItemMap(s) => done(map_activated(w, env, s, a, variables)),
        _ => done(w),
    }
}

/// Whether a state completes as soon as it is activated: one that waits for nothing.
pub open spec fn completes_directly(state: State) -> bool {
    state is Pass || state is Choice || state is Succeed || state is Fail
}

/// The finish of a state.
pub open spec fn finished(
    w: World,
    env: EvalEnv,
    state: State,
    activity: ObjectReferenceView,
    a: ActivityView,
    variables: Seq<MemberView>,
) -> Step {
    match state {
        State::Pass(s) => finish_success(
            w,
            env,
            activity,
            a,
            variables,
            s.assign,
            s.output.deep_view(),
            s.next.deep_view(),
            s.end,
        ),
        State::Succeed(s) => finish_success(
            w,
            env,
            activity,
            a,
            variables,
            None,
            s.output.deep_view(),
            None,
            Some(true),
        ),
        State::Wait(s) => finish_success(
            w,
            env,
            activity,
            a,
            variables,
            s.assign,
            s.output.deep_view(),
            s.next.deep_view(),
            s.end,
        ),
        State::Task(s) => finish_success(
            w,
            env,
            activity,
            a,
            variables,
            s.assign,
            s.output.deep_view(),
            s.next.deep_view(),
            s.end,
        ),
        State::Choice(s) => finish_choice(w, env, s, activity, a, variables),
        State::Fail(s) => finish_fail(w, env, s, a, variables),
        State::Parallel(_) => done(finish_stray(w, activity, a)),
        State::ItemMap(_) => done(finish_stray(w, activity, a)),
    }
}

/// What a settled child leaves of the running activity of a state: only a container reacts.
pub open spec fn child_reaction(
    w: World,
    env: EvalEnv,
    state: State,
    activity: ObjectReferenceView,
    a: ActivityView,
    variables: Seq<MemberView>,
    child: ObjectReferenceView,
) -> World {
    match state {
        State::Parallel(s) => parallel_child_completed(w, env, s, activity, a, variables),
        State::ItemMap(s) => map_child_completed(w, env, s, activity, a, variables, child),
        _ => w,
    }
}

/// Whether the finish of an activity may run, by the children that it still has.
pub open spec fn readiness(s: StoreView, activity: ObjectReferenceView) -> FinishReadiness {
    match s.activity(activity) {
        Ok(Some(row)) => if row.active_children.len() == 0 {
            FinishReadiness::Ready
        } else {
            FinishReadiness::Waiting { pending: row.active_children.len() as usize }
        },
        _ => FinishReadiness::Gone,
    }
}

/// What a state does to its own unfinished children as its finish opens: the timers that only bound
/// a `Task` are cancelled.
pub open spec fn children_disposed(
    w: World,
    state: State,
    activity: ObjectReferenceView,
) -> World {
    match state {
        State::Task(_) => timers_cancelled(w, activity),
        _ => w,
    }
}

/// The activity that entering a state makes.
pub open spec fn born_activity(w: World, cmd: ActivateStateView) -> ActivityView {
    ActivityView {
        meta: born_meta(
            ObjectKind::Activity,
            generated_name(cmd.execution.name, w.store.next_seq),
            Uid(w.next_uid),
            w.now,
            Some(cmd.owner),
        ),
        execution: cmd.execution,
        state_path: cmd.state_path,
        status: LifecycleView::Running,
        raw_input: cmd.input,
        input: None,
        raw_output: None,
        activity_state: None,
        retry_state: None,
        output: None,
    }
}

/// What entering a state leaves. An activity is made under the thread `cmd.owner`. Without that
/// thread the execution fails; a thread that does not run anymore takes no activity. Otherwise the
/// activity is recorded, its input is processed, and what the state needs is set off; an error in
/// either fails the activity and the thread. A state that waits for nothing is completed at once.
pub open spec fn activated(w: World, env: EvalEnv, state: State, cmd: ActivateStateView) -> World {
    let w0 = w.minted().drawn();
    let born = born_activity(w, cmd);
    let activity = born.reference();
    match w0.store.thread(cmd.owner) {
        Err(e) => w0.terminate(Some(activity), cmd.execution, e),
        Ok(None) => w0.terminate(
            Some(activity),
            cmd.execution,
            state_not_found("execution "@ + reference_text(cmd.execution)),
        ),
        Ok(Some(thread)) => if !(thread.value.status is Running) {
            w0
        } else {
            entered(w0, env, state, cmd, born, thread.variables)
        },
    }
}

/// What entering a state in a running thread leaves.
pub open spec fn entered(
    w: World,
    env: EvalEnv,
    state: State,
    cmd: ActivateStateView,
    born: ActivityView,
    variables: Seq<MemberView>,
) -> World {
    let activity = born.reference();
    let a = ActivityView { activity_state: initial_state(state), ..born };
    let states = entering(a.raw_input, state_name(a.state_path), a.retry_count());
    let w1 = w.event(EventView::StateActivating { activity: a });
    let w2 = processing_asked(w1, env, state, a, variables, states);
    match processed(env, state, a, variables, states, w.now) {
        Err(e) => w2.terminate(Some(activity), cmd.owner, e),
        Ok((input, activity_state)) => {
            let ready = ActivityView {
                meta: a.meta.touched(w.now),
                input: Some(input),
                activity_state,
                ..a
            };
            let w3 = w2.event(EventView::StateActivated { activity: ready });
            let step = activation_followed(w3, env, state, ready, variables, states);
            match step.error {
                Some(e) => step.world.terminate(Some(activity), cmd.owner, e),
                None => if completes_directly(state) {
                    step.world.command(
                        CommandView::CompleteState(CompleteStateView { activity, output: input }),
                    )
                } else {
                    step.world
                },
            }
        },
    }
}

/// The activity whose finish opens with the raw result `output`.
pub open spec fn opened_activity(a: ActivityView, output: Json, now: Timestamp) -> ActivityView {
    ActivityView {
        meta: a.meta.touched(now),
        status: LifecycleView::Completing,
        raw_output: Some(output),
        ..a
    }
}

/// What completing a state leaves. An activity that does not run anymore refuses. Otherwise its
/// finish opens, for good; it runs at once when no child is left and the thread still runs, and an
/// error in it fails the activity and the thread.
pub open spec fn completed(w: World, env: EvalEnv, state: State, cmd: CompleteStateView) -> World {
    let activity = cmd.activity;
    match w.store.activity(activity) {
        Err(e) => w.terminate(Some(activity), nil_reference(), e),
        Ok(None) => w.terminate(
            Some(activity),
            nil_reference(),
            state_not_found("activity "@ + reference_text(activity)),
        ),
        Ok(Some(row)) => if !(row.value.status is Running) {
            w.reject(
                RequestId(Uid(0)),
                RejectionType::InvalidState,
                "activity "@ + reference_text(activity) + (" is "@ + status_shown(
                    row.value.status,
                )
                    + ", not Running; cannot complete"@),
            )
        } else {
            let a = opened_activity(row.value, cmd.output, w.now);
            let w1 = children_disposed(
                w.event(EventView::StateCompleting { activity: a }),
                state,
                activity,
            );
            if readiness(w1.store, activity) is Ready {
                drained_finish(w1, env, state, activity, a)
            } else {
                w1
            }
        },
    }
}

/// Completing an activity that does not run is refused, and stores nothing.
pub proof fn law_only_a_running_activity_completes(
    w: World,
    env: EvalEnv,
    state: State,
    cmd: CompleteStateView,
)
    requires
        w.store.activity(cmd.activity) matches Ok(Some(row)) && !(row.value.status is Running),
    ensures
        completed(w, env, state, cmd).store == w.store,
        completed(w, env, state, cmd).chain.len() == w.chain.len() + 1,
        completed(w, env, state, cmd).chain.last() matches EntryPayloadView::Reject(reject)
            && reject.rejection_type is InvalidState,
{
}

/// The finish of an activity without children: it runs while the thread that owns it does.
pub open spec fn drained_finish(
    w: World,
    env: EvalEnv,
    state: State,
    activity: ObjectReferenceView,
    a: ActivityView,
) -> World {
    let owner = a.meta.owner->0;
    match w.store.thread(owner) {
        Ok(Some(thread)) => if !(thread.value.status is Running) {
            w
        } else {
            let step = finished(w, env, state, activity, a, thread.variables);
            match step.error {
                Some(e) => step.world.terminate(Some(activity), owner, e),
                None => step.world,
            }
        },
        _ => w,
    }
}

/// A handler bound to one state.
pub enum StateHandler<'a> {
    Pass(PassStateHandler<'a>),
    Choice(ChoiceStateHandler<'a>),
    Succeed(SucceedStateHandler<'a>),
    Fail(FailStateHandler<'a>),
    Wait(WaitStateHandler<'a>),
    Task(TaskStateHandler<'a>),
    Parallel(ParallelStateHandler<'a>),
    ItemMap(MapStateHandler<'a>),
}

impl<'a> StateHandler<'a> {
    /// The state that the handler is bound to.
    pub open spec fn bound(self) -> State {
        match self {
            StateHandler::Pass(h) => State::Pass(*h.state),
            StateHandler::Choice(h) => State::Choice(*h.state),
            StateHandler::Succeed(h) => State::Succeed(*h.state),
            StateHandler::Fail(h) => State::Fail(*h.state),
            StateHandler::Wait(h) => State::Wait(*h.state),
            StateHandler::Task(h) => State::Task(*h.state),
            StateHandler::Parallel(h) => State::Parallel(*h.state),
            StateHandler::ItemMap(h) => State::ItemMap(*h.state),
        }
    }

    /// Gives a new activity what it carries from its birth on.
    pub fn initialize(&self, activity: &mut Activity)
        ensures
            final(activity)@ == (ActivityView {
                activity_state: match initial_state(self.bound()) {
                    Some(s) => Some(s),
                    None => old(activity)@.activity_state,
                },
                ..old(activity)@
            }),
    {
        match self {
            StateHandler::Parallel(_) => {
                let progress = ParallelActivityState { branches: Vec::new() };
                assert(progress@.branches =~= no_branches().branches);
                activity.activity_state = Some(ActivityState::Parallel(progress));
            },
            StateHandler::ItemMap(_) => {
                let plan = MapActivityState {
                    items: Vec::new(),
                    total: 0,
                    max_concurrency: 0,
                    children: Vec::new(),
                };
                assert(plan@.items =~= no_plan().items);
                assert(plan@.children =~= no_plan().children);
                activity.activity_state = Some(ActivityState::ItemMap(plan));
            },
            _ => {},
        }
    }

    /// Processes the input of an activity.
    pub fn process_input(
        &self,
        out: &mut Collector,
        env: &EvalEnv,
        activity: &mut Activity,
        variables: &Variables,
        states: &States,
    ) -> (r: Result<Value, ExecutionError>)
        requires
            state_valid(self.bound()),
        ensures
            ({
                let p = processed(
                    *env,
                    self.bound(),
                    old(activity)@,
                    variables@,
                    states@,
                    old(out)@.now,
                );
                match r {
                    Ok(v) => {
                        &&& p == Ok::<_, ExecutionErrorView>(
                            (v@, final(activity)@.activity_state),
                        )
                        &&& final(activity)@ == (ActivityView {
                            activity_state: final(activity)@.activity_state,
                            ..old(activity)@
                        })
                    },
                    Err(e) => p == Err::<(Json, Option<ActivityStateView>), _>(e@),
                }
            }),
            final(out)@ == processing_asked(
                old(out)@,
                *env,
                self.bound(),
                old(activity)@,
                variables@,
                states@,
            ),
    {
        match self {
            StateHandler::Wait(h) => {
                let now = out.now();
                match h.resolve_wait_deadline(out, env, variables, states, now) {
                    Ok(resume_at) => {
                        activity.activity_state = Some(
                            ActivityState::Wait(WaitActivityState { resume_at }),
                        );
                        Ok(activity.raw_input.clone())
                    },
                    Err(e) => Err(e),
                }
            },
            StateHandler::Task(h) => eval_arguments(
                out,
                env,
                as_option(&h.state.arguments),
                activity,
                variables,
                states,
            ),
            StateHandler::Parallel(h) => eval_arguments(
                out,
                env,
                as_option(&h.state.arguments),
                activity,
                variables,
                states,
            ),
            StateHandler::ItemMap(h) => match h.process_input(
                out,
                env,
                activity,
                variables,
                states,
            ) {
                Ok(plan) => {
                    activity.activity_state = Some(ActivityState::ItemMap(plan));
                    Ok(activity.raw_input.clone())
                },
                Err(e) => Err(e),
            },
            _ => Ok(activity.raw_input.clone()),
        }
    }

    /// Sets off what the state needs once it is activated.
    pub fn after_activated(
        &self,
        out: &mut Collector,
        env: &EvalEnv,
        activity: &Activity,
        variables: &Variables,
        states: &States,
    ) -> (r: Result<(), ExecutionError>)
        requires
            store_ok(old(out)@.store),
            activity_ok(activity@),
        ensures
            (Step { world: final(out)@, error: failure(r) }) == activation_followed(
                old(out)@,
                *env,
                self.bound(),
                activity@,
                variables@,
                states@,
            ),
            store_ok(final(out)@.store),
    {
        match self {
            StateHandler::Wait(h) => {
                h.after_activated(out, activity);
                Ok(())
            },
            StateHandler::Task(h) => h.after_activated(out, env, activity, variables, states),
            StateHandler::Parallel(h) => {
                h.after_activated(out, env, activity, variables);
                Ok(())
            },
            StateHandler::ItemMap(h) => {
                h.after_activated(out, env, activity, variables);
                Ok(())
            },
            _ => Ok(()),
        }
    }

    /// Whether the state completes as soon as it is activated.
    pub fn complete_directly(&self) -> (r: bool)
        ensures
            r == completes_directly(self.bound()),
    {
        match self {
            StateHandler::Pass(_) => true,
            StateHandler::Choice(_) => true,
            StateHandler::Succeed(_) => true,
            StateHandler::Fail(_) => true,
            _ => false,
        }
    }

    /// Reacts to a settled child of the running activity.
    pub fn child_completed(
        &self,
        out: &mut Collector,
        env: &EvalEnv,
        activity: &ObjectReference,
        activity_value: &Activity,
        variables: &Variables,
        child: &ObjectReference,
    )
        requires
            store_ok(old(out)@.store),
            activity_ok(activity_value@),
        ensures
            final(out)@ == child_reaction(
                old(out)@,
                *env,
                self.bound(),
                activity@,
                activity_value@,
                variables@,
                child@,
            ),
            store_ok(final(out)@.store),
    {
        match self {
            StateHandler::Parallel(h) => h.child_completed(
                out,
                env,
                activity,
                activity_value,
                variables,
            ),
            StateHandler::ItemMap(h) => h.child_completed(
                out,
                env,
                activity,
                activity_value,
                variables,
                child,
            ),
            _ => {},
        }
    }

    /// How many children the activity still has; `None` when it is gone or cannot be read.
    pub fn live_children(&self, out: &Collector, activity: &ObjectReference) -> (r: Option<usize>)
        ensures
            r == (match out@.store.activity(activity@) {
                Ok(Some(row)) => Some(row.active_children.len() as usize),
                _ => None,
            }),
            r matches Some(n) ==> n == out@.store.activity(
                activity@,
            )->Ok_0->0.active_children.len(),
    {
        match out.storage().get_activity(activity) {
            Ok(Some(a)) => {
                assert(a@.active_children.len() == a.active_children@.len());
                Some(a.active_children.len())
            },
            _ => None,
        }
    }

    /// Deals with the unfinished children as the finish opens, and says whether it may run.
    pub fn on_completing(&self, out: &mut Collector, activity: &ObjectReference) -> (r:
        FinishReadiness)
        requires
            store_ok(old(out)@.store),
        ensures
            final(out)@ == children_disposed(old(out)@, self.bound(), activity@),
            r == readiness(final(out)@.store, activity@),
            store_ok(final(out)@.store),
    {
        if let StateHandler::Task(_) = self {
            cancel_activity_timers(out, activity);
        }
        match self.live_children(out, activity) {
            Some(pending) => if pending == 0 {
                FinishReadiness::Ready
            } else {
                FinishReadiness::Waiting { pending }
            },
            None => FinishReadiness::Gone,
        }
    }

    /// Finishes the state.
    pub fn finish(
        &self,
        out: &mut Collector,
        env: &EvalEnv,
        activity: &ObjectReference,
        activity_value: &Activity,
        variables: &Variables,
    ) -> (r: Result<(), ExecutionError>)
        requires
            store_ok(old(out)@.store),
            activity_ok(activity_value@),
        ensures
            (Step { world: final(out)@, error: failure(r) }) == finished(
                old(out)@,
                *env,
                self.bound(),
                activity@,
                activity_value@,
                variables@,
            ),
            store_ok(final(out)@.store),
    {
        match self {
            StateHandler::Pass(h) => run_finish_success(
                out,
                env,
                activity,
                activity_value,
                variables,
                as_option(&h.state.assign),
                as_option(&h.state.output),
                as_option(&h.state.next),
                h.state.end,
            ),
            StateHandler::Succeed(h) => run_finish_success(
                out,
                env,
                activity,
                activity_value,
                variables,
                None,
                as_option(&h.state.output),
                None,
                Some(true),
            ),
            StateHandler::Wait(h) => run_finish_success(
                out,
                env,
                activity,
                activity_value,
                variables,
                as_option(&h.state.assign),
                as_option(&h.state.output),
                as_option(&h.state.next),
                h.state.end,
            ),
            StateHandler::Task(h) => run_finish_success(
                out,
                env,
                activity,
                activity_value,
                variables,
                as_option(&h.state.assign),
                as_option(&h.state.output),
                as_option(&h.state.next),
                h.state.end,
            ),
            StateHandler::Choice(h) => h.finish(out, env, activity, activity_value, variables),
            StateHandler::Fail(h) => h.finish(out, env, activity_value, variables),
            StateHandler::Parallel(_) => {
                run_finish_stray(out, activity, activity_value);
                Ok(())
            },
            StateHandler::ItemMap(_) => {
                run_finish_stray(out, activity, activity_value);
                Ok(())
            },
        }
    }

    /// Enters the state.
    pub fn activate(&self, out: &mut Collector, env: &EvalEnv, cmd: &ActivateState)
        requires
            store_ok(old(out)@.store),
            state_valid(self.bound()),
        ensures
            final(out)@ == activated(old(out)@, *env, self.bound(), cmd@),
            store_ok(final(out)@.store),
    {
        let uid = out.mint();
        let name = cmd.execution.name.generated_from_key(out.next_generated_seq());
        let mut activity_value = Activity {
            meta: ObjectMeta::born(
                ObjectKind::Activity,
                name,
                uid,
                out.now(),
                Some(cmd.owner.clone()),
            ),
            execution: cmd.execution.clone(),
            state_path: cmd.state_path.clone(),
            status: Lifecycle::Running,
            raw_input: cmd.input.clone(),
            input: None,
            raw_output: None,
            activity_state: None,
            retry_state: None,
            output: None,
        };
        let activity = activity_value.reference();
        assert(activity_value@ == born_activity(old(out)@, cmd@));
        let scope = match out.storage().get_thread(&cmd.owner) {
            Ok(Some(t)) => t,
            Ok(None) => {
                out.terminate(
                    Some(activity),
                    &cmd.execution,
                    ExecutionError::state_not_found(
                        join2("execution ", cmd.execution.text().as_str()),
                    ),
                );
                return ;
            },
            Err(e) => {
                out.terminate(Some(activity), &cmd.execution, e);
                return ;
            },
        };
        if !scope.value.status.is_running() {
            return ;
        }
        let variables = scope.variables;
        self.initialize(&mut activity_value);
        out.append_event(Event::StateActivating { activity: activity_value.clone() });
        let states = States::new(
            &activity_value.raw_input,
            activity_value.state_path.state_name(),
            activity_value.retry_count(),
        );
        let input = match self.process_input(out, env, &mut activity_value, &variables, &states) {
            Ok(input) => input,
            Err(e) => {
                out.terminate(Some(activity), &cmd.owner, e);
                return ;
            },
        };
        activity_value.input = Some(input.clone());
        activity_value.meta.with_update_at(out.now());
        out.append_event(Event::StateActivated { activity: activity_value.clone() });
        match self.after_activated(out, env, &activity_value, &variables, &states) {
            Ok(_) => {},
            Err(e) => {
                out.terminate(Some(activity), &cmd.owner, e);
                return ;
            },
        }
        if self.complete_directly() {
            out.append_command(
                Command::CompleteState(CompleteState { activity, output: input }),
            );
        }
    }

    /// Completes the state.
    pub fn complete(&self, out: &mut Collector, env: &EvalEnv, cmd: &CompleteState)
        requires
            store_ok(old(out)@.store),
        ensures
            final(out)@ == completed(old(out)@, *env, self.bound(), cmd@),
            store_ok(final(out)@.store),
    {
        let activity = &cmd.activity;
        let act = match out.storage().get_activity(activity) {
            Ok(Some(a)) => a,
            Ok(None) => {
                out.terminate(
                    Some(activity.clone()),
                    &ObjectReference::nil(),
                    ExecutionError::state_not_found(
                        join2("activity ", activity.text().as_str()),
                    ),
                );
                return ;
            },
            Err(e) => {
                out.terminate(Some(activity.clone()), &ObjectReference::nil(), e);
                return ;
            },
        };
        if !act.value.status.is_running() {
            let shown = act.value.status.shown();
            let tail = join3(" is ", shown.as_str(), ", not Running; cannot complete");
            out.reject(
                RequestId::nil(),
                RejectionType::InvalidState,
                join3("activity ", activity.text().as_str(), tail.as_str()),
            );
            return ;
        }
        let mut activity_value = act.value;
        activity_value.raw_output = Some(cmd.output.clone());
        activity_value.meta.with_update_at(out.now());
        activity_value.status = Lifecycle::Completing;
        out.append_event(Event::StateCompleting { activity: activity_value.clone() });
        match self.on_completing(out, activity) {
            FinishReadiness::Ready => {},
            _ => return ,
        }
        let owner = activity_value.meta.owner.clone().unwrap();
        let scope = match out.storage().get_thread(&owner) {
            Ok(Some(t)) => t,
            _ => return ,
        };
        if !scope.value.status.is_running() {
            return ;
        }
        match self.finish(out, env, activity, &activity_value, &scope.variables) {
            Ok(_) => {},
            Err(e) => out.terminate(Some(activity.clone()), &owner, e),
        }
    }
}

/// The sort of a state.
#[derive(Clone, Copy, Debug, PartialEq, Eq, Structural)]
pub enum StateKind {
    Pass,
    Choice,
    Succeed,
    Fail,
    Wait,
    Task,
    Parallel,
    ItemMap,
}

/// The sort of `state`.
pub open spec fn kind_of(state: State) -> StateKind {
    match state {
        State::Pass(_) => StateKind::Pass,
        State::Choice(_) => StateKind::Choice,
        State::Succeed(_) => StateKind::Succeed,
        State::Fail(_) => StateKind::Fail,
        State::Wait(_) => StateKind::Wait,
        State::Task(_) => StateKind::Task,
        State::Parallel(_) => StateKind::Parallel,
        State::ItemMap(_) => StateKind::ItemMap,
    }
}

/// Builds the handlers of the states of one sort.
pub enum StateHandlerFactory {
    Pass(PassStateHandlerFactory),
    Choice(ChoiceStateHandlerFactory),
    Succeed(SucceedStateHandlerFactory),
    Fail(FailStateHandlerFactory),
    Wait(WaitStateHandlerFactory),
    Task(TaskStateHandlerFactory),
    Parallel(ParallelStateHandlerFactory),
    ItemMap(MapStateHandlerFactory),
}

impl StateHandlerFactory {
    /// The sort of state that this factory serves.
    pub open spec fn serves(self) -> StateKind {
        match self {
            StateHandlerFactory::Pass(_) => StateKind::Pass,
            StateHandlerFactory::Choice(_) => StateKind::Choice,
            StateHandlerFactory::Succeed(_) => StateKind::Succeed,
            StateHandlerFactory::Fail(_) => StateKind::Fail,
            StateHandlerFactory::Wait(_) => StateKind::Wait,
            StateHandlerFactory::Task(_) => StateKind::Task,
            StateHandlerFactory::Parallel(_) => StateKind::Parallel,
            StateHandlerFactory::ItemMap(_) => StateKind::ItemMap,
        }
    }

    /// The sort of state that this factory serves.
    pub fn kind(&self) -> (r: StateKind)
        ensures
            r == self.serves(),
    {
        match self {
            StateHandlerFactory::Pass(_) => StateKind::Pass,
            StateHandlerFactory::Choice(_) => StateKind::Choice,
            StateHandlerFactory::Succeed(_) => StateKind::Succeed,
            StateHandlerFactory::Fail(_) => StateKind::Fail,
            StateHandlerFactory::Wait(_) => StateKind::Wait,
            StateHandlerFactory::Task(_) => StateKind::Task,
            StateHandlerFactory::Parallel(_) => StateKind::Parallel,
            StateHandlerFactory::ItemMap(_) => StateKind::ItemMap,
        }
    }

    /// An empty definition of the state that this factory serves.
    pub fn state(&self) -> (r: State)
        ensures
            kind_of(r) == self.serves(),
    {
        match self {
            StateHandlerFactory::Pass(f) => f.state(),
            StateHandlerFactory::Choice(f) => f.state(),
            StateHandlerFactory::Succeed(f) => f.state(),
            StateHandlerFactory::Fail(f) => f.state(),
            StateHandlerFactory::Wait(f) => f.state(),
            StateHandlerFactory::Task(f) => f.state(),
            StateHandlerFactory::Parallel(f) => f.state(),
            StateHandlerFactory::ItemMap(f) => f.state(),
        }
    }

    /// The handler bound to `state`, which must be of the sort that this factory serves.
    pub fn create<'a>(&self, state: &'a State) -> (r: StateHandler<'a>)
        requires
            kind_of(*state) == self.serves(),
        ensures
            r.bound() == *state,
    {
        match self {
            StateHandlerFactory::Pass(f) => StateHandler::Pass(f.create(state)),
            StateHandlerFactory::Choice(f) => StateHandler::Choice(f.create(state)),
            StateHandlerFactory::Succeed(f) => StateHandler::Succeed(f.create(state)),
            StateHandlerFactory::Fail(f) => StateHandler::Fail(f.create(state)),
            StateHandlerFactory::Wait(f) => StateHandler::Wait(f.create(state)),
            StateHandlerFactory::Task(f) => StateHandler::Task(f.create(state)),
            StateHandlerFactory::Parallel(f) => StateHandler::Parallel(f.create(state)),
            StateHandlerFactory::ItemMap(f) => StateHandler::ItemMap(f.create(state)),
        }
    }
}

/// The factories, one for each sort of state.
pub struct StateHandlerRegistry {
    factories: Vec<StateHandlerFactory>,
}

impl StateHandlerRegistry {
    /// The sorts that are served, in the order of their first registration.
    pub closed spec fn kinds(self) -> Seq<StateKind> {
        self.factories@.map_values(|f: StateHandlerFactory| f.serves())
    }

    /// No sort is served twice.
    pub open spec fn wf(self) -> bool {
        self.kinds().no_duplicates()
    }

    /// A registry that serves nothing.
    pub fn new() -> (r: StateHandlerRegistry)
        ensures
            r.kinds() == Seq::<StateKind>::empty(),
            r.wf(),
    {
        let r = StateHandlerRegistry { factories: Vec::new() };
        assert(r.kinds() =~= Seq::empty());
        r
    }

    /// Where the factory of a sort stands, if it is registered.
    fn position(&self, kind: StateKind) -> (r: Option<usize>)
        ensures
            match r {
                Some(i) => i < self.factories@.len() && self.factories@[i as int].serves() == kind
                    && self.kinds().contains(kind),
                None => !self.kinds().contains(kind),
            },
    {
        let mut i: usize = 0;
        while i < self.factories.len()
            invariant
                i <= self.factories.len(),
                forall|j: int| 0 <= j < i ==> (#[trigger] self.factories@[j]).serves() != kind,
            decreases self.factories.len() - i,
        {
            if self.factories[i].kind() == kind {
                assert(self.kinds()[i as int] == kind);
                return Some(i);
            }
            i += 1;
        }
        assert forall|j: int| 0 <= j < self.kinds().len() implies self.kinds()[j] != kind by {
            assert(self.factories@[j].serves() != kind);
        }
        None
    }

    /// Registers a factory, in place of one that serves the same sort.
    pub fn insert(&mut self, factory: StateHandlerFactory)
        requires
            old(self).wf(),
        ensures
            final(self).wf(),
            final(self).kinds() == if old(self).kinds().contains(factory.serves()) {
                old(self).kinds()
            } else {
                old(self).kinds().push(factory.serves())
            },
    {
        let ghost before = self.kinds();
        match self.position(factory.kind()) {
            Some(i) => {
                self.factories.set(i, factory);
                assert(self.kinds() =~= before);
            },
            None => {
                self.factories.push(factory);
                assert(self.kinds() =~= before.push(factory.serves()));
            },
        }
    }

    /// The handler bound to `state`; `None` when its sort is not served.
    pub fn create<'a>(&self, state: &'a State) -> (r: Option<StateHandler<'a>>)
        ensures
            match r {
                Some(h) => h.bound() == *state && self.kinds().contains(kind_of(*state)),
                None => !self.kinds().contains(kind_of(*state)),
            },
    {
        let kind = match state {
            State::Pass(_) => StateKind::Pass,
            State::Choice(_) => StateKind::Choice,
            State::Succeed(_) => StateKind::Succeed,
            State::Fail(_) => StateKind::Fail,
            State::Wait(_) => StateKind::Wait,
            State::Task(_) => StateKind::Task,
            State::Parallel(_) => StateKind::Parallel,
            State::ItemMap(_) => StateKind::ItemMap,
        };
        match self.position(kind) {
            Some(i) => Some(self.factories[i].create(state)),
            None => None,
        }
    }

    /// The number of sorts that are served.
    pub fn len(&self) -> (r: usize)
        ensures
            r == self.kinds().len(),
    {
        self.factories.len()
    }

    /// The factories.
    pub fn values(&self) -> (r: &Vec<StateHandlerFactory>)
        ensures
            r@.map_values(|f: StateHandlerFactory| f.serves()) == self.kinds(),
    {
        &self.factories
    }
}

} // verus!
