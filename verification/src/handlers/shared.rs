//! Steps that several handlers take: evaluating, sweeping timers, arming one, and finishing a state.

use vstd::prelude::*;
use vstd::string::*;

use crate::asl::AssignObject;
use crate::eval_env::{extract_jsonata, jsonata, reply_view, EvalEnv, Question, QuestionView};
use crate::handler::{reply, Collector, World};
use crate::id::{Timestamp, Uid};
use crate::storage::order::{activity_ok, store_ok};
use crate::types::activity::{Activity, ActivityView};
use crate::types::command::{
    group_command_view, ActivateState, ActivateStateView, Command, CommandView, CompleteThread,
    CompleteThreadView,
};
use crate::types::context::{States, StatesView};
use crate::types::error::{
    invalid_definition, ExecutionError, ExecutionErrorView, RuntimeError, RuntimeErrorView,
};
use crate::types::event::{
    group_event_view, Event, EventView, StateTransitioned, StateTransitionedView,
    VariablesAssigned, VariablesAssignedView,
};
use crate::types::meta::{
    born_meta, generated_name, ObjectKind, ObjectMeta, ObjectReference, ObjectReferenceView,
};
use crate::types::state_path::{sibling, state_name, StatePath};
use crate::types::status::{Lifecycle, LifecycleView};
use crate::types::timer::{Timer, TimerPurpose, TimerStatus, TimerView};
use crate::value::{bind_all, lemma_object_view, Json, MemberView, Value, Variables};

verus! {

broadcast use {group_command_view, group_event_view};

/// The answer to a string that may be an expression: what the expression evaluates to, or the
/// string itself.
pub open spec fn text_reply(
    env: EvalEnv,
    s: Seq<char>,
    states: StatesView,
    variables: Seq<MemberView>,
) -> Result<Json, ExecutionErrorView> {
    match jsonata(s) {
        Some(source) => reply(env, QuestionView::Expression { source, states, variables }),
        None => Ok(Json::String(s)),
    }
}

/// What evaluating such a string leaves.
pub open spec fn text_asked(
    w: World,
    env: EvalEnv,
    s: Seq<char>,
    states: StatesView,
    variables: Seq<MemberView>,
) -> World {
    match jsonata(s) {
        Some(source) => w.asked(env, QuestionView::Expression { source, states, variables }),
        None => w,
    }
}

/// Evaluates a string that may be an expression in `{% %}`.
pub fn eval_string_or_expr(
    out: &mut Collector,
    env: &EvalEnv,
    s: &str,
    states: &States,
    variables: &Variables,
) -> (r: Result<Value, ExecutionError>)
    ensures
        reply_view(r) == text_reply(*env, s@, states@, variables@),
        final(out)@ == text_asked(old(out)@, *env, s@, states@, variables@),
{
    match extract_jsonata(s) {
        Some(source) => out.ask(
            env,
            Question::Expression {
                source,
                states: states.clone(),
                variables: variables.clone(),
            },
        ),
        None => Ok(Value::String(s.to_owned())),
    }
}

/// The answer to a template.
pub open spec fn json_reply(
    env: EvalEnv,
    template: Json,
    states: StatesView,
    variables: Seq<MemberView>,
) -> Result<Json, ExecutionErrorView> {
    reply(env, QuestionView::Json { template, states, variables })
}

/// What evaluating a template leaves.
pub open spec fn json_asked(
    w: World,
    env: EvalEnv,
    template: Json,
    states: StatesView,
    variables: Seq<MemberView>,
) -> World {
    w.asked(env, QuestionView::Json { template, states, variables })
}

/// Evaluates a template.
pub fn eval_json(
    out: &mut Collector,
    env: &EvalEnv,
    template: &Value,
    states: &States,
    variables: &Variables,
) -> (r: Result<Value, ExecutionError>)
    ensures
        reply_view(r) == json_reply(*env, template@, states@, variables@),
        final(out)@ == json_asked(old(out)@, *env, template@, states@, variables@),
{
    out.ask(
        env,
        Question::Json {
            template: template.clone(),
            states: states.clone(),
            variables: variables.clone(),
        },
    )
}

/// The object that an `Assign` evaluates.
pub open spec fn assign_template(assign: AssignObject) -> Json {
    Json::Object(assign.0.deep_view())
}

/// The variables of the scope after an `Assign`. It must evaluate to an object, whose members are
/// bound.
pub open spec fn assigned(
    env: EvalEnv,
    assign: Option<AssignObject>,
    states: StatesView,
    variables: Seq<MemberView>,
) -> Result<Seq<MemberView>, ExecutionErrorView> {
    match assign {
        None => Ok(variables),
        Some(assign) => match json_reply(env, assign_template(assign), states, variables) {
            Err(e) => Err(e),
            Ok(Json::Object(members)) => Ok(bind_all(variables, members)),
            Ok(_) => Err(invalid_definition("Assign must evaluate to a JSON object"@)),
        },
    }
}

/// What an `Assign` leaves: the new variables are recorded, unless there is nothing to bind.
pub open spec fn after_assign(
    w: World,
    env: EvalEnv,
    owner: ObjectReferenceView,
    assign: Option<AssignObject>,
    states: StatesView,
    variables: Seq<MemberView>,
) -> World {
    match assign {
        None => w,
        Some(assign) => {
            let asked = json_asked(w, env, assign_template(assign), states, variables);
            match json_reply(env, assign_template(assign), states, variables) {
                Ok(Json::Object(members)) if members.len() > 0 => asked.event(
                    EventView::VariablesAssigned(
                        VariablesAssignedView {
                            scope: owner,
                            variables: bind_all(variables, members),
                        },
                    ),
                ),
                _ => asked,
            }
        },
    }
}

/// Applies an `Assign` to the variables of the scope `owner`.
pub fn apply_assign(
    out: &mut Collector,
    env: &EvalEnv,
    owner: &ObjectReference,
    assign: Option<&AssignObject>,
    states: &States,
    scope: &mut Variables,
) -> (r: Result<(), ExecutionError>)
    requires
        store_ok(old(out)@.store),
    ensures
        match r {
            Ok(_) => assigned(*env, option_ref(assign), states@, old(scope)@) == Ok::<
                _,
                ExecutionErrorView,
            >(final(scope)@),
            Err(e) => assigned(*env, option_ref(assign), states@, old(scope)@) == Err::<
                Seq<MemberView>,
                _,
            >(e@),
        },
        final(out)@ == after_assign(
            old(out)@,
            *env,
            owner@,
            option_ref(assign),
            states@,
            old(scope)@,
        ),
        store_ok(final(out)@.store),
{
    let assign = match assign {
        Some(assign) => assign,
        None => return Ok(()),
    };
    let members = assign.0.clone();
    assert(members.deep_view() =~= assign.0.deep_view());
    let template = Value::Object(members);
    proof {
        lemma_object_view(members);
    }
    let evaluated = match eval_json(out, env, &template, states, scope) {
        Ok(v) => v,
        Err(e) => return Err(e),
    };
    match evaluated {
        Value::Object(members) => {
            proof {
                lemma_object_view(members);
            }
            let ghost before = scope@;
            if members.len() > 0 {
                scope.insert_all(&members);
                out.append_event(
                    Event::VariablesAssigned(
                        VariablesAssigned { scope: owner.clone(), variables: scope.clone() },
                    ),
                );
            } else {
                assert(members.deep_view().len() == 0);
                assert(bind_all(before, members.deep_view()) == before);
            }
            Ok(())
        },
        _ => Err(
            ExecutionError::invalid_definition(
                "Assign must evaluate to a JSON object".to_owned(),
            ),
        ),
    }
}

/// What an optional reference refers to.
pub open spec fn option_ref<T>(r: Option<&T>) -> Option<T> {
    match r {
        Some(x) => Some(*x),
        None => None,
    }
}

/// An option as an option of a reference.
pub fn as_option<T>(x: &Option<T>) -> (r: Option<&T>)
    ensures
        option_ref(r) == *x,
{
    match x {
        Some(v) => Some(v),
        None => None,
    }
}

/// The output of a state: what its `Output` evaluates to, or `fallback` when it has none.
pub open spec fn projected(
    env: EvalEnv,
    output: Option<Json>,
    states: StatesView,
    variables: Seq<MemberView>,
    fallback: Json,
) -> Result<Json, ExecutionErrorView> {
    match output {
        Some(template) => json_reply(env, template, states, variables),
        None => Ok(fallback),
    }
}

/// What evaluating an `Output` leaves.
pub open spec fn after_output(
    w: World,
    env: EvalEnv,
    output: Option<Json>,
    states: StatesView,
    variables: Seq<MemberView>,
) -> World {
    match output {
        Some(template) => json_asked(w, env, template, states, variables),
        None => w,
    }
}

/// Evaluates the `Output` of a state, which defaults to `fallback`.
pub fn project_output(
    out: &mut Collector,
    env: &EvalEnv,
    output: Option<&Value>,
    states: &States,
    scope: &Variables,
    fallback: Value,
) -> (r: Result<Value, ExecutionError>)
    ensures
        reply_view(r) == projected(*env, output.deep_view(), states@, scope@, fallback@),
        final(out)@ == after_output(old(out)@, *env, output.deep_view(), states@, scope@),
{
    match output {
        Some(template) => eval_json(out, env, template, states, scope),
        None => Ok(fallback),
    }
}

/// A timer that is no longer armed, since `now`.
pub open spec fn settled_timer(t: TimerView, status: TimerStatus, now: Timestamp) -> TimerView {
    TimerView { meta: t.meta.touched(now), status, ..t }
}

/// What sweeping one child leaves: a timer that is still armed is cancelled.
pub open spec fn sweep_one(w: World, child: ObjectReferenceView) -> World {
    if child.kind is Timer {
        match w.store.timer(child) {
            Ok(Some(t)) if t.value.status is Active => w.event(
                EventView::TimerCancelled {
                    timer: settled_timer(t.value, TimerStatus::Cancelled, w.now),
                },
            ),
            _ => w,
        }
    } else {
        w
    }
}

/// What sweeping each child, in order, leaves.
pub open spec fn sweep(w: World, children: Seq<ObjectReferenceView>) -> World
    decreases children.len(),
{
    if children.len() == 0 {
        w
    } else {
        sweep_one(sweep(w, children.drop_last()), children.last())
    }
}

/// What cancelling the armed timers of an activity leaves.
pub open spec fn timers_cancelled(w: World, activity: ObjectReferenceView) -> World {
    match w.store.activity(activity) {
        Ok(Some(a)) => sweep(w, a.active_children),
        _ => w,
    }
}

fn sweep_child(out: &mut Collector, child: &ObjectReference)
    requires
        store_ok(old(out)@.store),
    ensures
        final(out)@ == sweep_one(old(out)@, child@),
        store_ok(final(out)@.store),
{
    if child.kind != ObjectKind::Timer {
        return ;
    }
    let t = match out.storage().get_timer(child) {
        Ok(Some(t)) => t,
        _ => return ,
    };
    if t.value.status != TimerStatus::Active {
        return ;
    }
    let mut timer = t.value;
    timer.status = TimerStatus::Cancelled;
    timer.meta.with_update_at(out.now());
    out.append_event(Event::TimerCancelled { timer });
}

/// Cancels every armed timer of an activity, by events that are folded at once: the children are
/// gone before the caller does anything else.
pub fn cancel_activity_timers(out: &mut Collector, activity: &ObjectReference)
    requires
        store_ok(old(out)@.store),
    ensures
        final(out)@ == timers_cancelled(old(out)@, activity@),
        store_ok(final(out)@.store),
{
    let act = match out.storage().get_activity(activity) {
        Ok(Some(a)) => a,
        _ => return ,
    };
    let children = act.active_children;
    let ghost all = children.deep_view();
    let ghost before = out@;
    let mut i: usize = 0;
    assert(all.take(0) =~= Seq::empty());
    while i < children.len()
        invariant
            i <= children.len(),
            all == children.deep_view(),
            out@ == sweep(before, all.take(i as int)),
            store_ok(out@.store),
        decreases children.len() - i,
    {
        let ghost next = all.take(i as int + 1);
        assert(next.drop_last() =~= all.take(i as int));
        assert(next.last() == children@[i as int]@);
        sweep_child(out, &children[i]);
        i += 1;
    }
    assert(all.take(all.len() as int) =~= all);
}

/// An activity that completed at `now` with `output`.
pub open spec fn completed_activity(a: ActivityView, output: Json, now: Timestamp) -> ActivityView {
    ActivityView {
        meta: a.meta.touched(now),
        status: LifecycleView::Completed,
        output: Some(output),
        ..a
    }
}

/// Records that an activity completed with `output`.
pub fn emit_state_completed(out: &mut Collector, activity: &Activity, output: &Value)
    requires
        store_ok(old(out)@.store),
        activity_ok(activity@),
    ensures
        final(out)@ == old(out)@.event(
            EventView::StateCompleted {
                activity: completed_activity(activity@, output@, old(out)@.now),
            },
        ),
        store_ok(final(out)@.store),
{
    let mut completed = activity.clone();
    completed.meta.with_update_at(out.now());
    completed.status = Lifecycle::Completed;
    completed.output = Some(output.clone());
    out.append_event(Event::StateCompleted { activity: completed });
}

/// What routing a completed state leaves. An end completes the owning thread; a successor is entered
/// as a sibling in the same table, behind a marker that names its path; a state with neither fails.
pub open spec fn transition(
    w: World,
    execution: ObjectReferenceView,
    owner: ObjectReferenceView,
    activity: ObjectReferenceView,
    path: Seq<Seq<char>>,
    output: Json,
    next: Option<Seq<char>>,
    end: Option<bool>,
) -> World {
    if end == Some(true) {
        w.command(CommandView::CompleteThread(CompleteThreadView { thread: owner, output }))
    } else {
        match next {
            Some(next) => hop(w, execution, owner, activity, sibling(path, next), output),
            None => w.terminate(
                Some(activity),
                execution,
                ExecutionErrorView::Runtime(RuntimeErrorView::NoTerminal),
            ),
        }
    }
}

/// What handing over to the state at `next` leaves.
pub open spec fn hop(
    w: World,
    execution: ObjectReferenceView,
    owner: ObjectReferenceView,
    activity: ObjectReferenceView,
    next: Seq<Seq<char>>,
    output: Json,
) -> World {
    w.event(
        EventView::StateTransitioned(StateTransitionedView { activity, next }),
    ).command(
        CommandView::ActivateState(
            ActivateStateView { execution, owner, state_path: next, input: output },
        ),
    )
}

/// Hands over to the state at `next`.
pub fn emit_hop(
    out: &mut Collector,
    execution: &ObjectReference,
    owner: &ObjectReference,
    activity: &ObjectReference,
    next: StatePath,
    output: &Value,
)
    requires
        store_ok(old(out)@.store),
    ensures
        final(out)@ == hop(old(out)@, execution@, owner@, activity@, next@, output@),
        store_ok(final(out)@.store),
{
    out.append_event(
        Event::StateTransitioned(
            StateTransitioned { activity: activity.clone(), next: next.clone() },
        ),
    );
    out.append_command(
        Command::ActivateState(
            ActivateState {
                execution: execution.clone(),
                owner: owner.clone(),
                state_path: next,
                input: output.clone(),
            },
        ),
    );
}

/// Routes a completed state.
pub fn emit_transition(
    out: &mut Collector,
    execution: &ObjectReference,
    owner: &ObjectReference,
    activity: &ObjectReference,
    path: &StatePath,
    output: &Value,
    next: Option<&String>,
    end: Option<bool>,
)
    requires
        store_ok(old(out)@.store),
    ensures
        final(out)@ == transition(
            old(out)@,
            execution@,
            owner@,
            activity@,
            path@,
            output@,
            next.deep_view(),
            end,
        ),
        store_ok(final(out)@.store),
{
    let ends = match end {
        Some(b) => b,
        None => false,
    };
    if ends {
        out.append_command(
            Command::CompleteThread(
                CompleteThread { thread: owner.clone(), output: output.clone() },
            ),
        );
    } else {
        match next {
            Some(next) => emit_hop(
                out,
                execution,
                owner,
                activity,
                path.sibling(next.as_str()),
                output,
            ),
            None => out.terminate(
                Some(activity.clone()),
                execution,
                ExecutionError::Runtime(RuntimeError::NoTerminal),
            ),
        }
    }
}

/// The timer that an owner arms.
pub open spec fn armed_timer(
    w: World,
    execution: ObjectReferenceView,
    owner: ObjectReferenceView,
    purpose: TimerPurpose,
    deadline: Timestamp,
) -> TimerView {
    TimerView {
        meta: born_meta(
            ObjectKind::Timer,
            generated_name(execution.name, w.store.next_seq),
            Uid(w.next_uid),
            w.now,
            Some(owner),
        ),
        execution,
        purpose,
        status: TimerStatus::Active,
        deadline,
    }
}

/// What arming a timer leaves.
pub open spec fn timer_armed(
    w: World,
    execution: ObjectReferenceView,
    owner: ObjectReferenceView,
    purpose: TimerPurpose,
    deadline: Timestamp,
) -> World {
    w.minted().drawn().event(
        EventView::TimerActivated { timer: armed_timer(w, execution, owner, purpose, deadline) },
    )
}

/// Arms a timer under `owner`, named after the execution.
pub fn emit_timer(
    out: &mut Collector,
    execution: &ObjectReference,
    owner: &ObjectReference,
    purpose: TimerPurpose,
    deadline: Timestamp,
)
    requires
        store_ok(old(out)@.store),
    ensures
        final(out)@ == timer_armed(old(out)@, execution@, owner@, purpose, deadline),
        store_ok(final(out)@.store),
{
    let uid = out.mint();
    let name = execution.name.generated_from_key(out.next_generated_seq());
    let timer = Timer {
        meta: ObjectMeta::born(ObjectKind::Timer, name, uid, out.now(), Some(owner.clone())),
        execution: execution.clone(),
        purpose,
        status: TimerStatus::Active,
        deadline,
    };
    out.append_event(Event::TimerActivated { timer });
}

/// The raw result of a state: what it produced, or what it was entered with.
pub open spec fn raw_result(a: ActivityView) -> Json {
    match a.raw_output {
        Some(v) => v,
        None => a.raw_input,
    }
}

/// The context that the complete step of a state evaluates in.
pub open spec fn completing_context(
    a: ActivityView,
    retry_count: u32,
    result: Option<Json>,
    error_output: Option<Json>,
) -> StatesView {
    StatesView {
        input: a.raw_input,
        state_name: state_name(a.state_path),
        retry_count,
        result,
        assign_ctx: Some(a.raw_input),
        error_output,
        execution_input: None,
    }
}

/// The context that the complete step of a state evaluates in.
pub fn completing_states(
    a: &Activity,
    retry_count: u32,
    result: Option<&Value>,
    error_output: Option<&Value>,
) -> (r: States)
    ensures
        r@ == completing_context(a@, retry_count, result.deep_view(), error_output.deep_view()),
{
    States {
        input: a.raw_input.clone(),
        state_name: a.state_path.state_name(),
        retry_count,
        result: match result {
            Some(v) => Some(v.clone()),
            None => None,
        },
        assign_ctx: Some(a.raw_input.clone()),
        error_output: match error_output {
            Some(v) => Some(v.clone()),
            None => None,
        },
        execution_input: None,
    }
}

/// What completing an activity leaves: `Assign` binds variables, `Output` projects the raw result,
/// the activity is recorded completed, and the state is routed. Either evaluation may fail the
/// activity and its scope instead.
pub open spec fn activity_completed(
    w: World,
    env: EvalEnv,
    activity: ObjectReferenceView,
    a: ActivityView,
    variables: Seq<MemberView>,
    assign: Option<AssignObject>,
    output: Option<Json>,
    next: Option<Seq<char>>,
    end: Option<bool>,
    retry_count: u32,
    error_output: Option<Json>,
) -> World {
    let owner = a.meta.owner->0;
    let result = raw_result(a);
    let states = completing_context(a, retry_count, Some(result), error_output);
    let w1 = after_assign(w, env, owner, assign, states, variables);
    match assigned(env, assign, states, variables) {
        Err(e) => w1.terminate(Some(activity), owner, e),
        Ok(scope) => {
            let w2 = after_output(w1, env, output, states, scope);
            match projected(env, output, states, scope, result) {
                Err(e) => w2.terminate(Some(activity), owner, e),
                Ok(value) => transition(
                    w2.event(
                        EventView::StateCompleted {
                            activity: ActivityView {
                                raw_output: Some(result),
                                ..completed_activity(a, value, w.now)
                            },
                        },
                    ),
                    a.execution,
                    owner,
                    activity,
                    a.state_path,
                    value,
                    next,
                    end,
                ),
            }
        },
    }
}

/// Completes an activity: the success tail of a path that has already opened the finish.
pub fn complete_activity(
    out: &mut Collector,
    env: &EvalEnv,
    activity: &ObjectReference,
    activity_value: &Activity,
    variables: &Variables,
    assign: Option<&AssignObject>,
    output: Option<&Value>,
    next: Option<&String>,
    end: Option<bool>,
    retry_count: u32,
    error_output: Option<&Value>,
)
    requires
        store_ok(old(out)@.store),
        activity_ok(activity_value@),
    ensures
        final(out)@ == activity_completed(
            old(out)@,
            *env,
            activity@,
            activity_value@,
            variables@,
            option_ref(assign),
            output.deep_view(),
            next.deep_view(),
            end,
            retry_count,
            error_output.deep_view(),
        ),
        store_ok(final(out)@.store),
{
    let raw = match &activity_value.raw_output {
        Some(v) => v.clone(),
        None => activity_value.raw_input.clone(),
    };
    let states = completing_states(activity_value, retry_count, Some(&raw), error_output);
    let owner = activity_value.meta.owner.clone().unwrap();
    let mut scope = variables.clone();
    match apply_assign(out, env, &owner, assign, &states, &mut scope) {
        Ok(_) => {},
        Err(e) => {
            out.terminate(Some(activity.clone()), &owner, e);
            return ;
        },
    }
    let value = match project_output(out, env, output, &states, &scope, raw.clone()) {
        Ok(v) => v,
        Err(e) => {
            out.terminate(Some(activity.clone()), &owner, e);
            return ;
        },
    };
    let mut completed = activity_value.clone();
    completed.meta.with_update_at(out.now());
    completed.status = Lifecycle::Completed;
    completed.output = Some(value.clone());
    completed.raw_output = Some(raw);
    out.append_event(Event::StateCompleted { activity: completed });
    emit_transition(
        out,
        &activity_value.execution,
        &owner,
        activity,
        &activity_value.state_path,
        &value,
        next,
        end,
    );
}

} // verus!
