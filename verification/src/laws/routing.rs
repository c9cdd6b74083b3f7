//! The finish of a state: what is told of it, and where the run goes on.

use vstd::prelude::*;

use crate::asl::{AssignObject, FailState, State};
use crate::eval_env::{EvalEnv, QuestionView};
use crate::handler::World;
use crate::handlers::shared::{activity_completed, after_assign, transition};
use crate::handlers::state_handler::{completes_directly, finished};
use crate::handlers::states::choice::finish_choice;
use crate::handlers::states::common::{
    fail_container, finish_container, finish_stray, finish_success,
};
use crate::handlers::states::fail::{
    failed_activity, finish_fail, optional_asked, optional_member, optional_reply,
};
use crate::laws::{
    binding_told, binds, braced, changed, ends_activity, ends_scope, gives, named_by, seen, sent,
    shows, told,
};
use crate::laws::evaluation::{
    law_assign_binds, law_expressions_stand_in_braces, law_output_projects,
};
use crate::types::activity::ActivityView;
use crate::types::command::{ActivateStateView, CommandView, CompleteThreadView};
use crate::types::context::StatesView;
use crate::types::entry::EntryPayloadView;
use crate::types::error::{ExecutionErrorView, RuntimeErrorView};
use crate::types::event::{EventView, StateTransitionedView};
use crate::types::meta::ObjectReferenceView;
use crate::types::status::{LifecycleView, TerminationReasonView};
use crate::value::{Json, MemberView};

verus! {

/// Where a run goes on after the state at `path` gave `value`: an end completes the thread with it; a
/// successor is entered with it, at its place in the table of the state, by the same thread; a state with
/// neither fails, and with it the execution.
pub open spec fn route(
    execution: ObjectReferenceView,
    owner: ObjectReferenceView,
    activity: ObjectReferenceView,
    path: Seq<Seq<char>>,
    value: Json,
    next: Option<Seq<char>>,
    end: Option<bool>,
) -> Seq<EntryPayloadView> {
    if end == Some(true) {
        seq![sent(CommandView::CompleteThread(CompleteThreadView { thread: owner, output: value }))]
    } else if next is Some {
        let target = if path.len() == 0 {
            seq![next->0]
        } else {
            path.take(path.len() - 1).push(next->0)
        };
        seq![
            told(EventView::StateTransitioned(StateTransitionedView { activity, next: target })),
            sent(
                CommandView::ActivateState(
                    ActivateStateView { execution, owner, state_path: target, input: value },
                ),
            ),
        ]
    } else {
        let reason = TerminationReasonView::Failed {
            error: ExecutionErrorView::Runtime(RuntimeErrorView::NoTerminal),
        };
        seq![ends_activity(activity, reason)] + ends_scope(execution, reason)
    }
}

/// The record that an activity has completed.
pub open spec fn completed_with(a: ActivityView, value: Json, w: World) -> EntryPayloadView {
    told(
        EventView::StateCompleted {
            activity: ActivityView {
                meta: changed(a.meta, w.now),
                status: LifecycleView::Completed,
                output: Some(value),
                ..a
            },
        },
    )
}

/// What a state produced: its raw output, or its input when it has none.
pub open spec fn produced(a: ActivityView) -> Json {
    match a.raw_output {
        Some(v) => v,
        None => a.raw_input,
    }
}

/// A completed state is routed by its `End` and its `Next`.
pub proof fn law_completed_state_is_routed(
    w: World,
    execution: ObjectReferenceView,
    owner: ObjectReferenceView,
    activity: ObjectReferenceView,
    path: Seq<Seq<char>>,
    value: Json,
    next: Option<Seq<char>>,
    end: Option<bool>,
)
    ensures
        transition(w, execution, owner, activity, path, value, next, end).chain == w.chain + route(
            execution,
            owner,
            activity,
            path,
            value,
            next,
            end,
        ),
        transition(w, execution, owner, activity, path, value, next, end).now == w.now,
{
    if path.len() > 0 {
        assert(path.take(path.len() - 1) =~= path.drop_last());
    }
    let after = transition(w, execution, owner, activity, path, value, next, end);
    assert(after.chain =~= w.chain + route(execution, owner, activity, path, value, next, end));
}

/// The success finish binds, then projects the raw result, then tells that the activity has completed and
/// routes what came out.
pub proof fn law_success_finish_completes_and_routes(
    w: World,
    env: EvalEnv,
    activity: ObjectReferenceView,
    a: ActivityView,
    variables: Seq<MemberView>,
    assign: Option<AssignObject>,
    output: Option<Json>,
    next: Option<Seq<char>>,
    end: Option<bool>,
    scope: Seq<MemberView>,
    value: Json,
)
    requires
        a.meta.owner is Some,
        binds(env, assign, seen(a, Some(produced(a)), None), variables, scope),
        shows(env, output, seen(a, Some(produced(a)), None), scope, produced(a), value),
    ensures
        ({
            let step = finish_success(w, env, activity, a, variables, assign, output, next, end);
            let owner = a.meta.owner->0;
            &&& step.error is None
            &&& step.world.chain == w.chain + binding_told(
                env,
                owner,
                assign,
                seen(a, Some(produced(a)), None),
                variables,
            ) + seq![completed_with(a, value, w)] + route(
                a.execution,
                owner,
                activity,
                a.state_path,
                value,
                next,
                end,
            )
        }),
{
    let owner = a.meta.owner->0;
    let states = seen(a, Some(produced(a)), None);
    law_assign_binds(w, env, owner, assign, states, variables, scope);
    let w1 = after_assign(w, env, owner, assign, states, variables);
    law_output_projects(w1, env, output, states, scope, produced(a), value);
    let told_all = binding_told(env, owner, assign, states, variables);
    let w2 = w1.event(completed_with(a, value, w)->Event_0);
    law_completed_state_is_routed(
        w2,
        a.execution,
        owner,
        activity,
        a.state_path,
        value,
        next,
        end,
    );
    assert(w2.chain =~= w.chain + told_all + seq![completed_with(a, value, w)]);
    let step = finish_success(w, env, activity, a, variables, assign, output, next, end);
    assert(step.world.chain =~= w.chain + told_all + seq![completed_with(a, value, w)] + route(
        a.execution,
        owner,
        activity,
        a.state_path,
        value,
        next,
        end,
    ));
}

/// An `Assign` or an `Output` that fails stops the success finish with its error: the activity is not told
/// to have completed, and nothing is routed.
pub proof fn law_failed_evaluation_stops_the_success_finish(
    w: World,
    env: EvalEnv,
    activity: ObjectReferenceView,
    a: ActivityView,
    variables: Seq<MemberView>,
    assign: Option<AssignObject>,
    output: Option<Json>,
    next: Option<Seq<char>>,
    end: Option<bool>,
    scope: Seq<MemberView>,
    e: ExecutionErrorView,
)
    requires
        a.meta.owner is Some,
        binds(env, assign, seen(a, Some(produced(a)), None), variables, scope),
        output matches Some(template) && env.answer(
            QuestionView::Json {
                template,
                states: seen(a, Some(produced(a)), None),
                variables: scope,
            },
        ) == Some(Err::<Json, _>(e)),
    ensures
        ({
            let step = finish_success(w, env, activity, a, variables, assign, output, next, end);
            &&& step.error == Some(e)
            &&& step.world.chain == w.chain + binding_told(
                env,
                a.meta.owner->0,
                assign,
                seen(a, Some(produced(a)), None),
                variables,
            )
        }),
{
    let owner = a.meta.owner->0;
    let states = seen(a, Some(produced(a)), None);
    law_assign_binds(w, env, owner, assign, states, variables, scope);
}

/// The finish of a `Pass`, a `Wait` and a `Task` is the success finish by their own `Assign`, `Output`,
/// `Next` and `End`; a `Succeed` has no `Assign` and always ends its thread.
pub proof fn law_states_finish_by_their_definition(
    w: World,
    env: EvalEnv,
    state: State,
    activity: ObjectReferenceView,
    a: ActivityView,
    variables: Seq<MemberView>,
)
    ensures
        ({
            let step = finished(w, env, state, activity, a, variables);
            match state {
                State::Pass(s) => step == finish_success(
                    w,
                    env,
                    activity,
                    a,
                    variables,
                    s.assign,
                    s.output.deep_view(),
                    s.next.deep_view(),
                    s.end,
                ),
                State::Wait(s) => step == finish_success(
                    w,
                    env,
                    activity,
                    a,
                    variables,
                    s.assign,
                    s.output.deep_view(),
                    s.next.deep_view(),
                    s.end,
                ),
                State::Task(s) => step == finish_success(
                    w,
                    env,
                    activity,
                    a,
                    variables,
                    s.assign,
                    s.output.deep_view(),
                    s.next.deep_view(),
                    s.end,
                ),
                State::Succeed(s) => step == finish_success(
                    w,
                    env,
                    activity,
                    a,
                    variables,
                    None,
                    s.output.deep_view(),
                    None,
                    Some(true),
                ),
                State::Choice(c) => step == finish_choice(
                    w,
                    env,
                    c,
                    activity,
                    a,
                    variables,
                ),
                State::Fail(f) => step == finish_fail(w, env, f, a, variables),
                _ => {
                    &&& step.error is None
                    &&& step.world == finish_stray(w, activity, a)
                },
            }
        }),
        completes_directly(state) <==> state is Pass || state is Choice || state is Succeed
            || state is Fail,
{
}

/// A container that is completed from outside completes with what it was entered with, and ends its
/// thread.
pub proof fn law_stray_finish_hands_the_input_on(
    w: World,
    activity: ObjectReferenceView,
    a: ActivityView,
)
    requires
        a.meta.owner is Some,
    ensures
        finish_stray(w, activity, a).chain == w.chain + seq![
            completed_with(a, a.raw_input, w),
            sent(
                CommandView::CompleteThread(
                    CompleteThreadView { thread: a.meta.owner->0, output: a.raw_input },
                ),
            ),
        ],
{
    assert(finish_stray(w, activity, a).chain =~= w.chain + seq![
        completed_with(a, a.raw_input, w),
        sent(
            CommandView::CompleteThread(
                CompleteThreadView { thread: a.meta.owner->0, output: a.raw_input },
            ),
        ),
    ]);
}

/// A container whose children have settled opens its finish, binds, projects the aggregate, completes and
/// is routed.
pub proof fn law_container_completes_with_the_aggregate(
    w: World,
    env: EvalEnv,
    activity: ObjectReferenceView,
    a: ActivityView,
    variables: Seq<MemberView>,
    assign: Option<AssignObject>,
    output: Option<Json>,
    next: Option<Seq<char>>,
    end: Option<bool>,
    aggregated: Json,
    scope: Seq<MemberView>,
    value: Json,
)
    requires
        a.meta.owner is Some,
        binds(env, assign, seen(a, Some(aggregated), None), variables, scope),
        shows(env, output, seen(a, Some(aggregated), None), scope, aggregated, value),
    ensures
        ({
            let after = finish_container(
                w,
                env,
                activity,
                a,
                variables,
                assign,
                output,
                next,
                end,
                aggregated,
            );
            let opened = ActivityView {
                meta: changed(a.meta, w.now),
                status: LifecycleView::Completing,
                raw_output: Some(produced(a)),
                ..a
            };
            after.chain == w.chain + seq![told(EventView::StateCompleting { activity: opened })]
                + binding_told(
                env,
                a.meta.owner->0,
                assign,
                seen(a, Some(aggregated), None),
                variables,
            ) + seq![completed_with(opened, value, w)] + route(
                a.execution,
                a.meta.owner->0,
                activity,
                a.state_path,
                value,
                next,
                end,
            )
        }),
{
    let owner = a.meta.owner->0;
    let states = seen(a, Some(aggregated), None);
    let opened = ActivityView {
        meta: changed(a.meta, w.now),
        status: LifecycleView::Completing,
        raw_output: Some(produced(a)),
        ..a
    };
    let w0 = w.event(EventView::StateCompleting { activity: opened });
    law_assign_binds(w0, env, owner, assign, states, variables, scope);
    let w1 = after_assign(w0, env, owner, assign, states, variables);
    law_output_projects(w1, env, output, states, scope, aggregated, value);
    let w2 = w1.event(completed_with(opened, value, w)->Event_0);
    law_completed_state_is_routed(
        w2,
        a.execution,
        owner,
        activity,
        a.state_path,
        value,
        next,
        end,
    );
    let after = finish_container(
        w,
        env,
        activity,
        a,
        variables,
        assign,
        output,
        next,
        end,
        aggregated,
    );
    assert(after.chain =~= w.chain + seq![told(EventView::StateCompleting { activity: opened })]
        + binding_told(env, owner, assign, states, variables) + seq![completed_with(opened, value, w)]
        + route(a.execution, owner, activity, a.state_path, value, next, end));
}

/// An `Output` that fails as a container finishes fails the container and the scope that owns it.
pub proof fn law_container_fails_with_its_output(
    w: World,
    env: EvalEnv,
    activity: ObjectReferenceView,
    a: ActivityView,
    variables: Seq<MemberView>,
    template: Json,
    next: Option<Seq<char>>,
    end: Option<bool>,
    aggregated: Json,
    e: ExecutionErrorView,
)
    requires
        a.meta.owner is Some,
        env.answer(
            QuestionView::Json {
                template,
                states: seen(a, Some(aggregated), None),
                variables,
            },
        ) == Some(Err::<Json, _>(e)),
    ensures
        ({
            let after = finish_container(
                w,
                env,
                activity,
                a,
                variables,
                None,
                Some(template),
                next,
                end,
                aggregated,
            );
            let reason = TerminationReasonView::Failed { error: e };
            after.chain.skip(w.chain.len() as int + 1) == seq![ends_activity(activity, reason)]
                + ends_scope(a.meta.owner->0, reason)
        }),
{
    let after = finish_container(
        w,
        env,
        activity,
        a,
        variables,
        None,
        Some(template),
        next,
        end,
        aggregated,
    );
    let reason = TerminationReasonView::Failed { error: e };
    assert(after.chain.skip(w.chain.len() as int + 1) =~= seq![ends_activity(activity, reason)]
        + ends_scope(a.meta.owner->0, reason));
}

/// A container that fails is terminated, and its scope with it, for the same reason.
pub proof fn law_failed_container_ends_its_scope(
    w: World,
    a: ActivityView,
    reason: TerminationReasonView,
)
    requires
        a.meta.owner is Some,
    ensures
        fail_container(w, a, reason).chain == w.chain + seq![
            ends_activity(named_by(a.meta), reason),
        ] + ends_scope(a.meta.owner->0, reason),
        fail_container(w, a, reason).store == w.store,
{
    assert(fail_container(w, a, reason).chain =~= w.chain + seq![
        ends_activity(named_by(a.meta), reason),
    ] + ends_scope(a.meta.owner->0, reason));
}

/// The tail of a path that has opened the finish: as the success finish, with the count of retries and the
/// output of the error that the caller hands in, and the raw result recorded.
pub proof fn law_caught_activity_completes_and_routes(
    w: World,
    env: EvalEnv,
    activity: ObjectReferenceView,
    a: ActivityView,
    variables: Seq<MemberView>,
    assign: Option<AssignObject>,
    output: Option<Json>,
    next: Option<Seq<char>>,
    end: Option<bool>,
    retry_count: u32,
    error_output: Option<Json>,
    scope: Seq<MemberView>,
    value: Json,
)
    requires
        a.meta.owner is Some,
        binds(
            env,
            assign,
            (StatesView { retry_count, ..seen(a, Some(produced(a)), error_output) }),
            variables,
            scope,
        ),
        shows(
            env,
            output,
            (StatesView { retry_count, ..seen(a, Some(produced(a)), error_output) }),
            scope,
            produced(a),
            value,
        ),
    ensures
        ({
            let after = activity_completed(
                w,
                env,
                activity,
                a,
                variables,
                assign,
                output,
                next,
                end,
                retry_count,
                error_output,
            );
            let states = StatesView { retry_count, ..seen(a, Some(produced(a)), error_output) };
            let settled = ActivityView { raw_output: Some(produced(a)), ..a };
            after.chain == w.chain + binding_told(
                env,
                a.meta.owner->0,
                assign,
                states,
                variables,
            ) + seq![completed_with(settled, value, w)] + route(
                a.execution,
                a.meta.owner->0,
                activity,
                a.state_path,
                value,
                next,
                end,
            )
        }),
{
    let owner = a.meta.owner->0;
    let states = StatesView { retry_count, ..seen(a, Some(produced(a)), error_output) };
    let settled = ActivityView { raw_output: Some(produced(a)), ..a };
    law_assign_binds(w, env, owner, assign, states, variables, scope);
    let w1 = after_assign(w, env, owner, assign, states, variables);
    law_output_projects(w1, env, output, states, scope, produced(a), value);
    let w2 = w1.event(completed_with(settled, value, w)->Event_0);
    law_completed_state_is_routed(
        w2,
        a.execution,
        owner,
        activity,
        a.state_path,
        value,
        next,
        end,
    );
    let after = activity_completed(
        w,
        env,
        activity,
        a,
        variables,
        assign,
        output,
        next,
        end,
        retry_count,
        error_output,
    );
    assert(after.chain =~= w.chain + binding_told(env, owner, assign, states, variables)
        + seq![completed_with(settled, value, w)] + route(
        a.execution,
        owner,
        activity,
        a.state_path,
        value,
        next,
        end,
    ));
}

/// An activity that fails is told to terminate and to have terminated, for one reason, and its scope is
/// terminated for it.
pub proof fn law_failed_activity_ends_its_scope(
    w: World,
    a: ActivityView,
    reason: TerminationReasonView,
)
    requires
        a.meta.owner is Some,
    ensures
        failed_activity(w, a, reason).chain == w.chain + seq![
            told(
                EventView::StateTerminating {
                    activity: ActivityView {
                        meta: changed(a.meta, w.now),
                        status: LifecycleView::Terminating(reason),
                        ..a
                    },
                },
            ),
            told(
                EventView::StateTerminated {
                    activity: ActivityView {
                        meta: changed(a.meta, w.now),
                        status: LifecycleView::Terminated(reason),
                        ..a
                    },
                },
            ),
        ] + ends_scope(a.meta.owner->0, reason),
{
    assert(failed_activity(w, a, reason).chain =~= w.chain + seq![
        told(
            EventView::StateTerminating {
                activity: ActivityView {
                    meta: changed(a.meta, w.now),
                    status: LifecycleView::Terminating(reason),
                    ..a
                },
            },
        ),
        told(
            EventView::StateTerminated {
                activity: ActivityView {
                    meta: changed(a.meta, w.now),
                    status: LifecycleView::Terminated(reason),
                    ..a
                },
            },
        ),
    ] + ends_scope(a.meta.owner->0, reason));
}

/// A text of a `Fail` comes out as `v`: one that is not given as nothing, an expression as what it gives,
/// and any other text as itself.
pub open spec fn reads_as(
    env: EvalEnv,
    text: Option<String>,
    states: StatesView,
    variables: Seq<MemberView>,
    v: Option<Json>,
) -> bool {
    match text {
        None => v is None,
        Some(s) => v is Some && {
            ||| exists|source: Seq<char>|
                s@ == #[trigger] braced(source) && gives(env, source, states, variables, v->0)
            ||| (forall|source: Seq<char>| #[trigger] braced(source) != s@) && v->0
                == Json::String(s@)
        },
    }
}

proof fn lemma_reads_as(
    w: World,
    env: EvalEnv,
    text: Option<String>,
    states: StatesView,
    variables: Seq<MemberView>,
    v: Option<Json>,
)
    requires
        reads_as(env, text, states, variables, v),
    ensures
        optional_reply(
            env,
            text.deep_view(),
            states,
            variables,
        ) == Ok::<_, ExecutionErrorView>(v),
        optional_asked(
            w,
            env,
            text.deep_view(),
            states,
            variables,
        ) == w,
{
    if let Some(s) = text {
        if exists|source: Seq<char>|
            s@ == #[trigger] braced(source) && gives(env, source, states, variables, v->0) {
            let source = choose|source: Seq<char>|
                s@ == #[trigger] braced(source) && gives(env, source, states, variables, v->0);
            law_expressions_stand_in_braces(source, s@);
        } else {
            law_expressions_stand_in_braces(s@, s@);
        }
    }
}

/// A `Fail` fails with its `Error`, and its output holds the `Error` and the `Cause` that it has; without
/// an `Error` that is a text it fails as `States.Fail`.
pub proof fn law_fail_state_fails_with_its_error(
    w: World,
    env: EvalEnv,
    f: FailState,
    a: ActivityView,
    variables: Seq<MemberView>,
    error: Option<Json>,
    cause: Option<Json>,
)
    requires
        reads_as(env, f.error, seen(a, None, None), variables, error),
        reads_as(env, f.cause, seen(a, None, None), variables, cause),
    ensures
        ({
            let step = finish_fail(w, env, f, a, variables);
            let members = match (error, cause) {
                (Some(x), Some(y)) => seq![
                    MemberView { name: "Error"@, value: x },
                    MemberView { name: "Cause"@, value: y },
                ],
                (Some(x), None) => seq![MemberView { name: "Error"@, value: x }],
                (None, Some(y)) => seq![MemberView { name: "Cause"@, value: y }],
                (None, None) => Seq::empty(),
            };
            let reason = TerminationReasonView::Failed {
                error: ExecutionErrorView::Runtime(
                    RuntimeErrorView::StateFailed {
                        state: seen(a, None, None).state_name,
                        error: if error matches Some(Json::String(_)) {
                            error->0->String_0
                        } else {
                            "States.Fail"@
                        },
                        output: Json::Object(members),
                    },
                ),
            };
            &&& step.error is None
            &&& step.world == failed_activity(w, a, reason)
        }),
{
    let states = seen(a, None, None);
    lemma_reads_as(w, env, f.error, states, variables, error);
    lemma_reads_as(w, env, f.cause, states, variables, cause);
    let members = match (error, cause) {
        (Some(x), Some(y)) => seq![
            MemberView { name: "Error"@, value: x },
            MemberView { name: "Cause"@, value: y },
        ],
        (Some(x), None) => seq![MemberView { name: "Error"@, value: x }],
        (None, Some(y)) => seq![MemberView { name: "Cause"@, value: y }],
        (None, None) => Seq::empty(),
    };
    assert(optional_member("Error"@, error)
        + optional_member("Cause"@, cause) =~= members);
}

} // verus!
