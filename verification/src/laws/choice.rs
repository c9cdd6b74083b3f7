//! The `Choice` state.

use vstd::prelude::*;

use crate::asl::{ChoiceCondition, ChoiceRule, ChoiceState};
use crate::eval_env::{EvalEnv, QuestionView};
use crate::handler::World;
use crate::handlers::shared::after_assign;
use crate::handlers::states::choice::{
    finish_choice, picked, rule_asked, rule_matches, scanned, Picked,
};
use crate::laws::{
    binding_told, binds, braced, but_for_the_question, changed, gives, seen, sent, shows, told,
};
use crate::laws::evaluation::{
    law_answered_question_is_not_noted, law_assign_binds, law_expressions_stand_in_braces,
    law_output_projects,
};
use crate::types::activity::ActivityView;
use crate::types::command::{ActivateStateView, CommandView};
use crate::types::context::StatesView;
use crate::types::entry::EntryPayloadView;
use crate::types::error::{ExecutionErrorView, RuntimeErrorView};
use crate::types::event::{EventView, StateTransitionedView};
use crate::types::meta::ObjectReferenceView;
use crate::types::status::LifecycleView;
use crate::value::{Json, MemberView};

verus! {

/// A condition comes out as `b`: one that is not given never holds, a boolean is itself, and an
/// expression is what it evaluates to.
pub open spec fn comes_out(
    env: EvalEnv,
    condition: Option<ChoiceCondition>,
    states: StatesView,
    variables: Seq<MemberView>,
    b: bool,
) -> bool {
    match condition {
        None => !b,
        Some(ChoiceCondition::Bool(given)) => given == b,
        Some(ChoiceCondition::Expr(text)) => exists|source: Seq<char>|
            text@ == #[trigger] braced(source) && gives(
                env,
                source,
                states,
                variables,
                Json::Bool(b),
            ),
    }
}

/// Every rule before `i` comes out false.
pub open spec fn passed_over(
    env: EvalEnv,
    rules: Seq<ChoiceRule>,
    i: int,
    states: StatesView,
    variables: Seq<MemberView>,
) -> bool {
    forall|j: int|
        0 <= j < i ==> comes_out(env, (#[trigger] rules[j]).condition, states, variables, false)
}

/// Testing a condition gives what it comes out as, and leaves no question open.
pub proof fn law_condition_is_tested(
    w: World,
    env: EvalEnv,
    condition: Option<ChoiceCondition>,
    states: StatesView,
    variables: Seq<MemberView>,
    b: bool,
)
    requires
        comes_out(env, condition, states, variables, b),
    ensures
        rule_matches(env, condition, states, variables) == Ok::<_, ExecutionErrorView>(b),
        rule_asked(w, env, condition, states, variables) == w,
{
    if let Some(ChoiceCondition::Expr(text)) = condition {
        let source = choose|source: Seq<char>|
            text@ == #[trigger] braced(source) && gives(
                env,
                source,
                states,
                variables,
                Json::Bool(b),
            );
        law_expressions_stand_in_braces(source, text@);
        law_answered_question_is_not_noted(
            w,
            env,
            QuestionView::Expression { source, states, variables },
        );
    }
}

/// A condition must be an expression that gives a boolean: a text that is none is no valid definition,
/// any other value is an error of the evaluation, and an error of the evaluator passes through.
pub proof fn law_bad_condition_fails(
    env: EvalEnv,
    text: String,
    source: Seq<char>,
    states: StatesView,
    variables: Seq<MemberView>,
)
    ensures
        ({
            let given = rule_matches(env, Some(ChoiceCondition::Expr(text)), states, variables);
            &&& (forall|inner: Seq<char>| #[trigger] braced(inner) != text@) ==> given == Err::<
                bool,
                _,
            >(
                ExecutionErrorView::Runtime(
                    RuntimeErrorView::InvalidDefinition(
                        "Choice Condition must be a {% %} JSONata expression"@,
                    ),
                ),
            )
            &&& text@ == braced(source) ==> match env.answer(
                QuestionView::Expression { source, states, variables },
            ) {
                Some(Ok(Json::Bool(b))) => given == Ok::<_, ExecutionErrorView>(b),
                Some(Ok(_)) => given == Err::<bool, _>(
                    ExecutionErrorView::Runtime(
                        RuntimeErrorView::Jsonata {
                            field: text@,
                            message: "Condition must evaluate to a boolean"@,
                        },
                    ),
                ),
                Some(Err(e)) => given == Err::<bool, _>(e),
                None => given is Err,
            }
        }),
{
    law_expressions_stand_in_braces(source, text@);
}

/// The first rule that holds is taken, whatever the later ones say.
pub proof fn law_first_rule_that_holds_is_taken(
    w: World,
    env: EvalEnv,
    rules: Seq<ChoiceRule>,
    default: Option<Seq<char>>,
    state: Seq<char>,
    states: StatesView,
    variables: Seq<MemberView>,
    i: int,
)
    requires
        0 <= i < rules.len(),
        passed_over(env, rules, i, states, variables),
        comes_out(env, rules[i].condition, states, variables, true),
    ensures
        picked(env, rules, default, state, states, variables) == Ok::<_, ExecutionErrorView>(
            Picked {
                assign: rules[i].assign,
                output: rules[i].output.deep_view(),
                next: rules[i].next@,
            },
        ),
        scanned(w, env, rules, states, variables) == w,
    decreases i,
{
    if i == 0 {
        law_condition_is_tested(w, env, rules[0].condition, states, variables, true);
    } else {
        assert(comes_out(env, rules[0].condition, states, variables, false));
        law_condition_is_tested(w, env, rules[0].condition, states, variables, false);
        let rest = rules.drop_first();
        assert(passed_over(env, rest, i - 1, states, variables)) by {
            assert forall|j: int| 0 <= j < i - 1 implies comes_out(
                env,
                (#[trigger] rest[j]).condition,
                states,
                variables,
                false,
            ) by {
                assert(rest[j] == rules[j + 1]);
            }
        }
        assert(rest[i - 1] == rules[i]);
        law_first_rule_that_holds_is_taken(
            w,
            env,
            rest,
            default,
            state,
            states,
            variables,
            i - 1,
        );
    }
}

/// The default is taken when no rule holds; without one the state fails.
pub proof fn law_default_is_taken_when_no_rule_holds(
    w: World,
    env: EvalEnv,
    rules: Seq<ChoiceRule>,
    default: Option<Seq<char>>,
    state: Seq<char>,
    states: StatesView,
    variables: Seq<MemberView>,
)
    requires
        passed_over(env, rules, rules.len() as int, states, variables),
    ensures
        match default {
            Some(next) => picked(env, rules, default, state, states, variables) == Ok::<
                _,
                ExecutionErrorView,
            >(Picked { assign: None, output: None, next }),
            None => picked(env, rules, default, state, states, variables) == Err::<Picked, _>(
                ExecutionErrorView::Runtime(RuntimeErrorView::NoChoiceMatched { state }),
            ),
        },
        scanned(w, env, rules, states, variables) == w,
    decreases rules.len(),
{
    if rules.len() > 0 {
        assert(comes_out(env, rules[0].condition, states, variables, false));
        law_condition_is_tested(w, env, rules[0].condition, states, variables, false);
        let rest = rules.drop_first();
        assert(passed_over(env, rest, rest.len() as int, states, variables)) by {
            assert forall|j: int| 0 <= j < rest.len() implies comes_out(
                env,
                (#[trigger] rest[j]).condition,
                states,
                variables,
                false,
            ) by {
                assert(rest[j] == rules[j + 1]);
            }
        }
        law_default_is_taken_when_no_rule_holds(
            w,
            env,
            rest,
            default,
            state,
            states,
            variables,
        );
    }
}

/// The first rule whose condition fails fails the state, when no rule before it holds; what is left of the
/// scan is the test of that condition.
pub proof fn law_failed_condition_fails_the_choice(
    w: World,
    env: EvalEnv,
    rules: Seq<ChoiceRule>,
    default: Option<Seq<char>>,
    state: Seq<char>,
    states: StatesView,
    variables: Seq<MemberView>,
    i: int,
    e: ExecutionErrorView,
)
    requires
        0 <= i < rules.len(),
        passed_over(env, rules, i, states, variables),
        rule_matches(env, rules[i].condition, states, variables) == Err::<bool, _>(e),
    ensures
        picked(env, rules, default, state, states, variables) == Err::<Picked, _>(e),
        scanned(w, env, rules, states, variables) == rule_asked(
            w,
            env,
            rules[i].condition,
            states,
            variables,
        ),
        but_for_the_question(scanned(w, env, rules, states, variables), w),
    decreases i,
{
    if i > 0 {
        assert(comes_out(env, rules[0].condition, states, variables, false));
        law_condition_is_tested(w, env, rules[0].condition, states, variables, false);
        let rest = rules.drop_first();
        assert(passed_over(env, rest, i - 1, states, variables)) by {
            assert forall|j: int| 0 <= j < i - 1 implies comes_out(
                env,
                (#[trigger] rest[j]).condition,
                states,
                variables,
                false,
            ) by {
                assert(rest[j] == rules[j + 1]);
            }
        }
        assert(rest[i - 1] == rules[i]);
        law_failed_condition_fails_the_choice(
            w,
            env,
            rest,
            default,
            state,
            states,
            variables,
            i - 1,
            e,
        );
    }
}

/// What the finish of a `Choice` that goes on at `next` adds to the log.
pub open spec fn goes_on_at(
    a: ActivityView,
    activity: ObjectReferenceView,
    owner: ObjectReferenceView,
    next: Seq<char>,
    value: Json,
    w: World,
) -> Seq<EntryPayloadView> {
    let path = if a.state_path.len() == 0 {
        seq![next]
    } else {
        a.state_path.take(a.state_path.len() - 1).push(next)
    };
    seq![
        told(
            EventView::StateCompleted {
                activity: ActivityView {
                    meta: changed(a.meta, w.now),
                    status: LifecycleView::Completed,
                    output: Some(value),
                    ..a
                },
            },
        ),
        told(EventView::StateTransitioned(StateTransitionedView { activity, next: path })),
        sent(
            CommandView::ActivateState(
                ActivateStateView {
                    execution: a.execution,
                    owner,
                    state_path: path,
                    input: value,
                },
            ),
        ),
    ]
}

/// A `Choice` goes on at the successor of the first rule that holds. The `Assign` and the `Output` of that
/// rule come before those of the state, and its own input passes where there is no `Output`.
pub proof fn law_choice_goes_on_at_the_first_rule_that_holds(
    w: World,
    env: EvalEnv,
    c: ChoiceState,
    activity: ObjectReferenceView,
    a: ActivityView,
    variables: Seq<MemberView>,
    i: int,
    scope: Seq<MemberView>,
    value: Json,
)
    requires
        a.meta.owner is Some,
        0 <= i < c.choices@.len(),
        passed_over(env, c.choices@, i, seen(a, None, None), variables),
        comes_out(env, c.choices@[i].condition, seen(a, None, None), variables, true),
        binds(
            env,
            if c.choices@[i].assign is Some {
                c.choices@[i].assign
            } else {
                c.assign
            },
            seen(a, None, None),
            variables,
            scope,
        ),
        shows(
            env,
            if c.choices@[i].output is Some {
                c.choices@[i].output.deep_view()
            } else {
                c.output.deep_view()
            },
            seen(a, None, None),
            scope,
            a.raw_input,
            value,
        ),
    ensures
        ({
            let step = finish_choice(w, env, c, activity, a, variables);
            let owner = a.meta.owner->0;
            let assign = if c.choices@[i].assign is Some {
                c.choices@[i].assign
            } else {
                c.assign
            };
            &&& step.error is None
            &&& step.world.chain == w.chain + binding_told(
                env,
                owner,
                assign,
                seen(a, None, None),
                variables,
            ) + goes_on_at(a, activity, owner, c.choices@[i].next@, value, w)
        }),
{
    let states = seen(a, None, None);
    let owner = a.meta.owner->0;
    let rule = c.choices@[i];
    let assign = if rule.assign is Some {
        rule.assign
    } else {
        c.assign
    };
    let output = if rule.output is Some {
        rule.output.deep_view()
    } else {
        c.output.deep_view()
    };
    law_first_rule_that_holds_is_taken(
        w,
        env,
        c.choices@,
        c.default.deep_view(),
        states.state_name,
        states,
        variables,
        i,
    );
    law_assign_binds(w, env, owner, assign, states, variables, scope);
    let w1 = after_assign(w, env, owner, assign, states, variables);
    law_output_projects(w1, env, output, states, scope, a.raw_input, value);
    let step = finish_choice(w, env, c, activity, a, variables);
    assert(step.world.chain =~= w.chain + binding_told(env, owner, assign, states, variables)
        + goes_on_at(a, activity, owner, rule.next@, value, w));
}

/// A `Choice` without a rule that holds goes on at its default, with the `Assign` and the `Output` of the
/// state; without a default it stops with the error of a choice that nothing matched.
pub proof fn law_choice_falls_back_to_its_default(
    w: World,
    env: EvalEnv,
    c: ChoiceState,
    activity: ObjectReferenceView,
    a: ActivityView,
    variables: Seq<MemberView>,
    scope: Seq<MemberView>,
    value: Json,
)
    requires
        a.meta.owner is Some,
        passed_over(env, c.choices@, c.choices@.len() as int, seen(a, None, None), variables),
        binds(env, c.assign, seen(a, None, None), variables, scope),
        shows(
            env,
            c.output.deep_view(),
            seen(a, None, None),
            scope,
            a.raw_input,
            value,
        ),
    ensures
        ({
            let step = finish_choice(w, env, c, activity, a, variables);
            let owner = a.meta.owner->0;
            match c.default {
                Some(next) => {
                    &&& step.error is None
                    &&& step.world.chain == w.chain + binding_told(
                        env,
                        owner,
                        c.assign,
                        seen(a, None, None),
                        variables,
                    ) + goes_on_at(a, activity, owner, next@, value, w)
                },
                None => {
                    &&& step.error == Some(
                        ExecutionErrorView::Runtime(
                            RuntimeErrorView::NoChoiceMatched {
                                state: seen(a, None, None).state_name,
                            },
                        ),
                    )
                    &&& step.world == w
                },
            }
        }),
{
    let states = seen(a, None, None);
    let owner = a.meta.owner->0;
    law_default_is_taken_when_no_rule_holds(
        w,
        env,
        c.choices@,
        c.default.deep_view(),
        states.state_name,
        states,
        variables,
    );
    law_assign_binds(w, env, owner, c.assign, states, variables, scope);
    let w1 = after_assign(w, env, owner, c.assign, states, variables);
    law_output_projects(w1, env, c.output.deep_view(), states, scope, a.raw_input, value);
    let step = finish_choice(w, env, c, activity, a, variables);
    if let Some(next) = c.default {
        assert(step.world.chain =~= w.chain + binding_told(env, owner, c.assign, states, variables)
            + goes_on_at(a, activity, owner, next@, value, w));
    }
}

} // verus!
