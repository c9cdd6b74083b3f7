//! The `Choice` state: hands over to the successor of the first rule that matches.

use vstd::prelude::*;
use vstd::string::*;

use crate::asl::{AssignObject, ChoiceCondition, ChoiceRule, ChoiceState, State};
use crate::eval_env::{extract_jsonata, jsonata, EvalEnv, Question, QuestionView};
use crate::handler::{reply, Collector, World};
use crate::handlers::shared::{
    after_assign, after_output, apply_assign, as_option, assigned, completed_activity,
    completing_context, completing_states, emit_hop, emit_state_completed, hop, project_output,
    projected,
};
use crate::handlers::states::common::{done, failure, stopped, Step};
use crate::storage::order::{activity_ok, store_ok};
use crate::types::activity::{Activity, ActivityView};
use crate::types::context::{States, StatesView};
use crate::types::error::{
    invalid_definition, ExecutionError, ExecutionErrorView, RuntimeError, RuntimeErrorView,
};
use crate::types::event::{group_event_view, EventView};
use crate::types::meta::{ObjectReference, ObjectReferenceView};
use crate::types::state_path::{sibling, state_name};
use crate::value::{Json, MemberView, Value, Variables};

verus! {

broadcast use group_event_view;

/// Whether a condition holds. One without a form never does; an expression must stand in `{% %}`
/// and give a boolean.
pub open spec fn rule_matches(
    env: EvalEnv,
    condition: Option<ChoiceCondition>,
    states: StatesView,
    variables: Seq<MemberView>,
) -> Result<bool, ExecutionErrorView> {
    match condition {
        None => Ok(false),
        Some(ChoiceCondition::Bool(b)) => Ok(b),
        Some(ChoiceCondition::Expr(expr)) => match jsonata(expr@) {
            None => Err(
                invalid_definition("Choice Condition must be a {% %} JSONata expression"@),
            ),
            Some(source) => match reply(
                env,
                QuestionView::Expression { source, states, variables },
            ) {
                Err(e) => Err(e),
                Ok(Json::Bool(b)) => Ok(b),
                Ok(_) => Err(
                    ExecutionErrorView::Runtime(
                        RuntimeErrorView::Jsonata {
                            field: expr@,
                            message: "Condition must evaluate to a boolean"@,
                        },
                    ),
                ),
            },
        },
    }
}

/// What testing a condition leaves.
pub open spec fn rule_asked(
    w: World,
    env: EvalEnv,
    condition: Option<ChoiceCondition>,
    states: StatesView,
    variables: Seq<MemberView>,
) -> World {
    match condition {
        Some(ChoiceCondition::Expr(expr)) => match jsonata(expr@) {
            Some(source) => w.asked(env, QuestionView::Expression { source, states, variables }),
            None => w,
        },
        _ => w,
    }
}

/// What a `Choice` picks: the bindings and the output of a rule, and the successor.
pub struct Picked {
    pub assign: Option<AssignObject>,
    pub output: Option<Json>,
    pub next: Seq<char>,
}

/// What scanning the rules in order picks: the first that matches, or else the default.
pub open spec fn picked(
    env: EvalEnv,
    rules: Seq<ChoiceRule>,
    default: Option<Seq<char>>,
    state: Seq<char>,
    states: StatesView,
    variables: Seq<MemberView>,
) -> Result<Picked, ExecutionErrorView>
    decreases rules.len(),
{
    if rules.len() == 0 {
        match default {
            Some(next) => Ok(Picked { assign: None, output: None, next }),
            None => Err(
                ExecutionErrorView::Runtime(RuntimeErrorView::NoChoiceMatched { state }),
            ),
        }
    } else {
        let rule = rules.first();
        match rule_matches(env, rule.condition, states, variables) {
            Err(e) => Err(e),
            Ok(true) => Ok(
                Picked {
                    assign: rule.assign,
                    output: rule.output.deep_view(),
                    next: rule.next@,
                },
            ),
            Ok(false) => picked(env, rules.drop_first(), default, state, states, variables),
        }
    }
}

/// What scanning the rules leaves.
pub open spec fn scanned(
    w: World,
    env: EvalEnv,
    rules: Seq<ChoiceRule>,
    states: StatesView,
    variables: Seq<MemberView>,
) -> World
    decreases rules.len(),
{
    if rules.len() == 0 {
        w
    } else {
        let w1 = rule_asked(w, env, rules.first().condition, states, variables);
        match rule_matches(env, rules.first().condition, states, variables) {
            Ok(false) => scanned(w1, env, rules.drop_first(), states, variables),
            _ => w1,
        }
    }
}

/// `first`, or else `second`.
pub open spec fn either<T>(first: Option<T>, second: Option<T>) -> Option<T> {
    match first {
        Some(x) => Some(x),
        None => second,
    }
}

/// The finish of a `Choice`: the picked rule overrides the `Assign` and the `Output` of the state,
/// whose result is its input, and names the successor.
pub open spec fn finish_choice(
    w: World,
    env: EvalEnv,
    c: ChoiceState,
    activity: ObjectReferenceView,
    a: ActivityView,
    variables: Seq<MemberView>,
) -> Step {
    let owner = a.meta.owner->0;
    let states = completing_context(a, a.retry_count(), None, None);
    let w0 = scanned(w, env, c.choices@, states, variables);
    match picked(
        env,
        c.choices@,
        c.default.deep_view(),
        state_name(a.state_path),
        states,
        variables,
    ) {
        Err(e) => stopped(w0, e),
        Ok(rule) => {
            let assign = either(rule.assign, c.assign);
            let output = either(rule.output, c.output.deep_view());
            let w1 = after_assign(w0, env, owner, assign, states, variables);
            match assigned(env, assign, states, variables) {
                Err(e) => stopped(w1, e),
                Ok(scope) => {
                    let w2 = after_output(w1, env, output, states, scope);
                    match projected(env, output, states, scope, a.raw_input) {
                        Err(e) => stopped(w2, e),
                        Ok(value) => done(
                            hop(
                                w2.event(
                                    EventView::StateCompleted {
                                        activity: completed_activity(a, value, w2.now),
                                    },
                                ),
                                a.execution,
                                owner,
                                activity,
                                sibling(a.state_path, rule.next),
                                value,
                            ),
                        ),
                    }
                },
            }
        },
    }
}

/// Builds the handler of a `Choice`.
pub struct ChoiceStateHandlerFactory;

impl ChoiceStateHandlerFactory {
    /// An empty definition of the state that this factory serves.
    pub fn state(&self) -> (r: State)
        ensures
            r is Choice,
    {
        State::Choice(
            ChoiceState {
                comment: None,
                output: None,
                assign: None,
                default: None,
                choices: Vec::new(),
            },
        )
    }

    /// The handler bound to `state`, which must be a `Choice`.
    pub fn create<'a>(&self, state: &'a State) -> (r: ChoiceStateHandler<'a>)
        requires
            state is Choice,
        ensures
            *state == State::Choice(*r.state),
    {
        match state {
            State::Choice(s) => ChoiceStateHandler { state: s },
            _ => ChoiceStateHandler { state: vstd::pervasive::unreached() },
        }
    }
}

/// The handler of one `Choice`.
pub struct ChoiceStateHandler<'a> {
    pub state: &'a ChoiceState,
}

/// Tests a condition.
fn test_rule(
    out: &mut Collector,
    env: &EvalEnv,
    condition: &Option<ChoiceCondition>,
    states: &States,
    variables: &Variables,
) -> (r: Result<bool, ExecutionError>)
    ensures
        match r {
            Ok(b) => rule_matches(*env, *condition, states@, variables@) == Ok::<
                _,
                ExecutionErrorView,
            >(b),
            Err(e) => rule_matches(*env, *condition, states@, variables@) == Err::<bool, _>(e@),
        },
        final(out)@ == rule_asked(old(out)@, *env, *condition, states@, variables@),
{
    match condition {
        None => Ok(false),
        Some(ChoiceCondition::Bool(b)) => Ok(*b),
        Some(ChoiceCondition::Expr(expr)) => {
            let source = match extract_jsonata(expr.as_str()) {
                Some(source) => source,
                None => return Err(
                    ExecutionError::invalid_definition(
                        "Choice Condition must be a {% %} JSONata expression".to_owned(),
                    ),
                ),
            };
            let value = match out.ask(
                env,
                Question::Expression {
                    source,
                    states: states.clone(),
                    variables: variables.clone(),
                },
            ) {
                Ok(v) => v,
                Err(e) => return Err(e),
            };
            match value {
                Value::Bool(b) => Ok(b),
                _ => Err(
                    ExecutionError::Runtime(
                        RuntimeError::Jsonata {
                            field: expr.clone(),
                            message: "Condition must evaluate to a boolean".to_owned(),
                        },
                    ),
                ),
            }
        },
    }
}

impl<'a> ChoiceStateHandler<'a> {
    /// Scans the rules in order: the index of the first that matches, or `None` when the default
    /// applies.
    pub fn resolve_choice(
        &self,
        out: &mut Collector,
        env: &EvalEnv,
        state: &str,
        states: &States,
        variables: &Variables,
    ) -> (r: Result<Option<usize>, ExecutionError>)
        ensures
            ({
                let p = picked(
                    *env,
                    self.state.choices@,
                    self.state.default.deep_view(),
                    state@,
                    states@,
                    variables@,
                );
                match r {
                    Ok(Some(i)) => i < self.state.choices@.len() && p == Ok::<
                        _,
                        ExecutionErrorView,
                    >(
                        Picked {
                            assign: self.state.choices@[i as int].assign,
                            output: self.state.choices@[i as int].output.deep_view(),
                            next: self.state.choices@[i as int].next@,
                        },
                    ),
                    Ok(None) => self.state.default is Some && p == Ok::<_, ExecutionErrorView>(
                        Picked { assign: None, output: None, next: self.state.default->0@ },
                    ),
                    Err(e) => p == Err::<Picked, _>(e@),
                }
            }),
            final(out)@ == scanned(
                old(out)@,
                *env,
                self.state.choices@,
                states@,
                variables@,
            ),
    {
        let rules = &self.state.choices;
        let ghost all = rules@;
        let ghost default = self.state.default.deep_view();
        let mut i: usize = 0;
        assert(all.skip(0) =~= all);
        while i < rules.len()
            invariant
                i <= rules.len(),
                all == rules@,
                default == self.state.default.deep_view(),
                *rules == self.state.choices,
                picked(*env, all, default, state@, states@, variables@) == picked(
                    *env,
                    all.skip(i as int),
                    default,
                    state@,
                    states@,
                    variables@,
                ),
                scanned(old(out)@, *env, all, states@, variables@) == scanned(
                    out@,
                    *env,
                    all.skip(i as int),
                    states@,
                    variables@,
                ),
            decreases rules.len() - i,
        {
            let ghost rest = all.skip(i as int);
            assert(rest.first() == all[i as int]);
            assert(rest.drop_first() =~= all.skip(i as int + 1));
            match test_rule(out, env, &rules[i].condition, states, variables) {
                Ok(true) => return Ok(Some(i)),
                Ok(false) => {},
                Err(e) => return Err(e),
            }
            i += 1;
        }
        assert(all.skip(all.len() as int) =~= Seq::empty());
        match &self.state.default {
            Some(_) => Ok(None),
            None => Err(
                ExecutionError::Runtime(
                    RuntimeError::NoChoiceMatched { state: state.to_owned() },
                ),
            ),
        }
    }

    /// Picks a rule, and hands over to its successor.
    pub fn finish(
        &self,
        out: &mut Collector,
        env: &EvalEnv,
        activity: &ObjectReference,
        activity_value: &Activity,
        variables: &Variables,
    ) -> (r: Result<(), ExecutionError>)
        requires
            store_ok(old(out)@.store),
            activity_ok(activity_value@),
        ensures
            (Step { world: final(out)@, error: failure(r) }) == finish_choice(
                old(out)@,
                *env,
                *self.state,
                activity@,
                activity_value@,
                variables@,
            ),
            store_ok(final(out)@.store),
    {
        let states = completing_states(
            activity_value,
            activity_value.retry_count(),
            None,
            None,
        );
        let name = activity_value.state_path.state_name();
        let rule = match self.resolve_choice(out, env, name.as_str(), &states, variables) {
            Ok(rule) => rule,
            Err(e) => {
                proof {
                    lemma_scanned_store(
                        old(out)@,
                        *env,
                        self.state.choices@,
                        states@,
                        variables@,
                    );
                }
                return Err(e);
            },
        };
        proof {
            lemma_scanned_store(old(out)@, *env, self.state.choices@, states@, variables@);
        }
        let (rule_assign, rule_output, next) = match rule {
            Some(i) => {
                let rule = &self.state.choices[i];
                (as_option(&rule.assign), as_option(&rule.output), rule.next.as_str())
            },
            None => match &self.state.default {
                Some(next) => (None, None, next.as_str()),
                None => return Ok(()),
            },
        };
        let assign = match rule_assign {
            Some(assign) => Some(assign),
            None => as_option(&self.state.assign),
        };
        let output = match rule_output {
            Some(output) => Some(output),
            None => as_option(&self.state.output),
        };
        let owner = activity_value.meta.owner.clone().unwrap();
        let mut scope = variables.clone();
        match apply_assign(out, env, &owner, assign, &states, &mut scope) {
            Ok(_) => {},
            Err(e) => return Err(e),
        }
        let value = match project_output(
            out,
            env,
            output,
            &states,
            &scope,
            activity_value.raw_input.clone(),
        ) {
            Ok(v) => v,
            Err(e) => return Err(e),
        };
        emit_state_completed(out, activity_value, &value);
        emit_hop(
            out,
            &activity_value.execution,
            &owner,
            activity,
            activity_value.state_path.sibling(next),
            &value,
        );
        Ok(())
    }
}

/// Scanning only asks.
proof fn lemma_scanned_store(
    w: World,
    env: EvalEnv,
    rules: Seq<ChoiceRule>,
    states: StatesView,
    variables: Seq<MemberView>,
)
    ensures
        scanned(w, env, rules, states, variables).store == w.store,
    decreases rules.len(),
{
    if rules.len() > 0 {
        lemma_scanned_store(
            rule_asked(w, env, rules.first().condition, states, variables),
            env,
            rules.drop_first(),
            states,
            variables,
        );
    }
}

} // verus!
