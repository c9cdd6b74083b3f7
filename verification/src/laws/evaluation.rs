//! Expressions: how they are asked, what their answers do, and what `Assign` and `Output` make of them.

use vstd::prelude::*;

use crate::asl::AssignObject;
use crate::eval_env::{jsonata, lemma_answer_position, reply_view, EvalEnv, QuestionView};
use crate::handler::{reply, World};
use crate::handlers::shared::{
    after_assign, after_output, assigned, json_asked, json_reply, projected, text_asked, text_reply,
};
use crate::laws::{binding_told, binds, braced, but_for_the_question, gives, shows};
use crate::types::context::StatesView;
use crate::types::error::{ExecutionErrorView, InfraErrorView, RuntimeErrorView};
use crate::types::meta::ObjectReferenceView;
use crate::value::{bind_all, law_bind_then_lookup, lookup, Json, MemberView};

verus! {

/// An expression is what stands between `{%` and `%}`, and nothing else is an expression.
pub proof fn law_expressions_stand_in_braces(source: Seq<char>, s: Seq<char>)
    ensures
        jsonata(braced(source)) == Some(source),
        jsonata(s) matches Some(inner) ==> s == braced(inner),
        (forall|inner: Seq<char>| #[trigger] braced(inner) != s) ==> jsonata(s) is None,
{
    let b = braced(source);
    assert(b.subrange(2, b.len() - 2) =~= source);
    if let Some(inner) = jsonata(s) {
        assert(s =~= braced(inner));
    }
}

/// The first answer to a question counts, and a question without one is left open.
pub proof fn law_first_answer_counts(env: EvalEnv, question: QuestionView, i: int)
    requires
        0 <= i < env.answers@.len(),
        env.answers@[i].question@ == question,
        forall|j: int| 0 <= j < i ==> (#[trigger] env.answers@[j]).question@ != question,
    ensures
        env.answer(question) == Some(reply_view(env.answers@[i].reply)),
        reply(env, question) == reply_view(env.answers@[i].reply),
{
    lemma_answer_position(env.answers@, question, i);
}

/// A question that nothing answers fails the step that asks it, and is noted: the first one only.
pub proof fn law_open_question_is_noted(w: World, env: EvalEnv, question: QuestionView)
    requires
        forall|j: int| 0 <= j < env.answers@.len() ==> (#[trigger] env.answers@[j]).question@
            != question,
    ensures
        env.answer(question) is None,
        reply(env, question) == Err::<Json, _>(
            ExecutionErrorView::Infra(InfraErrorView::Unanswered),
        ),
        but_for_the_question(w.asked(env, question), w),
        w.question is None ==> w.asked(env, question).question == Some(question),
        w.question is Some ==> w.asked(env, question).question == w.question,
{
    lemma_answer_position(env.answers@, question, env.answers@.len() as int);
}

/// Asking what is answered changes nothing.
pub proof fn law_answered_question_is_not_noted(w: World, env: EvalEnv, question: QuestionView)
    requires
        env.answer(question) is Some,
    ensures
        w.asked(env, question) == w,
{
}

/// A text in a definition stands for what its expression evaluates to, or for itself when it is none.
pub proof fn law_text_is_evaluated_or_taken(
    w: World,
    env: EvalEnv,
    s: Seq<char>,
    source: Seq<char>,
    states: StatesView,
    variables: Seq<MemberView>,
)
    ensures
        s == braced(source) ==> text_reply(env, s, states, variables) == reply(
            env,
            QuestionView::Expression { source, states, variables },
        ),
        s == braced(source) ==> text_asked(w, env, s, states, variables) == w.asked(
            env,
            QuestionView::Expression { source, states, variables },
        ),
        s == braced(source) ==> forall|v: Json|
            #[trigger] gives(env, source, states, variables, v) ==> text_reply(
                env,
                s,
                states,
                variables,
            ) == Ok::<_, ExecutionErrorView>(v),
        (forall|inner: Seq<char>| #[trigger] braced(inner) != s) ==> text_reply(
            env,
            s,
            states,
            variables,
        ) == Ok::<_, ExecutionErrorView>(Json::String(s)) && text_asked(
            w,
            env,
            s,
            states,
            variables,
        ) == w,
{
    law_expressions_stand_in_braces(source, s);
}

/// A template is asked as it stands.
pub proof fn law_template_is_asked_as_it_stands(
    w: World,
    env: EvalEnv,
    template: Json,
    states: StatesView,
    variables: Seq<MemberView>,
)
    ensures
        ({
            let question = QuestionView::Json { template, states, variables };
            &&& json_reply(env, template, states, variables) == reply(env, question)
            &&& json_asked(w, env, template, states, variables) == w.asked(env, question)
        }),
{
}

/// `Assign` binds the members of the object that it evaluates to, and tells the new variables of the
/// scope when there are any; nothing else is added to the log.
pub proof fn law_assign_binds(
    w: World,
    env: EvalEnv,
    owner: ObjectReferenceView,
    assign: Option<AssignObject>,
    states: StatesView,
    variables: Seq<MemberView>,
    scope: Seq<MemberView>,
)
    requires
        binds(env, assign, states, variables, scope),
    ensures
        assigned(env, assign, states, variables) == Ok::<_, ExecutionErrorView>(scope),
        ({
            let after = after_assign(w, env, owner, assign, states, variables);
            &&& after.chain == w.chain + binding_told(env, owner, assign, states, variables)
            &&& after.now == w.now
            &&& after.acks == w.acks
            &&& after.next_uid == w.next_uid
            &&& after.question == w.question
            &&& binding_told(env, owner, assign, states, variables).len() == 0 ==> after == w
        }),
{
    let after = after_assign(w, env, owner, assign, states, variables);
    assert(after.chain =~= w.chain + binding_told(env, owner, assign, states, variables));
}

/// An `Assign` that does not evaluate to an object fails; nothing is bound and nothing told.
pub proof fn law_assign_needs_an_object(
    w: World,
    env: EvalEnv,
    owner: ObjectReferenceView,
    assign: AssignObject,
    states: StatesView,
    variables: Seq<MemberView>,
)
    ensures
        ({
            let question = QuestionView::Json {
                template: Json::Object(assign.0.deep_view()),
                states,
                variables,
            };
            let given = assigned(env, Some(assign), states, variables);
            let after = after_assign(w, env, owner, Some(assign), states, variables);
            match env.answer(question) {
                Some(Ok(Json::Object(_))) => given is Ok,
                Some(Ok(_)) => given == Err::<Seq<MemberView>, _>(
                    ExecutionErrorView::Runtime(
                        RuntimeErrorView::InvalidDefinition(
                            "Assign must evaluate to a JSON object"@,
                        ),
                    ),
                ) && after == w,
                Some(Err(e)) => given == Err::<Seq<MemberView>, _>(e) && after == w,
                None => given is Err && but_for_the_question(after, w),
            }
        }),
{
}

/// `Output` is evaluated over the variables that `Assign` left; without one the raw result passes.
pub proof fn law_output_projects(
    w: World,
    env: EvalEnv,
    output: Option<Json>,
    states: StatesView,
    scope: Seq<MemberView>,
    fallback: Json,
    value: Json,
)
    ensures
        shows(env, output, states, scope, fallback, value) ==> {
            &&& projected(env, output, states, scope, fallback) == Ok::<_, ExecutionErrorView>(
                value,
            )
            &&& after_output(w, env, output, states, scope) == w
        },
        output matches Some(template) ==> (env.answer(
            QuestionView::Json { template, states, variables: scope },
        ) matches Some(Err(e)) ==> projected(env, output, states, scope, fallback) == Err::<
            Json,
            _,
        >(e)),
{
}

/// After binding members a name stands for the last of them that has it, and otherwise for what it stood
/// for before.
pub proof fn law_bound_name_reads_back(
    variables: Seq<MemberView>,
    members: Seq<MemberView>,
    name: Seq<char>,
    i: int,
)
    ensures
        0 <= i < members.len() && members[i].name == name && (forall|j: int|
            i < j < members.len() ==> (#[trigger] members[j]).name != name) ==> lookup(
            bind_all(variables, members),
            name,
        ) == Some(members[i].value),
        (forall|j: int| 0 <= j < members.len() ==> (#[trigger] members[j]).name != name) ==> lookup(
            bind_all(variables, members),
            name,
        ) == lookup(variables, name),
    decreases members.len(),
{
    if members.len() > 0 {
        let init = members.drop_last();
        let last = members.last();
        law_bound_name_reads_back(variables, init, name, i);
        law_bind_then_lookup(bind_all(variables, init), last.name, last.value, name);
        assert(last == members[members.len() - 1]);
        assert forall|j: int| 0 <= j < init.len() implies init[j] == members[j] by {}
        if forall|j: int| 0 <= j < members.len() ==> (#[trigger] members[j]).name != name {
            assert forall|j: int| 0 <= j < init.len() implies (#[trigger] init[j]).name != name by {
                assert(init[j] == members[j]);
            }
        }
        if 0 <= i < init.len() && members[i].name == name && (forall|j: int|
            i < j < members.len() ==> (#[trigger] members[j]).name != name) {
            assert forall|j: int| i < j < init.len() implies (#[trigger] init[j]).name != name by {
                assert(init[j] == members[j]);
            }
        }
    }
}

} // verus!
