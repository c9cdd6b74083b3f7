//! The evaluations that a dispatch can draw on.

use vstd::prelude::*;
use vstd::string::*;

use crate::types::context::{States, StatesView};
use crate::types::error::{ExecutionError, ExecutionErrorView};
use crate::value::{Json, MemberView, Value, Variables};

verus! {

/// What is asked of the evaluator.
#[derive(Debug, PartialEq, Eq)]
pub enum Question {
    /// The value of a template whose strings may be expressions.
    Json { template: Value, states: States, variables: Variables },
    /// The value of one expression.
    Expression { source: String, states: States, variables: Variables },
    /// The instant that a text in RFC 3339 writes, as a number of milliseconds.
    Rfc3339 { text: String },
}

/// What a [`Question`] holds.
pub enum QuestionView {
    Json { template: Json, states: StatesView, variables: Seq<MemberView> },
    Expression { source: Seq<char>, states: StatesView, variables: Seq<MemberView> },
    Rfc3339 { text: Seq<char> },
}

impl View for Question {
    type V = QuestionView;

    open spec fn view(&self) -> QuestionView {
        match self {
            Question::Json { template, states, variables } => QuestionView::Json { template: template@, states: states@, variables: variables@ },
            Question::Expression { source, states, variables } => QuestionView::Expression { source: source@, states: states@, variables: variables@ },
            Question::Rfc3339 { text } => QuestionView::Rfc3339 { text: text@ },
        }
    }
}

impl DeepView for Question {
    type V = QuestionView;

    open spec fn deep_view(&self) -> QuestionView {
        self.view()
    }
}

impl Clone for Question {
    fn clone(&self) -> (r: Self)
        ensures
            r@ == self@,
    {
        match self {
            Question::Json { template, states, variables } => Question::Json { template: template.clone(), states: states.clone(), variables: variables.clone() },
            Question::Expression { source, states, variables } => Question::Expression { source: source.clone(), states: states.clone(), variables: variables.clone() },
            Question::Rfc3339 { text } => Question::Rfc3339 { text: text.clone() },
        }
    }
}

impl Question {
    /// Whether the two are the same question.
    pub fn same(&self, other: &Question) -> (r: bool)
        ensures
            r == (self@ == other@),
    {
        match (self, other) {
            (
                Question::Json { template: t1, states: s1, variables: v1 },
                Question::Json { template: t2, states: s2, variables: v2 },
            ) => t1.same(t2) && s1.same(s2) && v1.same(v2),
            (
                Question::Expression { source: t1, states: s1, variables: v1 },
                Question::Expression { source: t2, states: s2, variables: v2 },
            ) => *t1 == *t2 && s1.same(s2) && v1.same(v2),
            (Question::Rfc3339 { text: t1 }, Question::Rfc3339 { text: t2 }) => *t1 == *t2,
            _ => false,
        }
    }
}

/// A question that has been evaluated.
#[derive(Debug, PartialEq, Eq)]
pub struct Answer {
    pub question: Question,
    pub reply: Result<Value, ExecutionError>,
}

/// What an evaluation gave.
pub open spec fn reply_view(reply: Result<Value, ExecutionError>) -> Result<
    Json,
    ExecutionErrorView,
> {
    match reply {
        Ok(v) => Ok(v@),
        Err(e) => Err(e@),
    }
}

/// A copy of what an evaluation gave.
pub fn clone_reply(reply: &Result<Value, ExecutionError>) -> (r: Result<Value, ExecutionError>)
    ensures
        reply_view(r) == reply_view(*reply),
{
    match reply {
        Ok(v) => Ok(v.clone()),
        Err(e) => Err(e.clone()),
    }
}

/// The evaluations made so far. An expression is evaluated outside; a dispatch that needs one that
/// is not here says which, and is run again once it is.
#[derive(Debug, PartialEq, Eq)]
pub struct EvalEnv {
    pub answers: Vec<Answer>,
}

/// Where the answer to `question` stands, or the number of answers when it is not there.
pub open spec fn answer_position(answers: Seq<Answer>, question: QuestionView) -> int
    decreases answers.len(),
{
    if answers.len() == 0 || answers[0].question@ == question {
        0
    } else {
        1 + answer_position(answers.drop_first(), question)
    }
}

pub proof fn lemma_answer_position(answers: Seq<Answer>, question: QuestionView, i: int)
    requires
        0 <= i <= answers.len(),
        i < answers.len() ==> answers[i].question@ == question,
        forall|j: int| 0 <= j < i ==> (#[trigger] answers[j]).question@ != question,
    ensures
        answer_position(answers, question) == i,
    decreases answers.len(),
{
    if i > 0 {
        assert(answers[0].question@ != question);
        let rest = answers.drop_first();
        assert forall|j: int| 0 <= j < i - 1 implies (
        #[trigger] rest[j]).question@ != question by {
            assert(rest[j] == answers[j + 1]);
        }
        lemma_answer_position(rest, question, i - 1);
    }
}

impl EvalEnv {
    /// The answer to `question`, if it has been evaluated.
    pub open spec fn answer(self, question: QuestionView) -> Option<
        Result<Json, ExecutionErrorView>,
    > {
        let i = answer_position(self.answers@, question);
        if i < self.answers@.len() {
            Some(reply_view(self.answers@[i].reply))
        } else {
            None
        }
    }

    /// An environment in which nothing has been evaluated.
    pub fn new() -> (r: EvalEnv)
        ensures
            r.answers@ == Seq::<Answer>::empty(),
    {
        EvalEnv { answers: Vec::new() }
    }

    /// The answer to `question`, if it has been evaluated.
    pub fn find(&self, question: &Question) -> (r: Option<&Answer>)
        ensures
            match r {
                Some(a) => self.answer(question@) == Some(reply_view(a.reply)),
                None => self.answer(question@) is None,
            },
    {
        let mut i: usize = 0;
        while i < self.answers.len()
            invariant
                i <= self.answers.len(),
                forall|j: int|
                    0 <= j < i ==> (#[trigger] self.answers@[j]).question@ != question@,
            decreases self.answers.len() - i,
        {
            if self.answers[i].question.same(question) {
                proof {
                    lemma_answer_position(self.answers@, question@, i as int);
                }
                return Some(&self.answers[i]);
            }
            i += 1;
        }
        proof {
            lemma_answer_position(self.answers@, question@, i as int);
        }
        None
    }
}

/// The expression inside `{% %}`, when `s` is one.
pub open spec fn jsonata(s: Seq<char>) -> Option<Seq<char>> {
    if s.len() >= 4 && s[0] == '{' && s[1] == '%' && s[s.len() - 2] == '%' && s[s.len() - 1]
        == '}' {
        Some(s.subrange(2, s.len() - 2))
    } else {
        None
    }
}

/// The expression inside `{% %}`, when `s` is one.
pub fn extract_jsonata(s: &str) -> (r: Option<String>)
    ensures
        r.deep_view() == jsonata(s@),
{
    let n = s.unicode_len();
    if n >= 4 && s.get_char(0) == '{' && s.get_char(1) == '%' && s.get_char(n - 2) == '%'
        && s.get_char(n - 1) == '}' {
        Some(s.substring_char(2, n - 2).to_owned())
    } else {
        None
    }
}

} // verus!
