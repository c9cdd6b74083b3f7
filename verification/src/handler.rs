//! What a handler works with: the collector that takes what it emits, and the context it reads.

use vstd::prelude::*;
use vstd::string::*;

use crate::asl::{machine_valid, StateMachine};
use crate::eval_env::{clone_reply, reply_view, EvalEnv, Question, QuestionView};
use crate::id::{EntryId, RequestId, StreamId, Timestamp, Uid};
use crate::storage::order::{event_ok, law_apply_keeps_order, store_ok};
use crate::storage::store::{Store, StoreView};
use crate::text::join2;
use crate::types::command::{
    group_command_view, Command, CommandView, TerminateExecution, TerminateExecutionView,
    TerminateState, TerminateStateView, TerminateThread, TerminateThreadView,
};
use crate::types::entry::{Entry, EntryPayload, EntryPayloadView, EntryView};
use crate::types::error::{
    state_not_found, ExecutionError, ExecutionErrorView, InfraError, InfraErrorView,
};
use crate::types::event::{Event, EventView};
use crate::types::meta::{reference_text, ObjectKind, ObjectReference, ObjectReferenceView};
use crate::types::reject::{Reject, RejectView, RejectionType};
use crate::types::status::{failed, TerminationReason, TerminationReasonView};
use crate::value::{Json, Value};

verus! {

broadcast use group_command_view;

/// An answer that a client awaits, and the event that gives it.
#[derive(Debug, PartialEq, Eq)]
pub struct Ack {
    pub request_id: RequestId,
    pub event: Event,
}

/// What an [`Ack`] holds.
pub struct AckView {
    pub request_id: RequestId,
    pub event: EventView,
}

impl View for Ack {
    type V = AckView;

    open spec fn view(&self) -> AckView {
        AckView { request_id: self.request_id, event: self.event@ }
    }
}

impl DeepView for Ack {
    type V = AckView;

    open spec fn deep_view(&self) -> AckView {
        self.view()
    }
}

/// What a dispatch has done so far: the chain it has emitted, the answers it has declared, the
/// store that the events of the chain have been folded into, the instant it runs at, the next uid
/// it mints, and the first question that it found unanswered.
pub struct World {
    pub chain: Seq<EntryPayloadView>,
    pub acks: Seq<AckView>,
    pub store: StoreView,
    pub now: Timestamp,
    pub next_uid: u128,
    pub question: Option<QuestionView>,
}

impl World {
    /// After an event: it is emitted, and folded at once.
    pub open spec fn event(self, event: EventView) -> World {
        World {
            chain: self.chain.push(EntryPayloadView::Event(event)),
            store: self.store.apply(event, self.now),
            ..self
        }
    }

    /// After a command: it is emitted, to be dispatched later.
    pub open spec fn command(self, command: CommandView) -> World {
        World { chain: self.chain.push(EntryPayloadView::Command(command)), ..self }
    }

    /// After a refusal.
    pub open spec fn reject(
        self,
        request_id: RequestId,
        rejection_type: RejectionType,
        rejection_reason: Seq<char>,
    ) -> World {
        World {
            chain: self.chain.push(
                EntryPayloadView::Reject(
                    RejectView { request_id, rejection_type, rejection_reason },
                ),
            ),
            ..self
        }
    }

    /// After declaring that `event` answers a request.
    pub open spec fn ack(self, request_id: RequestId, event: EventView) -> World {
        World { acks: self.acks.push(AckView { request_id, event }), ..self }
    }

    /// After minting a uid; the uid is `Uid(self.next_uid)`.
    pub open spec fn minted(self) -> World {
        World { next_uid: self.next_uid.wrapping_add(1), ..self }
    }

    /// After drawing the number of a generated name; the number is `self.store.next_seq`.
    pub open spec fn drawn(self) -> World {
        World { store: self.store.drawn(), ..self }
    }

    /// After sending a termination to the scope that owns a node. An execution is addressed by its
    /// name and incarnation, a thread by its reference; nothing else is a scope.
    pub open spec fn scope_termination(
        self,
        scope: ObjectReferenceView,
        reason: TerminationReasonView,
    ) -> World {
        match scope.kind {
            ObjectKind::Execution => self.command(
                CommandView::TerminateExecution(
                    TerminateExecutionView { name: scope.name, uid: Some(scope.uid), reason },
                ),
            ),
            ObjectKind::Thread => self.command(
                CommandView::TerminateThread(TerminateThreadView { thread: scope, reason }),
            ),
            _ => self,
        }
    }

    /// After a failure: the activity it happened in, if there is one, is terminated, and then the
    /// scope.
    pub open spec fn terminate(
        self,
        activity: Option<ObjectReferenceView>,
        scope: ObjectReferenceView,
        error: ExecutionErrorView,
    ) -> World {
        let reason = failed(error);
        let unwound = match activity {
            Some(activity) => self.command(
                CommandView::TerminateState(TerminateStateView { activity, reason }),
            ),
            None => self,
        };
        unwound.scope_termination(scope, reason)
    }

    /// What asking a question leaves: it is noted when it is the first without an answer.
    pub open spec fn asked(self, env: EvalEnv, question: QuestionView) -> World {
        if env.answer(question) is None && self.question is None {
            World { question: Some(question), ..self }
        } else {
            self
        }
    }
}

/// What asking a question gives.
pub open spec fn reply(env: EvalEnv, question: QuestionView) -> Result<Json, ExecutionErrorView> {
    match env.answer(question) {
        Some(r) => r,
        None => Err(ExecutionErrorView::Infra(InfraErrorView::Unanswered)),
    }
}

/// Takes what a handler emits, and folds events into the store as they come.
#[derive(Debug, PartialEq, Eq)]
pub struct Collector {
    chain: Vec<EntryPayload>,
    acks: Vec<Ack>,
    store: Store,
    now: Timestamp,
    next_uid: u128,
    question: Option<Question>,
}

impl View for Collector {
    type V = World;

    closed spec fn view(&self) -> World {
        World {
            chain: self.chain.deep_view(),
            acks: self.acks.deep_view(),
            store: self.store@,
            now: self.now,
            next_uid: self.next_uid,
            question: self.question.deep_view(),
        }
    }
}

/// A dispatch that has done nothing yet.
pub open spec fn idle(store: StoreView, now: Timestamp, next_uid: u128) -> World {
    World {
        chain: Seq::empty(),
        acks: Seq::empty(),
        store,
        now,
        next_uid,
        question: None,
    }
}

/// The entries that a chain makes: each caused by the command at `cause`, written at `now`, and not
/// placed in a log yet.
pub open spec fn enveloped(
    chain: Seq<EntryPayloadView>,
    cause: EntryId,
    now: Timestamp,
) -> Seq<EntryView> {
    Seq::new(
        chain.len(),
        |i: int|
            EntryView {
                stream_id: StreamId(0),
                entry_id: EntryId(0),
                cause_id: Some(cause),
                timestamp: now,
                payload: chain[i],
            },
    )
}

impl Collector {
    /// A collector for one dispatch at `now`, which mints uids from `next_uid` on.
    pub fn new(store: Store, now: Timestamp, next_uid: u128) -> (r: Collector)
        ensures
            r@ == idle(store@, now, next_uid),
    {
        let r = Collector {
            chain: Vec::new(),
            acks: Vec::new(),
            store,
            now,
            next_uid,
            question: None,
        };
        assert(r@.chain =~= Seq::empty());
        assert(r@.acks =~= Seq::empty());
        r
    }

    /// The instant the dispatch runs at.
    pub fn now(&self) -> (r: Timestamp)
        ensures
            r == self@.now,
    {
        self.now
    }

    /// The store, with every event emitted so far folded in.
    pub fn storage(&self) -> (r: &Store)
        ensures
            r@ == self@.store,
    {
        &self.store
    }

    /// What has been emitted, in order.
    pub fn chain(&self) -> (r: &Vec<EntryPayload>)
        ensures
            r.deep_view() == self@.chain,
    {
        &self.chain
    }

    /// The answers declared, in order.
    pub fn acks(&self) -> (r: &Vec<Ack>)
        ensures
            r.deep_view() == self@.acks,
    {
        &self.acks
    }

    /// The first question that was found unanswered.
    pub fn question(&self) -> (r: &Option<Question>)
        ensures
            r.deep_view() == self@.question,
    {
        &self.question
    }

    /// Whether nothing has been emitted.
    pub fn is_empty(&self) -> (r: bool)
        ensures
            r == (self@.chain.len() == 0),
    {
        self.chain.len() == 0
    }

    /// Emits an event, and folds it.
    pub fn append_event(&mut self, event: Event)
        requires
            store_ok(old(self)@.store),
            event_ok(event@),
        ensures
            final(self)@ == old(self)@.event(event@),
            store_ok(final(self)@.store),
    {
        let ghost before = self@;
        proof {
            law_apply_keeps_order(before.store, event@, before.now);
        }
        self.store.apply(&event, self.now);
        self.chain.push(EntryPayload::Event(event));
        assert(self@.chain =~= before.chain.push(EntryPayloadView::Event(event@)));
    }

    /// Emits a command.
    pub fn append_command(&mut self, command: Command)
        ensures
            final(self)@ == old(self)@.command(command@),
    {
        let ghost before = self@;
        self.chain.push(EntryPayload::Command(command));
        assert(self@.chain =~= before.chain.push(EntryPayloadView::Command(command@)));
    }

    /// Emits a refusal.
    pub fn reject(
        &mut self,
        request_id: RequestId,
        rejection_type: RejectionType,
        rejection_reason: String,
    )
        ensures
            final(self)@ == old(self)@.reject(request_id, rejection_type, rejection_reason@),
    {
        let ghost before = self@;
        let reject = Reject { request_id, rejection_type, rejection_reason };
        self.chain.push(EntryPayload::Reject(reject));
        assert(self@.chain =~= before.chain.push(EntryPayloadView::Reject(reject@)));
    }

    /// Declares that `event` answers a request.
    pub fn ack_request(&mut self, request_id: RequestId, event: Event)
        ensures
            final(self)@ == old(self)@.ack(request_id, event@),
    {
        let ghost before = self@;
        self.acks.push(Ack { request_id, event });
        assert(self@.acks =~= before.acks.push(AckView { request_id, event: event@ }));
    }

    /// Mints a uid.
    pub fn mint(&mut self) -> (r: Uid)
        ensures
            r == Uid(old(self)@.next_uid),
            final(self)@ == old(self)@.minted(),
    {
        let r = Uid(self.next_uid);
        self.next_uid = self.next_uid.wrapping_add(1);
        r
    }

    /// Draws the number of a generated name.
    pub fn next_generated_seq(&mut self) -> (r: u64)
        ensures
            r == old(self)@.store.next_seq,
            final(self)@ == old(self)@.drawn(),
    {
        self.store.draw_seq()
    }

    /// Sends a termination to the scope that owns a node.
    pub fn emit_scope_termination(&mut self, scope: &ObjectReference, reason: TerminationReason)
        ensures
            final(self)@ == old(self)@.scope_termination(scope@, reason@),
    {
        match scope.kind {
            ObjectKind::Execution => self.append_command(
                Command::TerminateExecution(
                    TerminateExecution {
                        name: scope.name.clone(),
                        uid: Some(scope.uid),
                        reason,
                    },
                ),
            ),
            ObjectKind::Thread => self.append_command(
                Command::TerminateThread(TerminateThread { thread: scope.clone(), reason }),
            ),
            _ => {},
        }
    }

    /// Fails: terminates the activity, if there is one, and then the scope.
    pub fn terminate(
        &mut self,
        activity: Option<ObjectReference>,
        scope: &ObjectReference,
        error: ExecutionError,
    )
        ensures
            final(self)@ == old(self)@.terminate(activity.deep_view(), scope@, error@),
    {
        let reason = TerminationReason::Failed { error };
        if let Some(activity) = activity {
            self.append_command(
                Command::TerminateState(TerminateState { activity, reason: reason.clone() }),
            );
        }
        self.emit_scope_termination(scope, reason);
    }

    /// Asks a question.
    pub fn ask(&mut self, env: &EvalEnv, question: Question) -> (r: Result<Value, ExecutionError>)
        ensures
            reply_view(r) == reply(*env, question@),
            final(self)@ == old(self)@.asked(*env, question@),
    {
        match env.find(&question) {
            Some(a) => clone_reply(&a.reply),
            None => {
                if self.question.is_none() {
                    self.question = Some(question);
                }
                Err(ExecutionError::Infra(InfraError::Unanswered))
            },
        }
    }

    /// The entries to write, caused by the command at `cause`, and the store that goes with them.
    pub fn into_parts(self, cause: EntryId) -> (r: (Vec<Entry>, Store))
        ensures
            r.0.deep_view() == enveloped(self@.chain, cause, self@.now),
            r.1@ == self@.store,
    {
        let chain = self.chain;
        let mut entries: Vec<Entry> = Vec::new();
        let mut i: usize = 0;
        while i < chain.len()
            invariant
                i <= chain.len(),
                entries@.len() == i,
                forall|j: int|
                    0 <= j < i ==> (#[trigger] entries@[j])@ == (EntryView {
                        stream_id: StreamId(0),
                        entry_id: EntryId(0),
                        cause_id: Some(cause),
                        timestamp: self.now,
                        payload: chain@[j]@,
                    }),
            decreases chain.len() - i,
        {
            entries.push(
                Entry {
                    stream_id: StreamId::nil(),
                    entry_id: EntryId::nil(),
                    cause_id: Some(cause),
                    timestamp: self.now,
                    payload: chain[i].clone(),
                },
            );
            i += 1;
        }
        assert(entries.deep_view() =~= enveloped(self@.chain, cause, self@.now));
        (entries, self.store)
    }
}

/// A machine, and the version of a flow that it is the definition of.
#[derive(Debug, PartialEq, Eq)]
pub struct Definition {
    pub version: ObjectReference,
    pub machine: StateMachine,
}

/// What a handler reads besides the store: the evaluations made so far, the machines that have been
/// read from their definitions, and whether the definition that the command at hand carries can be
/// read as one.
#[derive(Debug, PartialEq, Eq)]
pub struct HandlerContext {
    pub env: EvalEnv,
    pub definitions: Vec<Definition>,
    pub definition_ok: bool,
}

/// Where the definition of `version` stands, or the number of definitions when it is not there.
pub open spec fn definition_position(
    definitions: Seq<Definition>,
    version: ObjectReferenceView,
) -> int
    decreases definitions.len(),
{
    if definitions.len() == 0 || definitions[0].version@ == version {
        0
    } else {
        1 + definition_position(definitions.drop_first(), version)
    }
}

pub proof fn lemma_definition_position(
    definitions: Seq<Definition>,
    version: ObjectReferenceView,
    i: int,
)
    requires
        0 <= i <= definitions.len(),
        i < definitions.len() ==> definitions[i].version@ == version,
        forall|j: int| 0 <= j < i ==> (#[trigger] definitions[j]).version@ != version,
    ensures
        definition_position(definitions, version) == i,
    decreases definitions.len(),
{
    if i > 0 {
        assert(definitions[0].version@ != version);
        let rest = definitions.drop_first();
        assert forall|j: int| 0 <= j < i - 1 implies (
        #[trigger] rest[j]).version@ != version by {
            assert(rest[j] == definitions[j + 1]);
        }
        lemma_definition_position(rest, version, i - 1);
    }
}

proof fn lemma_position_bounds(definitions: Seq<Definition>, version: ObjectReferenceView)
    ensures
        0 <= definition_position(definitions, version) <= definitions.len(),
    decreases definitions.len(),
{
    if definitions.len() > 0 && definitions[0].version@ != version {
        lemma_position_bounds(definitions.drop_first(), version);
    }
}

/// What looking up the machine of a version gives.
pub open spec fn machine_of(ctx: HandlerContext, version: ObjectReferenceView) -> Result<
    StateMachine,
    ExecutionErrorView,
> {
    let i = definition_position(ctx.definitions@, version);
    if i < ctx.definitions@.len() {
        Ok(ctx.definitions@[i].machine)
    } else {
        Err(state_not_found("flow version "@ + reference_text(version)))
    }
}

impl HandlerContext {
    /// Every machine that was read is valid.
    pub open spec fn valid(self) -> bool {
        forall|i: int|
            0 <= i < self.definitions@.len() ==> machine_valid(
                (#[trigger] self.definitions@[i]).machine,
            )
    }

    /// Whether every machine that was read is valid.
    pub fn validate(&self) -> (r: bool)
        ensures
            r == self.valid(),
    {
        let mut i: usize = 0;
        while i < self.definitions.len()
            invariant
                i <= self.definitions.len(),
                forall|j: int|
                    0 <= j < i ==> machine_valid((#[trigger] self.definitions@[j]).machine),
            decreases self.definitions.len() - i,
        {
            if !self.definitions[i].machine.validate() {
                return false;
            }
            i += 1;
        }
        true
    }

    /// The machine that a version leads to is valid.
    pub proof fn lemma_machine_valid(self, version: ObjectReferenceView)
        requires
            self.valid(),
        ensures
            machine_of(self, version) matches Ok(m) ==> machine_valid(m),
    {
        lemma_position_bounds(self.definitions@, version);
    }

    /// The machine of a version.
    pub fn machine(&self, version: &ObjectReference) -> (r: Result<&StateMachine, ExecutionError>)
        ensures
            match r {
                Ok(m) => machine_of(*self, version@) == Ok::<StateMachine, ExecutionErrorView>(*m),
                Err(e) => machine_of(*self, version@) == Err::<StateMachine, _>(e@),
            },
    {
        let mut i: usize = 0;
        while i < self.definitions.len()
            invariant
                i <= self.definitions.len(),
                forall|j: int|
                    0 <= j < i ==> (#[trigger] self.definitions@[j]).version@ != version@,
            decreases self.definitions.len() - i,
        {
            if self.definitions[i].version.same(version) {
                proof {
                    lemma_definition_position(self.definitions@, version@, i as int);
                }
                return Ok(&self.definitions[i].machine);
            }
            i += 1;
        }
        proof {
            lemma_definition_position(self.definitions@, version@, i as int);
        }
        Err(
            ExecutionError::state_not_found(
                join2("flow version ", version.text().as_str()),
            ),
        )
    }
}

} // verus!
