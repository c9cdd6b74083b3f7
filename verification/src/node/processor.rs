//! The routing of a command on nodes to its handler, and what is done about each signal.

use vstd::prelude::*;

use crate::asl::StateMachine;
use crate::eval_env::{EvalEnv, Question, QuestionView};
use crate::id::{EntryId, ExecutionId, StreamId, Timestamp};
use crate::node::activate_timer::ActivateTimerHandler;
use crate::node::child_finalized::{drained, ChildFinalizedHandler};
use crate::node::complete_timer::{timer_completion, CompleteTimerHandler};
use crate::node::outbox::{
    envelope, envelopes, Command, CommandView, Emitted, Event, EventView, NodeEntry, NodeEntryView,
    Outbox, Payload, PayloadView,
};
use crate::node::spawn_branch::{branch_spawned, SpawnBranchHandler};
use crate::node::storage::{InMemoryStorage, NodeStoreView};

verus! {

/// There is a handler for a command.
pub open spec fn served(command: CommandView) -> bool {
    command is ActivateTimer || command is CompleteTimer || command is SpawnBranch
        || command is ChildFinalized
}

/// Whether there is a handler for a command.
pub fn is_served(command: &Command) -> (r: bool)
    ensures
        r == served(command@),
{
    match command {
        Command::ActivateTimer { .. } => true,
        Command::CompleteTimer { .. } => true,
        Command::SpawnBranch { .. } => true,
        Command::ChildFinalized { .. } => true,
        _ => false,
    }
}

/// What the handler of a command leaves.
pub open spec fn routed(
    e: Emitted,
    s: NodeStoreView,
    sm: StateMachine,
    env: EvalEnv,
    command: CommandView,
) -> Emitted {
    match command {
        CommandView::ActivateTimer { parent, timer, purpose, deadline } => e.event(
            EventView::TimerActivated { parent, timer, purpose, deadline },
        ),
        CommandView::CompleteTimer { timer } => timer_completion(e, s, sm, env, timer),
        CommandView::SpawnBranch {
            parent,
            root_execution,
            state_path,
            branch_index,
            state,
            input,
        } => branch_spawned(e, s, parent, root_execution, state_path, branch_index, state, input),
        CommandView::ChildFinalized { parent, child: _ } => drained(e, s, parent),
        _ => e,
    }
}

/// What wakes a processor: an entry of the log, or a timer whose deadline has passed.
#[derive(Debug, PartialEq, Eq)]
pub enum Signal {
    Read(NodeEntry),
    /// The timer was armed by the entry at `cause_id`.
    Fired { stream_id: StreamId, cause_id: EntryId, command: Command },
}

/// What a [`Signal`] holds.
pub enum SignalView {
    Read(NodeEntryView),
    Fired { stream_id: StreamId, cause_id: EntryId, command: CommandView },
}

impl View for Signal {
    type V = SignalView;

    open spec fn view(&self) -> SignalView {
        match self {
            Signal::Read(entry) => SignalView::Read(entry@),
            Signal::Fired { stream_id, cause_id, command } => SignalView::Fired {
                stream_id: *stream_id,
                cause_id: *cause_id,
                command: command@,
            },
        }
    }
}

/// What is to be done about a signal.
#[derive(Debug, PartialEq, Eq)]
pub enum Action {
    /// To write the entries as one batch.
    Append(Vec<NodeEntry>),
    /// To answer a question, and to take the signal again.
    Ask(Question),
    /// To apply an event. A timer that it arms is armed by the entry at `cause_id`.
    Apply { event: Event, stream_id: StreamId, cause_id: EntryId },
}

/// What an [`Action`] holds.
pub enum ActionView {
    Append(Seq<NodeEntryView>),
    Ask(QuestionView),
    Apply { event: EventView, stream_id: StreamId, cause_id: EntryId },
}

impl View for Action {
    type V = ActionView;

    open spec fn view(&self) -> ActionView {
        match self {
            Action::Append(entries) => ActionView::Append(entries.deep_view()),
            Action::Ask(question) => ActionView::Ask(question@),
            Action::Apply { event, stream_id, cause_id } => ActionView::Apply {
                event: event@,
                stream_id: *stream_id,
                cause_id: *cause_id,
            },
        }
    }
}

/// What is to be done about a signal.
pub open spec fn action_for(
    signal: SignalView,
    s: NodeStoreView,
    sm: StateMachine,
    env: EvalEnv,
    now: Timestamp,
    next_uid: u128,
) -> ActionView {
    match signal {
        SignalView::Read(entry) => match entry.payload {
            PayloadView::Command(command) => {
                let out = routed(
                    Emitted { chain: Seq::empty(), next_uid, question: None },
                    s,
                    sm,
                    env,
                    command,
                );
                match out.question {
                    Some(question) => ActionView::Ask(question),
                    None => ActionView::Append(
                        envelopes(out.chain, entry.stream_id, entry.entry_id, now),
                    ),
                }
            },
            PayloadView::Event(event) => ActionView::Apply {
                event,
                stream_id: entry.stream_id,
                cause_id: entry.entry_id,
            },
        },
        SignalView::Fired { stream_id, cause_id, command } => ActionView::Append(
            seq![envelope(stream_id, cause_id, now, PayloadView::Command(command))],
        ),
    }
}

/// Drives one execution of a machine.
#[derive(Debug, PartialEq, Eq)]
pub struct Processor {
    pub sm: StateMachine,
    pub execution: ExecutionId,
    pub env: EvalEnv,
}

impl Processor {
    /// A processor with no evaluations yet.
    pub fn new(sm: StateMachine, execution: ExecutionId) -> (r: Processor)
        ensures
            r.sm == sm,
            r.execution == execution,
            r.env.answers@.len() == 0,
    {
        Processor { sm, execution, env: EvalEnv::new() }
    }

    /// Hands a command to its handler.
    fn route(&self, command: &Command, storage: &InMemoryStorage, next_uid: u128) -> (r: Outbox)
        requires
            served(command@),
        ensures
            r@ == routed(
                Emitted { chain: Seq::empty(), next_uid, question: None },
                storage@,
                self.sm,
                self.env,
                command@,
            ),
    {
        let mut out = Outbox::new(next_uid);
        match command {
            Command::ActivateTimer { parent, timer, purpose, deadline } => {
                ActivateTimerHandler.handle(*parent, *timer, *purpose, *deadline, &mut out)
            },
            Command::CompleteTimer { timer } => CompleteTimerHandler.handle(
                *timer,
                storage,
                &self.sm,
                &self.env,
                &mut out,
            ),
            Command::SpawnBranch {
                parent,
                root_execution,
                state_path,
                branch_index,
                state,
                input,
            } => SpawnBranchHandler.handle(
                *parent,
                *root_execution,
                state_path,
                *branch_index,
                state,
                input,
                storage,
                &mut out,
            ),
            Command::ChildFinalized { parent, child } => ChildFinalizedHandler.handle(
                *parent,
                *child,
                storage,
                &mut out,
            ),
            _ => vstd::pervasive::unreached(),
        }
        out
    }

    /// Routes a command to its handler, and gives the entries that the handler emits. They follow
    /// from `cause_id`, and the log is to give them their positions.
    pub fn dispatch(
        &self,
        command: &Command,
        storage: &InMemoryStorage,
        cause_id: EntryId,
        stream_id: StreamId,
        now: Timestamp,
        next_uid: u128,
    ) -> (r: (Vec<NodeEntry>, Option<Question>))
        requires
            served(command@),
        ensures
            ({
                let out = routed(
                    Emitted { chain: Seq::empty(), next_uid, question: None },
                    storage@,
                    self.sm,
                    self.env,
                    command@,
                );
                &&& r.0.deep_view() == envelopes(out.chain, stream_id, cause_id, now)
                &&& r.1.deep_view() == out.question
            }),
    {
        self.route(command, storage, next_uid).into_parts(stream_id, cause_id, now)
    }

    /// Says what to do about a signal. A command is dispatched and what it emits is to be written;
    /// an event is to be applied; the command of a timer that fired is to be written, and comes
    /// back as an entry.
    pub fn step(
        &self,
        signal: &Signal,
        storage: &InMemoryStorage,
        now: Timestamp,
        next_uid: u128,
    ) -> (r: Action)
        requires
            signal@ matches SignalView::Read(entry) ==> (entry.payload matches PayloadView::Command(
                command,
            ) ==> served(command)),
        ensures
            r@ == action_for(signal@, storage@, self.sm, self.env, now, next_uid),
    {
        match signal {
            Signal::Read(entry) => match &entry.payload {
                Payload::Command(command) => {
                    let (entries, question) = self.dispatch(
                        command,
                        storage,
                        entry.entry_id,
                        entry.stream_id,
                        now,
                        next_uid,
                    );
                    match question {
                        Some(question) => Action::Ask(question),
                        None => Action::Append(entries),
                    }
                },
                Payload::Event(event) => Action::Apply {
                    event: event.clone(),
                    stream_id: entry.stream_id,
                    cause_id: entry.entry_id,
                },
            },
            Signal::Fired { stream_id, cause_id, command } => {
                let mut entries: Vec<NodeEntry> = Vec::new();
                let ghost payload = PayloadView::Command(command@);
                entries.push(
                    NodeEntry {
                        stream_id: *stream_id,
                        entry_id: EntryId::nil(),
                        cause_id: Some(*cause_id),
                        timestamp: now,
                        payload: Payload::Command(command.clone()),
                    },
                );
                assert(entries.deep_view() =~= seq![envelope(*stream_id, *cause_id, now, payload)]);
                Action::Append(entries)
            },
        }
    }
}

/// Every entry that is written for a command follows from that command, in its stream.
pub proof fn law_written_entries_follow_from_the_command(
    entry: NodeEntryView,
    s: NodeStoreView,
    sm: StateMachine,
    env: EvalEnv,
    now: Timestamp,
    next_uid: u128,
    i: int,
)
    requires
        entry.payload is Command,
        action_for(SignalView::Read(entry), s, sm, env, now, next_uid) matches ActionView::Append(
            written,
        ) && 0 <= i < written.len(),
    ensures
        action_for(SignalView::Read(entry), s, sm, env, now, next_uid) matches ActionView::Append(
            written,
        ) && written[i].cause_id == Some(entry.entry_id) && written[i].stream_id
            == entry.stream_id && written[i].timestamp == now,
{
}

/// The command of a timer that fired is written once, behind the entry that armed the timer; when
/// it is read again, it is dispatched.
pub proof fn law_fired_command_comes_back(
    stream_id: StreamId,
    cause_id: EntryId,
    command: CommandView,
    position: EntryId,
    s: NodeStoreView,
    sm: StateMachine,
    env: EvalEnv,
    now: Timestamp,
    next_uid: u128,
)
    ensures
        ({
            let fired = SignalView::Fired { stream_id, cause_id, command };
            let out = routed(
                Emitted { chain: Seq::empty(), next_uid, question: None },
                s,
                sm,
                env,
                command,
            );
            &&& action_for(fired, s, sm, env, now, next_uid) matches ActionView::Append(written)
            &&& written.len() == 1
            &&& written[0].cause_id == Some(cause_id)
            &&& out.question is None ==> action_for(
                SignalView::Read(NodeEntryView { entry_id: position, ..written[0] }),
                s,
                sm,
                env,
                now,
                next_uid,
            ) == ActionView::Append(envelopes(out.chain, stream_id, position, now))
        }),
{
}

} // verus!
