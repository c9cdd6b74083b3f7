//! The leader: dispatches commands, and keeps track of how far it has got.

use vstd::prelude::*;

use crate::handler::{enveloped, idle, Collector, HandlerContext};
use crate::handlers::dispatch::{dispatch_command, dispatchable, dispatched};
use crate::handlers::replay::law_store_is_the_fold_of_the_events;
use crate::id::{EntryId, Timestamp};
use crate::processing::{CommandProcessed, CommandProcessedView};
use crate::storage::order::store_ok;
use crate::storage::store::{Store, StoreView};
use crate::types::command::{Command, CommandView};
use crate::types::entry::{Entry, EntryPayload, EntryPayloadView};
use crate::types::event::{Event, EventView};

verus! {

/// The events among what was emitted.
pub open spec fn events_of(chain: Seq<EntryPayloadView>) -> Seq<EventView>
    decreases chain.len(),
{
    if chain.len() == 0 {
        Seq::empty()
    } else {
        let before = events_of(chain.drop_last());
        match chain.last() {
            EntryPayloadView::Event(event) => before.push(event),
            _ => before,
        }
    }
}

/// The leader.
#[derive(Debug, PartialEq, Eq)]
pub struct Leader {
    watermark: i64,
    last_applied: Vec<Event>,
}

/// What a [`Leader`] holds.
pub struct LeaderView {
    /// The position up to which everything is applied.
    pub watermark: i64,
    /// The events of the last batch, until they are reported.
    pub last_applied: Seq<EventView>,
}

impl View for Leader {
    type V = LeaderView;

    closed spec fn view(&self) -> LeaderView {
        LeaderView { watermark: self.watermark, last_applied: self.last_applied.deep_view() }
    }
}

/// A leader after an event of the log was folded: its watermark has moved on to the cause.
pub open spec fn replayed(l: LeaderView, cause_id: Option<EntryId>, event: EventView) -> LeaderView {
    LeaderView {
        watermark: match cause_id {
            Some(cause) if cause.0 > l.watermark => cause.0,
            _ => l.watermark,
        },
        last_applied: seq![event],
    }
}

/// What processing a command gives: the entries to write and the store that goes with them, or the
/// question that must be answered first.
pub open spec fn processed_command(
    s: StoreView,
    ctx: HandlerContext,
    entry_id: EntryId,
    command: CommandView,
    now: Timestamp,
    next_uid: u128,
) -> CommandProcessedView {
    let w = dispatched(idle(s, now, next_uid), ctx, command);
    CommandProcessedView {
        entries: enveloped(w.chain, entry_id, now),
        work: w.store,
        question: w.question,
    }
}

fn collect_events(chain: &Vec<EntryPayload>) -> (r: Vec<Event>)
    ensures
        r.deep_view() == events_of(chain.deep_view()),
{
    let ghost all = chain.deep_view();
    let mut events: Vec<Event> = Vec::new();
    let mut i: usize = 0;
    assert(all.take(0) =~= Seq::empty());
    assert(events.deep_view() =~= Seq::empty());
    while i < chain.len()
        invariant
            i <= chain.len(),
            all == chain.deep_view(),
            events.deep_view() == events_of(all.take(i as int)),
        decreases chain.len() - i,
    {
        let ghost next = all.take(i as int + 1);
        let ghost found = events.deep_view();
        assert(next.drop_last() =~= all.take(i as int));
        assert(next.last() == chain@[i as int]@);
        if let EntryPayload::Event(event) = &chain[i] {
            events.push(event.clone());
            assert(events.deep_view() =~= found.push(event@));
        }
        i += 1;
    }
    assert(all.take(all.len() as int) =~= all);
    events
}

fn no_events() -> (r: Vec<Event>)
    ensures
        r.deep_view() == Seq::<EventView>::empty(),
{
    let r: Vec<Event> = Vec::new();
    assert(r.deep_view() =~= Seq::empty());
    r
}

impl Leader {
    /// A leader that has applied nothing.
    pub fn new() -> (r: Leader)
        ensures
            r@ == (LeaderView { watermark: 0, last_applied: Seq::empty() }),
    {
        Leader { watermark: 0, last_applied: no_events() }
    }

    /// Installs the position up to which everything is applied.
    pub fn set_resume_position(&mut self, position: i64)
        ensures
            final(self)@ == (LeaderView { watermark: position, ..old(self)@ }),
    {
        self.watermark = position;
    }

    /// The position up to which everything is applied.
    pub fn resume_position(&self) -> (r: i64)
        ensures
            r == self@.watermark,
    {
        self.watermark
    }

    /// Runs a command on a copy of the store, which is then dropped, and gives the entries that it
    /// emits.
    pub fn dispatch(
        &self,
        command: &Command,
        storage: &Store,
        ctx: &HandlerContext,
        cause_id: EntryId,
        now: Timestamp,
        next_uid: u128,
    ) -> (r: Vec<Entry>)
        requires
            store_ok(storage@),
            ctx.valid(),
            dispatchable(storage@, command@),
        ensures
            r.deep_view() == processed_command(
                storage@,
                *ctx,
                cause_id,
                command@,
                now,
                next_uid,
            ).entries,
    {
        let mut out = Collector::new(storage.clone(), now, next_uid);
        dispatch_command(command, ctx, &mut out);
        proof {
            law_store_is_the_fold_of_the_events(storage@, *ctx, command@, now, next_uid);
        }
        out.into_parts(cause_id).0
    }

    /// Runs the command at `entry_id` on a copy of the store. Its events are kept, to be reported
    /// once they are committed, unless a question must be answered first.
    pub fn process_command(
        &mut self,
        entry_id: EntryId,
        command: &Command,
        storage: &Store,
        ctx: &HandlerContext,
        now: Timestamp,
        next_uid: u128,
    ) -> (r: CommandProcessed)
        requires
            store_ok(storage@),
            ctx.valid(),
            dispatchable(storage@, command@),
        ensures
            r@ == processed_command(storage@, *ctx, entry_id, command@, now, next_uid),
            final(self)@ == if r@.question is Some {
                old(self)@
            } else {
                LeaderView {
                    last_applied: events_of(
                        dispatched(idle(storage@, now, next_uid), *ctx, command@).chain,
                    ),
                    ..old(self)@
                }
            },
            store_ok(r@.work),
    {
        let mut out = Collector::new(storage.clone(), now, next_uid);
        dispatch_command(command, ctx, &mut out);
        proof {
            law_store_is_the_fold_of_the_events(storage@, *ctx, command@, now, next_uid);
        }
        let question = out.question().clone();
        if question.is_none() {
            self.last_applied = collect_events(out.chain());
        }
        let (entries, work) = out.into_parts(entry_id);
        CommandProcessed { entries, work, question }
    }

    /// Folds an event of the log into a transaction, and gives the position to commit when that
    /// moves the watermark on.
    pub fn apply_event(
        &mut self,
        txn: &mut Store,
        timestamp: Timestamp,
        cause_id: Option<EntryId>,
        event: &Event,
    ) -> (r: Option<i64>)
        ensures
            final(txn)@ == old(txn)@.apply(event@, timestamp),
            final(self)@ == replayed(old(self)@, cause_id, event@),
            r == (if final(self)@.watermark != old(self)@.watermark {
                Some(final(self)@.watermark)
            } else {
                None
            }),
    {
        txn.apply(event, timestamp);
        let mut advanced: Option<i64> = None;
        if let Some(cause) = cause_id {
            if cause.get() > self.watermark {
                self.watermark = cause.get();
                advanced = Some(self.watermark);
            }
        }
        let mut applied: Vec<Event> = Vec::new();
        applied.push(event.clone());
        assert(applied.deep_view() =~= seq![event@]);
        self.last_applied = applied;
        advanced
    }

    /// Whether an entry is already applied.
    pub fn is_already_applied(&self, entry_id: EntryId) -> (r: bool)
        ensures
            r == (entry_id.0 <= self@.watermark),
    {
        entry_id.get() <= self.watermark
    }

    /// The events that were just committed, in order; each is given once.
    pub fn after_commit(&mut self) -> (r: Vec<Event>)
        ensures
            r.deep_view() == old(self)@.last_applied,
            final(self)@ == (LeaderView { last_applied: Seq::empty(), ..old(self)@ }),
    {
        let mut applied = no_events();
        std::mem::swap(&mut applied, &mut self.last_applied);
        applied
    }
}

} // verus!
