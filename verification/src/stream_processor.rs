//! The processing of a log: by a leader, which answers commands with batches of entries, or by a
//! follower, which folds the batches that it reads. What is committed always ends with a batch.

use vstd::prelude::*;

use crate::eval_env::{Question, QuestionView};
use crate::follower::Follower;
use crate::handler::{idle, HandlerContext};
use crate::handlers::dispatch::{dispatchable, dispatched};
use crate::handlers::replay::{
    alike, law_dispatch_emits_no_marker, law_store_is_the_fold_of_the_events, refolded,
};
use crate::id::{EntryId, StreamId, Timestamp};
use crate::leader::{events_of, processed_command, replayed, Leader, LeaderView};
use crate::log::{appended, noop_entry, InMemoryLogStream};
use crate::processing::{CommandProcessedView, StateMachine};
use crate::storage::counter::{
    ahead, counted, law_folding_keeps_the_counter_ahead, law_no_stored_name_is_drawn_again,
};
use crate::storage::order::{event_ok, law_apply_keeps_order, store_ok};
use crate::storage::projection::{Projection, ProjectionView};
use crate::storage::store::{Store, StoreView};
use crate::types::command::{Command, CommandView};
use crate::types::entry::{Entry, EntryPayload, EntryPayloadView, EntryView};
use crate::types::event::{Event, EventView};
use crate::types::meta::{generated_name, ObjectKind, ObjectNameView};
use crate::types::reject::{Reject, RejectView};

verus! {

/// The marker that ends the batch of the command at `cause_id`.
pub fn noop(now: Timestamp, stream_id: StreamId, cause_id: EntryId) -> (r: Entry)
    ensures
        r@ == noop_entry(stream_id, Some(cause_id), now),
{
    Entry {
        stream_id,
        entry_id: EntryId::nil(),
        cause_id: Some(cause_id),
        timestamp: now,
        payload: EntryPayload::Noop,
    }
}

/// A log being folded: what is committed, and the transaction of the batch that is being read.
pub struct Fold {
    pub projection: ProjectionView,
    pub inflight: Option<StoreView>,
}

/// Folding one entry. An event joins the transaction of its batch, which opens with the first one;
/// the marker commits it, at its own position. Commands and refusals are passed over.
pub open spec fn fold_entry(f: Fold, e: EntryView) -> Fold {
    match e.payload {
        EntryPayloadView::Event(event) => Fold {
            inflight: Some(
                (match f.inflight {
                    Some(txn) => txn,
                    None => f.projection.store,
                }).apply(event, e.timestamp),
            ),
            ..f
        },
        EntryPayloadView::Noop => match f.inflight {
            Some(txn) => Fold {
                projection: ProjectionView { store: txn, position: e.entry_id.0 },
                inflight: None,
            },
            None => f,
        },
        _ => f,
    }
}

/// Folding entries in order.
pub open spec fn fold_entries(f: Fold, entries: Seq<EntryView>) -> Fold
    decreases entries.len(),
{
    if entries.len() == 0 {
        f
    } else {
        fold_entry(fold_entries(f, entries.drop_last()), entries.last())
    }
}

/// What a leader makes of the entries that are folded for it.
pub open spec fn leader_after(l: LeaderView, entries: Seq<EntryView>) -> LeaderView
    decreases entries.len(),
{
    if entries.len() == 0 {
        l
    } else {
        let before = leader_after(l, entries.drop_last());
        match entries.last().payload {
            EntryPayloadView::Event(event) => replayed(before, entries.last().cause_id, event),
            _ => before,
        }
    }
}

/// What a leader has last applied does not depend on where it stands.
proof fn lemma_last_applied(l: LeaderView, watermark: i64, entries: Seq<EntryView>)
    ensures
        leader_after(LeaderView { watermark, ..l }, entries).last_applied == leader_after(
            l,
            entries,
        ).last_applied,
    decreases entries.len(),
{
    if entries.len() > 0 {
        lemma_last_applied(l, watermark, entries.drop_last());
    }
}

/// The entries of a log behind a position.
pub open spec fn tail(log: Seq<EntryView>, position: i64) -> Seq<EntryView> {
    if 0 <= position <= log.len() {
        log.skip(position as int)
    } else {
        Seq::empty()
    }
}

/// What recovery makes of a projection.
pub open spec fn recovered(
    projection: ProjectionView,
    log: Seq<EntryView>,
    watermark: i64,
) -> ProjectionView {
    fold_entries(Fold { projection, inflight: None }, tail(log, watermark)).projection
}

/// Every entry of a log is numbered by its place.
pub open spec fn numbered(log: Seq<EntryView>) -> bool {
    forall|i: int| 0 <= i < log.len() ==> (#[trigger] log[i]).entry_id.0 == i + 1
}

/// Every event of a log keeps the store in order.
pub open spec fn events_ok(entries: Seq<EntryView>) -> bool {
    forall|i: int|
        0 <= i < entries.len() ==> ((#[trigger] entries[i]).payload matches EntryPayloadView::Event(
            event,
        ) ==> event_ok(event))
}

/// Commands are never run again: reading one, or a refusal, leaves everything as it is.
pub proof fn law_commands_are_not_rerun(f: Fold, e: EntryView)
    requires
        e.payload is Command || e.payload is Reject,
    ensures
        fold_entry(f, e) == f,
{
}

/// Until its marker is read, nothing of a batch is committed.
pub proof fn law_partial_batch_is_invisible(f: Fold, entries: Seq<EntryView>)
    requires
        forall|i: int| 0 <= i < entries.len() ==> !((#[trigger] entries[i]).payload is Noop),
    ensures
        fold_entries(f, entries).projection == f.projection,
    decreases entries.len(),
{
    if entries.len() > 0 {
        let init = entries.drop_last();
        assert forall|i: int| 0 <= i < init.len() implies !((#[trigger] init[i]).payload is Noop) by {
            assert(init[i] == entries[i]);
        }
        assert(entries[entries.len() - 1] == entries.last());
        law_partial_batch_is_invisible(f, init);
    }
}

/// Folding keeps the store in order.
pub proof fn law_fold_keeps_order(f: Fold, entries: Seq<EntryView>)
    requires
        store_ok(f.projection.store),
        f.inflight matches Some(txn) ==> store_ok(txn),
        events_ok(entries),
    ensures
        store_ok(fold_entries(f, entries).projection.store),
        fold_entries(f, entries).inflight matches Some(txn) ==> store_ok(txn),
    decreases entries.len(),
{
    if entries.len() > 0 {
        let init = entries.drop_last();
        assert forall|i: int| 0 <= i < init.len() implies ((
        #[trigger] init[i]).payload matches EntryPayloadView::Event(event) ==> event_ok(event)) by {
            assert(init[i] == entries[i]);
        }
        law_fold_keeps_order(f, init);
        let g = fold_entries(f, init);
        let e = entries.last();
        assert(e == entries[entries.len() - 1]);
        if let EntryPayloadView::Event(event) = e.payload {
            let txn = match g.inflight {
                Some(txn) => txn,
                None => g.projection.store,
            };
            law_apply_keeps_order(txn, event, e.timestamp);
        }
    }
}

/// Folding again from where the last commit ends gives the same: by induction over the entries.
proof fn lemma_refold(p: ProjectionView, entries: Seq<EntryView>)
    requires
        forall|i: int|
            0 <= i < entries.len() ==> (#[trigger] entries[i]).entry_id.0 == p.position + i + 1,
    ensures
        ({
            let f = fold_entries(Fold { projection: p, inflight: None }, entries);
            let j = f.projection.position - p.position;
            &&& 0 <= j <= entries.len()
            &&& fold_entries(Fold { projection: f.projection, inflight: None }, entries.skip(j))
                == f
        }),
    decreases entries.len(),
{
    let start = Fold { projection: p, inflight: None };
    let f = fold_entries(start, entries);
    if entries.len() == 0 {
        assert(entries.skip(0) =~= entries);
    } else {
        let init = entries.drop_last();
        let e = entries.last();
        assert(e == entries[entries.len() - 1]);
        assert forall|i: int| 0 <= i < init.len() implies (#[trigger] init[i]).entry_id.0
            == p.position + i + 1 by {
            assert(init[i] == entries[i]);
        }
        lemma_refold(p, init);
        let g = fold_entries(start, init);
        let j = g.projection.position - p.position;
        if e.payload is Noop && g.inflight is Some {
            assert(entries.skip(entries.len() as int) =~= Seq::empty());
        } else {
            let rest = entries.skip(j);
            assert(rest.drop_last() =~= init.skip(j));
            assert(rest.last() == e);
        }
    }
}

/// Recovery is idempotent: done again from where it ended, it changes nothing. Each batch of the log
/// is folded once.
pub proof fn law_recovery_is_idempotent(
    projection: ProjectionView,
    log: Seq<EntryView>,
)
    requires
        numbered(log),
        0 <= projection.position,
    ensures
        ({
            let once = recovered(projection, log, projection.position);
            recovered(once, log, once.position) == once
        }),
{
    if projection.position <= log.len() {
        let entries = tail(log, projection.position);
        assert forall|i: int| 0 <= i < entries.len() implies (#[trigger] entries[i]).entry_id.0
            == projection.position + i + 1 by {
            assert(entries[i] == log[projection.position + i]);
        }
        lemma_refold(projection, entries);
        let once = recovered(projection, log, projection.position);
        let j = once.position - projection.position;
        assert(tail(log, once.position) =~= entries.skip(j));
    }
}

/// Recovery reaches a marker, or does not move: it never ends within a batch.
pub proof fn law_recovery_ends_at_a_marker(
    projection: ProjectionView,
    log: Seq<EntryView>,
)
    requires
        numbered(log),
        0 <= projection.position,
    ensures
        ({
            let w = recovered(projection, log, projection.position).position;
            w == projection.position || (1 <= w <= log.len() && log[w - 1].payload is Noop)
        }),
{
    if projection.position <= log.len() {
        let entries = tail(log, projection.position);
        assert forall|i: int| 0 <= i < entries.len() implies (#[trigger] entries[i]).entry_id.0
            == projection.position + i + 1 && entries[i] == log[projection.position + i] by {
        }
        lemma_ends_at_marker(projection, log, entries);
    }
}

proof fn lemma_ends_at_marker(p: ProjectionView, log: Seq<EntryView>, entries: Seq<EntryView>)
    requires
        0 <= p.position,
        p.position + entries.len() <= log.len(),
        forall|i: int|
            0 <= i < entries.len() ==> (#[trigger] entries[i]).entry_id.0 == p.position + i + 1
                && entries[i] == log[p.position + i],
    ensures
        ({
            let w = fold_entries(Fold { projection: p, inflight: None }, entries).projection.position;
            w == p.position || (1 <= w <= log.len() && log[w - 1].payload is Noop)
        }),
    decreases entries.len(),
{
    if entries.len() > 0 {
        let init = entries.drop_last();
        assert forall|i: int| 0 <= i < init.len() implies (#[trigger] init[i]).entry_id.0
            == p.position + i + 1 && init[i] == log[p.position + i] by {
            assert(init[i] == entries[i]);
        }
        assert(entries.last() == entries[entries.len() - 1]);
        lemma_ends_at_marker(p, log, init);
    }
}

/// The refusals among what was emitted.
pub open spec fn rejects_of(entries: Seq<EntryView>) -> Seq<RejectView>
    decreases entries.len(),
{
    if entries.len() == 0 {
        Seq::empty()
    } else {
        let before = rejects_of(entries.drop_last());
        match entries.last().payload {
            EntryPayloadView::Reject(reject) => before.push(reject),
            _ => before,
        }
    }
}

fn collect_rejects(entries: &Vec<Entry>) -> (r: Vec<Reject>)
    ensures
        r.deep_view() == rejects_of(entries.deep_view()),
{
    let ghost all = entries.deep_view();
    let mut rejects: Vec<Reject> = Vec::new();
    let mut i: usize = 0;
    assert(all.take(0) =~= Seq::empty());
    assert(rejects.deep_view() =~= Seq::empty());
    while i < entries.len()
        invariant
            i <= entries.len(),
            all == entries.deep_view(),
            rejects.deep_view() == rejects_of(all.take(i as int)),
        decreases entries.len() - i,
    {
        let ghost next = all.take(i as int + 1);
        let ghost found = rejects.deep_view();
        assert(next.drop_last() =~= all.take(i as int));
        assert(next.last() == entries@[i as int]@);
        if let EntryPayload::Reject(reject) = &entries[i].payload {
            rejects.push(reject.clone());
            assert(rejects.deep_view() =~= found.push(reject@));
        }
        i += 1;
    }
    assert(all.take(all.len() as int) =~= all);
    rejects
}

/// The batch that a command writes: what it emitted, and the marker that ends it. A command that
/// emitted nothing writes nothing.
pub open spec fn batch_of(entries: Seq<EntryView>, cause_id: EntryId, now: Timestamp) -> Seq<
    EntryView,
> {
    if entries.len() == 0 {
        entries
    } else {
        entries.push(noop_entry(StreamId(0), Some(cause_id), now))
    }
}

/// What a leader must do for a command: write a batch, and then commit the store.
#[derive(Debug, PartialEq, Eq)]
pub struct LeaderTurn {
    /// The batch to write; nothing when it is empty.
    pub batch: Vec<Entry>,
    /// The store to commit once the batch is written.
    pub work: Store,
    /// The refusals to report.
    pub rejects: Vec<Reject>,
    /// The question that must be answered before the command can be run.
    pub question: Option<Question>,
}

/// What a [`LeaderTurn`] holds.
pub struct LeaderTurnView {
    pub batch: Seq<EntryView>,
    pub work: StoreView,
    pub rejects: Seq<RejectView>,
    pub question: Option<QuestionView>,
}

impl View for LeaderTurn {
    type V = LeaderTurnView;

    open spec fn view(&self) -> LeaderTurnView {
        LeaderTurnView {
            batch: self.batch.deep_view(),
            work: self.work@,
            rejects: self.rejects.deep_view(),
            question: self.question.deep_view(),
        }
    }
}

/// The turn that a processed command makes.
pub open spec fn turn_of(p: CommandProcessedView, entry_id: EntryId, now: Timestamp) -> LeaderTurnView {
    LeaderTurnView {
        batch: batch_of(p.entries, entry_id, now),
        work: p.work,
        rejects: rejects_of(p.entries),
        question: p.question,
    }
}

/// The events that a turn writes.
pub open spec fn written_events(turn: LeaderTurnView) -> Seq<EventView> {
    events_of(turn.batch.map_values(|e: EntryView| e.payload))
}

/// A leader that has prepared a turn: it keeps the events, to be reported once they are committed.
pub open spec fn prepared(leader: LeaderView, turn: LeaderTurnView) -> LeaderView {
    if turn.question is Some {
        leader
    } else {
        LeaderView { last_applied: written_events(turn), ..leader }
    }
}

/// What a leader has done for a command.
#[derive(Debug, PartialEq, Eq)]
pub struct LeaderReport {
    /// Where the batch ends that was written, if one was.
    pub position: Option<EntryId>,
    /// The events that were committed, in order.
    pub applied: Vec<Event>,
    /// The refusals.
    pub rejects: Vec<Reject>,
    /// The question that must be answered before the command can be run.
    pub question: Option<Question>,
}

/// What a [`LeaderReport`] holds.
pub struct LeaderReportView {
    pub position: Option<EntryId>,
    pub applied: Seq<EventView>,
    pub rejects: Seq<RejectView>,
    pub question: Option<QuestionView>,
}

impl View for LeaderReport {
    type V = LeaderReportView;

    open spec fn view(&self) -> LeaderReportView {
        LeaderReportView {
            position: self.position,
            applied: self.applied.deep_view(),
            rejects: self.rejects.deep_view(),
            question: self.question.deep_view(),
        }
    }
}

/// Nothing to report.
pub open spec fn no_report() -> LeaderReportView {
    LeaderReportView {
        position: None,
        applied: Seq::empty(),
        rejects: Seq::empty(),
        question: None,
    }
}

/// A leader at work: what it has committed, what it has written, and where it stands.
pub struct Lead {
    pub leader: LeaderView,
    pub projection: ProjectionView,
    pub log: Seq<EntryView>,
    pub report: LeaderReportView,
}

/// What a turn makes of a leader that has prepared it. Its batch is written and committed at the
/// marker, the watermark moves there, and the events and refusals are reported. A turn without a
/// batch, and one that waits for an answer, writes and commits nothing.
pub open spec fn led(
    leader: LeaderView,
    projection: ProjectionView,
    log: Seq<EntryView>,
    stream_id: StreamId,
    turn: LeaderTurnView,
) -> Lead {
    if turn.question is Some || turn.batch.len() == 0 {
        Lead {
            leader,
            projection,
            log,
            report: LeaderReportView {
                position: None,
                applied: Seq::empty(),
                rejects: Seq::empty(),
                question: turn.question,
            },
        }
    } else {
        let after = appended(log, stream_id, turn.batch);
        let last = after.len() as i64;
        Lead {
            leader: LeaderView { watermark: last, last_applied: Seq::empty() },
            projection: ProjectionView { store: turn.work, position: last },
            log: after,
            report: LeaderReportView {
                position: Some(EntryId(last)),
                applied: leader.last_applied,
                rejects: turn.rejects,
                question: None,
            },
        }
    }
}

/// A batch fits into a log.
pub open spec fn room(log: Seq<EntryView>, batch: Seq<EntryView>) -> bool {
    log.len() + batch.len() <= i64::MAX && log.len() + batch.len() <= usize::MAX
}

/// A leader never folds its own batch again: when it reads it back, every entry of it is at or below
/// the watermark, which is where the projection stands.
pub proof fn law_leader_is_ahead_of_its_log(
    leader: LeaderView,
    projection: ProjectionView,
    log: Seq<EntryView>,
    stream_id: StreamId,
    turn: LeaderTurnView,
    i: int,
)
    requires
        room(log, turn.batch),
        turn.question is None,
        turn.batch.len() > 0,
        log.len() <= i < led(leader, projection, log, stream_id, turn).log.len(),
    ensures
        ({
            let after = led(leader, projection, log, stream_id, turn);
            &&& after.log[i].entry_id.0 <= after.leader.watermark
            &&& after.projection.position == after.leader.watermark
        }),
{
}

/// The log that a leader writes is numbered by place.
pub proof fn law_led_log_is_numbered(
    leader: LeaderView,
    projection: ProjectionView,
    log: Seq<EntryView>,
    stream_id: StreamId,
    turn: LeaderTurnView,
)
    requires
        numbered(log),
        room(log, turn.batch),
    ensures
        numbered(led(leader, projection, log, stream_id, turn).log),
{
}

proof fn lemma_fold_batch(p: ProjectionView, entries: Seq<EntryView>, now: Timestamp)
    requires
        forall|i: int|
            0 <= i < entries.len() ==> (#[trigger] entries[i]).timestamp == now
                && !(entries[i].payload is Noop),
    ensures
        ({
            let chain = entries.map_values(|e: EntryView| e.payload);
            let f = fold_entries(Fold { projection: p, inflight: None }, entries);
            &&& f.projection == p
            &&& events_of(chain).len() == 0 ==> f.inflight is None && refolded(p.store, chain, now)
                == p.store
            &&& events_of(chain).len() > 0 ==> f.inflight == Some(refolded(p.store, chain, now))
        }),
    decreases entries.len(),
{
    let chain = entries.map_values(|e: EntryView| e.payload);
    if entries.len() > 0 {
        let init = entries.drop_last();
        assert(entries.last() == entries[entries.len() - 1]);
        assert forall|i: int| 0 <= i < init.len() implies (#[trigger] init[i]).timestamp == now
            && !(init[i].payload is Noop) by {
            assert(init[i] == entries[i]);
        }
        lemma_fold_batch(p, init, now);
        assert(chain.drop_last() =~= init.map_values(|e: EntryView| e.payload));
        assert(chain.last() == entries.last().payload);
    }
}

/// A crash between the write of a batch and its commit loses nothing: recovery folds the batch from
/// the log and ends where the leader would have stood, with the same rows. Its counter of generated
/// names stands no further than the leader's would.
pub proof fn law_recovery_rebuilds_an_uncommitted_batch(
    projection: ProjectionView,
    log: Seq<EntryView>,
    stream_id: StreamId,
    ctx: HandlerContext,
    entry_id: EntryId,
    command: CommandView,
    now: Timestamp,
    next_uid: u128,
)
    requires
        projection.position == log.len(),
        ({
            let p = processed_command(projection.store, ctx, entry_id, command, now, next_uid);
            let turn = turn_of(p, entry_id, now);
            &&& room(log, turn.batch)
            &&& written_events(turn).len() > 0
        }),
    ensures
        ({
            let p = processed_command(projection.store, ctx, entry_id, command, now, next_uid);
            let after = appended(log, stream_id, turn_of(p, entry_id, now).batch);
            let r = recovered(projection, after, projection.position);
            &&& alike(r.store, p.work)
            &&& projection.store.next_seq <= r.store.next_seq <= p.work.next_seq
            &&& r.position == after.len()
        }),
{
    let w = dispatched(idle(projection.store, now, next_uid), ctx, command);
    let p = processed_command(projection.store, ctx, entry_id, command, now, next_uid);
    let turn = turn_of(p, entry_id, now);
    let payloads = turn.batch.map_values(|e: EntryView| e.payload);
    if p.entries.len() == 0 {
        assert(payloads =~= Seq::empty());
    }
    assert(payloads.drop_last() =~= w.chain);
    assert(payloads.last() is Noop);
    let after = appended(log, stream_id, turn.batch);
    let rest = tail(after, projection.position);
    let init = rest.drop_last();
    law_store_is_the_fold_of_the_events(projection.store, ctx, command, now, next_uid);
    law_dispatch_emits_no_marker(projection.store, ctx, command, now, next_uid);
    assert forall|i: int| 0 <= i < init.len() implies (#[trigger] init[i]).timestamp == now && !(
    init[i].payload is Noop) by {
        assert(init[i].payload == w.chain[i]);
    }
    lemma_fold_batch(projection, init, now);
    assert(init.map_values(|e: EntryView| e.payload) =~= w.chain);
    assert(rest.last().payload is Noop);
}

/// Every entry of a batch is caused by the command that the batch answers, and the batch ends with
/// its one marker.
pub proof fn law_batch_is_caused_by_its_command(
    s: StoreView,
    ctx: HandlerContext,
    entry_id: EntryId,
    command: CommandView,
    now: Timestamp,
    next_uid: u128,
    i: int,
)
    requires
        ({
            let p = processed_command(s, ctx, entry_id, command, now, next_uid);
            0 <= i < turn_of(p, entry_id, now).batch.len()
        }),
    ensures
        ({
            let p = processed_command(s, ctx, entry_id, command, now, next_uid);
            let batch = turn_of(p, entry_id, now).batch;
            &&& batch[i].cause_id == Some(entry_id)
            &&& batch[i].timestamp == now
            &&& batch[i].payload is Noop <==> i == batch.len() - 1
        }),
{
    law_dispatch_emits_no_marker(s, ctx, command, now, next_uid);
    let w = dispatched(idle(s, now, next_uid), ctx, command);
    let p = processed_command(s, ctx, entry_id, command, now, next_uid);
    if i < p.entries.len() {
        assert(p.entries[i].payload == w.chain[i]);
    }
}

/// A follower that reads what a leader has written ends with the rows that the leader has committed,
/// at the same position. Its counter of generated names stands no further than the leader's.
pub proof fn law_follower_agrees_with_the_leader(
    projection: ProjectionView,
    leader: LeaderView,
    log: Seq<EntryView>,
    stream_id: StreamId,
    ctx: HandlerContext,
    entry_id: EntryId,
    command: CommandView,
    now: Timestamp,
    next_uid: u128,
)
    requires
        projection.position == log.len(),
        ({
            let p = processed_command(projection.store, ctx, entry_id, command, now, next_uid);
            let turn = turn_of(p, entry_id, now);
            &&& room(log, turn.batch)
            &&& turn.question is None
            &&& written_events(turn).len() > 0
        }),
    ensures
        ({
            let p = processed_command(projection.store, ctx, entry_id, command, now, next_uid);
            let after = led(leader, projection, log, stream_id, turn_of(p, entry_id, now));
            let read = fold_entries(
                Fold { projection, inflight: None },
                after.log.skip(log.len() as int),
            );
            &&& read.inflight is None
            &&& read.projection.position == after.projection.position
            &&& alike(read.projection.store, after.projection.store)
            &&& projection.store.next_seq <= read.projection.store.next_seq
                <= after.projection.store.next_seq
        }),
{
    law_recovery_rebuilds_an_uncommitted_batch(
        projection,
        log,
        stream_id,
        ctx,
        entry_id,
        command,
        now,
        next_uid,
    );
    let p = processed_command(projection.store, ctx, entry_id, command, now, next_uid);
    let turn = turn_of(p, entry_id, now);
    let after = appended(log, stream_id, turn.batch);
    let rest = tail(after, projection.position);
    assert(rest =~= after.skip(log.len() as int));
    assert(turn.batch.len() > 0) by {
        if turn.batch.len() == 0 {
            assert(turn.batch.map_values(|e: EntryView| e.payload) =~= Seq::empty());
        }
    }
    assert(rest.last().payload is Noop);
}

/// Reading a log, as a follower does, keeps the counter of generated names past the numbers of the
/// stored names, whatever the log holds.
pub proof fn law_reading_keeps_the_counter_ahead(f: Fold, entries: Seq<EntryView>)
    requires
        ahead(f.projection.store),
        f.inflight matches Some(txn) ==> ahead(txn),
    ensures
        ahead(fold_entries(f, entries).projection.store),
        fold_entries(f, entries).inflight matches Some(txn) ==> ahead(txn),
    decreases entries.len(),
{
    if entries.len() > 0 {
        let before = fold_entries(f, entries.drop_last());
        law_reading_keeps_the_counter_ahead(f, entries.drop_last());
        if let EntryPayloadView::Event(event) = entries.last().payload {
            let txn = match before.inflight {
                Some(txn) => txn,
                None => before.projection.store,
            };
            law_folding_keeps_the_counter_ahead(txn, event, entries.last().timestamp);
        }
    }
}

/// After a recovery the counter of generated names stands past the numbers of the stored names,
/// whatever the log holds: the name that it gives next is stored nowhere. A number that was drawn for
/// a task whose activation is still a command may be drawn once more.
pub proof fn law_recovery_draws_no_stored_name(
    projection: ProjectionView,
    log: Seq<EntryView>,
    watermark: i64,
    kind: ObjectKind,
    name: ObjectNameView,
)
    requires
        ahead(projection.store),
        counted(kind),
        name.base.len() > 0,
    ensures
        ({
            let s = recovered(projection, log, watermark).store;
            &&& ahead(s)
            &&& s.next_seq < u64::MAX ==> s.get(kind, generated_name(name, s.next_seq)) is None
        }),
{
    law_reading_keeps_the_counter_ahead(
        Fold { projection, inflight: None },
        tail(log, watermark),
    );
    let s = recovered(projection, log, watermark).store;
    if s.next_seq < u64::MAX {
        law_no_stored_name_is_drawn_again(s, kind, name);
    }
}

/// Processes a log.
#[derive(Debug, PartialEq, Eq)]
pub struct StreamProcessor {
    state_machine: StateMachine,
}

impl Default for StreamProcessor {
    fn default() -> (r: Self)
        ensures
            r.role() is Leader,
    {
        StreamProcessor::new()
    }
}

impl StreamProcessor {
    /// The role that it plays.
    pub closed spec fn role(self) -> StateMachine {
        self.state_machine
    }

    /// A processor in the role of a leader that has applied nothing.
    pub fn new() -> (r: StreamProcessor)
        ensures
            r.role() matches StateMachine::Leader(l) && l@ == (LeaderView {
                watermark: 0,
                last_applied: Seq::empty(),
            }),
    {
        StreamProcessor { state_machine: StateMachine::Leader(Leader::new()) }
    }

    /// A processor in the given role.
    pub fn with_role(state_machine: StateMachine) -> (r: StreamProcessor)
        ensures
            r.role() == state_machine,
    {
        StreamProcessor { state_machine }
    }

    /// The role that it plays.
    pub fn state_machine(&self) -> (r: &StateMachine)
        ensures
            *r == self.role(),
    {
        &self.state_machine
    }

    /// Gives the role up.
    pub fn into_state_machine(self) -> (r: StateMachine)
        ensures
            r == self.role(),
    {
        self.state_machine
    }

    /// Runs a command without writing or committing anything, and gives the entries that it emits.
    /// Only a leader can.
    pub fn dispatch(
        &self,
        command: &Command,
        storage: &Store,
        ctx: &HandlerContext,
        cause_id: EntryId,
        now: Timestamp,
        next_uid: u128,
    ) -> (r: Vec<Entry>)
        requires
            self.role() is Leader,
            store_ok(storage@),
            ctx.valid(),
            dispatchable(storage@, command@),
        ensures
            r.deep_view() == processed_command(
                storage@,
                *ctx,
                cause_id,
                command@,
                now,
                next_uid,
            ).entries,
    {
        match &self.state_machine {
            StateMachine::Leader(leader) => leader.dispatch(
                command,
                storage,
                ctx,
                cause_id,
                now,
                next_uid,
            ),
            StateMachine::Follower(_) => vstd::pervasive::unreached(),
        }
    }

    /// Folds one entry that was written but never committed: an event joins the transaction of its
    /// batch, the marker commits it, and a command is passed over.
    pub fn recover_entry(
        leader: &mut Leader,
        projection: &mut Projection,
        inflight: Option<Store>,
        entry: &Entry,
    ) -> (r: Option<Store>)
        ensures
            (Fold { projection: final(projection)@, inflight: r.deep_view() }) == fold_entry(
                Fold { projection: old(projection)@, inflight: inflight.deep_view() },
                entry@,
            ),
            final(leader)@ == (match entry@.payload {
                EntryPayloadView::Event(event) => replayed(
                    old(leader)@,
                    entry@.cause_id,
                    event,
                ),
                _ => old(leader)@,
            }),
    {
        match &entry.payload {
            EntryPayload::Command(_) => inflight,
            EntryPayload::Event(event) => {
                let mut txn = match inflight {
                    Some(txn) => txn,
                    None => projection.begin_txn(),
                };
                leader.apply_event(&mut txn, entry.timestamp, entry.cause_id, event);
                Some(txn)
            },
            EntryPayload::Noop => {
                if let Some(txn) = inflight {
                    projection.commit(txn, Some(entry.entry_id.get()));
                }
                None
            },
            EntryPayload::Reject(_) => inflight,
        }
    }

    /// Folds the batches that were written behind `watermark` but never committed, and gives the
    /// position that is committed then. No command is run.
    pub fn recover_leader(
        leader: &mut Leader,
        log: &InMemoryLogStream,
        projection: &mut Projection,
        watermark: i64,
    ) -> (r: i64)
        requires
            watermark < i64::MAX,
            log@.len() < i64::MAX,
        ensures
            final(projection)@ == recovered(old(projection)@, log@, watermark),
            final(leader)@ == leader_after(old(leader)@, tail(log@, watermark)),
            r == final(projection)@.position,
    {
        let ghost start = Fold { projection: projection@, inflight: None };
        let ghost entries = tail(log@, watermark);
        let ghost first = leader@;
        let mut inflight: Option<Store> = None;
        let mut pos: i64 = watermark + 1;
        let ghost mut n: int = 0;
        assert(entries.take(0) =~= Seq::empty());
        loop
            invariant
                watermark < i64::MAX,
                log@.len() < i64::MAX,
                entries == tail(log@, watermark),
                0 <= n <= entries.len(),
                pos == watermark + 1 + n,
                fold_entries(start, entries.take(n)) == (Fold {
                    projection: projection@,
                    inflight: inflight.deep_view(),
                }),
                leader_after(first, entries.take(n)) == leader@,
            ensures
                n == entries.len(),
                fold_entries(start, entries.take(n)).projection == projection@,
                leader_after(first, entries.take(n)) == leader@,
            decreases entries.len() - n,
        {
            let entry = match log.read(EntryId::new(pos)) {
                Some(entry) => entry,
                None => break ,
            };
            let ghost next = entries.take(n + 1);
            assert(next.drop_last() =~= entries.take(n));
            assert(next.last() == entry@);
            inflight = Self::recover_entry(leader, projection, inflight, entry);
            pos += 1;
            proof {
                n = n + 1;
            }
        }
        assert(entries.take(entries.len() as int) =~= entries);
        projection.last_processed_position()
    }

    /// Takes up the processing of a log where the projection stands, and gives the position that it
    /// goes on from. A leader first folds what it had written but not committed; the last event of it
    /// is what it has applied last.
    pub fn resume(&mut self, log: &InMemoryLogStream, projection: &mut Projection) -> (r: i64)
        requires
            old(projection)@.position < i64::MAX,
            log@.len() < i64::MAX,
        ensures
            r == final(projection)@.position,
            match old(self).role() {
                StateMachine::Leader(l) => {
                    &&& final(projection)@ == recovered(
                        old(projection)@,
                        log@,
                        old(projection)@.position,
                    )
                    &&& final(self).role() matches StateMachine::Leader(m) && m@ == (LeaderView {
                        watermark: r,
                        ..leader_after(l@, tail(log@, old(projection)@.position))
                    })
                },
                StateMachine::Follower(_) => {
                    &&& final(projection)@ == old(projection)@
                    &&& final(self).role() matches StateMachine::Follower(m) && m@ == r
                },
            },
    {
        let watermark = projection.last_processed_position();
        match &mut self.state_machine {
            StateMachine::Leader(leader) => {
                proof {
                    lemma_last_applied(leader@, watermark, tail(log@, watermark));
                }
                leader.set_resume_position(watermark);
                let w = Self::recover_leader(leader, log, projection, watermark);
                leader.set_resume_position(w);
                w
            },
            StateMachine::Follower(follower) => {
                follower.set_resume_position(watermark);
                watermark
            },
        }
    }

    /// Runs a command as the leader does, up to the write: gives the batch to write, and what to
    /// commit once it is written.
    pub fn prepare(
        leader: &mut Leader,
        projection: &Projection,
        ctx: &HandlerContext,
        entry_id: EntryId,
        command: &Command,
        now: Timestamp,
        next_uid: u128,
    ) -> (r: LeaderTurn)
        requires
            store_ok(projection@.store),
            ctx.valid(),
            dispatchable(projection@.store, command@),
        ensures
            r@ == turn_of(
                processed_command(projection@.store, *ctx, entry_id, command@, now, next_uid),
                entry_id,
                now,
            ),
            final(leader)@ == prepared(old(leader)@, r@),
            store_ok(r@.work),
    {
        let produced = leader.process_command(
            entry_id,
            command,
            projection.store(),
            ctx,
            now,
            next_uid,
        );
        let ghost entries = produced.entries.deep_view();
        assert(entries.len() == produced.entries@.len());
        let rejects = collect_rejects(&produced.entries);
        let mut batch = produced.entries;
        if batch.len() > 0 {
            batch.push(noop(now, StreamId::nil(), entry_id));
            assert(batch.deep_view() =~= batch_of(entries, entry_id, now));
        }
        proof {
            let chain = dispatched(idle(projection@.store, now, next_uid), *ctx, command@).chain;
            let payloads = batch.deep_view().map_values(|e: EntryView| e.payload);
            if entries.len() == 0 {
                assert(payloads =~= chain);
            } else {
                assert(payloads.drop_last() =~= chain);
            }
        }
        LeaderTurn { batch, work: produced.work, rejects, question: produced.question }
    }

    /// Commits what goes with a batch that was written up to `last`, and gives the events to report.
    pub fn conclude(
        leader: &mut Leader,
        projection: &mut Projection,
        work: Store,
        last: EntryId,
    ) -> (r: Vec<Event>)
        ensures
            final(projection)@ == (ProjectionView { store: work@, position: last.0 }),
            final(leader)@ == (LeaderView { watermark: last.0, last_applied: Seq::empty() }),
            r.deep_view() == old(leader)@.last_applied,
    {
        projection.commit(work, Some(last.get()));
        leader.set_resume_position(last.get());
        leader.after_commit()
    }

    /// Writes the batch of a turn that was prepared, and commits it.
    pub fn settle(
        leader: &mut Leader,
        projection: &mut Projection,
        log: &mut InMemoryLogStream,
        turn: LeaderTurn,
    ) -> (r: LeaderReport)
        requires
            room(old(log)@, turn@.batch),
        ensures
            ({
                let after = led(
                    old(leader)@,
                    old(projection)@,
                    old(log)@,
                    old(log).stream(),
                    turn@,
                );
                &&& final(leader)@ == after.leader
                &&& final(projection)@ == after.projection
                &&& final(log)@ == after.log
                &&& r@ == after.report
            }),
            final(log).stream() == old(log).stream(),
    {
        assert(turn.batch.deep_view().len() == turn.batch@.len());
        if turn.question.is_some() || turn.batch.len() == 0 {
            let r = LeaderReport {
                position: None,
                applied: Vec::new(),
                rejects: Vec::new(),
                question: turn.question,
            };
            assert(r@.applied =~= Seq::empty());
            assert(r@.rejects =~= Seq::empty());
            return r;
        }
        let last = log.append(&turn.batch);
        let applied = Self::conclude(leader, projection, turn.work, last);
        LeaderReport { position: Some(last), applied, rejects: turn.rejects, question: None }
    }

    /// Reads one entry as the leader. A command is run, and its batch written and committed; what it
    /// wrote itself it passes over. `None` is returned, with nothing written or committed, when the
    /// batch does not fit into the log.
    pub fn lead(
        leader: &mut Leader,
        projection: &mut Projection,
        log: &mut InMemoryLogStream,
        ctx: &HandlerContext,
        entry: &Entry,
        now: Timestamp,
        next_uid: u128,
    ) -> (r: Option<LeaderReport>)
        requires
            store_ok(old(projection)@.store),
            ctx.valid(),
            match entry@.payload {
                EntryPayloadView::Command(command) => dispatchable(
                    old(projection)@.store,
                    command,
                ),
                EntryPayloadView::Event(_) => entry@.entry_id.0 <= old(leader)@.watermark,
                _ => true,
            },
        ensures
            match entry@.payload {
                EntryPayloadView::Command(command) => {
                    let turn = turn_of(
                        processed_command(
                            old(projection)@.store,
                            *ctx,
                            entry@.entry_id,
                            command,
                            now,
                            next_uid,
                        ),
                        entry@.entry_id,
                        now,
                    );
                    match r {
                        Some(report) => {
                            let after = led(
                                prepared(old(leader)@, turn),
                                old(projection)@,
                                old(log)@,
                                old(log).stream(),
                                turn,
                            );
                            &&& room(old(log)@, turn.batch)
                            &&& final(leader)@ == after.leader
                            &&& final(projection)@ == after.projection
                            &&& final(log)@ == after.log
                            &&& report@ == after.report
                        },
                        None => {
                            &&& !room(old(log)@, turn.batch)
                            &&& final(leader)@ == prepared(old(leader)@, turn)
                            &&& final(projection)@ == old(projection)@
                            &&& final(log)@ == old(log)@
                        },
                    }
                },
                _ => {
                    &&& final(leader)@ == old(leader)@
                    &&& final(projection)@ == old(projection)@
                    &&& final(log)@ == old(log)@
                    &&& r matches Some(report) && report@ == no_report()
                },
            },
            final(log).stream() == old(log).stream(),
            store_ok(final(projection)@.store),
    {
        match &entry.payload {
            EntryPayload::Command(command) => {
                let turn = Self::prepare(
                    leader,
                    projection,
                    ctx,
                    entry.entry_id,
                    command,
                    now,
                    next_uid,
                );
                assert(turn.batch.deep_view().len() == turn.batch@.len());
                let written: usize = log.len();
                if turn.batch.len() > usize::MAX - written || turn.batch.len() as u64
                    > i64::MAX as u64 || written as u64 > i64::MAX as u64 - turn.batch.len() as u64 {
                    return None;
                }
                Some(Self::settle(leader, projection, log, turn))
            },
            _ => {
                let r = LeaderReport {
                    position: None,
                    applied: Vec::new(),
                    rejects: Vec::new(),
                    question: None,
                };
                assert(r@.applied =~= Seq::empty());
                assert(r@.rejects =~= Seq::empty());
                Some(r)
            },
        }
    }

    /// Reads one entry as the follower: an event joins the transaction of its batch, the marker
    /// commits it.
    pub fn follow(
        follower: &mut Follower,
        projection: &mut Projection,
        inflight: Option<Store>,
        entry: &Entry,
    ) -> (r: Option<Store>)
        ensures
            (Fold { projection: final(projection)@, inflight: r.deep_view() }) == fold_entry(
                Fold { projection: old(projection)@, inflight: inflight.deep_view() },
                entry@,
            ),
            final(follower)@ == if entry@.payload is Noop && inflight is Some {
                entry@.entry_id.0
            } else {
                old(follower)@
            },
    {
        match &entry.payload {
            EntryPayload::Command(_) => inflight,
            EntryPayload::Event(event) => {
                let mut txn = match inflight {
                    Some(txn) => txn,
                    None => projection.begin_txn(),
                };
                follower.apply_event(&mut txn, entry.timestamp, event);
                Some(txn)
            },
            EntryPayload::Noop => match inflight {
                Some(txn) => {
                    let position = follower.commit_at_noop(entry.entry_id);
                    projection.commit(txn, position);
                    None
                },
                None => None,
            },
            EntryPayload::Reject(_) => inflight,
        }
    }

    /// Reads entries in order as the follower. A batch whose marker is not among them is dropped.
    pub fn run_follower(
        follower: &mut Follower,
        projection: &mut Projection,
        entries: &Vec<Entry>,
    )
        ensures
            final(projection)@ == fold_entries(
                Fold { projection: old(projection)@, inflight: None },
                entries.deep_view(),
            ).projection,
    {
        let ghost start = Fold { projection: projection@, inflight: None };
        let ghost all = entries.deep_view();
        let mut inflight: Option<Store> = None;
        let mut i: usize = 0;
        assert(all.take(0) =~= Seq::empty());
        while i < entries.len()
            invariant
                i <= entries.len(),
                all == entries.deep_view(),
                fold_entries(start, all.take(i as int)) == (Fold {
                    projection: projection@,
                    inflight: inflight.deep_view(),
                }),
            decreases entries.len() - i,
        {
            let ghost next = all.take(i as int + 1);
            assert(next.drop_last() =~= all.take(i as int));
            assert(next.last() == entries@[i as int]@);
            inflight = Self::follow(follower, projection, inflight, &entries[i]);
            i += 1;
        }
        assert(all.take(all.len() as int) =~= all);
    }
}

} // verus!
