//! The log: what is written for a command, where it stands, and what is read back of it.

use vstd::prelude::*;

use crate::handler::{HandlerContext, World};
use crate::handlers::dispatch::dispatched;
use crate::id::{EntryId, StreamId, Timestamp};
use crate::leader::{events_of, processed_command, replayed, LeaderView};
use crate::log::{appended, closed};
use crate::storage::projection::ProjectionView;
use crate::storage::store::StoreView;
use crate::stream_processor::{
    fold_entries, fold_entry, leader_after, led, prepared, recovered, rejects_of, room, turn_of,
    Fold, LeaderTurnView,
};
use crate::types::command::CommandView;
use crate::types::entry::{EntryPayloadView, EntryView};
use crate::types::event::EventView;

verus! {

/// What is appended stands behind what was there, in its order, in the stream of the log and under its
/// position, counted from one; what it says, why and when stay as they were.
pub proof fn law_appended_entries_are_numbered_in_order(
    log: Seq<EntryView>,
    stream_id: StreamId,
    entries: Seq<EntryView>,
    i: int,
)
    requires
        log.len() + entries.len() <= i64::MAX,
    ensures
        ({
            let after = appended(log, stream_id, entries);
            &&& after.len() == log.len() + entries.len()
            &&& 0 <= i < log.len() ==> after[i] == log[i]
            &&& 0 <= i < entries.len() ==> {
                let e = after[log.len() + i];
                &&& e.stream_id == stream_id
                &&& e.entry_id.0 == log.len() + i + 1
                &&& e.payload == entries[i].payload
                &&& e.cause_id == entries[i].cause_id
                &&& e.timestamp == entries[i].timestamp
            }
        }),
{
}

/// Entries that end in a marker are closed as they stand; others get one marker, at that instant.
pub proof fn law_closing_adds_one_marker(entries: Seq<EntryView>, now: Timestamp)
    ensures
        entries.len() > 0 && entries.last().payload is Noop ==> closed(entries, now) == entries,
        !(entries.len() > 0 && entries.last().payload is Noop) ==> {
            let after = closed(entries, now);
            &&& after.len() == entries.len() + 1
            &&& after.drop_last() == entries
            &&& after.last().payload is Noop
            &&& after.last().timestamp == now
        },
{
    if !(entries.len() > 0 && entries.last().payload is Noop) {
        assert(closed(entries, now).drop_last() =~= entries);
    }
}

/// The events of a chain are those of its entries that are events, in their order.
pub proof fn law_events_of_a_chain_are_in_order(chain: Seq<EntryPayloadView>)
    ensures
        events_of(chain) == chain.filter(|p: EntryPayloadView| p is Event).map_values(
            |p: EntryPayloadView| p->Event_0,
        ),
    decreases chain.len(),
{
    reveal(Seq::filter);
    let all = chain.filter(|p: EntryPayloadView| p is Event).map_values(
        |p: EntryPayloadView| p->Event_0,
    );
    if chain.len() > 0 {
        law_events_of_a_chain_are_in_order(chain.drop_last());
    }
    assert(events_of(chain) =~= all);
}

/// The refusals of a batch are those of its entries that are refusals, in their order.
pub proof fn law_refusals_of_a_batch_are_in_order(entries: Seq<EntryView>)
    ensures
        rejects_of(entries) == entries.filter(|e: EntryView| e.payload is Reject).map_values(
            |e: EntryView| e.payload->Reject_0,
        ),
    decreases entries.len(),
{
    reveal(Seq::filter);
    let all = entries.filter(|e: EntryView| e.payload is Reject).map_values(
        |e: EntryView| e.payload->Reject_0,
    );
    if entries.len() > 0 {
        law_refusals_of_a_batch_are_in_order(entries.drop_last());
    }
    assert(rejects_of(entries) =~= all);
}

/// A command is run on the store that it was handed, from an empty chain; its batch holds what it put on
/// the chain, in order, and one marker behind it, all caused by the command and written at that instant. A
/// command that put nothing there has no batch. The store and the open question are those that it left.
pub proof fn law_batch_is_what_the_command_brings_about(
    s: StoreView,
    ctx: HandlerContext,
    entry_id: EntryId,
    command: CommandView,
    now: Timestamp,
    next_uid: u128,
    i: int,
)
    ensures
        ({
            let turn = turn_of(
                processed_command(s, ctx, entry_id, command, now, next_uid),
                entry_id,
                now,
            );
            let after = dispatched(
                World {
                    chain: Seq::empty(),
                    acks: Seq::empty(),
                    store: s,
                    now,
                    next_uid,
                    question: None,
                },
                ctx,
                command,
            );
            &&& turn.work == after.store
            &&& turn.question == after.question
            &&& after.chain.len() == 0 ==> turn.batch.len() == 0
            &&& after.chain.len() > 0 ==> {
                &&& turn.batch.len() == after.chain.len() + 1
                &&& turn.batch.last().payload is Noop
                &&& 0 <= i < after.chain.len() ==> turn.batch[i].payload == after.chain[i]
                &&& 0 <= i < turn.batch.len() ==> turn.batch[i].cause_id == Some(entry_id)
                    && turn.batch[i].timestamp == now
            }
        }),
{
}

/// A turn that waits for an answer, and one without a batch, write and commit nothing; the question is
/// reported. Any other writes its whole batch, commits its store at the marker, and reports the events that
/// the leader holds and the refusals.
pub proof fn law_turn_is_written_and_committed(
    leader: LeaderView,
    projection: ProjectionView,
    log: Seq<EntryView>,
    stream_id: StreamId,
    turn: LeaderTurnView,
)
    requires
        room(log, turn.batch),
    ensures
        ({
            let after = led(leader, projection, log, stream_id, turn);
            let last = log.len() + turn.batch.len();
            if turn.question is Some || turn.batch.len() == 0 {
                &&& after.leader == leader
                &&& after.projection == projection
                &&& after.log == log
                &&& after.report.question == turn.question
                &&& after.report.position is None
                &&& after.report.applied.len() == 0
                &&& after.report.rejects.len() == 0
            } else {
                &&& after.log == appended(log, stream_id, turn.batch)
                &&& after.projection.store == turn.work
                &&& after.projection.position == last
                &&& after.leader.watermark == last
                &&& after.leader.last_applied.len() == 0
                &&& after.report.position matches Some(id) && id.0 == last
                &&& after.report.applied == leader.last_applied
                &&& after.report.rejects == turn.rejects
                &&& after.report.question is None
            }
        }),
{
}

/// A leader that prepares a turn holds the events of its batch until they are reported; one whose turn waits
/// for an answer stays as it is.
pub proof fn law_prepared_leader_holds_the_events(leader: LeaderView, turn: LeaderTurnView)
    ensures
        ({
            let after = prepared(leader, turn);
            &&& after.watermark == leader.watermark
            &&& turn.question is Some ==> after == leader
            &&& turn.question is None ==> after.last_applied == turn.batch.map_values(
                |e: EntryView| e.payload,
            ).filter(|p: EntryPayloadView| p is Event).map_values(
                |p: EntryPayloadView| p->Event_0,
            )
        }),
{
    law_events_of_a_chain_are_in_order(turn.batch.map_values(|e: EntryView| e.payload));
}

/// An event that is read joins the open batch, on top of what is committed when it is the first; a marker
/// commits the open batch at its own position. Nothing else is committed, and nothing else changes.
pub proof fn law_marker_commits_what_was_read(
    f: Fold,
    e: EntryView,
    event: EventView,
)
    ensures
        e.payload == EntryPayloadView::Event(event) ==> {
            let after = fold_entry(f, e);
            &&& after.projection == f.projection
            &&& f.inflight is None ==> after.inflight == Some(
                f.projection.store.apply(event, e.timestamp),
            )
            &&& f.inflight matches Some(open) ==> after.inflight == Some(
                open.apply(event, e.timestamp),
            )
        },
        e.payload is Noop ==> {
            let after = fold_entry(f, e);
            &&& after.inflight is None
            &&& f.inflight is None ==> after.projection == f.projection
            &&& f.inflight matches Some(open) ==> after.projection.store == open
                && after.projection.position == e.entry_id.0
        },
        e.payload is Command || e.payload is Reject ==> fold_entry(f, e) == f,
{
}

/// Reading goes on where it stopped: two stretches of a log read one after the other are read as one.
pub proof fn law_reading_goes_on_where_it_stopped(f: Fold, a: Seq<EntryView>, b: Seq<EntryView>)
    ensures
        fold_entries(f, a + b) == fold_entries(fold_entries(f, a), b),
        fold_entries(f, Seq::empty()) == f,
        b.len() == 1 ==> fold_entries(f, b) == fold_entry(f, b[0]),
    decreases b.len(),
{
    if b.len() == 0 {
        assert(a + b =~= a);
    } else {
        law_reading_goes_on_where_it_stopped(f, a, b.drop_last());
        assert((a + b).drop_last() =~= a + b.drop_last());
        if b.len() == 1 {
            assert(b.drop_last() =~= Seq::empty());
        }
    }
}

/// Recovery reads the log from behind the position that is committed, and from nowhere else.
pub proof fn law_recovery_reads_from_behind_its_position(
    projection: ProjectionView,
    a: Seq<EntryView>,
    b: Seq<EntryView>,
    watermark: i64,
)
    requires
        watermark == a.len(),
    ensures
        recovered(projection, a + b, watermark) == fold_entries(
            (Fold { projection, inflight: None }),
            b,
        ).projection,
{
    assert((a + b).skip(a.len() as int) =~= b);
}

/// A leader that follows holds the last event that it read and never falls back: its watermark is that of
/// the cause, when that is later.
pub proof fn law_following_leader_never_falls_back(
    l: LeaderView,
    cause_id: Option<EntryId>,
    event: EventView,
    entries: Seq<EntryView>,
    e: EntryView,
)
    ensures
        ({
            let after = replayed(l, cause_id, event);
            &&& after.last_applied == seq![event]
            &&& after.watermark >= l.watermark
            &&& cause_id matches Some(cause) ==> after.watermark >= cause.0
            &&& after.watermark == l.watermark || (cause_id matches Some(cause) && after.watermark
                == cause.0)
        }),
        leader_after(l, Seq::empty()) == l,
        e.payload matches EntryPayloadView::Event(x) ==> leader_after(l, entries.push(e))
            == replayed(leader_after(l, entries), e.cause_id, x),
        !(e.payload is Event) ==> leader_after(l, entries.push(e)) == leader_after(l, entries),
{
    assert(entries.push(e).drop_last() =~= entries);
}

} // verus!
