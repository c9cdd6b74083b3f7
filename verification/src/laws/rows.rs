//! Rows, names and the chain: what is stored is read back, and what is put on the chain stands there.

use vstd::prelude::*;

use crate::handler::World;
use crate::id::{RequestId, Timestamp, Uid};
use crate::laws::{ends_activity, ends_scope, sent, told};
use crate::query::QueryObjectView;
use crate::storage::store::{row_key, rows_by_key, RowKey, StoreView};
use crate::text::{decimal, letters};
use crate::types::command::CommandView;
use crate::types::entry::EntryPayloadView;
use crate::types::error::ExecutionErrorView;
use crate::types::event::EventView;
use crate::types::meta::{
    generated_name, kind_text, lettered_name, name_text, reference_text, ObjectKind, ObjectMetaView,
    ObjectNameView, ObjectReferenceView,
};
use crate::types::reject::{RejectView, RejectionType};
use crate::types::status::TerminationReasonView;

verus! {

/// What is put is read back under its kind and name; nothing else changes, and a new row comes last in the
/// order while an old one keeps its place.
pub proof fn law_row_reads_back(s: StoreView, row: QueryObjectView, key: RowKey)
    ensures
        ({
            let after = s.put(row);
            let at = (row.kind(), name_text(row.name()));
            &&& after.get(row.kind(), row.name()) == Some(row)
            &&& after.row_at(at) == Some(row)
            &&& key != at ==> after.row_at(key) == s.row_at(key)
            &&& after.fault == s.fault
            &&& after.next_seq == s.next_seq
            &&& s.row_at(at) is Some ==> after.order == s.order
            &&& s.row_at(at) is None ==> after.order == s.order.push(at)
        }),
{
}

/// A reference is read by its name, among the rows of the kind that is asked for. A fault is given back
/// instead of any row.
pub proof fn law_reference_is_read_by_its_name(s: StoreView, r: ObjectReferenceView)
    ensures
        s.fault matches Some(e) ==> {
            &&& s.execution(r) matches Err(x) && x == e
            &&& s.thread(r) matches Err(x) && x == e
            &&& s.activity(r) matches Err(x) && x == e
            &&& s.timer(r) matches Err(x) && x == e
            &&& s.task(r) matches Err(x) && x == e
            &&& s.flow(r.name) matches Err(x) && x == e
            &&& s.children(r) matches Err(x) && x == e
        },
        s.fault is None ==> {
            let text = name_text(r.name);
            &&& match s.row_at((ObjectKind::Execution, text)) {
                Some(QueryObjectView::Execution(row)) => s.execution(r) == Ok::<
                    _,
                    ExecutionErrorView,
                >(Some(row)),
                _ => s.execution(r) matches Ok(None),
            }
            &&& match s.row_at((ObjectKind::Thread, text)) {
                Some(QueryObjectView::Thread(row)) => s.thread(r) == Ok::<_, ExecutionErrorView>(
                    Some(row),
                ),
                _ => s.thread(r) matches Ok(None),
            }
            &&& match s.row_at((ObjectKind::Activity, text)) {
                Some(QueryObjectView::Activity(row)) => s.activity(r) == Ok::<
                    _,
                    ExecutionErrorView,
                >(Some(row)),
                _ => s.activity(r) matches Ok(None),
            }
            &&& match s.row_at((ObjectKind::Timer, text)) {
                Some(QueryObjectView::Timer(row)) => s.timer(r) == Ok::<_, ExecutionErrorView>(
                    Some(row),
                ),
                _ => s.timer(r) matches Ok(None),
            }
            &&& match s.row_at((ObjectKind::Task, text)) {
                Some(QueryObjectView::Task(row)) => s.task(r) == Ok::<_, ExecutionErrorView>(
                    Some(row),
                ),
                _ => s.task(r) matches Ok(None),
            }
            &&& match s.row_at((ObjectKind::Flow, text)) {
                Some(QueryObjectView::Flow(row)) => s.flow(r.name) == Ok::<_, ExecutionErrorView>(
                    Some(row),
                ),
                _ => s.flow(r.name) matches Ok(None),
            }
            &&& match s.row_at((r.kind, text)) {
                Some(QueryObjectView::Execution(row)) => s.children(r) == Ok::<
                    _,
                    ExecutionErrorView,
                >(row.active_children),
                Some(QueryObjectView::Thread(row)) => s.children(r) == Ok::<_, ExecutionErrorView>(
                    row.active_children,
                ),
                Some(QueryObjectView::Activity(row)) => s.children(r) == Ok::<
                    _,
                    ExecutionErrorView,
                >(row.active_children),
                _ => s.children(r) matches Ok(c) && c.len() == 0,
            }
        },
{
}

/// A row is of the kind, and has the name, of what it holds.
pub proof fn law_row_shows_its_metadata(row: QueryObjectView)
    ensures
        row.name() == row.meta().name,
        match row {
            QueryObjectView::Flow(x) => row.kind() is Flow && row.meta() == x.meta,
            QueryObjectView::FlowVersion(x) => row.kind() is FlowVersion && row.meta() == x.meta,
            QueryObjectView::Execution(x) => row.kind() is Execution && row.meta() == x.value.meta,
            QueryObjectView::Thread(x) => row.kind() is Thread && row.meta() == x.value.meta,
            QueryObjectView::Activity(x) => row.kind() is Activity && row.meta() == x.value.meta,
            QueryObjectView::Timer(x) => row.kind() is Timer && row.meta() == x.value.meta,
            QueryObjectView::Task(x) => row.kind() is Task && row.meta() == x.value.meta,
        },
{
}

/// Of rows with one key, the last one counts.
pub proof fn law_last_row_of_a_key_counts(rows: Seq<QueryObjectView>, i: int)
    requires
        0 <= i < rows.len(),
        forall|j: int| i < j < rows.len() ==> row_key(#[trigger] rows[j]) != row_key(rows[i]),
    ensures
        rows_by_key(rows).contains_key(row_key(rows[i])),
        rows_by_key(rows)[row_key(rows[i])] == rows[i],
    decreases rows.len(),
{
    if i < rows.len() - 1 {
        let init = rows.drop_last();
        assert forall|j: int| i < j < init.len() implies row_key(#[trigger] init[j]) != row_key(
            init[i],
        ) by {
            assert(init[j] == rows[j]);
        }
        law_last_row_of_a_key_counts(init, i);
        assert(row_key(rows[rows.len() - 1]) != row_key(rows[i]));
    }
}

/// Numbers are drawn one after the other, and a number that was seen is not drawn anymore.
pub proof fn law_numbers_are_drawn_in_turn(s: StoreView, n: u64)
    ensures
        s.next_seq < u64::MAX ==> s.drawn().next_seq == s.next_seq + 1,
        s.drawn().rows == s.rows && s.drawn().order == s.order && s.drawn().fault == s.fault,
        n < u64::MAX ==> s.beyond(Some(n)).next_seq > n,
        n < s.next_seq ==> s.beyond(Some(n)) == s,
        n < u64::MAX && n >= s.next_seq ==> s.beyond(Some(n)).next_seq == n + 1,
        s.beyond(None) == s,
        s.beyond(Some(n)).rows == s.rows && s.beyond(Some(n)).order == s.order && s.beyond(
            Some(n),
        ).fault == s.fault,
{
}

/// A name is its base, with its key behind a hyphen: a number in decimal, or eight letters; a reference is
/// its kind and its name.
pub proof fn law_names_are_written(base: Seq<char>, n: u64, uid: Uid, r: ObjectReferenceView)
    ensures
        ({
            let plain = ObjectNameView { base, key: None };
            &&& name_text(plain) == base
            &&& name_text(generated_name(plain, n)) == base + "-"@ + decimal(n as nat)
            &&& name_text(lettered_name(plain, uid)) == base + "-"@ + letters(
                (uid.0 % 25_600_000_000u128) as nat,
                8,
            )
            &&& generated_name(plain, n).base == base
            &&& lettered_name(plain, uid).base == base
        }),
        reference_text(r) == kind_text(r.kind) + "/"@ + name_text(r.name),
{
}

/// Metadata gives the reference to what it is of; changing it moves its last change and nothing else.
pub proof fn law_metadata_names_its_object(meta: ObjectMetaView, at: Timestamp)
    ensures
        meta.reference().kind == meta.kind,
        meta.reference().name == meta.name,
        meta.reference().uid == meta.uid,
        meta.touched(at).updated_at == at,
        meta.touched(at).created_at == meta.created_at,
        meta.touched(at).owner == meta.owner,
        meta.touched(at).reference() == meta.reference(),
{
}

/// An event is put on the chain and folded into the store, at the instant of the dispatch; a command and a
/// refusal are only put on the chain; an answer is only noted.
pub proof fn law_chain_grows_by_what_is_done(
    w: World,
    event: EventView,
    command: CommandView,
    request_id: RequestId,
    rejection_type: RejectionType,
    why: Seq<char>,
)
    ensures
        w.event(event) == (World {
            chain: w.chain + seq![told(event)],
            store: w.store.apply(event, w.now),
            ..w
        }),
        w.command(command) == (World { chain: w.chain + seq![sent(command)], ..w }),
        w.reject(request_id, rejection_type, why) == (World {
            chain: w.chain + seq![
                EntryPayloadView::Reject(
                    RejectView { request_id, rejection_type, rejection_reason: why },
                ),
            ],
            ..w
        }),
        ({
            let after = w.ack(request_id, event);
            &&& after.acks.drop_last() == w.acks
            &&& after.acks.last().request_id == request_id
            &&& after.acks.last().event == event
            &&& after.chain == w.chain
            &&& after.store == w.store
        }),
        w.minted().next_uid == w.next_uid.wrapping_add(1),
        w.minted().chain == w.chain && w.minted().store == w.store,
        w.drawn().chain == w.chain && w.drawn().store == w.store.drawn(),
{
    assert(w.chain.push(told(event)) =~= w.chain + seq![told(event)]);
    assert(w.chain.push(sent(command)) =~= w.chain + seq![sent(command)]);
    let refusal = EntryPayloadView::Reject(
        RejectView { request_id, rejection_type, rejection_reason: why },
    );
    assert(w.chain.push(refusal) =~= w.chain + seq![refusal]);
    assert(w.ack(request_id, event).acks.drop_last() =~= w.acks);
}

/// An error ends the activity, if there is one, and then its scope, both for it.
pub proof fn law_error_ends_activity_and_scope(
    w: World,
    activity: ObjectReferenceView,
    scope: ObjectReferenceView,
    error: ExecutionErrorView,
)
    ensures
        ({
            let reason = TerminationReasonView::Failed { error };
            &&& w.terminate(Some(activity), scope, error) == (World {
                chain: w.chain + seq![ends_activity(activity, reason)] + ends_scope(scope, reason),
                ..w
            })
            &&& w.terminate(None, scope, error) == (World {
                chain: w.chain + ends_scope(scope, reason),
                ..w
            })
        }),
{
    let reason = TerminationReasonView::Failed { error };
    assert(w.terminate(Some(activity), scope, error).chain =~= w.chain + seq![
        ends_activity(activity, reason),
    ] + ends_scope(scope, reason));
    assert(w.terminate(None, scope, error).chain =~= w.chain + ends_scope(scope, reason));
}

} // verus!
