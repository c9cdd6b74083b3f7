//! The log: the entries of a stream in their order, each append closed by a marker.

use vstd::prelude::*;

use crate::id::{EntryId, StreamId, Timestamp};
use crate::types::entry::{Entry, EntryPayload, EntryPayloadView, EntryView};

verus! {

/// The marker that ends a batch.
pub open spec fn noop_entry(stream_id: StreamId, cause_id: Option<EntryId>, now: Timestamp) -> EntryView {
    EntryView {
        stream_id,
        entry_id: EntryId(0),
        cause_id,
        timestamp: now,
        payload: EntryPayloadView::Noop,
    }
}

/// Whether a batch ends with a marker.
pub open spec fn is_closed(entries: Seq<EntryView>) -> bool {
    entries.len() > 0 && entries.last().payload is Noop
}

/// A batch with a marker at its end: one that has none gets one that is caused by nothing.
pub open spec fn closed(entries: Seq<EntryView>, now: Timestamp) -> Seq<EntryView> {
    if is_closed(entries) {
        entries
    } else {
        entries.push(noop_entry(StreamId(0), None, now))
    }
}

/// Closes a batch.
pub fn close_batch(entries: Vec<Entry>, now: Timestamp) -> (r: Vec<Entry>)
    ensures
        r.deep_view() == closed(entries.deep_view(), now),
{
    let ghost before = entries.deep_view();
    let mut entries = entries;
    let n = entries.len();
    if n > 0 {
        assert(before.last() == entries@[n - 1]@);
        if let EntryPayload::Noop = &entries[n - 1].payload {
            return entries;
        }
    }
    entries.push(
        Entry {
            stream_id: StreamId::nil(),
            entry_id: EntryId::nil(),
            cause_id: None,
            timestamp: now,
            payload: EntryPayload::Noop,
        },
    );
    assert(entries.deep_view() =~= before.push(noop_entry(StreamId(0), None, now)));
    entries
}

/// A closed batch ends with a marker, keeps what it held, and is not closed again.
pub proof fn law_closing_is_idempotent(entries: Seq<EntryView>, now: Timestamp, later: Timestamp)
    ensures
        is_closed(closed(entries, now)),
        entries.is_prefix_of(closed(entries, now)),
        closed(closed(entries, now), later) == closed(entries, now),
{
}

/// An entry placed at `position` of a stream.
pub open spec fn placed(e: EntryView, stream_id: StreamId, position: int) -> EntryView {
    EntryView { stream_id, entry_id: EntryId(position as i64), ..e }
}

/// The entries of a log after an append: the new ones follow, numbered on.
pub open spec fn appended(
    log: Seq<EntryView>,
    stream_id: StreamId,
    entries: Seq<EntryView>,
) -> Seq<EntryView> {
    log + Seq::new(
        entries.len(),
        |i: int| placed(entries[i], stream_id, log.len() + i + 1),
    )
}

/// A log in memory. Positions count from one.
#[derive(Debug, PartialEq, Eq)]
pub struct InMemoryLogStream {
    stream_id: StreamId,
    entries: Vec<Entry>,
}

impl View for InMemoryLogStream {
    type V = Seq<EntryView>;

    closed spec fn view(&self) -> Seq<EntryView> {
        self.entries.deep_view()
    }
}

impl InMemoryLogStream {
    /// The stream that the log holds.
    pub closed spec fn stream(self) -> StreamId {
        self.stream_id
    }

    /// An empty log.
    pub fn new(stream_id: StreamId) -> (r: InMemoryLogStream)
        ensures
            r@ == Seq::<EntryView>::empty(),
            r.stream() == stream_id,
    {
        let r = InMemoryLogStream { stream_id, entries: Vec::new() };
        assert(r@ =~= Seq::empty());
        r
    }

    /// The stream that the log holds.
    pub fn stream_id(&self) -> (r: StreamId)
        ensures
            r == self.stream(),
    {
        self.stream_id
    }

    /// The number of entries, which is the position of the last one.
    pub fn len(&self) -> (r: usize)
        ensures
            r == self@.len(),
    {
        self.entries.len()
    }

    /// The entries, in order.
    pub fn entries(&self) -> (r: &Vec<Entry>)
        ensures
            r.deep_view() == self@,
    {
        &self.entries
    }

    /// Appends a batch, and gives the position of its last entry, or of the last entry before it
    /// when it is empty.
    pub fn append(&mut self, batch: &Vec<Entry>) -> (r: EntryId)
        requires
            old(self)@.len() + batch@.len() <= i64::MAX,
            old(self)@.len() + batch@.len() <= usize::MAX,
        ensures
            final(self)@ == appended(old(self)@, old(self).stream(), batch.deep_view()),
            final(self).stream() == old(self).stream(),
            r.0 == final(self)@.len(),
    {
        let ghost before = self@;
        let ghost new = batch.deep_view();
        let mut i: usize = 0;
        while i < batch.len()
            invariant
                i <= batch.len(),
                new == batch.deep_view(),
                before.len() + batch@.len() <= i64::MAX,
                before.len() + batch@.len() <= usize::MAX,
                self.stream_id == old(self).stream_id,
                self@ == appended(before, self.stream_id, new.take(i as int)),
            decreases batch.len() - i,
        {
            let ghost so_far = self@;
            assert(new[i as int] == batch@[i as int]@);
            assert(self.entries@.len() == so_far.len());
            let mut entry = batch[i].clone();
            entry.stream_id = self.stream_id;
            entry.entry_id = EntryId::new(self.entries.len() as i64 + 1);
            self.entries.push(entry);
            assert(self@ =~= so_far.push(placed(new[i as int], self.stream_id, so_far.len() as int + 1)));
            assert(self@ =~= appended(before, self.stream_id, new.take(i as int + 1)));
            i += 1;
        }
        assert(new.take(new.len() as int) =~= new);
        assert(self.entries@.len() == self@.len());
        EntryId::new(self.entries.len() as i64)
    }

    /// The entry at a position; `None` before the first and past the last.
    pub fn read(&self, entry_id: EntryId) -> (r: Option<&Entry>)
        ensures
            match r {
                Some(e) => 1 <= entry_id.0 <= self@.len() && e@ == self@[entry_id.0 - 1],
                None => entry_id.0 < 1 || entry_id.0 > self@.len(),
            },
    {
        let position = entry_id.get();
        assert(self.entries@.len() == self@.len());
        if position < 1 || position as u64 > self.entries.len() as u64 {
            None
        } else {
            assert(self@[position - 1] == self.entries@[position - 1]@);
            Some(&self.entries[(position - 1) as usize])
        }
    }
}

/// A log that closes every append.
#[derive(Debug, PartialEq, Eq)]
pub struct NoopTerminatedLogStream {
    inner: InMemoryLogStream,
}

impl View for NoopTerminatedLogStream {
    type V = Seq<EntryView>;

    closed spec fn view(&self) -> Seq<EntryView> {
        self.inner@
    }
}

impl NoopTerminatedLogStream {
    /// The stream that the log holds.
    pub closed spec fn stream(self) -> StreamId {
        self.inner.stream()
    }

    /// Closes every append to `inner`.
    pub fn new(inner: InMemoryLogStream) -> (r: NoopTerminatedLogStream)
        ensures
            r@ == inner@,
            r.stream() == inner.stream(),
    {
        NoopTerminatedLogStream { inner }
    }

    /// The stream that the log holds.
    pub fn stream_id(&self) -> (r: StreamId)
        ensures
            r == self.stream(),
    {
        self.inner.stream_id()
    }

    /// Appends a batch, with a marker at its end.
    pub fn append(&mut self, entries: Vec<Entry>, now: Timestamp) -> (r: EntryId)
        requires
            old(self)@.len() + entries@.len() < i64::MAX,
            old(self)@.len() + entries@.len() < usize::MAX,
        ensures
            final(self)@ == appended(
                old(self)@,
                old(self).stream(),
                closed(entries.deep_view(), now),
            ),
            final(self).stream() == old(self).stream(),
            r.0 == final(self)@.len(),
    {
        let batch = close_batch(entries, now);
        assert(batch@.len() == batch.deep_view().len());
        self.inner.append(&batch)
    }

    /// The entry at a position; `None` before the first and past the last.
    pub fn read(&self, entry_id: EntryId) -> (r: Option<&Entry>)
        ensures
            match r {
                Some(e) => 1 <= entry_id.0 <= self@.len() && e@ == self@[entry_id.0 - 1],
                None => entry_id.0 < 1 || entry_id.0 > self@.len(),
            },
    {
        self.inner.read(entry_id)
    }
}

/// Whatever is appended, a log that closes every append ends with a marker.
pub proof fn law_log_ends_closed(
    log: Seq<EntryView>,
    stream_id: StreamId,
    entries: Seq<EntryView>,
    now: Timestamp,
)
    ensures
        is_closed(appended(log, stream_id, closed(entries, now))),
{
    let batch = closed(entries, now);
    let after = appended(log, stream_id, batch);
    assert(after.last() == placed(batch.last(), stream_id, (log.len() + batch.len()) as int));
}

} // verus!
