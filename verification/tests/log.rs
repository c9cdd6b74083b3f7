//! The log.

use spica_engine::id::{EntryId, StreamId, Timestamp};
use spica_engine::log::{close_batch, InMemoryLogStream, NoopTerminatedLogStream};
use spica_engine::stream_processor::noop;
use spica_engine::types::command::Command;
use spica_engine::types::entry::{Entry, EntryPayload};
use spica_engine::types::meta::ObjectReference;

fn entry(payload: EntryPayload) -> Entry {
    Entry {
        stream_id: StreamId::nil(),
        entry_id: EntryId::nil(),
        cause_id: None,
        timestamp: Timestamp::from_millis(5),
        payload,
    }
}

fn command() -> Entry {
    entry(EntryPayload::Command(Command::CancelTimer {
        timer: ObjectReference::nil(),
    }))
}

#[test]
fn an_append_numbers_its_entries_and_places_them_in_the_stream() {
    let mut log = InMemoryLogStream::new(StreamId(7));
    assert_eq!(log.append(&vec![command(), command()]), EntryId::new(2));
    assert_eq!(log.append(&vec![command()]), EntryId::new(3));
    assert_eq!(log.len(), 3);
    let third = log.read(EntryId::new(3)).unwrap();
    assert_eq!(third.entry_id, EntryId::new(3));
    assert_eq!(third.stream_id, StreamId(7));
    assert!(log.read(EntryId::new(0)).is_none());
    assert!(log.read(EntryId::new(4)).is_none());
}

#[test]
fn a_batch_is_closed_once() {
    let now = Timestamp::from_millis(9);
    let closed = close_batch(vec![command()], now);
    assert_eq!(closed.len(), 2);
    assert_eq!(closed[1].payload, EntryPayload::Noop);
    assert_eq!(closed[1].timestamp, now);
    assert_eq!(closed[1].cause_id, None);
    let again = close_batch(closed, Timestamp::from_millis(10));
    assert_eq!(again.len(), 2);
    assert_eq!(close_batch(vec![], now).len(), 1);
}

#[test]
fn a_terminated_log_ends_with_a_marker() {
    let mut log = NoopTerminatedLogStream::new(InMemoryLogStream::new(StreamId(1)));
    let last = log.append(vec![command()], Timestamp::from_millis(9));
    assert_eq!(last, EntryId::new(2));
    assert_eq!(log.read(last).unwrap().payload, EntryPayload::Noop);
    assert_eq!(log.stream_id(), StreamId(1));
}

#[test]
fn a_marker_names_the_command_of_its_batch() {
    let marker = noop(Timestamp::from_millis(3), StreamId(4), EntryId::new(5));
    assert_eq!(marker.cause_id, Some(EntryId::new(5)));
    assert_eq!(marker.stream_id, StreamId(4));
    assert_eq!(marker.entry_id, EntryId::nil());
    assert_eq!(marker.timestamp, Timestamp::from_millis(3));
    assert_eq!(marker.payload, EntryPayload::Noop);
}
