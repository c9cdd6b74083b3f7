//! The entries of the log.

use vstd::prelude::*;

use crate::id::{EntryId, StreamId, Timestamp};
use crate::types::command::{Command, CommandView};
use crate::types::event::{Event, EventView};
use crate::types::reject::{Reject, RejectView};

verus! {

/// What an entry of the log records. A `Noop` closes the batch of entries that one command produced.
#[derive(Debug, PartialEq, Eq)]
pub enum EntryPayload {
    Command(Command),
    Event(Event),
    Reject(Reject),
    Noop,
}

/// What a [`EntryPayload`] holds.
pub enum EntryPayloadView {
    Command(CommandView),
    Event(EventView),
    Reject(RejectView),
    Noop,
}

impl View for EntryPayload {
    type V = EntryPayloadView;

    open spec fn view(&self) -> EntryPayloadView {
        match self {
            EntryPayload::Command(x) => EntryPayloadView::Command(x@),
            EntryPayload::Event(x) => EntryPayloadView::Event(x@),
            EntryPayload::Reject(x) => EntryPayloadView::Reject(x@),
            EntryPayload::Noop => EntryPayloadView::Noop,
        }
    }
}

impl DeepView for EntryPayload {
    type V = EntryPayloadView;

    open spec fn deep_view(&self) -> EntryPayloadView {
        self.view()
    }
}

impl Clone for EntryPayload {
    fn clone(&self) -> (r: Self)
        ensures
            r@ == self@,
    {
        match self {
            EntryPayload::Command(x) => EntryPayload::Command(x.clone()),
            EntryPayload::Event(x) => EntryPayload::Event(x.clone()),
            EntryPayload::Reject(x) => EntryPayload::Reject(x.clone()),
            EntryPayload::Noop => EntryPayload::Noop,
        }
    }
}

/// One entry of the log.
#[derive(Debug, PartialEq, Eq)]
pub struct Entry {
    pub stream_id: StreamId,
    pub entry_id: EntryId,
    /// The command that this entry follows from.
    pub cause_id: Option<EntryId>,
    pub timestamp: Timestamp,
    pub payload: EntryPayload,
}

/// What a [`Entry`] holds.
pub struct EntryView {
    pub stream_id: StreamId,
    pub entry_id: EntryId,
    pub cause_id: Option<EntryId>,
    pub timestamp: Timestamp,
    pub payload: EntryPayloadView,
}

impl View for Entry {
    type V = EntryView;

    open spec fn view(&self) -> EntryView {
        EntryView {
            stream_id: self.stream_id,
            entry_id: self.entry_id,
            cause_id: self.cause_id,
            timestamp: self.timestamp,
            payload: self.payload@,
        }
    }
}

impl DeepView for Entry {
    type V = EntryView;

    open spec fn deep_view(&self) -> EntryView {
        self.view()
    }
}

impl Clone for Entry {
    fn clone(&self) -> (r: Self)
        ensures
            r@ == self@,
    {
        Entry {
            stream_id: self.stream_id,
            entry_id: self.entry_id,
            cause_id: self.cause_id,
            timestamp: self.timestamp,
            payload: self.payload.clone(),
        }
    }
}

} // verus!
