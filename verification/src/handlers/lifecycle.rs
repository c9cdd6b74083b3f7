//! The lifecycle events of executions and threads.

use vstd::prelude::*;

use crate::handler::Collector;
use crate::id::Timestamp;
use crate::storage::order::store_ok;
use crate::types::event::{group_event_view, Event, EventView};
use crate::types::execution::{Execution, ExecutionView};
use crate::types::status::{Lifecycle, LifecycleView, TerminationReason, TerminationReasonView};
use crate::types::thread::{Thread, ThreadView};
use crate::value::{Json, Value};

verus! {

broadcast use group_event_view;

/// An execution that completes with `output`, since `now`.
pub open spec fn completing_execution(x: ExecutionView, output: Json, now: Timestamp) -> ExecutionView {
    ExecutionView {
        meta: x.meta.touched(now),
        status: LifecycleView::Completing,
        output: Some(output),
        ..x
    }
}

/// Records it.
pub fn emit_completing_execution(out: &mut Collector, x: &Execution, output: &Value)
    requires
        store_ok(old(out)@.store),
        x@.meta.kind is Execution,
    ensures
        final(out)@ == old(out)@.event(
            EventView::ExecutionCompleting { execution: completing_execution(x@, output@, old(out)@.now) },
        ),
        store_ok(final(out)@.store),
{
    let mut execution = x.clone();
    execution.status = Lifecycle::Completing;
    execution.output = Some(output.clone());
    execution.meta.with_update_at(out.now());
    out.append_event(Event::ExecutionCompleting { execution });
}

/// An execution that completed at `now` with `output`.
pub open spec fn completed_execution(x: ExecutionView, output: Json, now: Timestamp) -> ExecutionView {
    ExecutionView {
        meta: x.meta.touched(now),
        status: LifecycleView::Completed,
        output: Some(output),
        ..x
    }
}

/// Records it.
pub fn emit_completed_execution(out: &mut Collector, x: &Execution, output: &Value)
    requires
        store_ok(old(out)@.store),
        x@.meta.kind is Execution,
    ensures
        final(out)@ == old(out)@.event(
            EventView::ExecutionCompleted { execution: completed_execution(x@, output@, old(out)@.now) },
        ),
        store_ok(final(out)@.store),
{
    let mut execution = x.clone();
    execution.status = Lifecycle::Completed;
    execution.output = Some(output.clone());
    execution.meta.with_update_at(out.now());
    out.append_event(Event::ExecutionCompleted { execution });
}

/// An execution that terminates, since `now`.
pub open spec fn terminating_execution(
    x: ExecutionView,
    reason: TerminationReasonView,
    now: Timestamp,
) -> ExecutionView {
    ExecutionView { meta: x.meta.touched(now), status: LifecycleView::Terminating(reason), ..x }
}

/// Records it.
pub fn emit_terminating_execution(out: &mut Collector, x: &Execution, reason: &TerminationReason)
    requires
        store_ok(old(out)@.store),
        x@.meta.kind is Execution,
    ensures
        final(out)@ == old(out)@.event(
            EventView::ExecutionTerminating { execution: terminating_execution(x@, reason@, old(out)@.now) },
        ),
        store_ok(final(out)@.store),
{
    let mut execution = x.clone();
    execution.status = Lifecycle::Terminating(reason.clone());
    execution.meta.with_update_at(out.now());
    out.append_event(Event::ExecutionTerminating { execution });
}

/// An execution that terminated at `now`.
pub open spec fn terminated_execution(
    x: ExecutionView,
    reason: TerminationReasonView,
    now: Timestamp,
) -> ExecutionView {
    ExecutionView { meta: x.meta.touched(now), status: LifecycleView::Terminated(reason), ..x }
}

/// Records it.
pub fn emit_terminated_execution(out: &mut Collector, x: &Execution, reason: &TerminationReason)
    requires
        store_ok(old(out)@.store),
        x@.meta.kind is Execution,
    ensures
        final(out)@ == old(out)@.event(
            EventView::ExecutionTerminated { execution: terminated_execution(x@, reason@, old(out)@.now) },
        ),
        store_ok(final(out)@.store),
{
    let mut execution = x.clone();
    execution.status = Lifecycle::Terminated(reason.clone());
    execution.meta.with_update_at(out.now());
    out.append_event(Event::ExecutionTerminated { execution });
}

/// A thread that completes with `output`, since `now`.
pub open spec fn completing_thread(x: ThreadView, output: Json, now: Timestamp) -> ThreadView {
    ThreadView {
        meta: x.meta.touched(now),
        status: LifecycleView::Completing,
        output: Some(output),
        ..x
    }
}

/// Records it.
pub fn emit_completing_thread(out: &mut Collector, x: &Thread, output: &Value)
    requires
        store_ok(old(out)@.store),
        x@.meta.kind is Thread,
    ensures
        final(out)@ == old(out)@.event(
            EventView::ThreadCompleting { thread: completing_thread(x@, output@, old(out)@.now) },
        ),
        store_ok(final(out)@.store),
{
    let mut thread = x.clone();
    thread.status = Lifecycle::Completing;
    thread.output = Some(output.clone());
    thread.meta.with_update_at(out.now());
    out.append_event(Event::ThreadCompleting { thread });
}

/// A thread that completed at `now` with `output`.
pub open spec fn completed_thread(x: ThreadView, output: Json, now: Timestamp) -> ThreadView {
    ThreadView {
        meta: x.meta.touched(now),
        status: LifecycleView::Completed,
        output: Some(output),
        ..x
    }
}

/// Records it.
pub fn emit_completed_thread(out: &mut Collector, x: &Thread, output: &Value)
    requires
        store_ok(old(out)@.store),
        x@.meta.kind is Thread,
    ensures
        final(out)@ == old(out)@.event(
            EventView::ThreadCompleted { thread: completed_thread(x@, output@, old(out)@.now) },
        ),
        store_ok(final(out)@.store),
{
    let mut thread = x.clone();
    thread.status = Lifecycle::Completed;
    thread.output = Some(output.clone());
    thread.meta.with_update_at(out.now());
    out.append_event(Event::ThreadCompleted { thread });
}

/// A thread that terminates, since `now`.
pub open spec fn terminating_thread(
    x: ThreadView,
    reason: TerminationReasonView,
    now: Timestamp,
) -> ThreadView {
    ThreadView { meta: x.meta.touched(now), status: LifecycleView::Terminating(reason), ..x }
}

/// Records it.
pub fn emit_terminating_thread(out: &mut Collector, x: &Thread, reason: &TerminationReason)
    requires
        store_ok(old(out)@.store),
        x@.meta.kind is Thread,
    ensures
        final(out)@ == old(out)@.event(
            EventView::ThreadTerminating { thread: terminating_thread(x@, reason@, old(out)@.now) },
        ),
        store_ok(final(out)@.store),
{
    let mut thread = x.clone();
    thread.status = Lifecycle::Terminating(reason.clone());
    thread.meta.with_update_at(out.now());
    out.append_event(Event::ThreadTerminating { thread });
}

/// A thread that terminated at `now`.
pub open spec fn terminated_thread(
    x: ThreadView,
    reason: TerminationReasonView,
    now: Timestamp,
) -> ThreadView {
    ThreadView { meta: x.meta.touched(now), status: LifecycleView::Terminated(reason), ..x }
}

/// Records it.
pub fn emit_terminated_thread(out: &mut Collector, x: &Thread, reason: &TerminationReason)
    requires
        store_ok(old(out)@.store),
        x@.meta.kind is Thread,
    ensures
        final(out)@ == old(out)@.event(
            EventView::ThreadTerminated { thread: terminated_thread(x@, reason@, old(out)@.now) },
        ),
        store_ok(final(out)@.store),
{
    let mut thread = x.clone();
    thread.status = Lifecycle::Terminated(reason.clone());
    thread.meta.with_update_at(out.now());
    out.append_event(Event::ThreadTerminated { thread });
}

/// A value, or null in place of none.
pub open spec fn or_null(value: Option<Json>) -> Json {
    match value {
        Some(v) => v,
        None => Json::Null,
    }
}

/// A value, or null in place of none.
pub fn value_or_null(value: &Option<Value>) -> (r: Value)
    ensures
        r@ == or_null(value.deep_view()),
{
    match value {
        Some(v) => v.clone(),
        None => Value::Null,
    }
}

} // verus!
