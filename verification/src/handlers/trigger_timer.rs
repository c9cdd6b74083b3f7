//! `TriggerTimer`: what happens when the deadline of a timer has passed.

use vstd::prelude::*;

use crate::handler::{Collector, HandlerContext, World};
use crate::handlers::lifecycle::{or_null, value_or_null};
use crate::handlers::shared::settled_timer;
use crate::id::Timestamp;
use crate::query::QueryObjectView;
use crate::storage::order::{row_ok, store_ok};
use crate::storage::store::{row_key, without_one, StoreView};
use crate::text::{join3, signed_decimal, signed_decimal_text};
use crate::types::command::{
    group_command_view, Command, CommandView, CompleteState, CompleteStateView, FailTask,
    FailTaskView,
};
use crate::types::error::{
    ExecutionError, ExecutionErrorView, RuntimeError, RuntimeErrorView,
};
use crate::types::event::{group_event_view, Event, EventView};
use crate::types::meta::{name_text, ObjectKind, ObjectReference, ObjectReferenceView};
use crate::types::status::{failed, TerminationReason};
use crate::types::timer::{TimerPurpose, TimerStatus, TimerView};
use crate::value::{Json, Value};

verus! {

broadcast use {group_command_view, group_event_view};

/// The error of something that ran past its deadline.
pub open spec fn overdue(what: Seq<char>, deadline: Timestamp) -> ExecutionErrorView {
    ExecutionErrorView::Runtime(
        RuntimeErrorView::TimedOut {
            message: what + signed_decimal(deadline.0 as int) + ")"@,
        },
    )
}

/// The error of something that ran past its deadline.
fn overdue_error(what: &str, deadline: Timestamp) -> (r: ExecutionError)
    ensures
        r@ == overdue(what@, deadline),
{
    let millis = signed_decimal_text(deadline.as_millis());
    ExecutionError::Runtime(
        RuntimeError::TimedOut { message: join3(what, millis.as_str(), ")") },
    )
}

/// The first task among `children`.
pub open spec fn first_task(children: Seq<ObjectReferenceView>) -> Option<ObjectReferenceView>
    decreases children.len(),
{
    if children.len() == 0 {
        None
    } else if children.first().kind is Task {
        Some(children.first())
    } else {
        first_task(children.drop_first())
    }
}

/// The task of an activity that is in flight.
pub open spec fn task_in_flight(s: StoreView, activity: ObjectReferenceView) -> Option<
    ObjectReferenceView,
> {
    match s.children(activity) {
        Ok(children) => first_task(children),
        Err(_) => None,
    }
}

/// What a timer that has fired brings about. A `Wait` resumes with its processed input. A task that
/// is in flight past its timeout fails, and one past its lease is put back. A scope past its timeout
/// is terminated.
pub open spec fn expired(w: World, t: TimerView) -> World {
    let owner = t.meta.owner->0;
    match t.purpose {
        TimerPurpose::WaitResume => if owner.kind is Activity {
            w.command(
                CommandView::CompleteState(
                    CompleteStateView {
                        activity: owner,
                        output: match w.store.activity(owner) {
                            Ok(Some(row)) => or_null(row.value.input),
                            _ => Json::Null,
                        },
                    },
                ),
            )
        } else {
            w
        },
        TimerPurpose::TaskTimeout => if owner.kind is Activity {
            match task_in_flight(w.store, owner) {
                Some(task) => w.command(
                    CommandView::FailTask(
                        FailTaskView {
                            task,
                            worker_id: Seq::empty(),
                            error: overdue(
                                "task ran past its TimeoutSeconds deadline ("@,
                                t.deadline,
                            ),
                        },
                    ),
                ),
                None => w,
            }
        } else {
            w
        },
        TimerPurpose::DeliveryLease => if owner.kind is Activity {
            match task_in_flight(w.store, owner) {
                Some(task) => w.command(CommandView::ReleaseTaskLease { task }),
                None => w,
            }
        } else {
            w
        },
        TimerPurpose::ExecutionTimeout => w.scope_termination(
            owner,
            failed(overdue("execution ran past its TimeoutSeconds deadline ("@, t.deadline)),
        ),
    }
}

/// What the passing of a deadline leaves: a timer that is armed fires, and brings about what it is
/// for. Any other, and one that is gone, is left alone.
pub open spec fn timer_trigger(w: World, timer: ObjectReferenceView) -> World {
    match w.store.timer(timer) {
        Ok(Some(row)) => if row.value.status is Active {
            expired(
                w.event(
                    EventView::TimerTriggered {
                        timer: settled_timer(row.value, TimerStatus::Completed, w.now),
                    },
                ),
                row.value,
            )
        } else {
            w
        },
        _ => w,
    }
}

/// A timer that has fired or was cancelled does not fire again.
pub proof fn law_timer_fires_once(w: World, timer: ObjectReferenceView)
    requires
        w.store.timer(timer) matches Ok(Some(row)) && !(row.value.status is Active),
    ensures
        timer_trigger(w, timer) == w,
{
}

/// A deadline that is reported twice fires the timer once.
pub proof fn law_second_trigger_is_idle(w: World, later: World, timer: ObjectReferenceView)
    requires
        store_ok(w.store),
        later.store == timer_trigger(w, timer).store,
    ensures
        timer_trigger(later, timer) == later,
{
    reveal(StoreView::apply);
    reveal(StoreView::fold_rows);
    reveal(StoreView::store_timer);
    reveal(StoreView::detach);
    reveal(StoreView::without_child);
    assert(w.store.rows.contains_key((ObjectKind::Timer, name_text(timer.name))) ==> row_key(
        w.store.rows[(ObjectKind::Timer, name_text(timer.name))],
    ) == (ObjectKind::Timer, name_text(timer.name)));
    if let Ok(Some(row)) = w.store.timer(timer) {
        if row.value.status is Active {
            let owner = row.value.meta.owner->0;
            let fired = settled_timer(row.value, TimerStatus::Completed, w.now);
            let stored = w.store.store_timer(fired, w.now);
            assert(stored.rows.contains_key((owner.kind, name_text(owner.name))) ==> w.store.rows.contains_key(
                (owner.kind, name_text(owner.name)),
            ));
        }
    }
}

proof fn lemma_first_task_pushed(children: Seq<ObjectReferenceView>, last: ObjectReferenceView)
    ensures
        first_task(children.push(last)) == match first_task(children) {
            Some(task) => Some(task),
            None => if last.kind is Task {
                Some(last)
            } else {
                None
            },
        },
    decreases children.len(),
{
    let pushed = children.push(last);
    if children.len() == 0 {
        assert(pushed.drop_first() =~= Seq::empty());
        assert(first_task(pushed.drop_first()) is None);
    } else {
        assert(pushed.first() == children.first());
        assert(pushed.drop_first() =~= children.drop_first().push(last));
        lemma_first_task_pushed(children.drop_first(), last);
    }
}

proof fn lemma_first_task_without(children: Seq<ObjectReferenceView>, child: ObjectReferenceView)
    requires
        !(child.kind is Task),
    ensures
        first_task(without_one(children, child)) == first_task(children),
    decreases children.len(),
{
    if children.len() > 0 {
        let init = children.drop_last();
        assert(children =~= init.push(children.last()));
        lemma_first_task_without(init, child);
        lemma_first_task_pushed(init, children.last());
        lemma_first_task_pushed(without_one(init, child), children.last());
    }
}

/// The firing of a timer leaves the task of its activity in flight: what its deadline or its lease
/// brings about reaches that task.
pub proof fn law_fired_timer_leaves_the_task(
    w: World,
    timer: ObjectReferenceView,
    activity: ObjectReferenceView,
)
    requires
        store_ok(w.store),
    ensures
        task_in_flight(timer_trigger(w, timer).store, activity) == task_in_flight(
            w.store,
            activity,
        ),
{
    reveal(StoreView::apply);
    reveal(StoreView::fold_rows);
    reveal(StoreView::store_timer);
    reveal(StoreView::detach);
    reveal(StoreView::without_child);
    let key = (ObjectKind::Timer, name_text(timer.name));
    let place = (activity.kind, name_text(activity.name));
    assert(w.store.rows.contains_key(key) ==> row_key(w.store.rows[key]) == key && row_ok(
        w.store.rows[key],
    ));
    assert(w.store.rows.contains_key(place) ==> row_key(w.store.rows[place]) == place);
    if let Ok(Some(row)) = w.store.timer(timer) {
        if row.value.status is Active {
            let owner = row.value.meta.owner->0;
            let home = (owner.kind, name_text(owner.name));
            let fired = settled_timer(row.value, TimerStatus::Completed, w.now);
            let stored = w.store.store_timer(fired, w.now);
            assert(stored.rows.contains_key(home) ==> w.store.rows.contains_key(home));
            assert(w.store.rows.contains_key(home) ==> row_key(w.store.rows[home]) == home);
            match w.store.row_at(place) {
                Some(QueryObjectView::Execution(x)) => {
                    lemma_first_task_without(x.active_children, fired.reference());
                },
                Some(QueryObjectView::Thread(x)) => {
                    lemma_first_task_without(x.active_children, fired.reference());
                },
                Some(QueryObjectView::Activity(x)) => {
                    lemma_first_task_without(x.active_children, fired.reference());
                },
                _ => {},
            }
        }
    }
}

fn find_task(children: &Vec<ObjectReference>) -> (r: Option<ObjectReference>)
    ensures
        r.deep_view() == first_task(children.deep_view()),
{
    let ghost all = children.deep_view();
    let mut i: usize = 0;
    assert(all.skip(0) =~= all);
    while i < children.len()
        invariant
            i <= children.len(),
            all == children.deep_view(),
            first_task(all) == first_task(all.skip(i as int)),
        decreases children.len() - i,
    {
        let ghost rest = all.skip(i as int);
        assert(rest.first() == children@[i as int]@);
        assert(rest.drop_first() =~= all.skip(i as int + 1));
        if children[i].kind == ObjectKind::Task {
            return Some(children[i].clone());
        }
        i += 1;
    }
    assert(all.skip(all.len() as int) =~= Seq::empty());
    None
}

fn find_in_flight(out: &Collector, activity: &ObjectReference) -> (r: Option<ObjectReference>)
    ensures
        r.deep_view() == task_in_flight(out@.store, activity@),
{
    match out.storage().get_children(activity) {
        Ok(children) => find_task(&children),
        Err(_) => None,
    }
}

/// Handles `TriggerTimer`.
pub struct TriggerTimerHandler;

impl Default for TriggerTimerHandler {
    fn default() -> (r: Self)
        ensures
            r == TriggerTimerHandler,
    {
        TriggerTimerHandler
    }
}

impl TriggerTimerHandler {
    pub fn handle(&self, timer: &ObjectReference, ctx: &HandlerContext, out: &mut Collector)
        requires
            store_ok(old(out)@.store),
        ensures
            final(out)@ == timer_trigger(old(out)@, timer@),
            store_ok(final(out)@.store),
    {
        let row = match out.storage().get_timer(timer) {
            Ok(Some(t)) => t,
            _ => return ,
        };
        if row.value.status != TimerStatus::Active {
            return ;
        }
        let mut fired = row.value.clone();
        fired.status = TimerStatus::Completed;
        fired.meta.with_update_at(out.now());
        out.append_event(Event::TimerTriggered { timer: fired });
        let owner = row.value.meta.owner.clone().unwrap();
        let deadline = row.value.deadline;
        match row.value.purpose {
            TimerPurpose::WaitResume => {
                if owner.kind != ObjectKind::Activity {
                    return ;
                }
                let output = match out.storage().get_activity(&owner) {
                    Ok(Some(act)) => value_or_null(&act.value.input),
                    _ => Value::Null,
                };
                out.append_command(
                    Command::CompleteState(CompleteState { activity: owner, output }),
                );
            },
            TimerPurpose::TaskTimeout => {
                if owner.kind != ObjectKind::Activity {
                    return ;
                }
                let task = match find_in_flight(out, &owner) {
                    Some(task) => task,
                    None => return ,
                };
                let worker_id = String::new();
                assert(worker_id@ =~= Seq::empty());
                let error = overdue_error("task ran past its TimeoutSeconds deadline (", deadline);
                out.append_command(Command::FailTask(FailTask { task, worker_id, error }));
            },
            TimerPurpose::DeliveryLease => {
                if owner.kind != ObjectKind::Activity {
                    return ;
                }
                let task = match find_in_flight(out, &owner) {
                    Some(task) => task,
                    None => return ,
                };
                out.append_command(Command::ReleaseTaskLease { task });
            },
            TimerPurpose::ExecutionTimeout => {
                let error = overdue_error(
                    "execution ran past its TimeoutSeconds deadline (",
                    deadline,
                );
                out.emit_scope_termination(&owner, TerminationReason::Failed { error });
            },
        }
    }
}

} // verus!
