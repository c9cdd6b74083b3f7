//! `CreateExecution`: starts an execution of a flow version.

use vstd::prelude::*;
use vstd::string::*;

use crate::handler::{machine_of, Collector, HandlerContext, World};
use crate::id::{Timestamp, Uid};
use crate::storage::counter::{keyed, lemma_folding_adds_what_is_carried};
use crate::storage::order::store_ok;
use crate::text::join3;
use crate::types::command::{
    group_command_view, ActivateState, ActivateStateView, Command, CommandView, CreateExecution,
    CreateExecutionView,
};
use crate::types::error::{invalid_definition, ExecutionError};
use crate::types::event::{
    group_event_view, Event, EventView, ExecutionCreated, ExecutionCreatedView,
};
use crate::types::execution::{Execution, ExecutionView};
use crate::types::meta::{
    born_meta, lettered_name, name_text, ObjectKind, ObjectMeta, ObjectReference,
    ObjectReferenceView,
};
use crate::types::reject::RejectionType;
use crate::types::state_path::StatePath;
use crate::types::status::{Lifecycle, LifecycleView};
use crate::types::timer::{Timer, TimerPurpose, TimerStatus, TimerView};
use crate::asl::StateMachine;
use crate::value::{Json, Value};

verus! {

broadcast use {group_command_view, group_event_view};

/// A new execution.
pub open spec fn new_execution(w: World, cmd: CreateExecutionView) -> ExecutionView {
    ExecutionView {
        meta: born_meta(ObjectKind::Execution, cmd.name, Uid(w.next_uid), w.now, None),
        flow_version: cmd.flow_version,
        status: LifecycleView::Running,
        input: cmd.input,
        output: None,
    }
}

/// The path of a state of the top-level table.
pub open spec fn top_level_path(name: Seq<char>) -> Seq<Seq<char>> {
    seq!["States"@, name]
}

/// The command that enters the first state of a machine. The execution is its own owner in it.
pub open spec fn first_activation(
    sm: StateMachine,
    execution: ObjectReferenceView,
    input: Json,
) -> ActivateStateView {
    ActivateStateView {
        execution,
        owner: execution,
        state_path: top_level_path(sm.start_at@),
        input,
    }
}

/// What entering the first state of a machine leaves.
pub open spec fn machine_entered(
    w: World,
    sm: StateMachine,
    execution: ObjectReferenceView,
    input: Json,
) -> World {
    w.command(CommandView::ActivateState(first_activation(sm, execution, input)))
}

/// The timer that ends an execution which takes too long. Two uids are minted: its own, and one that
/// settles the letters behind the name of the execution, so that the counter of generated names
/// stays where it is.
pub open spec fn timeout_timer(
    w: World,
    execution: ObjectReferenceView,
    deadline: Timestamp,
) -> TimerView {
    TimerView {
        meta: born_meta(
            ObjectKind::Timer,
            lettered_name(execution.name, Uid(w.minted().next_uid)),
            Uid(w.next_uid),
            w.now,
            Some(execution),
        ),
        execution,
        purpose: TimerPurpose::ExecutionTimeout,
        status: TimerStatus::Active,
        deadline,
    }
}

/// What arming the timeout of an execution leaves.
pub open spec fn timeout_armed(
    w: World,
    execution: ObjectReferenceView,
    deadline: Timestamp,
) -> World {
    w.minted().minted().event(
        EventView::TimerActivated { timer: timeout_timer(w, execution, deadline) },
    )
}

/// What starting a born execution leaves: its timeout, if it has a positive one, is armed, and the
/// first state is entered. A timeout that cannot be represented, and a name that no timer can be
/// named after, fail the execution instead.
pub open spec fn execution_started(
    w: World,
    sm: StateMachine,
    execution: ObjectReferenceView,
    input: Json,
) -> World {
    match sm.timeout_seconds {
        Some(seconds) if seconds > 0 => match w.now.later(seconds as u64) {
            None => w.terminate(
                None,
                execution,
                invalid_definition("TimeoutSeconds overflows the absolute deadline"@),
            ),
            Some(deadline) => if execution.name.key is Some {
                w.minted().terminate(
                    None,
                    execution,
                    invalid_definition(
                        "cannot derive a child name: execution name is not a plain user name"@,
                    ),
                )
            } else {
                machine_entered(timeout_armed(w, execution, deadline), sm, execution, input)
            },
        },
        _ => machine_entered(w, sm, execution, input),
    }
}

/// What creating an execution leaves. A name that is taken is refused. When the machine cannot be
/// found, the execution fails before it is born. Otherwise it is born, which answers the request, and
/// started.
pub open spec fn execution_creation(
    w: World,
    ctx: HandlerContext,
    cmd: CreateExecutionView,
) -> World {
    let probe = ObjectReferenceView { kind: ObjectKind::Execution, name: cmd.name, uid: Uid(0) };
    if w.store.execution(probe) matches Ok(Some(_)) {
        w.reject(
            cmd.request_id,
            RejectionType::AlreadyExists,
            "create_execution: execution "@ + name_text(cmd.name) + " already exists"@,
        )
    } else {
        let execution = new_execution(w, cmd);
        match machine_of(ctx, cmd.flow_version) {
            Err(e) => w.minted().terminate(None, execution.reference(), e),
            Ok(sm) => {
                let created = EventView::ExecutionCreated(
                    ExecutionCreatedView { request_id: cmd.request_id, execution },
                );
                execution_started(
                    w.minted().ack(cmd.request_id, created).event(created),
                    sm,
                    execution.reference(),
                    cmd.input,
                )
            },
        }
    }
}

/// Creating an execution gives it no thread: a thread is stored under its name afterwards only when
/// one was before.
pub proof fn law_creation_makes_no_thread(w: World, ctx: HandlerContext, cmd: CreateExecutionView)
    requires
        keyed(w.store),
        w.store.get(ObjectKind::Thread, cmd.name) is None,
    ensures
        execution_creation(w, ctx, cmd).store.get(ObjectKind::Thread, cmd.name) is None,
{
    let probe = ObjectReferenceView { kind: ObjectKind::Execution, name: cmd.name, uid: Uid(0) };
    if !(w.store.execution(probe) matches Ok(Some(_))) {
        if let Ok(sm) = machine_of(ctx, cmd.flow_version) {
            let execution = new_execution(w, cmd);
            let created = EventView::ExecutionCreated(
                ExecutionCreatedView { request_id: cmd.request_id, execution },
            );
            lemma_folding_adds_what_is_carried(w.store, created, w.now);
            let born = w.minted().ack(cmd.request_id, created).event(created);
            if let Some(seconds) = sm.timeout_seconds {
                if let Some(deadline) = w.now.later(seconds as u64) {
                    lemma_folding_adds_what_is_carried(
                        born.store,
                        EventView::TimerActivated {
                            timer: timeout_timer(born, execution.reference(), deadline),
                        },
                        w.now,
                    );
                }
            }
        }
    }
}

fn enter_machine(out: &mut Collector, sm: &StateMachine, id: &ObjectReference, input: &Value)
    ensures
        final(out)@ == machine_entered(old(out)@, *sm, id@, input@),
{
    let mut path = StatePath::root();
    path.push_back("States");
    path.push_back(sm.start_at.as_str());
    assert(path@ =~= top_level_path(sm.start_at@));
    out.append_command(
        Command::ActivateState(
            ActivateState {
                execution: id.clone(),
                owner: id.clone(),
                state_path: path,
                input: input.clone(),
            },
        ),
    );
}

fn arm_timeout(out: &mut Collector, id: &ObjectReference, deadline: Timestamp)
    requires
        store_ok(old(out)@.store),
    ensures
        final(out)@ == timeout_armed(old(out)@, id@, deadline),
        store_ok(final(out)@.store),
{
    let uid = out.mint();
    let name = id.name.generated_from_uid(out.mint());
    let timer = Timer {
        meta: ObjectMeta::born(ObjectKind::Timer, name, uid, out.now(), Some(id.clone())),
        execution: id.clone(),
        purpose: TimerPurpose::ExecutionTimeout,
        status: TimerStatus::Active,
        deadline,
    };
    out.append_event(Event::TimerActivated { timer });
}

fn start_execution(out: &mut Collector, sm: &StateMachine, id: &ObjectReference, input: &Value)
    requires
        store_ok(old(out)@.store),
    ensures
        final(out)@ == execution_started(old(out)@, *sm, id@, input@),
        store_ok(final(out)@.store),
{
    if let Some(seconds) = sm.timeout_seconds {
        if seconds > 0 {
            let deadline = match out.now().checked_add(seconds as u64) {
                Some(deadline) => deadline,
                None => {
                    out.terminate(
                        None,
                        id,
                        ExecutionError::invalid_definition(
                            "TimeoutSeconds overflows the absolute deadline".to_owned(),
                        ),
                    );
                    return ;
                },
            };
            if id.name.as_plain().is_none() {
                out.mint();
                out.terminate(
                    None,
                    id,
                    ExecutionError::invalid_definition(
                        "cannot derive a child name: execution name is not a plain user name".to_owned(),
                    ),
                );
                return ;
            }
            arm_timeout(out, id, deadline);
        }
    }
    enter_machine(out, sm, id, input);
}

/// Handles `CreateExecution`.
pub struct CreateExecutionHandler;

impl Default for CreateExecutionHandler {
    fn default() -> (r: Self)
        ensures
            r == CreateExecutionHandler,
    {
        CreateExecutionHandler
    }
}

impl CreateExecutionHandler {
    pub fn handle(&self, p: &CreateExecution, ctx: &HandlerContext, out: &mut Collector)
        requires
            store_ok(old(out)@.store),
        ensures
            final(out)@ == execution_creation(old(out)@, *ctx, p@),
            store_ok(final(out)@.store),
    {
        let probe = ObjectReference::new(ObjectKind::Execution, p.name.clone(), Uid::nil());
        if let Ok(Some(_)) = out.storage().get_execution(&probe) {
            out.reject(
                p.request_id,
                RejectionType::AlreadyExists,
                join3(
                    "create_execution: execution ",
                    p.name.as_str().as_str(),
                    " already exists",
                ),
            );
            return ;
        }
        let uid = out.mint();
        let execution = Execution {
            meta: ObjectMeta::born(ObjectKind::Execution, p.name.clone(), uid, out.now(), None),
            flow_version: p.flow_version.clone(),
            status: Lifecycle::Running,
            input: p.input.clone(),
            output: None,
        };
        let id = execution.reference();
        let sm = match ctx.machine(&p.flow_version) {
            Ok(sm) => sm,
            Err(e) => {
                out.terminate(None, &id, e);
                return ;
            },
        };
        let created = Event::ExecutionCreated(
            ExecutionCreated { request_id: p.request_id, execution },
        );
        out.ack_request(p.request_id, created.clone());
        out.append_event(created);
        start_execution(out, sm, &id, &p.input);
    }
}

} // verus!
