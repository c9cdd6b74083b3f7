//! From a state to its handler, and from a command to its handler.

use vstd::prelude::*;

use crate::asl::State;
use crate::handler::{Collector, HandlerContext, World};
use crate::handlers::activate_state::{state_activation, ActivateStateHandler};
use crate::handlers::activate_task::{pending_task, ActivateTaskHandler};
use crate::handlers::assign_task::{claim, ClaimTasksHandler};
use crate::handlers::cancel_task::{task_cancellation, CancelTaskHandler};
use crate::handlers::cancel_timer::{timer_cancellation, CancelTimerHandler};
use crate::handlers::complete_execution::{execution_completion, CompleteExecutionHandler};
use crate::handlers::complete_state::{state_completion, CompleteStateHandler};
use crate::handlers::complete_task::{task_completion, CompleteTaskHandler};
use crate::handlers::complete_thread::{thread_completion, CompleteThreadHandler};
use crate::handlers::continue_::{
    node_finished, ContinueCompleteHandler, ContinueTerminateHandler,
};
use crate::handlers::create_execution::{execution_creation, CreateExecutionHandler};
use crate::handlers::create_flow::{flow_creation, CreateFlowHandler};
use crate::handlers::fail_task::{can_count_retry, retry_countable, task_failure, FailTaskHandler};
use crate::handlers::process_child_completed::{reaction, ProcessChildCompletedHandler};
use crate::handlers::release_task_lease::{lease_release, ReleaseTaskLeaseHandler};
use crate::handlers::spawn_thread::{find_scope, spawning_scope, thread_spawn, SpawnThreadHandler};
use crate::handlers::state_handler::{
    kind_of, StateHandler, StateHandlerFactory, StateHandlerRegistry, StateKind,
};
use crate::handlers::states::choice::ChoiceStateHandlerFactory;
use crate::handlers::states::fail::FailStateHandlerFactory;
use crate::handlers::states::map::MapStateHandlerFactory;
use crate::handlers::states::parallel::ParallelStateHandlerFactory;
use crate::handlers::states::pass::PassStateHandlerFactory;
use crate::handlers::states::succeed::SucceedStateHandlerFactory;
use crate::handlers::states::task::TaskStateHandlerFactory;
use crate::handlers::states::wait::WaitStateHandlerFactory;

use crate::handlers::terminate_execution::{execution_termination, TerminateExecutionHandler};
use crate::handlers::terminate_state::{state_termination, TerminateStateHandler};
use crate::handlers::terminate_thread::{thread_termination, TerminateThreadHandler};
use crate::handlers::trigger_timer::{timer_trigger, TriggerTimerHandler};
use crate::storage::order::store_ok;
use crate::storage::store::{Store, StoreView};
use crate::types::command::{command_view, group_command_view, Command, CommandView};
use crate::types::event::EventView;

verus! {

broadcast use group_command_view;

/// The sorts of state that the engine runs.
pub open spec fn supported() -> Seq<StateKind> {
    seq![
        StateKind::Pass,
        StateKind::Choice,
        StateKind::Succeed,
        StateKind::Fail,
        StateKind::Wait,
        StateKind::Task,
        StateKind::Parallel,
        StateKind::ItemMap,
    ]
}

/// The registry that serves every state.
pub fn build_state_handlers() -> (r: StateHandlerRegistry)
    ensures
        r.wf(),
        r.kinds() == supported(),
        forall|state: State| r.kinds().contains(#[trigger] kind_of(state)),
{
    let mut h = StateHandlerRegistry::new();
    h.insert(StateHandlerFactory::Pass(PassStateHandlerFactory));
    h.insert(StateHandlerFactory::Choice(ChoiceStateHandlerFactory));
    h.insert(StateHandlerFactory::Succeed(SucceedStateHandlerFactory));
    h.insert(StateHandlerFactory::Fail(FailStateHandlerFactory));
    h.insert(StateHandlerFactory::Wait(WaitStateHandlerFactory));
    h.insert(StateHandlerFactory::Task(TaskStateHandlerFactory));
    h.insert(StateHandlerFactory::Parallel(ParallelStateHandlerFactory));
    h.insert(StateHandlerFactory::ItemMap(MapStateHandlerFactory));
    assert(h.kinds() =~= supported());
    proof {
        assert forall|state: State| h.kinds().contains(#[trigger] kind_of(state)) by {
            let k = kind_of(state);
            let all = supported();
            assert(all[0] == StateKind::Pass);
            assert(all[1] == StateKind::Choice);
            assert(all[2] == StateKind::Succeed);
            assert(all[3] == StateKind::Fail);
            assert(all[4] == StateKind::Wait);
            assert(all[5] == StateKind::Task);
            assert(all[6] == StateKind::Parallel);
            assert(all[7] == StateKind::ItemMap);
        }
    }
    h
}

/// The handler bound to `state`.
pub fn bind_state<'a>(state: &'a State) -> (r: StateHandler<'a>)
    ensures
        r.bound() == *state,
{
    build_state_handlers().create(state).unwrap()
}

/// What a command leaves.
#[verifier::opaque]
pub open spec fn dispatched(w: World, ctx: HandlerContext, command: CommandView) -> World {
    match command {
        CommandView::CreateFlow(p) => flow_creation(w, ctx, p),
        CommandView::CreateExecution(p) => execution_creation(w, ctx, p),
        CommandView::SpawnThread(p) => thread_spawn(w, p),
        CommandView::CompleteExecution(p) => execution_completion(w, p),
        CommandView::CompleteThread(p) => thread_completion(w, ctx, p),
        CommandView::TerminateExecution(p) => execution_termination(w, ctx, p),
        CommandView::TerminateThread(p) => thread_termination(w, ctx, p),
        CommandView::ActivateState(p) => state_activation(w, ctx, p),
        CommandView::CompleteState(p) => state_completion(w, ctx, p),
        CommandView::TerminateState(p) => state_termination(w, ctx, p),
        CommandView::ActivateTask(p) => w.event(
            EventView::TaskActivated { task: pending_task(p, w.now) },
        ),
        CommandView::ClaimTasks(p) => claim(w, p),
        CommandView::CompleteTask(p) => task_completion(w, p),
        CommandView::FailTask(p) => task_failure(w, ctx, p),
        CommandView::TriggerTimer { timer } => timer_trigger(w, timer),
        CommandView::CancelTimer { timer } => timer_cancellation(w, ctx, timer),
        CommandView::ReleaseTaskLease { task } => lease_release(w, task),
        CommandView::CancelTask { task } => task_cancellation(w, ctx, task),
        CommandView::ContinueComplete { owner } => node_finished(w, ctx, owner),
        CommandView::ContinueTerminate { owner } => node_finished(w, ctx, owner),
        CommandView::ProcessChildCompleted { owner, child } => reaction(w, ctx, owner, child),
    }
}

/// What a command needs of the state that it is dispatched in: a thread that is spawned says which
/// table it runs in, and the retries of a task can still be counted.
pub open spec fn dispatchable(s: StoreView, command: CommandView) -> bool {
    match command {
        CommandView::SpawnThread(p) => spawning_scope(s, p) is Some ==> p.state_path is Some,
        CommandView::FailTask(p) => retry_countable(s, p),
        _ => true,
    }
}

/// Whether a command can be dispatched.
pub fn can_dispatch(storage: &Store, command: &Command) -> (r: bool)
    requires
        store_ok(storage@),
    ensures
        r == dispatchable(storage@, command@),
{
    match command {
        Command::SpawnThread(p) => p.state_path.is_some() || find_scope(storage, p).is_none(),
        Command::FailTask(p) => can_count_retry(storage, p),
        _ => {
            reveal(command_view);
            true
        },
    }
}

/// Runs the handler of a command.
pub fn dispatch_command(command: &Command, ctx: &HandlerContext, out: &mut Collector)
    requires
        store_ok(old(out)@.store),
        ctx.valid(),
        dispatchable(old(out)@.store, command@),
    ensures
        final(out)@ == dispatched(old(out)@, *ctx, command@),
        store_ok(final(out)@.store),
{
    reveal(dispatched);
    match command {
        Command::CreateFlow(p) => CreateFlowHandler.handle(p, ctx, out),
        Command::CreateExecution(p) => CreateExecutionHandler.handle(p, ctx, out),
        Command::SpawnThread(p) => SpawnThreadHandler.handle(p, ctx, out),
        Command::CompleteExecution(p) => CompleteExecutionHandler.handle(p, ctx, out),
        Command::CompleteThread(p) => CompleteThreadHandler.handle(p, ctx, out),
        Command::TerminateExecution(p) => TerminateExecutionHandler.handle(p, ctx, out),
        Command::TerminateThread(p) => TerminateThreadHandler.handle(p, ctx, out),
        Command::ActivateState(p) => ActivateStateHandler.handle(p, ctx, out),
        Command::CompleteState(p) => CompleteStateHandler.handle(p, ctx, out),
        Command::TerminateState(p) => TerminateStateHandler.handle(p, ctx, out),
        Command::ActivateTask(p) => ActivateTaskHandler.handle(p, ctx, out),
        Command::ClaimTasks(p) => ClaimTasksHandler.handle(p, ctx, out),
        Command::CompleteTask(p) => CompleteTaskHandler.handle(p, ctx, out),
        Command::FailTask(p) => FailTaskHandler.handle(p, ctx, out),
        Command::TriggerTimer { timer } => TriggerTimerHandler.handle(timer, ctx, out),
        Command::CancelTimer { timer } => CancelTimerHandler.handle(timer, ctx, out),
        Command::ReleaseTaskLease { task } => ReleaseTaskLeaseHandler.handle(task, ctx, out),
        Command::CancelTask { task } => CancelTaskHandler.handle(task, ctx, out),
        Command::ContinueComplete { owner } => ContinueCompleteHandler.handle(owner, ctx, out),
        Command::ContinueTerminate { owner } => ContinueTerminateHandler.handle(owner, ctx, out),
        Command::ProcessChildCompleted { owner, child } => ProcessChildCompletedHandler.handle(owner, child, ctx, out),
    }
}

} // verus!
