//! Fanning out: a branch of a `Parallel`, or an item of a `Map`, becomes an execution of its own.

use vstd::prelude::*;

use crate::id::{ActivityId, ExecutionId, FlowVersionId, NodeId, RequestId, Uid};
use crate::node::outbox::{
    Command, CommandView, Emitted, Event, EventView, ExecutionValue, ExecutionValueView, Outbox,
};
use crate::node::storage::{InMemoryStorage, NodeStoreView, Status, StatusView};
use crate::types::state_path::StatePath;
use crate::value::{Json, Value};

verus! {

/// The version that a branch of `owner` executes: the one that the execution of `owner` does. There
/// is none when `owner` is not running, or is not owned by an execution that is stored.
pub open spec fn branch_version(s: NodeStoreView, owner: ActivityId) -> Option<FlowVersionId> {
    match s.activity(owner) {
        Some(a) if a.status is Running => match a.parent {
            NodeId::Execution(id) => match s.execution(id) {
                Some(x) => Some(x.flow_version_id),
                None => None,
            },
            _ => None,
        },
        _ => None,
    }
}

/// What spawning a branch leaves: the execution is created, recorded under the index of its branch,
/// and enters its first state. Where no branch can be spawned, nothing happens.
pub open spec fn branch_spawned(
    e: Emitted,
    s: NodeStoreView,
    parent: NodeId,
    root_execution: ExecutionId,
    state_path: Option<Seq<Seq<char>>>,
    branch_index: usize,
    state: Seq<char>,
    input: Json,
) -> Emitted {
    match parent {
        NodeId::Activity(owner) => match branch_version(s, owner) {
            Some(flow_version_id) => {
                let id = ExecutionId(Uid(e.next_uid));
                let e1 = e.minted().event(
                    EventView::ExecutionCreated {
                        request_id: RequestId(Uid(0)),
                        created: ExecutionValueView {
                            id,
                            flow_version_id,
                            root_execution,
                            parent: Some(parent),
                            state_path,
                            status: StatusView::Running,
                            input,
                            output: None,
                        },
                    },
                ).event(
                    EventView::ParallelBranchSpawned {
                        activity: owner,
                        index: branch_index,
                        execution: id,
                    },
                );
                let activity = ActivityId(Uid(e1.next_uid));
                e1.minted().command(
                    CommandView::ActivateState { execution: id, activity, state, input },
                )
            },
            None => e,
        },
        _ => e,
    }
}

/// A container that is no longer running spawns nothing.
pub proof fn law_stopped_container_spawns_nothing(
    e: Emitted,
    s: NodeStoreView,
    owner: ActivityId,
    root_execution: ExecutionId,
    state_path: Option<Seq<Seq<char>>>,
    branch_index: usize,
    state: Seq<char>,
    input: Json,
)
    requires
        !(s.activity(owner) matches Some(a) && a.status is Running),
    ensures
        branch_spawned(
            e,
            s,
            NodeId::Activity(owner),
            root_execution,
            state_path,
            branch_index,
            state,
            input,
        ) == e,
{
}

/// Handles `SpawnBranch`.
pub struct SpawnBranchHandler;

impl Default for SpawnBranchHandler {
    fn default() -> (r: Self)
        ensures
            r == SpawnBranchHandler,
    {
        SpawnBranchHandler
    }
}

impl SpawnBranchHandler {
    pub fn handle(
        &self,
        parent: NodeId,
        root_execution: ExecutionId,
        state_path: &Option<StatePath>,
        branch_index: usize,
        state: &String,
        input: &Value,
        storage: &InMemoryStorage,
        out: &mut Outbox,
    )
        ensures
            final(out)@ == branch_spawned(
                old(out)@,
                storage@,
                parent,
                root_execution,
                state_path.deep_view(),
                branch_index,
                state@,
                input@,
            ),
    {
        let owner = match parent {
            NodeId::Activity(a) => a,
            _ => return ,
        };
        let owner_activity = match storage.get_activity(owner) {
            Some(a) => a,
            None => return ,
        };
        if !owner_activity.status.is_running() {
            return ;
        }
        let flow_version_id = match owner_activity.parent {
            NodeId::Execution(e) => match storage.get_execution(e) {
                Some(x) => x.flow_version_id,
                None => return ,
            },
            _ => return ,
        };
        let id = out.next_execution();
        out.emit_event(
            Event::ExecutionCreated {
                request_id: RequestId::nil(),
                created: ExecutionValue {
                    id,
                    flow_version_id,
                    root_execution,
                    parent: Some(parent),
                    state_path: state_path.clone(),
                    status: Status::Running,
                    input: input.clone(),
                    output: None,
                },
            },
        );
        out.emit_event(
            Event::ParallelBranchSpawned { activity: owner, index: branch_index, execution: id },
        );
        let activity = out.next_activity();
        out.emit_command(
            Command::ActivateState {
                execution: id,
                activity,
                state: state.clone(),
                input: input.clone(),
            },
        );
    }
}

} // verus!
