//! `SpawnThread`: starts a branch of a `Parallel` or an item of a `Map` as a thread.

use vstd::prelude::*;

use crate::handler::{Collector, HandlerContext, World};
use crate::id::Uid;
use crate::storage::order::store_ok;
use crate::storage::scope::{load_scope_ref, scope_of, ScopeRecord, ScopeRecordView};
use crate::storage::store::{Store, StoreView};
use crate::types::command::{
    group_command_view, ActivateState, ActivateStateView, Command, CommandView, SpawnThread,
    SpawnThreadView,
};
use crate::types::event::{group_event_view, Event, EventView};
use crate::types::meta::{born_meta, generated_name, ObjectKind, ObjectMeta};
use crate::types::status::{Lifecycle, LifecycleView};
use crate::types::thread::{Thread, ThreadView};

verus! {

broadcast use {group_command_view, group_event_view};

/// The scope that a thread is spawned in: that of the running activity that spawns it.
pub open spec fn spawning_scope(s: StoreView, cmd: SpawnThreadView) -> Option<ScopeRecordView> {
    if !(cmd.owner.kind is Activity) {
        None
    } else {
        match s.activity(cmd.owner) {
            Ok(Some(row)) if row.value.status is Running => match scope_of(
                s,
                row.value.meta.owner->0,
            ) {
                Ok(scope) => scope,
                Err(_) => None,
            },
            _ => None,
        }
    }
}

/// The thread that is spawned.
pub open spec fn spawned_thread(w: World, cmd: SpawnThreadView) -> ThreadView {
    ThreadView {
        meta: born_meta(
            ObjectKind::Thread,
            generated_name(cmd.execution.name, w.store.next_seq),
            Uid(w.next_uid),
            w.now,
            Some(cmd.owner),
        ),
        execution: cmd.execution,
        state_path: cmd.state_path->0,
        start_at: cmd.start_at,
        index: cmd.index,
        status: LifecycleView::Running,
        input: cmd.input,
        output: None,
    }
}

/// What spawning a thread leaves: it is recorded under the activity, and its first state is entered.
/// When the activity or its scope is gone, or the activity does not run anymore, nothing is spawned.
pub open spec fn thread_spawn(w: World, cmd: SpawnThreadView) -> World {
    match spawning_scope(w.store, cmd) {
        None => w,
        Some(scope) => {
            let thread = spawned_thread(w, cmd);
            w.minted().drawn().event(EventView::ThreadCreated { thread }).command(
                CommandView::ActivateState(
                    ActivateStateView {
                        execution: scope.root_execution(),
                        owner: thread.reference(),
                        state_path: cmd.state_path->0.push(cmd.start_at),
                        input: cmd.input,
                    },
                ),
            )
        },
    }
}

/// Handles `SpawnThread`.
pub struct SpawnThreadHandler;

impl Default for SpawnThreadHandler {
    fn default() -> (r: Self)
        ensures
            r == SpawnThreadHandler,
    {
        SpawnThreadHandler
    }
}

/// The scope that a thread would be spawned in.
pub fn find_scope(storage: &Store, p: &SpawnThread) -> (r: Option<ScopeRecord>)
    requires
        store_ok(storage@),
    ensures
        r.deep_view() == spawning_scope(storage@, p@),
{
    if p.owner.kind != ObjectKind::Activity {
        return None;
    }
    let act = match storage.get_activity(&p.owner) {
        Ok(Some(a)) => a,
        _ => return None,
    };
    if !act.value.status.is_running() {
        return None;
    }
    let owner = act.value.meta.owner.clone().unwrap();
    match load_scope_ref(storage, &owner) {
        Ok(scope) => scope,
        Err(_) => None,
    }
}

impl SpawnThreadHandler {
    /// A thread that is spawned must say which table it runs in.
    pub fn handle(&self, p: &SpawnThread, ctx: &HandlerContext, out: &mut Collector)
        requires
            store_ok(old(out)@.store),
            spawning_scope(old(out)@.store, p@) is Some ==> p.state_path is Some,
        ensures
            final(out)@ == thread_spawn(old(out)@, p@),
            store_ok(final(out)@.store),
    {
        let scope = match find_scope(out.storage(), p) {
            Some(scope) => scope,
            None => return ,
        };
        let state_path = p.state_path.clone().unwrap();
        let uid = out.mint();
        let name = p.execution.name.generated_from_key(out.next_generated_seq());
        let thread = Thread {
            meta: ObjectMeta::born(
                ObjectKind::Thread,
                name,
                uid,
                out.now(),
                Some(p.owner.clone()),
            ),
            execution: p.execution.clone(),
            state_path: state_path.clone(),
            start_at: p.start_at.clone(),
            index: p.index,
            status: Lifecycle::Running,
            input: p.input.clone(),
            output: None,
        };
        let reference = thread.reference();
        out.append_event(Event::ThreadCreated { thread });
        let mut enter = state_path;
        enter.push_back(p.start_at.as_str());
        out.append_command(
            Command::ActivateState(
                ActivateState {
                    execution: scope.root_execution(),
                    owner: reference,
                    state_path: enter,
                    input: p.input.clone(),
                },
            ),
        );
    }
}

} // verus!
