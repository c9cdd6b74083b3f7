//! `ActivateState`: finds the state and enters it.

use vstd::prelude::*;

use crate::asl::StateMachine;
use crate::handler::{Collector, HandlerContext, World};
use crate::handlers::create_execution::{first_activation, machine_entered, top_level_path};
use crate::handlers::dispatch::bind_state;
use crate::handlers::resolve::{
    law_resolved_state_is_valid, resolve_state_from_path, state_at,
};
use crate::handlers::state_handler::{activated, born_activity, entered};
use crate::storage::order::store_ok;
use crate::storage::scope::{load_scope_ref, machine_for, scope_of};
use crate::text::join2;
use crate::types::command::{ActivateState, ActivateStateView, CommandView};
use crate::types::error::{state_not_found, ExecutionError, ExecutionErrorView};
use crate::types::meta::{reference_text, ObjectKind, ObjectReferenceView};
use crate::value::Json;

verus! {

/// What entering the state at a path leaves: it is looked up in the machine of its scope, and
/// entered. When the scope, the machine or the state cannot be found, the execution fails.
pub open spec fn state_activation(
    w: World,
    ctx: HandlerContext,
    cmd: ActivateStateView,
) -> World {
    match scope_of(w.store, cmd.owner) {
        Err(e) => w.terminate(None, cmd.execution, e),
        Ok(None) => w.terminate(
            None,
            cmd.execution,
            state_not_found("execution "@ + reference_text(cmd.execution)),
        ),
        Ok(Some(scope)) => match machine_for(ctx, w.store, scope) {
            Err(e) => w.terminate(None, cmd.execution, e),
            Ok(sm) => match state_at(sm, cmd.state_path) {
                Err(e) => w.terminate(None, cmd.execution, e),
                Ok(state) => activated(w, ctx.env, state, cmd),
            },
        },
    }
}

/// What the first state of an execution needs. The command that enters it names the execution as the
/// owner, and a state is entered in a thread: in the one that is stored under the name of the
/// execution. Without such a thread the execution fails, and nothing is stored; while the thread runs,
/// the state is entered with its variables; once it has stopped, nothing happens.
pub proof fn law_first_state_needs_a_thread(
    w: World,
    ctx: HandlerContext,
    sm: StateMachine,
    execution: ObjectReferenceView,
    input: Json,
)
    requires
        scope_of(w.store, execution) matches Ok(Some(scope)) && machine_for(ctx, w.store, scope)
            == Ok::<_, ExecutionErrorView>(sm),
        state_at(sm, top_level_path(sm.start_at@)) is Ok,
    ensures
        ({
            let cmd = first_activation(sm, execution, input);
            let after = state_activation(w, ctx, cmd);
            let born = born_activity(w, cmd);
            let state = state_at(sm, cmd.state_path)->Ok_0;
            &&& machine_entered(w, sm, execution, input) == w.command(
                CommandView::ActivateState(cmd),
            )
            &&& w.store.get(ObjectKind::Thread, execution.name) is None ==> {
                &&& after == w.minted().drawn().terminate(
                    Some(born.reference()),
                    execution,
                    state_not_found("execution "@ + reference_text(execution)),
                )
                &&& after.store == w.store.drawn()
            }
            &&& w.store.thread(execution) matches Ok(Some(thread)) ==> after == if thread.value.status is Running {
                entered(w.minted().drawn(), ctx.env, state, cmd, born, thread.variables)
            } else {
                w.minted().drawn()
            }
        }),
{
}

/// Handles `ActivateState`.
pub struct ActivateStateHandler;

impl Default for ActivateStateHandler {
    fn default() -> (r: Self)
        ensures
            r == ActivateStateHandler,
    {
        ActivateStateHandler
    }
}

impl ActivateStateHandler {
    pub fn handle(&self, p: &ActivateState, ctx: &HandlerContext, out: &mut Collector)
        requires
            store_ok(old(out)@.store),
            ctx.valid(),
        ensures
            final(out)@ == state_activation(old(out)@, *ctx, p@),
            store_ok(final(out)@.store),
    {
        let scope = match load_scope_ref(out.storage(), &p.owner) {
            Ok(Some(s)) => s,
            Ok(None) => {
                out.terminate(
                    None,
                    &p.execution,
                    ExecutionError::state_not_found(
                        join2("execution ", p.execution.text().as_str()),
                    ),
                );
                return ;
            },
            Err(e) => {
                out.terminate(None, &p.execution, e);
                return ;
            },
        };
        let sm = match ctx.machine_for_scope(out.storage(), &scope) {
            Ok(sm) => sm,
            Err(e) => {
                out.terminate(None, &p.execution, e);
                return ;
            },
        };
        let state = match resolve_state_from_path(sm, &p.state_path) {
            Ok(s) => s,
            Err(e) => {
                out.terminate(None, &p.execution, e);
                return ;
            },
        };
        proof {
            ctx.lemma_machine_valid(
                crate::storage::scope::flow_version_of(out@.store, scope@)->Ok_0,
            );
            law_resolved_state_is_valid(*sm, p@.state_path);
        }
        let handler = bind_state(state);
        handler.activate(out, &ctx.env, p);
    }
}

} // verus!
