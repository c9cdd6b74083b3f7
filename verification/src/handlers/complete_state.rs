//! `CompleteState`: finds the state of an activity and completes it.

use vstd::prelude::*;

use crate::handler::{Collector, HandlerContext, World};
use crate::handlers::dispatch::bind_state;
use crate::handlers::resolve::{resolve_scope_state, scope_state};
use crate::handlers::state_handler::completed;
use crate::storage::order::store_ok;
use crate::storage::scope::{ScopeRecord, ScopeRecordView};
use crate::text::join2;
use crate::types::command::{CompleteState, CompleteStateView};
use crate::types::error::{state_not_found, ExecutionError};
use crate::types::meta::{nil_reference, reference_text, ObjectReference};
use crate::types::state_path::state_name;

verus! {

/// What completing an activity leaves: its state is looked up and completed. When the state cannot be
/// found, the activity and its thread fail; without the thread nothing is left to complete into.
pub open spec fn state_completion(
    w: World,
    ctx: HandlerContext,
    cmd: CompleteStateView,
) -> World {
    match w.store.activity(cmd.activity) {
        Err(e) => w.terminate(Some(cmd.activity), nil_reference(), e),
        Ok(None) => w.terminate(
            Some(cmd.activity),
            nil_reference(),
            state_not_found("activity "@ + reference_text(cmd.activity)),
        ),
        Ok(Some(row)) => {
            let owner = row.value.meta.owner->0;
            match w.store.thread(owner) {
                Ok(Some(thread)) => match scope_state(
                    ctx,
                    w.store,
                    ScopeRecordView::Thread(thread),
                    state_name(row.value.state_path),
                ) {
                    Err(e) => w.terminate(Some(cmd.activity), owner, e),
                    Ok(state) => completed(w, ctx.env, state, cmd),
                },
                _ => w,
            }
        },
    }
}

/// Handles `CompleteState`.
pub struct CompleteStateHandler;

impl Default for CompleteStateHandler {
    fn default() -> (r: Self)
        ensures
            r == CompleteStateHandler,
    {
        CompleteStateHandler
    }
}

impl CompleteStateHandler {
    pub fn handle(&self, p: &CompleteState, ctx: &HandlerContext, out: &mut Collector)
        requires
            store_ok(old(out)@.store),
        ensures
            final(out)@ == state_completion(old(out)@, *ctx, p@),
            store_ok(final(out)@.store),
    {
        let act = match out.storage().get_activity(&p.activity) {
            Ok(Some(a)) => a,
            Ok(None) => {
                out.terminate(
                    Some(p.activity.clone()),
                    &ObjectReference::nil(),
                    ExecutionError::state_not_found(
                        join2("activity ", p.activity.text().as_str()),
                    ),
                );
                return ;
            },
            Err(e) => {
                out.terminate(Some(p.activity.clone()), &ObjectReference::nil(), e);
                return ;
            },
        };
        let owner = act.value.meta.owner.clone().unwrap();
        let thread = match out.storage().get_thread(&owner) {
            Ok(Some(t)) => t,
            _ => return ,
        };
        let scope = ScopeRecord::Thread(thread);
        let name = act.value.state_path.state_name();
        let state = match resolve_scope_state(ctx, out.storage(), &scope, name.as_str()) {
            Ok(s) => s,
            Err(e) => {
                out.terminate(Some(p.activity.clone()), &owner, e);
                return ;
            },
        };
        let handler = bind_state(state);
        handler.complete(out, &ctx.env, p);
    }
}

} // verus!
