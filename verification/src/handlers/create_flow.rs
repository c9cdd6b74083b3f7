//! `CreateFlow`: a new flow, with its first version.

use vstd::prelude::*;

use crate::handler::{Collector, HandlerContext, World};
use crate::id::Uid;
use crate::storage::order::store_ok;
use crate::text::{join2, join3};
use crate::types::command::{CreateFlow, CreateFlowView};
use crate::types::event::{
    group_event_view, Event, EventView, FlowCreated, FlowCreatedView, FlowVersionCreated,
    FlowVersionCreatedView,
};
use crate::types::flow::{version_name, Flow, FlowStatus, FlowVersion, FlowVersionView, FlowView};
use crate::types::meta::{born_meta, plain_name, ObjectKind, ObjectMeta, ObjectName};
use crate::types::reject::RejectionType;

verus! {

broadcast use group_event_view;

/// The first version of a new flow. The flow takes the first uid, the version the second.
pub open spec fn first_version(w: World, cmd: CreateFlowView) -> FlowVersionView {
    FlowVersionView {
        meta: born_meta(
            ObjectKind::FlowVersion,
            version_name(plain_name(cmd.name), 1),
            Uid(w.minted().next_uid),
            w.now,
            Some(new_flow_meta(w, cmd).reference()),
        ),
        version: 1,
        definition: cmd.definition,
    }
}

/// The metadata of a new flow.
pub open spec fn new_flow_meta(w: World, cmd: CreateFlowView) -> crate::types::meta::ObjectMetaView {
    born_meta(ObjectKind::Flow, plain_name(cmd.name), Uid(w.next_uid), w.now, None)
}

/// A new flow.
pub open spec fn new_flow(w: World, cmd: CreateFlowView) -> FlowView {
    FlowView {
        meta: new_flow_meta(w, cmd),
        status: FlowStatus::Active,
        latest_flow_version: first_version(w, cmd).reference(),
    }
}

/// What creating a flow leaves. A definition that cannot be read as a machine, and a name that is
/// taken, are refused. Otherwise the flow and its first version are born together, and the version
/// answers the request.
pub open spec fn flow_creation(w: World, ctx: HandlerContext, cmd: CreateFlowView) -> World {
    if !ctx.definition_ok {
        w.reject(
            cmd.request_id,
            RejectionType::InvalidArgument,
            "create_flow: malformed definition for flow "@ + cmd.name,
        )
    } else if w.store.flow(plain_name(cmd.name)) matches Ok(Some(_)) {
        w.reject(
            cmd.request_id,
            RejectionType::AlreadyExists,
            "create_flow: flow "@ + cmd.name + " already exists"@,
        )
    } else {
        let version = EventView::FlowVersionCreated(
            FlowVersionCreatedView {
                request_id: cmd.request_id,
                flow_version: first_version(w, cmd),
            },
        );
        w.minted().minted().event(
            EventView::FlowCreated(
                FlowCreatedView { request_id: cmd.request_id, flow: new_flow(w, cmd) },
            ),
        ).ack(cmd.request_id, version).event(version)
    }
}

/// Handles `CreateFlow`.
pub struct CreateFlowHandler;

impl Default for CreateFlowHandler {
    fn default() -> (r: Self)
        ensures
            r == CreateFlowHandler,
    {
        CreateFlowHandler
    }
}

impl CreateFlowHandler {
    pub fn handle(&self, p: &CreateFlow, ctx: &HandlerContext, out: &mut Collector)
        requires
            store_ok(old(out)@.store),
        ensures
            final(out)@ == flow_creation(old(out)@, *ctx, p@),
            store_ok(final(out)@.store),
    {
        if !ctx.definition_ok {
            out.reject(
                p.request_id,
                RejectionType::InvalidArgument,
                join2("create_flow: malformed definition for flow ", p.name.as_str()),
            );
            return ;
        }
        let name = ObjectName::plain(p.name.as_str());
        if let Ok(Some(_)) = out.storage().get_flow_by_name(&name) {
            out.reject(
                p.request_id,
                RejectionType::AlreadyExists,
                join3("create_flow: flow ", p.name.as_str(), " already exists"),
            );
            return ;
        }
        let flow_uid = out.mint();
        let version_uid = out.mint();
        let flow_meta = ObjectMeta::born(
            ObjectKind::Flow,
            name.clone(),
            flow_uid,
            out.now(),
            None,
        );
        let flow_version = FlowVersion {
            meta: ObjectMeta::born(
                ObjectKind::FlowVersion,
                FlowVersion::version_name(&name, 1),
                version_uid,
                out.now(),
                Some(flow_meta.reference()),
            ),
            version: 1,
            definition: p.definition.clone(),
        };
        let flow = Flow {
            meta: flow_meta,
            status: FlowStatus::Active,
            latest_flow_version: flow_version.reference(),
        };
        out.append_event(Event::FlowCreated(FlowCreated { request_id: p.request_id, flow }));
        let event = Event::FlowVersionCreated(
            FlowVersionCreated { request_id: p.request_id, flow_version },
        );
        out.ack_request(p.request_id, event.clone());
        out.append_event(event);
    }
}

} // verus!
