//! Flows and their versions.

use vstd::prelude::*;

use crate::types::meta::{
    generated_name, ObjectMeta, ObjectMetaView, ObjectName, ObjectNameView, ObjectReference,
    ObjectReferenceView,
};

verus! {

/// The lifecycle of a flow.
#[derive(Clone, Copy, Debug, PartialEq, Eq, Structural)]
pub enum FlowStatus {
    Active,
}

impl View for FlowStatus {
    type V = FlowStatus;

    open spec fn view(&self) -> FlowStatus {
        *self
    }
}

impl DeepView for FlowStatus {
    type V = FlowStatus;

    open spec fn deep_view(&self) -> FlowStatus {
        self.view()
    }
}

/// A flow: a name under which versions of a definition are published.
#[derive(Debug, PartialEq, Eq)]
pub struct Flow {
    pub meta: ObjectMeta,
    pub status: FlowStatus,
    pub latest_flow_version: ObjectReference,
}

/// What a [`Flow`] holds.
pub struct FlowView {
    pub meta: ObjectMetaView,
    pub status: FlowStatus,
    pub latest_flow_version: ObjectReferenceView,
}

impl View for Flow {
    type V = FlowView;

    open spec fn view(&self) -> FlowView {
        FlowView {
            meta: self.meta@,
            status: self.status,
            latest_flow_version: self.latest_flow_version@,
        }
    }
}

impl DeepView for Flow {
    type V = FlowView;

    open spec fn deep_view(&self) -> FlowView {
        self.view()
    }
}

impl Clone for Flow {
    fn clone(&self) -> (r: Self)
        ensures
            r@ == self@,
    {
        Flow {
            meta: self.meta.clone(),
            status: self.status,
            latest_flow_version: self.latest_flow_version.clone(),
        }
    }
}

/// One immutable version of a flow, with the text of its definition.
#[derive(Debug, PartialEq, Eq)]
pub struct FlowVersion {
    pub meta: ObjectMeta,
    pub version: u64,
    pub definition: String,
}

/// What a [`FlowVersion`] holds.
pub struct FlowVersionView {
    pub meta: ObjectMetaView,
    pub version: u64,
    pub definition: Seq<char>,
}

impl View for FlowVersion {
    type V = FlowVersionView;

    open spec fn view(&self) -> FlowVersionView {
        FlowVersionView {
            meta: self.meta@,
            version: self.version,
            definition: self.definition@,
        }
    }
}

impl DeepView for FlowVersion {
    type V = FlowVersionView;

    open spec fn deep_view(&self) -> FlowVersionView {
        self.view()
    }
}

impl Clone for FlowVersion {
    fn clone(&self) -> (r: Self)
        ensures
            r@ == self@,
    {
        FlowVersion {
            meta: self.meta.clone(),
            version: self.version,
            definition: self.definition.clone(),
        }
    }
}

impl FlowView {
    /// The reference that addresses this flow.
    pub open spec fn reference(self) -> ObjectReferenceView {
        self.meta.reference()
    }
}

impl Flow {
    /// The reference that addresses this flow.
    pub fn reference(&self) -> (r: ObjectReference)
        ensures
            r@ == self@.reference(),
    {
        self.meta.reference()
    }
}

impl FlowVersionView {
    /// The reference that addresses this flow version.
    pub open spec fn reference(self) -> ObjectReferenceView {
        self.meta.reference()
    }
}

impl FlowVersion {
    /// The reference that addresses this flow version.
    pub fn reference(&self) -> (r: ObjectReference)
        ensures
            r@ == self@.reference(),
    {
        self.meta.reference()
    }
}

/// The name that a version of a flow is stored under.
pub open spec fn version_name(flow: ObjectNameView, version: u64) -> ObjectNameView {
    generated_name(flow, version)
}

impl FlowVersion {
    /// The name that a version of a flow is stored under.
    pub fn version_name(flow: &ObjectName, version: u64) -> (r: ObjectName)
        ensures
            r@ == version_name(flow@, version),
    {
        flow.generated_from_key(version)
    }
}

} // verus!
