//! Scopes: the nodes that states run in, whether executions or threads.

use vstd::prelude::*;
use vstd::string::*;

use crate::asl::StateMachine;
use crate::handler::{machine_of, HandlerContext};
use crate::storage::execution::{ExecutionRecord, ExecutionRecordView};
use crate::storage::store::{Store, StoreView};
use crate::storage::thread::{ThreadRecord, ThreadRecordView};
use crate::text::join3;
use crate::types::error::{invalid_definition, ExecutionError, ExecutionErrorView};
use crate::types::meta::{reference_text, ObjectKind, ObjectReference, ObjectReferenceView};
use crate::types::state_path::StatePath;
use crate::types::status::{LifecycleView, TerminationReason};
use crate::value::{Json, MemberView, Value, Variables};

verus! {

/// The stored row of a scope: a node that states run in.
#[derive(Debug, PartialEq, Eq)]
pub enum ScopeRecord {
    Execution(ExecutionRecord),
    Thread(ThreadRecord),
}

/// What a [`ScopeRecord`] holds.
pub enum ScopeRecordView {
    Execution(ExecutionRecordView),
    Thread(ThreadRecordView),
}

impl View for ScopeRecord {
    type V = ScopeRecordView;

    open spec fn view(&self) -> ScopeRecordView {
        match self {
            ScopeRecord::Execution(x) => ScopeRecordView::Execution(x@),
            ScopeRecord::Thread(x) => ScopeRecordView::Thread(x@),
        }
    }
}

impl DeepView for ScopeRecord {
    type V = ScopeRecordView;

    open spec fn deep_view(&self) -> ScopeRecordView {
        self.view()
    }
}

impl Clone for ScopeRecord {
    fn clone(&self) -> (r: Self)
        ensures
            r@ == self@,
    {
        match self {
            ScopeRecord::Execution(x) => ScopeRecord::Execution(x.clone()),
            ScopeRecord::Thread(x) => ScopeRecord::Thread(x.clone()),
        }
    }
}

impl ScopeRecordView {
    /// The execution that the scope belongs to: an execution is its own.
    pub open spec fn root_execution(self) -> ObjectReferenceView {
        match self {
            ScopeRecordView::Execution(e) => e.value.reference(),
            ScopeRecordView::Thread(t) => t.value.execution,
        }
    }

    /// The table that the scope runs in; `None` for the top-level one.
    pub open spec fn state_path(self) -> Option<Seq<Seq<char>>> {
        match self {
            ScopeRecordView::Execution(_) => None,
            ScopeRecordView::Thread(t) => Some(t.value.state_path),
        }
    }

    pub open spec fn variables(self) -> Seq<MemberView> {
        match self {
            ScopeRecordView::Execution(e) => e.variables,
            ScopeRecordView::Thread(t) => t.variables,
        }
    }

    pub open spec fn active_children(self) -> Seq<ObjectReferenceView> {
        match self {
            ScopeRecordView::Execution(e) => e.active_children,
            ScopeRecordView::Thread(t) => t.active_children,
        }
    }

    pub open spec fn current_activity(self) -> Option<ObjectReferenceView> {
        match self {
            ScopeRecordView::Execution(e) => e.current_activity,
            ScopeRecordView::Thread(t) => t.current_activity,
        }
    }

    pub open spec fn status(self) -> LifecycleView {
        match self {
            ScopeRecordView::Execution(e) => e.value.status,
            ScopeRecordView::Thread(t) => t.value.status,
        }
    }

    pub open spec fn input(self) -> Json {
        match self {
            ScopeRecordView::Execution(e) => e.value.input,
            ScopeRecordView::Thread(t) => t.value.input,
        }
    }

    pub open spec fn output(self) -> Option<Json> {
        match self {
            ScopeRecordView::Execution(e) => e.value.output,
            ScopeRecordView::Thread(t) => t.value.output,
        }
    }
}

impl ScopeRecord {
    /// The execution that the scope belongs to: an execution is its own.
    pub fn root_execution(&self) -> (r: ObjectReference)
        ensures
            r@ == self@.root_execution(),
    {
        match self {
            ScopeRecord::Execution(e) => e.value.reference(),
            ScopeRecord::Thread(t) => t.value.execution.clone(),
        }
    }

    /// The table that the scope runs in; `None` for the top-level one.
    pub fn state_path(&self) -> (r: Option<&StatePath>)
        ensures
            r.deep_view() == self@.state_path(),
    {
        match self {
            ScopeRecord::Execution(_) => None,
            ScopeRecord::Thread(t) => Some(&t.value.state_path),
        }
    }

    /// The variables bound in the scope.
    pub fn variables(&self) -> (r: &Variables)
        ensures
            r@ == self@.variables(),
    {
        match self {
            ScopeRecord::Execution(e) => &e.variables,
            ScopeRecord::Thread(t) => &t.variables,
        }
    }

    /// Owned nodes still in flight.
    pub fn active_children(&self) -> (r: &Vec<ObjectReference>)
        ensures
            r.deep_view() == self@.active_children(),
    {
        match self {
            ScopeRecord::Execution(e) => &e.active_children,
            ScopeRecord::Thread(t) => &t.active_children,
        }
    }

    /// The activity in flight.
    pub fn current_activity(&self) -> (r: &Option<ObjectReference>)
        ensures
            r.deep_view() == self@.current_activity(),
    {
        match self {
            ScopeRecord::Execution(e) => &e.current_activity,
            ScopeRecord::Thread(t) => &t.current_activity,
        }
    }

    pub fn is_running(&self) -> (r: bool)
        ensures
            r == (self@.status() is Running),
    {
        match self {
            ScopeRecord::Execution(e) => e.value.status.is_running(),
            ScopeRecord::Thread(t) => t.value.status.is_running(),
        }
    }

    /// Whether the scope has reached its end.
    pub fn is_terminal(&self) -> (r: bool)
        ensures
            r == self@.status().terminal(),
    {
        match self {
            ScopeRecord::Execution(e) => e.value.is_terminal(),
            ScopeRecord::Thread(t) => t.value.is_terminal(),
        }
    }

    /// What the first state of the scope was entered with.
    pub fn input(&self) -> (r: &Value)
        ensures
            r@ == self@.input(),
    {
        match self {
            ScopeRecord::Execution(e) => &e.value.input,
            ScopeRecord::Thread(t) => &t.value.input,
        }
    }

    /// What the scope settled with.
    pub fn output(&self) -> (r: Option<&Value>)
        ensures
            r.deep_view() == self@.output(),
    {
        let output = match self {
            ScopeRecord::Execution(e) => &e.value.output,
            ScopeRecord::Thread(t) => &t.value.output,
        };
        match output {
            Some(v) => Some(v),
            None => None,
        }
    }

    /// Why the scope terminates or has terminated, when it does or has.
    pub fn termination_reason(&self) -> (r: Option<&TerminationReason>)
        ensures
            r.deep_view() == self@.status().reason(),
    {
        match self {
            ScopeRecord::Execution(e) => e.value.status.termination_reason(),
            ScopeRecord::Thread(t) => t.value.status.termination_reason(),
        }
    }
}

/// What reading a scope gives: an execution or a thread by its reference. No other kind is a scope.
pub open spec fn scope_of(s: StoreView, r: ObjectReferenceView) -> Result<
    Option<ScopeRecordView>,
    ExecutionErrorView,
> {
    match r.kind {
        ObjectKind::Execution => match s.execution(r) {
            Ok(Some(x)) => Ok(Some(ScopeRecordView::Execution(x))),
            Ok(None) => Ok(None),
            Err(e) => Err(e),
        },
        ObjectKind::Thread => match s.thread(r) {
            Ok(Some(x)) => Ok(Some(ScopeRecordView::Thread(x))),
            Ok(None) => Ok(None),
            Err(e) => Err(e),
        },
        _ => Ok(None),
    }
}

/// Reads a scope by the kind of its reference.
pub fn load_scope(storage: &Store, reference: &ObjectReference) -> (r: Result<
    Option<ScopeRecord>,
    ExecutionError,
>)
    ensures
        match r {
            Ok(x) => scope_of(storage@, reference@) == Ok::<_, ExecutionErrorView>(x.deep_view()),
            Err(e) => scope_of(storage@, reference@) == Err::<Option<ScopeRecordView>, _>(e@),
        },
{
    match reference.kind {
        ObjectKind::Execution => match storage.get_execution(reference) {
            Ok(Some(x)) => Ok(Some(ScopeRecord::Execution(x))),
            Ok(None) => Ok(None),
            Err(e) => Err(e),
        },
        ObjectKind::Thread => match storage.get_thread(reference) {
            Ok(Some(x)) => Ok(Some(ScopeRecord::Thread(x))),
            Ok(None) => Ok(None),
            Err(e) => Err(e),
        },
        _ => Ok(None),
    }
}

/// Reads a scope by the reference that a node records of its owner.
pub fn load_scope_ref(storage: &Store, reference: &ObjectReference) -> (r: Result<
    Option<ScopeRecord>,
    ExecutionError,
>)
    ensures
        match r {
            Ok(x) => scope_of(storage@, reference@) == Ok::<_, ExecutionErrorView>(x.deep_view()),
            Err(e) => scope_of(storage@, reference@) == Err::<Option<ScopeRecordView>, _>(e@),
        },
{
    load_scope(storage, reference)
}

/// The version of the flow that a scope runs: that of its execution.
pub open spec fn flow_version_of(s: StoreView, scope: ScopeRecordView) -> Result<
    ObjectReferenceView,
    ExecutionErrorView,
> {
    match scope {
        ScopeRecordView::Execution(e) => Ok(e.value.flow_version),
        ScopeRecordView::Thread(t) => match s.execution(t.value.execution) {
            Ok(Some(e)) => Ok(e.value.flow_version),
            Ok(None) => Err(
                invalid_definition(
                    "thread "@ + reference_text(t.value.reference())
                        + " lost its owning execution "@ + reference_text(t.value.execution),
                ),
            ),
            Err(e) => Err(e),
        },
    }
}

/// The version of the flow that a scope runs: that of its execution.
pub fn resolve_scope_flow_version(storage: &Store, scope: &ScopeRecord) -> (r: Result<
    ObjectReference,
    ExecutionError,
>)
    ensures
        match r {
            Ok(v) => flow_version_of(storage@, scope@) == Ok::<_, ExecutionErrorView>(v@),
            Err(e) => flow_version_of(storage@, scope@) == Err::<ObjectReferenceView, _>(e@),
        },
{
    match scope {
        ScopeRecord::Execution(e) => Ok(e.value.flow_version.clone()),
        ScopeRecord::Thread(t) => match storage.get_execution(&t.value.execution) {
            Ok(Some(e)) => Ok(e.value.flow_version.clone()),
            Ok(None) => Err(
                ExecutionError::invalid_definition(
                    join3(
                        "thread ",
                        t.value.reference().text().as_str(),
                        " lost its owning execution ",
                    ).concat(t.value.execution.text().as_str()),
                ),
            ),
            Err(e) => Err(e),
        },
    }
}

/// What looking up the machine that a scope runs gives.
pub open spec fn machine_for(ctx: HandlerContext, s: StoreView, scope: ScopeRecordView) -> Result<
    StateMachine,
    ExecutionErrorView,
> {
    match flow_version_of(s, scope) {
        Ok(version) => machine_of(ctx, version),
        Err(e) => Err(e),
    }
}

impl HandlerContext {
    /// The machine that a scope runs.
    pub fn machine_for_scope(&self, storage: &Store, scope: &ScopeRecord) -> (r: Result<
        &StateMachine,
        ExecutionError,
    >)
        ensures
            match r {
                Ok(m) => machine_for(*self, storage@, scope@) == Ok::<
                    StateMachine,
                    ExecutionErrorView,
                >(*m),
                Err(e) => machine_for(*self, storage@, scope@) == Err::<StateMachine, _>(e@),
            },
    {
        let version = match resolve_scope_flow_version(storage, scope) {
            Ok(version) => version,
            Err(e) => return Err(e),
        };
        self.machine(&version)
    }
}

} // verus!
