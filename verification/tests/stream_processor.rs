//! The driver of a log.

use spica_engine::eval_env::EvalEnv;
use spica_engine::follower::Follower;
use spica_engine::handler::{Definition, HandlerContext};
use spica_engine::hook::Hook;
use spica_engine::id::{EntryId, FlowName, RequestId, StreamId, Timestamp, Uid};
use spica_engine::leader::Leader;
use spica_engine::log::InMemoryLogStream;
use spica_engine::processing::StateMachine as Role;
use spica_engine::query::QueryObject;
use spica_engine::storage::projection::Projection;
use spica_engine::storage::store::Store;
use spica_engine::stream_processor::StreamProcessor;
use spica_engine::types::command::{Command, CreateFlow};
use spica_engine::types::entry::{Entry, EntryPayload};
use spica_engine::types::event::{Event, FlowVersionCreated};
use spica_engine::types::flow::FlowVersion;
use spica_engine::types::meta::{ObjectKind, ObjectMeta, ObjectName, ObjectReference};
use spica_engine::types::reject::{Reject, RejectionType};
use std::cell::RefCell;

const NOW: Timestamp = Timestamp(2_000);

fn context(definitions: Vec<Definition>) -> HandlerContext {
    HandlerContext {
        env: EvalEnv::new(),
        definitions,
        definition_ok: true,
    }
}

#[derive(Default)]
struct RecordingHook {
    applied: RefCell<Vec<Event>>,
    rejected: RefCell<Vec<RequestId>>,
}

impl Hook for RecordingHook {
    fn on_event_applied(&self, event: &Event) {
        self.applied.borrow_mut().push(event.clone());
    }

    fn on_command_rejected(&self, request_id: RequestId, _reject: &Reject) {
        self.rejected.borrow_mut().push(request_id);
    }
}

fn create_flow(request_id: RequestId) -> Command {
    Command::CreateFlow(CreateFlow {
        request_id,
        name: FlowName::new("flow").expect("literal name is valid"),
        definition: "{ \"StartAt\": \"A\", \"States\": { \"A\": { \"Type\": \"Succeed\" } } }"
            .to_string(),
    })
}

fn entry(cause_id: Option<EntryId>, payload: EntryPayload) -> Entry {
    Entry {
        stream_id: StreamId::nil(),
        entry_id: EntryId::nil(),
        cause_id,
        timestamp: NOW,
        payload,
    }
}

#[test]
fn leader_reports_applied_events_to_the_hook() {
    let mut leader = Leader::new();
    let store = Store::new();
    let hook = RecordingHook::default();
    let request_id = RequestId::new();
    let produced = leader.process_command(
        EntryId::new(1),
        &create_flow(request_id),
        &store,
        &context(vec![]),
        NOW,
        1,
    );
    assert!(
        !produced.entries.is_empty(),
        "CreateFlow produced an emitted batch"
    );
    let mut projection = Projection::new();
    projection.commit(produced.work, Some(1));
    for event in leader.after_commit() {
        hook.on_event_applied(&event);
    }
    let applied = hook.applied.borrow();
    assert!(
        applied.iter().any(|ev| matches!(
            ev,
            Event::FlowVersionCreated(FlowVersionCreated {
                request_id: r,
                ..
            }) if *r == request_id
        )),
        "expected the echoed FlowVersionCreated to be reported, got {applied:?}"
    );
    assert!(leader.after_commit().is_empty(), "each event is told once");
}

fn flow_version_event() -> Event {
    Event::FlowVersionCreated(FlowVersionCreated {
        request_id: RequestId::new(),
        flow_version: FlowVersion {
            meta: ObjectMeta::born(
                ObjectKind::FlowVersion,
                FlowVersion::version_name(&ObjectName::plain("flow"), 1),
                Uid::new(),
                NOW,
                Some(ObjectReference::new(
                    ObjectKind::Flow,
                    ObjectName::plain("flow"),
                    Uid::nil(),
                )),
            ),
            version: 1,
            definition: String::new(),
        },
    })
}

fn version_of(event: &Event) -> ObjectReference {
    let Event::FlowVersionCreated(created) = event else {
        panic!("the fixture emits a flow-version create; got {event:?}");
    };
    created.flow_version.reference()
}

fn committed_version(projection: &Projection, reference: &ObjectReference) -> Option<FlowVersion> {
    match projection
        .store()
        .find(ObjectKind::FlowVersion, &reference.name)
    {
        Some(QueryObject::FlowVersion(version)) => Some(version.clone()),
        _ => None,
    }
}

fn residue() -> (InMemoryLogStream, ObjectReference) {
    let mut log = InMemoryLogStream::new(StreamId(1));
    let ev = flow_version_event();
    let residue_ref = version_of(&ev);
    log.append(&vec![
        entry(
            None,
            EntryPayload::Command(Command::CancelTimer {
                timer: ObjectReference::new(
                    ObjectKind::Timer,
                    ObjectName::plain("child").generated_from_key(5),
                    Uid(5),
                ),
            }),
        ),
        entry(Some(EntryId::new(1)), EntryPayload::Event(ev)),
        entry(Some(EntryId::new(1)), EntryPayload::Noop),
    ]);
    (log, residue_ref)
}

#[test]
fn recover_leader_folds_crash_residue_once() {
    let (log, residue_ref) = residue();
    assert_eq!(
        log.entries().len(),
        3,
        "residue batch lands at positions 1..=3"
    );

    let mut projection = Projection::new();
    let mut leader = Leader::new();
    let w = StreamProcessor::recover_leader(&mut leader, &log, &mut projection, 0);

    assert_eq!(w, 3, "recovery resumes from the last durable Noop");
    assert!(
        committed_version(&projection, &residue_ref).is_some(),
        "the residue Event folded into the projection"
    );
    assert_eq!(
        projection.last_processed_position(),
        3,
        "W persisted to the Noop position"
    );
    assert_eq!(
        log.entries().len(),
        3,
        "no duplicate append during recovery"
    );

    let mut row =
        committed_version(&projection, &residue_ref).expect("recovery folded the residue's row");
    row.definition = "the residue folded once".to_string();
    let mut txn = projection.begin_txn();
    txn.put(QueryObject::FlowVersion(row));
    projection.commit(txn, None);
    let w2 = StreamProcessor::recover_leader(&mut leader, &log, &mut projection, w);
    assert_eq!(w2, 3, "idempotent across restarts");
    assert_eq!(
        committed_version(&projection, &residue_ref)
            .expect("the row survives the second pass")
            .definition,
        "the residue folded once",
        "no double fold"
    );
}

#[test]
fn a_follower_commits_a_batch_at_its_marker() {
    let (log, residue_ref) = residue();
    let entries = log.entries();
    let mut follower = Follower::new();
    let mut projection = Projection::new();
    StreamProcessor::run_follower(&mut follower, &mut projection, &entries[..2].to_vec());
    assert!(
        committed_version(&projection, &residue_ref).is_none(),
        "a batch without its marker is not committed"
    );
    assert_eq!(projection.last_processed_position(), 0);
    StreamProcessor::run_follower(&mut follower, &mut projection, entries);
    assert!(committed_version(&projection, &residue_ref).is_some());
    assert_eq!(projection.last_processed_position(), 3);
}

#[test]
fn the_leader_writes_commits_and_reports_a_batch() {
    let mut log = InMemoryLogStream::new(StreamId(1));
    let mut leader = Leader::new();
    let mut projection = Projection::new();
    let request_id = RequestId(Uid(70));
    log.append(&vec![entry(
        None,
        EntryPayload::Command(create_flow(request_id)),
    )]);
    let first = log.read(EntryId::new(1)).unwrap().clone();
    let ctx = context(vec![]);
    let report =
        StreamProcessor::lead(&mut leader, &mut projection, &mut log, &ctx, &first, NOW, 10)
            .expect("there is room in the log");
    assert_eq!(report.position, Some(EntryId::new(4)));
    assert_eq!(report.applied.len(), 2);
    assert!(report.rejects.is_empty());
    assert_eq!(projection.last_processed_position(), 4);
    assert_eq!(leader.resume_position(), 4);
    assert!(leader.is_already_applied(EntryId::new(4)));
    assert_eq!(log.read(EntryId::new(4)).unwrap().payload, EntryPayload::Noop);
    assert_eq!(
        log.read(EntryId::new(2)).unwrap().cause_id,
        Some(EntryId::new(1))
    );

    let read_back = log.read(EntryId::new(2)).unwrap().clone();
    let skipped = StreamProcessor::lead(
        &mut leader,
        &mut projection,
        &mut log,
        &ctx,
        &read_back,
        NOW,
        10,
    )
    .expect("there is room in the log");
    assert_eq!(skipped.position, None);
    assert_eq!(log.len(), 4);

    log.append(&vec![entry(
        None,
        EntryPayload::Command(create_flow(request_id)),
    )]);
    let again = log.read(EntryId::new(5)).unwrap().clone();
    let report =
        StreamProcessor::lead(&mut leader, &mut projection, &mut log, &ctx, &again, NOW, 20)
            .expect("there is room in the log");
    assert!(report.applied.is_empty());
    assert_eq!(
        report.rejects,
        vec![Reject {
            request_id,
            rejection_type: RejectionType::AlreadyExists,
            rejection_reason: "create_flow: flow flow already exists".to_string(),
        }]
    );
}

#[test]
fn a_crash_before_the_commit_loses_nothing() {
    let mut log = InMemoryLogStream::new(StreamId(1));
    let mut projection = Projection::new();
    log.append(&vec![entry(
        None,
        EntryPayload::Command(create_flow(RequestId(Uid(70)))),
    )]);
    projection.commit(Store::new(), Some(1));
    let mut leader = Leader::new();
    let turn = StreamProcessor::prepare(
        &mut leader,
        &projection,
        &context(vec![]),
        EntryId::new(1),
        &create_flow(RequestId(Uid(70))),
        NOW,
        10,
    );
    log.append(&turn.batch);
    let mut processor = StreamProcessor::new();
    assert_eq!(processor.resume(&log, &mut projection), 4);
    assert_eq!(*projection.store(), turn.work);
    let Role::Leader(mut leader) = processor.into_state_machine() else {
        panic!("the role stays");
    };
    assert_eq!(leader.resume_position(), 4);
    let EntryPayload::Event(last) = &log.entries()[2].payload else {
        panic!("the batch ends with an event and its marker");
    };
    assert_eq!(leader.after_commit(), vec![last.clone()]);
}

#[test]
fn a_follower_resumes_where_the_projection_stands() {
    let (log, _) = residue();
    let mut projection = Projection::new();
    let mut processor = StreamProcessor::with_role(Role::Follower(Follower::new()));
    assert_eq!(processor.state_machine().label(), "follower");
    assert_eq!(processor.resume(&log, &mut projection), 0);
    assert_eq!(StreamProcessor::new().state_machine().label(), "leader");
}

#[test]
fn a_dispatch_without_a_definition_is_refused() {
    let processor = StreamProcessor::new();
    let mut ctx = context(vec![]);
    ctx.definition_ok = false;
    let entries = processor.dispatch(
        &create_flow(RequestId(Uid(9))),
        &Store::new(),
        &ctx,
        EntryId::new(1),
        NOW,
        1,
    );
    assert_eq!(
        entries[0].payload,
        EntryPayload::Reject(Reject {
            request_id: RequestId(Uid(9)),
            rejection_type: RejectionType::InvalidArgument,
            rejection_reason: "create_flow: malformed definition for flow flow".to_string(),
        })
    );
}
