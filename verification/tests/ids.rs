//! Ids, names, paths and instants.

use spica_engine::handlers::states::harness::{at, path};
use spica_engine::id::{
    ExecutionId, ActivityId, TimerId, TaskId, FlowName, NodeId, NodeKind, RequestId, Timestamp,
    Uid,
};
use spica_engine::types::error::{ExecutionError, RuntimeError};
use spica_engine::types::meta::{ObjectKind, ObjectName, ObjectReference};
use spica_engine::types::state_path::StatePath;

#[test]
fn ulid_ids_convert_from_raw_ulid_and_roundtrip() {
    let raw = Uid::new();
    let exec: ExecutionId = raw.into();
    let activity: ActivityId = raw.into();
    let timer: TimerId = raw.into();
    let task: TaskId = raw.into();
    let back_exec: Uid = exec.into();
    let back_activity: Uid = activity.into();
    let back_timer: Uid = timer.into();
    let back_task: Uid = task.into();
    assert_eq!(back_exec, raw);
    assert_eq!(back_activity, raw);
    assert_eq!(back_timer, raw);
    assert_eq!(back_task, raw);
}

#[test]
fn flow_name_validates_and_roundtrips() {
    let n = FlowName::new("checkout_flow").unwrap();
    assert_eq!(n.as_str(), "checkout_flow");
    assert!(FlowName::new("a").is_ok());
    assert!(FlowName::new("OrderFlow23").is_ok());
    assert!(FlowName::new(&"x".repeat(64)).is_ok());

    assert!(FlowName::new("").is_err());
    assert!(FlowName::new(&"x".repeat(65)).is_err());
    assert!(FlowName::new("_checkout").is_err());
    assert!(FlowName::new("1checkout").is_ok());
    assert!(FlowName::new("checkout-flow").is_err());
    assert!(FlowName::new("checkout flow").is_err());
    assert!(FlowName::new("checkout/flow").is_err());
    assert!(FlowName::new("中文").is_err());

    assert_ne!(
        FlowName::new("Checkout").unwrap(),
        FlowName::new("checkout").unwrap()
    );
}

#[test]
fn a_bad_flow_name_is_quoted_in_the_error() {
    assert_eq!(
        FlowName::new("a \"b\"\n"),
        Err(ExecutionError::Runtime(RuntimeError::InvalidDefinition(
            "invalid FlowName \"a \\\"b\\\"\\n\": must be 1..=64 chars, start with A-Za-z0-9, and contain only A-Za-z0-9_"
                .to_string()
        )))
    );
}

#[test]
fn a_ulid_is_written_in_its_canonical_text() {
    assert_eq!(Uid::nil().text(), "00000000000000000000000000");
    assert_eq!(Uid(32).text(), "00000000000000000000000010");
    assert_eq!(Uid(31).text(), "0000000000000000000000000Z");
    assert_eq!(Uid(u128::MAX).text(), "7ZZZZZZZZZZZZZZZZZZZZZZZZZ");
    assert_eq!(
        ExecutionId(Uid(1)).text(),
        "ExecutionId(00000000000000000000000001)"
    );
}

#[test]
fn minted_ulids_differ() {
    let first = Uid::new();
    assert_ne!(first, Uid::nil());
    assert_ne!(first, Uid::new());
    assert_ne!(RequestId::new(), RequestId::new());
}

#[test]
fn a_node_tells_its_kind() {
    let id = TimerId(Uid(7));
    assert_eq!(NodeId::Timer(id).kind(), NodeKind::Timer(id));
    let id = TaskId(Uid(8));
    assert_eq!(NodeId::Task(id).kind(), NodeKind::Task(id));
}

#[test]
fn object_names_round_trip_through_text() {
    let plain = ObjectName::from_parsed("order").unwrap();
    assert_eq!(plain, ObjectName::plain("order"));
    let generated = ObjectName::from_parsed("order-12").unwrap();
    assert_eq!(generated, plain.generated_from_key(12));
    assert_eq!(generated.as_str(), "order-12");
    assert_eq!(
        ObjectName::from_parsed("order-012").unwrap(),
        ObjectName::plain("order-012")
    );
    assert!(ObjectName::from_parsed("").is_err());
    assert_eq!(
        ObjectReference::new(ObjectKind::Thread, generated, Uid(1)).text(),
        "thread/order-12"
    );
}

#[test]
fn letters_behind_a_name_are_no_number() {
    let run = ObjectName::plain("run");
    let timer = run.generated_from_uid(Uid(12));
    assert_eq!(timer.as_str(), "run-bbbbbbbq");
    assert!(timer.as_plain().is_none());
    assert_eq!(timer.number(), None);
    assert_eq!(run.generated_from_uid(Uid(25_600_000_000)).as_str(), "run-bbbbbbbb");
    assert_eq!(run.generated_from_uid(Uid(25_599_999_999)).as_str(), "run-zzzzzzzz");
    assert_ne!(timer, run.generated_from_key(12));
    assert_eq!(
        ObjectName::from_parsed("run-bbbbbbbq").unwrap(),
        ObjectName::plain("run-bbbbbbbq")
    );
}

#[test]
fn a_numbered_name_ends_in_its_number() {
    let run = ObjectName::plain("run");
    assert_eq!(run.number(), None);
    assert_eq!(run.generated_from_key(7).number(), Some(7));
    assert_eq!(ObjectName::plain("run-7").number(), Some(7));
    assert_eq!(ObjectName::plain("run-07").number(), None);
    assert_eq!(
        run.generated_from_key(u64::MAX).number(),
        Some(u64::MAX)
    );
}

#[test]
fn state_paths_are_json_pointers() {
    let mut path = StatePath::root();
    assert_eq!(path.text(), "");
    path.push_back("States");
    path.push_back("a/b~c");
    assert_eq!(path.text(), "/States/a~1b~0c");
    assert_eq!(path.state_name(), "a/b~c");
    assert_eq!(StatePath::parse("/States/a~1b~0c"), Some(path.clone()));
    assert_eq!(StatePath::parse("States"), None);
    assert_eq!(StatePath::parse("/a~2"), None);
    assert_eq!(path.sibling("d").text(), "/States/d");
    assert_eq!(path.branch(3).text(), "/States/a~1b~0c/Branches/3/States");
    assert_eq!(
        path.item_processor().text(),
        "/States/a~1b~0c/ItemProcessor/States"
    );
}

#[test]
fn instants_are_added_to_with_care() {
    let at = Timestamp::from_millis(1_500);
    assert_eq!(at.checked_add(2), Some(Timestamp::from_millis(3_500)));
    assert_eq!(at.checked_add(u64::MAX), None);
    assert_eq!(Timestamp::from_millis(i64::MAX).checked_add(1), None);
}
