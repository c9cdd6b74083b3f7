//! The store: rows, the fold, listings.

use spica_engine::handlers::states::harness::{
    child_ref, minted_activity, minted_activity_ref, path, seeded_activity, seeded_input,
    seeded_scope, thread_ref, uid,
};
use spica_engine::id::{Timestamp, Uid};
use spica_engine::query::{QueryObject, Row, list_kind, page_from_rows, ref_for};
use spica_engine::result::ExecutionStatusSnapshot;
use spica_engine::storage::store::Store;
use spica_engine::storage::thread::ThreadRecord;
use spica_engine::storage::validity::row_in_order;
use spica_engine::types::activity::{ActivityState, MapActivityState, ParallelActivityState, Slot};
use spica_engine::types::error::{ExecutionError, InfraError, RuntimeError};
use spica_engine::types::event::Event;
use spica_engine::types::execution::Execution;
use spica_engine::types::flow::{Flow, FlowStatus};
use spica_engine::types::meta::{ObjectKind, ObjectMeta, ObjectName, ObjectReference};
use spica_engine::types::status::{Lifecycle, TerminationReason};
use spica_engine::value::{Member, Number, Value};

fn flow(name: &str) -> QueryObject {
    QueryObject::Flow(Flow {
        meta: ObjectMeta::born(
            ObjectKind::Flow,
            ObjectName::plain(name),
            Uid(1),
            Timestamp(1),
            None,
        ),
        status: FlowStatus::Active,
        latest_flow_version: ObjectReference::nil(),
    })
}

fn flows(names: &[&str]) -> Store {
    let mut store = Store::new();
    for name in names {
        store.put(flow(name));
    }
    store
}

fn names(objects: &[QueryObject]) -> Vec<String> {
    objects.iter().map(|o| o.name().as_str()).collect()
}

#[test]
fn pages_follow_each_other_in_the_order_of_names() {
    let store = flows(&["pear", "fig", "apple", "figs", "banana"]);
    let page = list_kind(&store, ObjectKind::Flow, 2, None).unwrap();
    assert_eq!(names(&page.objects), vec!["apple", "banana"]);
    assert_eq!(page.continue_token, Some("banana".to_string()));
    let page = list_kind(&store, ObjectKind::Flow, 2, page.continue_token.as_deref()).unwrap();
    assert_eq!(names(&page.objects), vec!["fig", "figs"]);
    let page = list_kind(&store, ObjectKind::Flow, 2, page.continue_token.as_deref()).unwrap();
    assert_eq!(names(&page.objects), vec!["pear"]);
    assert_eq!(page.continue_token, None);
    assert_eq!(page.into_objects().len(), 1);
}

#[test]
fn a_listing_is_of_one_kind() {
    let mut store = flows(&["a"]);
    store.put(QueryObject::Thread(seeded_scope(Lifecycle::Running)));
    let page = list_kind(&store, ObjectKind::Thread, 9, Some("")).unwrap();
    assert_eq!(names(&page.objects), vec!["execution-0"]);
    let page = list_kind(&store, ObjectKind::Timer, 9, None).unwrap();
    assert!(page.objects.is_empty());
}

#[test]
fn a_limit_of_nothing_lists_nothing() {
    let page = list_kind(&flows(&["a"]), ObjectKind::Flow, 0, None).unwrap();
    assert!(page.objects.is_empty());
    assert_eq!(page.continue_token, None);
}

#[test]
fn a_faulty_store_gives_its_fault() {
    let mut store = flows(&["a"]);
    let fault = ExecutionError::Infra(InfraError::Storage("disk".to_string()));
    store.fail(fault.clone());
    assert_eq!(
        list_kind(&store, ObjectKind::Flow, 1, None),
        Err(fault.clone())
    );
    assert_eq!(store.get_thread(&thread_ref()), Err(fault));
}

#[test]
fn a_row_is_read_by_its_kind_and_name_alone() {
    let mut store = Store::new();
    store.put(QueryObject::Thread(seeded_scope(Lifecycle::Running)));
    let by_name = ref_for(ObjectKind::Thread, &thread_ref().name);
    assert_eq!(by_name.uid, Uid::nil());
    let row = store.get_thread(&by_name).unwrap().unwrap();
    assert_eq!(row.value.meta.uid, thread_ref().uid);
    assert_eq!(store.len(), 1);
    store.put(QueryObject::Thread(seeded_scope(Lifecycle::Completed)));
    assert_eq!(store.len(), 1, "a row is put in place of the one before");
}

#[test]
fn a_store_out_of_order_is_told() {
    let mut store = Store::new();
    store.put(QueryObject::Thread(seeded_scope(Lifecycle::Running)));
    assert!(store.is_in_order());
    let mut twice = seeded_scope(Lifecycle::Running);
    twice.active_children = vec![minted_activity_ref(), minted_activity_ref()];
    assert!(!row_in_order(&QueryObject::Thread(twice.clone())));
    store.put(QueryObject::Thread(twice));
    assert!(!store.is_in_order());

    let mut row = seeded_activity(seeded_input(), vec![]);
    assert!(row_in_order(&QueryObject::Activity(row.clone())));
    row.value.activity_state = Some(ActivityState::Parallel(ParallelActivityState {
        branches: vec![
            Slot {
                index: 1,
                thread: child_ref(1),
            },
            Slot {
                index: 0,
                thread: child_ref(0),
            },
        ],
    }));
    assert!(!row_in_order(&QueryObject::Activity(row.clone())));
    row.value.activity_state = Some(ActivityState::ItemMap(MapActivityState {
        items: vec![],
        total: 1,
        max_concurrency: 0,
        children: vec![Slot {
            index: 1,
            thread: child_ref(1),
        }],
    }));
    assert!(!row_in_order(&QueryObject::Activity(row.clone())));
    row.value.activity_state = None;
    row.value.meta.kind = ObjectKind::Task;
    assert!(!row_in_order(&QueryObject::Activity(row.clone())));
    row.value.meta.kind = ObjectKind::Activity;
    row.value.meta.owner = None;
    assert!(!row_in_order(&QueryObject::Activity(row)));
}

#[test]
fn an_event_is_folded_into_the_row_and_its_owner() {
    let mut store = Store::new();
    store.put(QueryObject::Thread(seeded_scope(Lifecycle::Running)));
    let activity = minted_activity(path("/States/P"), seeded_input());
    store.apply(
        &Event::StateActivating {
            activity: activity.clone(),
        },
        Timestamp(7),
    );
    let row = store.get_activity(&minted_activity_ref()).unwrap().unwrap();
    assert_eq!(row.created_at, Timestamp(7));
    let scope = store.get_thread(&thread_ref()).unwrap().unwrap();
    assert_eq!(scope.active_children, vec![minted_activity_ref()]);
    assert_eq!(scope.current_activity, Some(minted_activity_ref()));
    store.apply(&Event::StateCompleted { activity }, Timestamp(9));
    let row = store.get_activity(&minted_activity_ref()).unwrap().unwrap();
    assert_eq!(row.created_at, Timestamp(7));
    assert_eq!(row.updated_at, Timestamp(9));
    let scope = store.get_thread(&thread_ref()).unwrap().unwrap();
    assert!(scope.active_children.is_empty());
    assert_eq!(scope.current_activity, None);
}

#[test]
fn rows_are_stamped_when_born_and_touched() {
    let mut row = seeded_scope(Lifecycle::Running);
    assert!(!row.is_terminal());
    row.born(Timestamp(3));
    row.with_update_at(Timestamp(4));
    assert_eq!((row.created_at, row.updated_at), (Timestamp(3), Timestamp(4)));
    let thread = row.value();
    let again = ThreadRecord::from_value(thread.clone(), vec![]);
    assert_eq!(again.value, thread);
    assert_eq!(again.created_at, Timestamp(0));
}

#[test]
fn a_snapshot_tells_how_an_execution_ended() {
    let mut execution = Execution {
        meta: ObjectMeta::born(
            ObjectKind::Execution,
            ObjectName::plain("e"),
            Uid(1),
            Timestamp(1),
            None,
        ),
        flow_version: ObjectReference::nil(),
        status: Lifecycle::Completed,
        input: Value::Null,
        output: Some(Value::Bool(true)),
    };
    let snapshot = ExecutionStatusSnapshot::of(&execution);
    assert_eq!(snapshot.output, Some(Value::Bool(true)));
    assert_eq!(snapshot.error_name, None);
    execution.status = Lifecycle::Terminated(TerminationReason::Failed {
        error: ExecutionError::Runtime(RuntimeError::TimedOut {
            message: "late".to_string(),
        }),
    });
    let snapshot = ExecutionStatusSnapshot::of(&execution);
    assert_eq!(snapshot.output, None);
    assert_eq!(snapshot.error_name, Some("States.Timeout".to_string()));
    assert_eq!(snapshot.error_output, None);
}

fn read(names: &[&str]) -> Vec<Row> {
    list_kind(&flows(names), ObjectKind::Flow, 9, None)
        .unwrap()
        .into_objects()
        .into_iter()
        .map(|object| Row {
            name: object.name().clone(),
            object: Some(object),
        })
        .collect()
}

#[test]
fn rows_that_were_read_make_a_page() {
    let rows = read(&["a", "b", "c"]);
    let page = page_from_rows(ObjectKind::Flow, &rows, 2).unwrap();
    assert_eq!(page.continue_token, Some("b".to_string()));
    assert_eq!(page.objects.len(), 2);
    let page = page_from_rows(ObjectKind::Flow, &rows, 3).unwrap();
    assert_eq!(page.continue_token, None);
    assert_eq!(page.objects.len(), 3);
    let page = page_from_rows(ObjectKind::Flow, &rows, 0).unwrap();
    assert_eq!((page.objects.len(), page.continue_token), (0, None));
}

#[test]
fn a_row_that_cannot_be_read_fails_its_page() {
    let mut rows = read(&["a", "b", "c"]);
    rows[2].object = None;
    assert!(
        page_from_rows(ObjectKind::Flow, &rows, 2).is_ok(),
        "the row behind the page is not looked at"
    );
    let error = page_from_rows(ObjectKind::Flow, &rows, 3).unwrap_err();
    assert_eq!(
        error,
        ExecutionError::Runtime(RuntimeError::InvalidDefinition(
            "Query decode of flow \"c\" failed".to_string()
        ))
    );
    let error = page_from_rows(ObjectKind::Task, &rows, 1).unwrap_err();
    assert_eq!(
        error,
        ExecutionError::Runtime(RuntimeError::InvalidDefinition(
            "Query decode of task \"a\" failed".to_string()
        ))
    );
}

#[test]
fn the_pages_are_every_row_once() {
    let store = flows(&["b", "a-1", "d", "a", "c"]);
    for limit in 1..7 {
        let mut seen = Vec::new();
        let mut token: Option<String> = None;
        loop {
            let page = list_kind(&store, ObjectKind::Flow, limit, token.as_deref()).unwrap();
            token = page.continue_token.clone();
            if let Some(token) = &token {
                assert_eq!(page.objects.len(), limit, "a page that another follows is full");
                assert_eq!(names(&page.objects).last(), Some(token));
            }
            seen.extend(names(&page.objects));
            if token.is_none() {
                break;
            }
        }
        assert_eq!(seen, vec!["a", "a-1", "b", "c", "d"]);
    }
}

#[test]
fn names_of_the_same_text_name_the_same_row() {
    let mut store = flows(&["a-1"]);
    let generated = ObjectName::plain("a").generated_from_key(1);
    assert!(store.find(ObjectKind::Flow, &generated).is_some());
    let QueryObject::Flow(mut row) = flow("a") else {
        unreachable!("a flow");
    };
    row.meta.name = generated;
    store.put(QueryObject::Flow(row));
    assert_eq!(store.len(), 1);
    assert!(store.is_in_order());
}

#[test]
fn a_status_shows_its_reason() {
    assert_eq!(Lifecycle::Completing.shown(), "Completing");
    assert_eq!(
        Lifecycle::Terminated(TerminationReason::Failed {
            error: ExecutionError::Runtime(RuntimeError::StateFailed {
                state: "P".to_string(),
                error: "Boom".to_string(),
                output: Value::Object(vec![
                    Member {
                        name: "a".to_string(),
                        value: Value::Array(vec![Value::Null, Value::Bool(true)]),
                    },
                    Member {
                        name: "b".to_string(),
                        value: Value::Number(Number::Integral(-3)),
                    },
                ]),
            }),
        })
        .shown(),
        "Terminated(Failed { error: Runtime(StateFailed { state: \"P\", error: \"Boom\", output: \
         Object {\"a\": Array [Null, Bool(true)], \"b\": Number(-3)} }) })"
    );
}

fn whole(text: &str) -> Option<i128> {
    Number::Fraction(text.to_string()).whole()
}

#[test]
fn a_number_may_stand_for_an_integer() {
    assert_eq!(Number::Integral(-7).whole(), Some(-7));
    assert_eq!(whole("30.0"), Some(30));
    assert_eq!(whole("-5.00"), Some(-5));
    assert_eq!(whole("-0.0"), Some(0));
    assert_eq!(whole("1e16"), Some(10_000_000_000_000_000));
    assert_eq!(whole("1.5E+3"), Some(1500));
    assert_eq!(whole("1200e-2"), Some(12));
    assert_eq!(whole("0.000e-9"), Some(0));
    assert_eq!(whole("1e308"), Some(i128::MAX));
    assert_eq!(whole("-1e99999999999999999999999999999999999999"), Some(i128::MIN));
    for fraction in ["30.5", "1e-7", "1.25e1", "0.5"] {
        assert_eq!(whole(fraction), None);
    }
    for no_number in ["", "-", ".", "1.", ".5", "1e", "x", "1.0x"] {
        assert_eq!(whole(no_number), None);
    }
    assert_eq!(Value::Bool(true).whole(), None);
}

#[test]
fn the_name_counter_passes_what_is_stored_and_ends_with_its_last_number() {
    let mut store = Store::new();
    assert_eq!(store.draw_seq(), 0);
    store.pass_number(Some(6));
    assert_eq!(store.next_generated_seq(), 7);
    store.pass_number(Some(3));
    store.pass_number(None);
    assert_eq!(store.draw_seq(), 7);
    store.pass_number(Some(u64::MAX));
    assert_eq!(store.draw_seq(), u64::MAX);
    assert_eq!(store.next_generated_seq(), u64::MAX);
}
