//! Fixtures and drivers to try one step of one state with: a fixed instant, fixed references, seeded
//! rows, and the steps run over them as the leader runs them.

use vstd::prelude::*;
use vstd::string::*;

use crate::asl::{state_valid, State};
use crate::eval_env::{EvalEnv, Question};
use crate::handler::{enveloped, idle, Collector, World};
use crate::handlers::dispatch::bind_state;
use crate::handlers::state_handler::{activated, child_reaction, completed};
use crate::id::{EntryId, Timestamp, Uid};
use crate::query::{group_query_object_view, QueryObject, QueryObjectView};
use crate::storage::activity::{ActivityRecord, ActivityRecordView};
use crate::storage::order::{lemma_put_ok, row_ok, store_ok};
use crate::storage::store::{empty_store, Store, StoreView};
use crate::storage::thread::{ThreadRecord, ThreadRecordView};
use crate::text::{decimal, decimal_text, join2};
use crate::types::activity::{Activity, ActivityState, ActivityView};
use crate::types::command::{
    ActivateState, ActivateStateView, CompleteState, CompleteStateView,
};
use crate::types::entry::{Entry, EntryPayload, EntryView};
use crate::types::meta::{
    born_meta, law_name_text_round_trip, parsed_name, ObjectKind, ObjectMeta, ObjectMetaView,
    ObjectName, ObjectReference, ObjectReferenceView,
};
use crate::types::state_path::StatePath;
use crate::types::status::{Lifecycle, LifecycleView};
use crate::types::thread::{Thread, ThreadView};
use crate::value::{Json, Member, MemberView, Number, NumberView, Value};

verus! {

broadcast use group_query_object_view;

/// The instant of everything that is tried here.
pub fn at() -> (r: Timestamp)
    ensures
        r == Timestamp(1_000),
{
    Timestamp::from_millis(1_000)
}

/// The `n`-th uid that is minted. The seeded references have uids far above.
pub fn uid(n: u64) -> (r: Uid)
    ensures
        r == Uid(n as u128),
{
    Uid(n as u128)
}

/// The object that `name` names.
pub fn obj_name(name: &str) -> (r: ObjectName)
    requires
        name@.len() > 0,
    ensures
        parsed_name(name@) == Some(r@),
{
    proof {
        law_name_text_round_trip(name@);
    }
    match ObjectName::from_parsed(name) {
        Ok(name) => name,
        Err(_) => vstd::pervasive::unreached(),
    }
}

/// The segments that slashes part a text into, the empty ones left out: those before the last slash,
/// and what stands behind it.
pub open spec fn parts(s: Seq<char>) -> (Seq<Seq<char>>, Seq<char>)
    decreases s.len(),
{
    if s.len() == 0 {
        (Seq::empty(), Seq::empty())
    } else {
        let (done, rest) = parts(s.drop_last());
        if s.last() != '/' {
            (done, rest.push(s.last()))
        } else if rest.len() > 0 {
            (done.push(rest), Seq::empty())
        } else {
            (done, rest)
        }
    }
}

/// The segments that slashes part a text into, the empty ones left out.
pub open spec fn segments(s: Seq<char>) -> Seq<Seq<char>> {
    let (done, rest) = parts(s);
    if rest.len() > 0 {
        done.push(rest)
    } else {
        done
    }
}

/// The path that a text writes with a slash before each segment.
pub fn path(document: &str) -> (r: StatePath)
    ensures
        r@ == segments(document@),
{
    let n = document.unicode_len();
    let mut r = StatePath::root();
    let mut from: usize = 0;
    let mut i: usize = 0;
    assert(document@.take(0) =~= Seq::empty());
    assert(document@.subrange(0, 0) =~= Seq::empty());
    while i < n
        invariant
            n == document@.len(),
            from <= i <= n,
            parts(document@.take(i as int)) == (
                r@,
                document@.subrange(from as int, i as int),
            ),
        decreases n - i,
    {
        let ghost next = document@.take(i as int + 1);
        assert(next.drop_last() =~= document@.take(i as int));
        assert(next.last() == document@[i as int]);
        if document.get_char(i) == '/' {
            if from < i {
                r.push_back(document.substring_char(from, i));
            }
            from = i + 1;
            assert(document@.subrange(i + 1, i + 1) =~= Seq::empty());
        } else {
            assert(document@.subrange(from as int, i + 1) =~= document@.subrange(
                from as int,
                i as int,
            ).push(document@[i as int]));
        }
        i += 1;
    }
    assert(document@.take(n as int) =~= document@);
    if from < n {
        r.push_back(document.substring_char(from, n));
    }
    r
}

/// The input of a seeded scope, and of the activity in it.
pub open spec fn seeded_json() -> Json {
    Json::Object(
        seq![MemberView { name: "n"@, value: Json::Number(NumberView::Integral(1)) }],
    )
}

/// The input of a seeded scope, and of the activity in it.
pub fn seeded_input() -> (r: Value)
    ensures
        r@ == seeded_json(),
{
    broadcast use crate::value::lemma_object_view;

    let members = vec![
        Member { name: "n".to_string(), value: Value::Number(Number::Integral(1)) },
    ];
    assert(members.deep_view() =~= seq![
        MemberView { name: "n"@, value: Json::Number(NumberView::Integral(1)) },
    ]);
    Value::Object(members)
}

/// A reference to the object of a kind that `name` names.
pub open spec fn named(kind: ObjectKind, name: Seq<char>, uid: u64) -> ObjectReferenceView {
    ObjectReferenceView { kind, name: parsed_name(name)->0, uid: Uid(uid as u128) }
}

/// The execution that everything belongs to.
pub fn execution_ref() -> (r: ObjectReference)
    ensures
        r@ == named(ObjectKind::Execution, "execution"@, 90),
{
    proof {
        reveal_strlit("execution");
    }
    ObjectReference::new(ObjectKind::Execution, obj_name("execution"), uid(90))
}

/// The scope that the activity is owned by: the root thread of the execution.
pub fn thread_ref() -> (r: ObjectReference)
    ensures
        r@ == named(ObjectKind::Thread, "execution-0"@, 91),
{
    proof {
        reveal_strlit("execution-0");
    }
    ObjectReference::new(ObjectKind::Thread, obj_name("execution-0"), uid(91))
}

/// The reference of the activity that is minted first.
pub fn minted_activity_ref() -> (r: ObjectReference)
    ensures
        r@ == named(ObjectKind::Activity, "execution-0"@, 1),
{
    proof {
        reveal_strlit("execution-0");
    }
    ObjectReference::new(ObjectKind::Activity, obj_name("execution-0"), uid(1))
}

/// The metadata of the activity that is minted first.
pub open spec fn minted_meta() -> ObjectMetaView {
    born_meta(
        ObjectKind::Activity,
        parsed_name("execution-0"@)->0,
        Uid(1),
        Timestamp(1_000),
        Some(named(ObjectKind::Thread, "execution-0"@, 91)),
    )
}

/// The metadata of the activity that is minted first.
pub fn minted_activity_meta() -> (r: ObjectMeta)
    ensures
        r@ == minted_meta(),
{
    proof {
        reveal_strlit("execution-0");
    }
    ObjectMeta::born(
        ObjectKind::Activity,
        obj_name("execution-0"),
        uid(1),
        at(),
        Some(thread_ref()),
    )
}

/// The activity that is minted first, as it is born.
pub open spec fn minted(state_path: Seq<Seq<char>>, input: Json) -> ActivityView {
    ActivityView {
        meta: minted_meta(),
        execution: named(ObjectKind::Execution, "execution"@, 90),
        state_path,
        status: LifecycleView::Running,
        raw_input: input,
        input: None,
        raw_output: None,
        activity_state: None,
        retry_state: None,
        output: None,
    }
}

/// The activity that is minted first, as it is born.
pub fn minted_activity(state_path: StatePath, input: Value) -> (r: Activity)
    ensures
        r@ == minted(state_path@, input@),
{
    Activity {
        meta: minted_activity_meta(),
        execution: execution_ref(),
        state_path,
        status: Lifecycle::Running,
        raw_input: input,
        input: None,
        raw_output: None,
        activity_state: None,
        retry_state: None,
        output: None,
    }
}

/// The command that enters the state at `state_path`.
pub fn activate_cmd(state_path: StatePath, input: Value) -> (r: ActivateState)
    ensures
        r@ == (ActivateStateView {
            execution: named(ObjectKind::Execution, "execution"@, 90),
            owner: named(ObjectKind::Thread, "execution-0"@, 91),
            state_path: state_path@,
            input: input@,
        }),
{
    ActivateState { execution: execution_ref(), owner: thread_ref(), state_path, input }
}

/// The command that completes the activity that was minted first.
pub fn complete_cmd(output: Value) -> (r: CompleteState)
    ensures
        r@ == (CompleteStateView {
            activity: named(ObjectKind::Activity, "execution-0"@, 1),
            output: output@,
        }),
{
    CompleteState { activity: minted_activity_ref(), output }
}

/// The row of the scope.
pub open spec fn scope_row(status: LifecycleView) -> ThreadRecordView {
    ThreadRecordView {
        value: ThreadView {
            meta: born_meta(
                ObjectKind::Thread,
                parsed_name("execution-0"@)->0,
                Uid(91),
                Timestamp(1_000),
                Some(named(ObjectKind::Execution, "execution"@, 90)),
            ),
            execution: named(ObjectKind::Execution, "execution"@, 90),
            state_path: segments("/States"@),
            start_at: "P"@,
            index: 0,
            status,
            input: seeded_json(),
            output: None,
        },
        variables: Seq::empty(),
        current_activity: None,
        active_children: Seq::empty(),
        created_at: Timestamp(1_000),
        updated_at: Timestamp(1_000),
    }
}

fn no_references() -> (r: Vec<ObjectReference>)
    ensures
        r.deep_view() == Seq::<ObjectReferenceView>::empty(),
{
    let r: Vec<ObjectReference> = Vec::new();
    assert(r.deep_view() =~= Seq::empty());
    r
}

/// The row of the scope.
pub fn seeded_scope(status: Lifecycle) -> (r: ThreadRecord)
    ensures
        r@ == scope_row(status@),
{
    let reference = thread_ref();
    let thread = Thread {
        meta: ObjectMeta::born(
            ObjectKind::Thread,
            reference.name,
            reference.uid,
            at(),
            Some(execution_ref()),
        ),
        execution: execution_ref(),
        state_path: path("/States"),
        start_at: "P".to_string(),
        index: 0,
        status,
        input: seeded_input(),
        output: None,
    };
    let mut row = ThreadRecord::from_value(thread, no_references());
    row.born(at());
    row
}

/// The row of a running activity at `/States/P`, with its input processed.
pub open spec fn activity_row(input: Json, children: Seq<ObjectReferenceView>) -> ActivityRecordView {
    ActivityRecordView {
        value: ActivityView { input: Some(input), ..minted(segments("/States/P"@), input) },
        active_children: children,
        created_at: Timestamp(1_000),
        updated_at: Timestamp(1_000),
    }
}

/// The row of a running activity at `/States/P`, with its input processed.
pub fn seeded_activity(input: Value, children: Vec<ObjectReference>) -> (r: ActivityRecord)
    ensures
        r@ == activity_row(input@, children.deep_view()),
{
    let mut activity = minted_activity(path("/States/P"), input.clone());
    activity.input = Some(input);
    let mut row = ActivityRecord::from_value(activity, children);
    row.born(at());
    row
}

/// The row of a container.
pub fn seeded_activity_with(
    state_path: StatePath,
    input: Value,
    activity_state: ActivityState,
    status: Lifecycle,
    children: Vec<ObjectReference>,
) -> (r: ActivityRecord)
    ensures
        r@ == (ActivityRecordView {
            value: ActivityView {
                input: Some(input@),
                activity_state: Some(activity_state@),
                status: status@,
                ..minted(state_path@, input@)
            },
            active_children: children.deep_view(),
            created_at: Timestamp(1_000),
            updated_at: Timestamp(1_000),
        }),
{
    let mut activity = minted_activity(state_path, input.clone());
    activity.input = Some(input);
    activity.activity_state = Some(activity_state);
    activity.status = status;
    let mut row = ActivityRecord::from_value(activity, children);
    row.born(at());
    row
}

/// The reference of a child of a container.
pub open spec fn child_at(index: usize) -> ObjectReferenceView {
    ObjectReferenceView {
        kind: ObjectKind::Thread,
        name: parsed_name("child-"@ + decimal(index as nat))->0,
        uid: Uid((80 + index) as u128),
    }
}

/// The reference of a child of a container.
pub fn child_ref(index: usize) -> (r: ObjectReference)
    requires
        80 + index <= u64::MAX,
    ensures
        r@ == child_at(index),
{
    proof {
        reveal_strlit("child-");
    }
    let name = join2("child-", decimal_text(index as u128).as_str());
    ObjectReference::new(ObjectKind::Thread, obj_name(name.as_str()), uid(80 + index as u64))
}

/// The row of a child of a container that has settled.
pub fn seeded_child_thread(
    state_path: StatePath,
    index: usize,
    output: Value,
    status: Lifecycle,
) -> (r: ThreadRecord)
    requires
        80 + index <= u64::MAX,
    ensures
        r@ == (ThreadRecordView {
            value: ThreadView {
                meta: born_meta(
                    ObjectKind::Thread,
                    child_at(index).name,
                    child_at(index).uid,
                    Timestamp(1_000),
                    Some(named(ObjectKind::Activity, "execution-0"@, 1)),
                ),
                execution: named(ObjectKind::Execution, "execution"@, 90),
                state_path: state_path@,
                start_at: "I0"@,
                index,
                status: status@,
                input: seeded_json(),
                output: Some(output@),
            },
            variables: Seq::empty(),
            current_activity: None,
            active_children: Seq::empty(),
            created_at: Timestamp(1_000),
            updated_at: Timestamp(1_000),
        }),
{
    let reference = child_ref(index);
    let thread = Thread {
        meta: ObjectMeta::born(
            ObjectKind::Thread,
            reference.name,
            reference.uid,
            at(),
            Some(minted_activity_ref()),
        ),
        execution: execution_ref(),
        state_path,
        start_at: "I0".to_string(),
        index,
        status,
        input: seeded_input(),
        output: Some(output),
    };
    let mut row = ThreadRecord::from_value(thread, no_references());
    row.born(at());
    row
}

/// A store with the running scope and a running activity.
pub fn complete_store(input: Value, children: Vec<ObjectReference>) -> (r: Store)
    ensures
        r@ == empty_store().put(QueryObjectView::Thread(scope_row(LifecycleView::Running))).put(
            QueryObjectView::Activity(activity_row(input@, children.deep_view())),
        ),
{
    let mut store = Store::new();
    store.put(QueryObject::Thread(seeded_scope(Lifecycle::Running)));
    store.put(QueryObject::Activity(seeded_activity(input, children)));
    store
}

/// A store with some threads put into it, in order.
pub open spec fn with_threads(s: StoreView, threads: Seq<ThreadRecordView>) -> StoreView
    decreases threads.len(),
{
    if threads.len() == 0 {
        s
    } else {
        with_threads(s, threads.drop_last()).put(QueryObjectView::Thread(threads.last()))
    }
}

/// Puts the running scope, a container and its children into a store.
pub fn seed_container(store: &mut Store, activity: ActivityRecord, children: &Vec<ThreadRecord>)
    ensures
        final(store)@ == with_threads(
            old(store)@.put(QueryObjectView::Thread(scope_row(LifecycleView::Running))).put(
                QueryObjectView::Activity(activity@),
            ),
            children.deep_view(),
        ),
{
    store.put(QueryObject::Thread(seeded_scope(Lifecycle::Running)));
    store.put(QueryObject::Activity(activity));
    let ghost base = store@;
    let ghost all = children.deep_view();
    let mut i: usize = 0;
    assert(all.take(0) =~= Seq::empty());
    while i < children.len()
        invariant
            i <= children.len(),
            all == children.deep_view(),
            store@ == with_threads(base, all.take(i as int)),
        decreases children.len() - i,
    {
        let ghost next = all.take(i as int + 1);
        assert(next.drop_last() =~= all.take(i as int));
        assert(next.last() == children@[i as int]@);
        store.put(QueryObject::Thread(children[i].clone()));
        i += 1;
    }
    assert(all.take(all.len() as int) =~= all);
}

/// What one step leaves: the entries, the store that their events are folded into, and the question
/// that was left open.
#[derive(Debug, PartialEq, Eq)]
pub struct Dispatch {
    pub entries: Vec<Entry>,
    pub store: Store,
    pub question: Option<Question>,
}

impl Dispatch {
    /// What a step that ended with `w` leaves.
    pub open spec fn shows(&self, w: World) -> bool {
        &&& self.entries.deep_view() == enveloped(w.chain, EntryId(1), w.now)
        &&& self.store@ == w.store
        &&& self.question.deep_view() == w.question
    }

    /// What was emitted, in order.
    pub fn chain(&self) -> (r: Vec<EntryPayload>)
        ensures
            r.deep_view() == self.entries.deep_view().map_values(|e: EntryView| e.payload),
    {
        let mut chain: Vec<EntryPayload> = Vec::new();
        let mut i: usize = 0;
        while i < self.entries.len()
            invariant
                i <= self.entries@.len(),
                chain@.len() == i,
                forall|j: int|
                    0 <= j < i ==> (#[trigger] chain@[j])@ == self.entries@[j].payload@,
            decreases self.entries.len() - i,
        {
            chain.push(self.entries[i].payload.clone());
            i += 1;
        }
        assert(chain.deep_view() =~= self.entries.deep_view().map_values(
            |e: EntryView| e.payload,
        ));
        chain
    }

    /// The row of an activity; `None` when there is none, or the store cannot be read.
    pub fn activity(&self, reference: &ObjectReference) -> (r: Option<ActivityRecord>)
        ensures
            r.deep_view() == (match self.store@.activity(reference@) {
                Ok(row) => row,
                Err(_) => None,
            }),
    {
        match self.store.get_activity(reference) {
            Ok(row) => row,
            Err(_) => None,
        }
    }

    /// The children of a node; none when the store cannot be read.
    pub fn children(&self, reference: &ObjectReference) -> (r: Vec<ObjectReference>)
        ensures
            r.deep_view() == (match self.store@.children(reference@) {
                Ok(children) => children,
                Err(_) => Seq::empty(),
            }),
    {
        match self.store.get_children(reference) {
            Ok(children) => children,
            Err(_) => no_references(),
        }
    }
}

fn conclude(out: Collector) -> (r: Dispatch)
    ensures
        r.shows(out@),
{
    let question = out.question().clone();
    let (entries, store) = out.into_parts(EntryId::new(1));
    Dispatch { entries, store, question }
}

/// Enters a state on a store that holds the scope, if one is given.
pub fn activate(state: &State, env: &EvalEnv, cmd: &ActivateState, scope: Option<ThreadRecord>) -> (r:
    Dispatch)
    requires
        state_valid(*state),
        scope matches Some(row) ==> row_ok(QueryObjectView::Thread(row@)),
    ensures
        r.shows(
            activated(
                idle(
                    match scope {
                        Some(row) => empty_store().put(QueryObjectView::Thread(row@)),
                        None => empty_store(),
                    },
                    Timestamp(1_000),
                    1,
                ),
                *env,
                *state,
                cmd@,
            ),
        ),
{
    let mut store = Store::new();
    if let Some(thread) = scope {
        proof {
            lemma_put_ok(store@, QueryObjectView::Thread(thread@));
        }
        store.put(QueryObject::Thread(thread));
    }
    let mut out = Collector::new(store, at(), 1);
    bind_state(state).activate(&mut out, env, cmd);
    conclude(out)
}

/// Completes a state on a store.
pub fn complete(state: &State, env: &EvalEnv, store: Store, cmd: &CompleteState) -> (r: Dispatch)
    requires
        store_ok(store@),
    ensures
        r.shows(completed(idle(store@, Timestamp(1_000), 1), *env, *state, cmd@)),
{
    let mut out = Collector::new(store, at(), 1);
    bind_state(state).complete(&mut out, env, cmd);
    conclude(out)
}

/// What a container makes of a child that has settled: nothing, when the container or its scope is
/// not stored.
pub open spec fn child_step(
    s: StoreView,
    env: EvalEnv,
    state: State,
    activity: ObjectReferenceView,
    child: ObjectReferenceView,
) -> World {
    let w = idle(s, Timestamp(1_000), 1);
    match s.activity(activity) {
        Ok(Some(row)) => match s.thread(row.value.meta.owner->0) {
            Ok(Some(thread)) => child_reaction(
                w,
                env,
                state,
                activity,
                row.value,
                thread.variables,
                child,
            ),
            _ => w,
        },
        _ => w,
    }
}

/// Tells a container on a store that a child of it has settled.
pub fn child_completed(
    state: &State,
    env: &EvalEnv,
    store: Store,
    activity: &ObjectReference,
    child: &ObjectReference,
) -> (r: Dispatch)
    requires
        store_ok(store@),
    ensures
        r.shows(child_step(store@, *env, *state, activity@, child@)),
{
    let mut out = Collector::new(store, at(), 1);
    let row = out.storage().get_activity(activity);
    if let Ok(Some(row)) = row {
        let owner = row.value.meta.owner.clone().unwrap();
        let thread = out.storage().get_thread(&owner);
        if let Ok(Some(thread)) = thread {
            bind_state(state).child_completed(
                &mut out,
                env,
                activity,
                &row.value,
                &thread.variables,
                child,
            );
        }
    }
    conclude(out)
}

} // verus!
