//! Reading stored objects: one by its kind and name, or the objects of a kind page by page.

use vstd::prelude::*;
use vstd::string::*;

use crate::id::{debug_text, quoted, Uid};
use crate::storage::activity::{ActivityRecord, ActivityRecordView};
use crate::storage::execution::{ExecutionRecord, ExecutionRecordView};
use crate::storage::listing::{
    first_rows, in_order, law_listed_rows_are_told_apart, law_listing_is_in_order,
    law_pages_are_the_listing, law_texts_are_ordered, lemma_listed_len, precedes, row_text,
    start_text, told_apart,
};
use crate::storage::order::store_ok;
use crate::storage::store::{Store, StoreView};
use crate::storage::task::{Task as TaskRecord, TaskRecordView};
use crate::storage::thread::{ThreadRecord, ThreadRecordView};
use crate::storage::timer::{TimerRecord, TimerRecordView};
use crate::text::join3;
use crate::types::error::{invalid_definition, ExecutionError, ExecutionErrorView};
use crate::types::flow::{Flow, FlowVersion, FlowVersionView, FlowView};
use crate::types::meta::{
    kind_text, law_name_text_round_trip, name_text, ObjectKind, ObjectMeta, ObjectMetaView,
    ObjectName, ObjectNameView, ObjectReference, ObjectReferenceView,
};

verus! {

/// The stored row of an object of any kind.
#[derive(Debug, PartialEq, Eq)]
pub enum QueryObject {
    Flow(Flow),
    FlowVersion(FlowVersion),
    Execution(ExecutionRecord),
    Thread(ThreadRecord),
    Activity(ActivityRecord),
    Timer(TimerRecord),
    Task(TaskRecord),
}

/// What a [`QueryObject`] holds.
pub enum QueryObjectView {
    Flow(FlowView),
    FlowVersion(FlowVersionView),
    Execution(ExecutionRecordView),
    Thread(ThreadRecordView),
    Activity(ActivityRecordView),
    Timer(TimerRecordView),
    Task(TaskRecordView),
}

/// What `x` holds; read off by the lemmas of [`group_query_object_view`].
#[verifier::opaque]
pub open spec fn query_object_view(x: QueryObject) -> QueryObjectView {
    match x {
        QueryObject::Flow(x) => QueryObjectView::Flow(x@),
        QueryObject::FlowVersion(x) => QueryObjectView::FlowVersion(x@),
        QueryObject::Execution(x) => QueryObjectView::Execution(x@),
        QueryObject::Thread(x) => QueryObjectView::Thread(x@),
        QueryObject::Activity(x) => QueryObjectView::Activity(x@),
        QueryObject::Timer(x) => QueryObjectView::Timer(x@),
        QueryObject::Task(x) => QueryObjectView::Task(x@),
    }
}

impl View for QueryObject {
    type V = QueryObjectView;

    open spec fn view(&self) -> QueryObjectView {
        query_object_view(*self)
    }
}

pub broadcast proof fn lemma_query_object_flow(x: Flow)
    ensures
        #[trigger] query_object_view(QueryObject::Flow(x)) == (QueryObjectView::Flow(x@)),
{
    reveal(query_object_view);
}

pub broadcast proof fn lemma_query_object_flow_version(x: FlowVersion)
    ensures
        #[trigger] query_object_view(QueryObject::FlowVersion(x)) == (QueryObjectView::FlowVersion(x@)),
{
    reveal(query_object_view);
}

pub broadcast proof fn lemma_query_object_execution(x: ExecutionRecord)
    ensures
        #[trigger] query_object_view(QueryObject::Execution(x)) == (QueryObjectView::Execution(x@)),
{
    reveal(query_object_view);
}

pub broadcast proof fn lemma_query_object_thread(x: ThreadRecord)
    ensures
        #[trigger] query_object_view(QueryObject::Thread(x)) == (QueryObjectView::Thread(x@)),
{
    reveal(query_object_view);
}

pub broadcast proof fn lemma_query_object_activity(x: ActivityRecord)
    ensures
        #[trigger] query_object_view(QueryObject::Activity(x)) == (QueryObjectView::Activity(x@)),
{
    reveal(query_object_view);
}

pub broadcast proof fn lemma_query_object_timer(x: TimerRecord)
    ensures
        #[trigger] query_object_view(QueryObject::Timer(x)) == (QueryObjectView::Timer(x@)),
{
    reveal(query_object_view);
}

pub broadcast proof fn lemma_query_object_task(x: TaskRecord)
    ensures
        #[trigger] query_object_view(QueryObject::Task(x)) == (QueryObjectView::Task(x@)),
{
    reveal(query_object_view);
}

/// What each variant of [`QueryObject`] holds.
pub broadcast group group_query_object_view {
    lemma_query_object_flow,
    lemma_query_object_flow_version,
    lemma_query_object_execution,
    lemma_query_object_thread,
    lemma_query_object_activity,
    lemma_query_object_timer,
    lemma_query_object_task,
}

impl DeepView for QueryObject {
    type V = QueryObjectView;

    open spec fn deep_view(&self) -> QueryObjectView {
        self.view()
    }
}

impl Clone for QueryObject {
    fn clone(&self) -> (r: Self)
        ensures
            r@ == self@,
    {
        broadcast use group_query_object_view;

        match self {
            QueryObject::Flow(x) => QueryObject::Flow(x.clone()),
            QueryObject::FlowVersion(x) => QueryObject::FlowVersion(x.clone()),
            QueryObject::Execution(x) => QueryObject::Execution(x.clone()),
            QueryObject::Thread(x) => QueryObject::Thread(x.clone()),
            QueryObject::Activity(x) => QueryObject::Activity(x.clone()),
            QueryObject::Timer(x) => QueryObject::Timer(x.clone()),
            QueryObject::Task(x) => QueryObject::Task(x.clone()),
        }
    }
}

impl QueryObjectView {
    /// The kind of the object.
    pub open spec fn kind(self) -> ObjectKind {
        match self {
            QueryObjectView::Flow(_) => ObjectKind::Flow,
            QueryObjectView::FlowVersion(_) => ObjectKind::FlowVersion,
            QueryObjectView::Execution(_) => ObjectKind::Execution,
            QueryObjectView::Thread(_) => ObjectKind::Thread,
            QueryObjectView::Activity(_) => ObjectKind::Activity,
            QueryObjectView::Timer(_) => ObjectKind::Timer,
            QueryObjectView::Task(_) => ObjectKind::Task,
        }
    }

    /// The metadata of the object.
    pub open spec fn meta(self) -> ObjectMetaView {
        match self {
            QueryObjectView::Flow(x) => x.meta,
            QueryObjectView::FlowVersion(x) => x.meta,
            QueryObjectView::Execution(x) => x.value.meta,
            QueryObjectView::Thread(x) => x.value.meta,
            QueryObjectView::Activity(x) => x.value.meta,
            QueryObjectView::Timer(x) => x.value.meta,
            QueryObjectView::Task(x) => x.value.meta,
        }
    }

    /// The name that the object is addressed by.
    pub open spec fn name(self) -> ObjectNameView {
        self.meta().name
    }
}

impl QueryObject {
    /// The kind of the object.
    pub fn kind(&self) -> (r: ObjectKind)
        ensures
            r == self@.kind(),
    {
        reveal(query_object_view);

        match self {
            QueryObject::Flow(_) => ObjectKind::Flow,
            QueryObject::FlowVersion(_) => ObjectKind::FlowVersion,
            QueryObject::Execution(_) => ObjectKind::Execution,
            QueryObject::Thread(_) => ObjectKind::Thread,
            QueryObject::Activity(_) => ObjectKind::Activity,
            QueryObject::Timer(_) => ObjectKind::Timer,
            QueryObject::Task(_) => ObjectKind::Task,
        }
    }

    /// The metadata of the object.
    pub fn meta(&self) -> (r: &ObjectMeta)
        ensures
            r@ == self@.meta(),
    {
        broadcast use group_query_object_view;

        match self {
            QueryObject::Flow(x) => &x.meta,
            QueryObject::FlowVersion(x) => &x.meta,
            QueryObject::Execution(x) => &x.value.meta,
            QueryObject::Thread(x) => &x.value.meta,
            QueryObject::Activity(x) => &x.value.meta,
            QueryObject::Timer(x) => &x.value.meta,
            QueryObject::Task(x) => &x.value.meta,
        }
    }

    /// The name that the object is addressed by.
    pub fn name(&self) -> (r: &ObjectName)
        ensures
            r@ == self@.name(),
    {
        &self.meta().name
    }
}

/// One page of a listing, and the token that the next page is asked for with.
#[derive(Debug, PartialEq, Eq)]
pub struct QueryListPage {
    pub objects: Vec<QueryObject>,
    /// The name of the last object; `None` on the last page.
    pub continue_token: Option<String>,
}

/// What a [`QueryListPage`] holds.
pub struct QueryListPageView {
    pub objects: Seq<QueryObjectView>,
    pub continue_token: Option<Seq<char>>,
}

impl View for QueryListPage {
    type V = QueryListPageView;

    open spec fn view(&self) -> QueryListPageView {
        QueryListPageView {
            objects: self.objects.deep_view(),
            continue_token: self.continue_token.deep_view(),
        }
    }
}

impl QueryListPage {
    /// The objects of the page.
    pub fn into_objects(self) -> (r: Vec<QueryObject>)
        ensures
            r.deep_view() == self@.objects,
    {
        self.objects
    }
}

/// The reference that reads a row by its kind and name alone. The incarnation is no part of the key.
pub fn ref_for(kind: ObjectKind, name: &ObjectName) -> (r: ObjectReference)
    ensures
        r@ == (ObjectReferenceView { kind, name: name@, uid: Uid(0) }),
{
    ObjectReference::new(kind, name.clone(), Uid::nil())
}

/// The page that `rows` make, where one more than `limit` were fetched to see whether another page
/// follows.
pub open spec fn page_of(rows: Seq<QueryObjectView>, limit: usize) -> QueryListPageView {
    QueryListPageView {
        objects: first_rows(rows, limit as int),
        continue_token: if rows.len() > limit && limit > 0 {
            Some(row_text(rows[limit - 1]))
        } else {
            None
        },
    }
}

/// The text that a page starts behind: the token, unless there is none or it is empty.
pub open spec fn resume_text(token: Option<Seq<char>>) -> Option<Seq<char>> {
    match token {
        Some(t) if t.len() > 0 => Some(t),
        _ => None,
    }
}

/// The page of a listing that a token asks for.
pub open spec fn listed_page(
    s: StoreView,
    kind: ObjectKind,
    limit: usize,
    token: Option<Seq<char>>,
) -> QueryListPageView {
    page_of(s.listed(kind, resume_text(token)), limit)
}

/// Lists the objects of a kind in the order of their names, a page at a time.
pub fn list_kind(
    storage: &Store,
    kind: ObjectKind,
    limit: usize,
    continue_token: Option<&str>,
) -> (res: Result<QueryListPage, ExecutionError>)
    ensures
        match res {
            Ok(page) => storage@.fault is None && page@ == listed_page(
                storage@,
                kind,
                limit,
                match continue_token {
                    Some(t) => Some(t@),
                    None => None,
                },
            ),
            Err(e) => storage@.fault == Some(e@),
        },
{
    let start_after = match continue_token {
        Some(t) => {
            if t.unicode_len() > 0 {
                proof {
                    law_name_text_round_trip(t@);
                }
                match ObjectName::from_parsed(t) {
                    Ok(name) => Some(name),
                    Err(_) => vstd::pervasive::unreached(),
                }
            } else {
                None
            }
        },
        None => None,
    };
    let ghost start = start_text(start_after.deep_view());
    let ghost all = storage@.listed(kind, start);
    let stored: usize = storage.len();
    proof {
        lemma_listed_len(storage@, storage@.order, kind, start);
        assert(all.len() <= stored);
    }
    let fetch: usize = if limit < usize::MAX {
        limit + 1
    } else {
        limit
    };
    let from = match &start_after {
        Some(name) => Some(name),
        None => None,
    };
    let mut objects = match storage.list_kind(kind, from, fetch) {
        Ok(rows) => rows,
        Err(e) => return Err(e),
    };
    let ghost fetched = objects.deep_view();
    assert(fetched.len() == objects@.len());
    let more = objects.len() > limit;
    if more {
        objects.truncate(limit);
    }
    assert(objects.deep_view() =~= first_rows(all, limit as int));
    let continue_token = if more && limit > 0 {
        assert(objects.deep_view()[limit - 1] == objects@[limit - 1]@);
        Some(objects[limit - 1].name().as_str())
    } else {
        None
    };
    Ok(QueryListPage { objects, continue_token })
}

/// The token of a page asks for the page behind it: nothing is listed twice, and nothing is left out.
pub proof fn law_pages_follow_each_other(
    s: StoreView,
    kind: ObjectKind,
    limit: usize,
    token: Option<Seq<char>>,
)
    requires
        store_ok(s),
        listed_page(s, kind, limit, token).continue_token matches Some(t) && t.len() > 0,
    ensures
        ({
            let page = listed_page(s, kind, limit, token);
            page.objects + s.listed(kind, resume_text(page.continue_token)) == s.listed(
                kind,
                resume_text(token),
            )
        }),
{
    law_pages_are_the_listing(s, kind, resume_text(token), limit as int);
}

/// The pages that are read one behind the other from a token on, until one carries no token.
pub open spec fn run_of_pages(
    s: StoreView,
    kind: ObjectKind,
    limit: usize,
    token: Option<Seq<char>>,
) -> Seq<QueryListPageView>
    decreases s.listed(kind, resume_text(token)).len(),
{
    let page = listed_page(s, kind, limit, token);
    let next = page.continue_token;
    if next is Some && s.listed(kind, resume_text(next)).len() < s.listed(
        kind,
        resume_text(token),
    ).len() {
        seq![page] + run_of_pages(s, kind, limit, next)
    } else {
        seq![page]
    }
}

/// The objects of some pages, one page behind the other.
pub open spec fn joined(pages: Seq<QueryListPageView>) -> Seq<QueryObjectView>
    decreases pages.len(),
{
    if pages.len() == 0 {
        Seq::empty()
    } else {
        pages[0].objects + joined(pages.drop_first())
    }
}

/// A page is as full as it should be: one that another follows holds `limit` objects and carries the
/// name of the last of them as its token; the last one holds no more, and carries none.
pub open spec fn well_paged(limit: usize, page: QueryListPageView, more: bool) -> bool {
    if more {
        page.objects.len() == limit && page.continue_token == Some(row_text(page.objects.last()))
    } else {
        page.objects.len() <= limit && page.continue_token is None
    }
}

/// Some pages are a whole run from a token on: the first is what the token asks for, each other what
/// the token of the one before it asks for, and only the last carries none.
pub open spec fn is_run(
    s: StoreView,
    kind: ObjectKind,
    limit: usize,
    token: Option<Seq<char>>,
    pages: Seq<QueryListPageView>,
) -> bool {
    &&& pages.len() > 0
    &&& pages[0] == listed_page(s, kind, limit, token)
    &&& forall|i: int|
        0 < i < pages.len() ==> #[trigger] pages[i] == listed_page(
            s,
            kind,
            limit,
            pages[i - 1].continue_token,
        )
    &&& forall|i: int|
        0 <= i < pages.len() ==> well_paged(limit, #[trigger] pages[i], i + 1 < pages.len())
}

/// No page ends with a row whose name is empty: the token of such a page would ask for the first
/// page again.
pub open spec fn tokens_lead_on(s: StoreView, kind: ObjectKind, limit: usize) -> bool {
    ||| limit > 1
    ||| forall|text: Seq<char>| #[trigger] s.rows.contains_key((kind, text)) ==> text.len() > 0
}

proof fn lemma_token_leads_on(
    s: StoreView,
    kind: ObjectKind,
    limit: usize,
    token: Option<Seq<char>>,
)
    requires
        store_ok(s),
        limit >= 1,
        tokens_lead_on(s, kind, limit),
        s.listed(kind, resume_text(token)).len() > limit,
    ensures
        row_text(s.listed(kind, resume_text(token))[limit - 1]).len() > 0,
{
    let start = resume_text(token);
    let all = s.listed(kind, start);
    law_listed_rows_are_told_apart(s, kind, start);
    law_listing_is_in_order(s, s.order, kind, start);
    let last = all[limit - 1];
    assert(s.rows.contains_key((kind, row_text(last))));
    if limit > 1 {
        let first = all[0];
        assert(row_text(first) != row_text(last));
        assert(!precedes(row_text(last), row_text(first)));
        law_texts_are_ordered(row_text(first), row_text(last), row_text(last));
    }
}

proof fn lemma_run_of_pages(s: StoreView, kind: ObjectKind, limit: usize, token: Option<Seq<char>>)
    requires
        store_ok(s),
        limit >= 1,
        tokens_lead_on(s, kind, limit),
    ensures
        is_run(s, kind, limit, token, run_of_pages(s, kind, limit, token)),
        joined(run_of_pages(s, kind, limit, token)) == s.listed(kind, resume_text(token)),
    decreases s.listed(kind, resume_text(token)).len(),
{
    let start = resume_text(token);
    let all = s.listed(kind, start);
    let page = listed_page(s, kind, limit, token);
    let run = run_of_pages(s, kind, limit, token);
    if all.len() > limit {
        let next = page.continue_token;
        lemma_token_leads_on(s, kind, limit, token);
        law_pages_follow_each_other(s, kind, limit, token);
        let rest = s.listed(kind, resume_text(next));
        assert(page.objects.len() == limit);
        assert((page.objects + rest).len() == limit + rest.len());
        lemma_run_of_pages(s, kind, limit, next);
        let behind = run_of_pages(s, kind, limit, next);
        assert(run.drop_first() =~= behind);
        assert forall|i: int| 0 <= i < run.len() implies well_paged(
            limit,
            #[trigger] run[i],
            i + 1 < run.len(),
        ) by {
            if i > 0 {
                assert(run[i] == behind[i - 1]);
            }
        }
        assert forall|i: int| 0 < i < run.len() implies #[trigger] run[i] == listed_page(
            s,
            kind,
            limit,
            run[i - 1].continue_token,
        ) by {
            assert(run[i] == behind[i - 1]);
            if i > 1 {
                assert(run[i - 1] == behind[i - 2]);
            }
        }
    } else {
        assert(run =~= seq![page]);
        assert(run.drop_first() =~= Seq::empty());
        assert(joined(run.drop_first()) =~= Seq::empty());
        assert(joined(run) =~= all);
    }
}

/// Reading a kind page by page, from no token on until a page carries none, gives every row of the
/// kind, each once and in the order of names. Every page but the last is full.
pub proof fn law_run_of_pages_is_the_listing(s: StoreView, kind: ObjectKind, limit: usize)
    requires
        store_ok(s),
        limit >= 1,
        tokens_lead_on(s, kind, limit),
    ensures
        is_run(s, kind, limit, None, run_of_pages(s, kind, limit, None)),
        joined(run_of_pages(s, kind, limit, None)) == s.listed(kind, None),
        in_order(s.listed(kind, None)),
        told_apart(s.listed(kind, None)),
{
    lemma_run_of_pages(s, kind, limit, None);
    law_listing_is_in_order(s, s.order, kind, None);
    law_listed_rows_are_told_apart(s, kind, None);
}

/// The pages that a client reads are that run, whatever it calls them: a run is told by its first
/// token.
pub proof fn law_there_is_one_run_of_pages(
    s: StoreView,
    kind: ObjectKind,
    limit: usize,
    token: Option<Seq<char>>,
    a: Seq<QueryListPageView>,
    b: Seq<QueryListPageView>,
)
    requires
        is_run(s, kind, limit, token, a),
        is_run(s, kind, limit, token, b),
    ensures
        a == b,
{
    let n = if a.len() < b.len() {
        a.len()
    } else {
        b.len()
    };
    lemma_runs_agree(s, kind, limit, token, a, b, n as int);
    if a.len() != b.len() {
        assert(a[n - 1] == b[n - 1]);
        assert(well_paged(limit, a[n - 1], n < a.len()));
        assert(well_paged(limit, b[n - 1], n < b.len()));
    }
    assert(a =~= b);
}

proof fn lemma_runs_agree(
    s: StoreView,
    kind: ObjectKind,
    limit: usize,
    token: Option<Seq<char>>,
    a: Seq<QueryListPageView>,
    b: Seq<QueryListPageView>,
    n: int,
)
    requires
        is_run(s, kind, limit, token, a),
        is_run(s, kind, limit, token, b),
        0 <= n <= a.len(),
        n <= b.len(),
    ensures
        forall|i: int| 0 <= i < n ==> a[i] == b[i],
    decreases n,
{
    if n > 1 {
        lemma_runs_agree(s, kind, limit, token, a, b, n - 1);
        assert(a[n - 2] == b[n - 2]);
        assert(a[n - 1] == b[n - 1]);
    }
}

/// A row as it was read: the name that it stands under, and the object, where what is stored could
/// be read as one.
#[derive(Debug, PartialEq, Eq)]
pub struct Row {
    pub name: ObjectName,
    pub object: Option<QueryObject>,
}

/// What a [`Row`] holds.
pub struct RowView {
    pub name: ObjectNameView,
    pub object: Option<QueryObjectView>,
}

impl View for Row {
    type V = RowView;

    open spec fn view(&self) -> RowView {
        RowView { name: self.name@, object: self.object.deep_view() }
    }
}

impl DeepView for Row {
    type V = RowView;

    open spec fn deep_view(&self) -> RowView {
        self.view()
    }
}

/// What is said of a row that cannot be read as an object of its kind.
pub open spec fn unreadable(kind: ObjectKind, name: ObjectNameView) -> ExecutionErrorView {
    invalid_definition(
        "Query decode of "@ + kind_text(kind) + (" "@ + quoted(name_text(name)) + " failed"@),
    )
}

/// What a row that is listed as one of a kind is read as.
pub open spec fn decoded(kind: ObjectKind, row: RowView) -> Result<
    QueryObjectView,
    ExecutionErrorView,
> {
    match row.object {
        Some(object) if object.kind() == kind => Ok(object),
        _ => Err(unreadable(kind, row.name)),
    }
}

/// Takes a row as an object of a kind.
pub fn decode(kind: ObjectKind, row: &Row) -> (r: Result<QueryObject, ExecutionError>)
    ensures
        match (r, decoded(kind, row@)) {
            (Ok(object), Ok(expected)) => object@ == expected,
            (Err(e), Err(expected)) => e@ == expected,
            _ => false,
        },
{
    if let Some(object) = &row.object {
        if object.kind() == kind {
            return Ok(object.clone());
        }
    }
    let name = row.name.as_str();
    let shown = debug_text(name.as_str());
    Err(
        ExecutionError::invalid_definition(
            join3(
                "Query decode of ",
                kind.as_str(),
                join3(" ", shown.as_str(), " failed").as_str(),
            ),
        ),
    )
}

/// What rows are read as, in order; the first that cannot be read fails them all.
pub open spec fn decoded_rows(kind: ObjectKind, rows: Seq<RowView>) -> Result<
    Seq<QueryObjectView>,
    ExecutionErrorView,
>
    decreases rows.len(),
{
    if rows.len() == 0 {
        Ok(Seq::empty())
    } else {
        match decoded_rows(kind, rows.drop_last()) {
            Ok(objects) => match decoded(kind, rows.last()) {
                Ok(object) => Ok(objects.push(object)),
                Err(e) => Err(e),
            },
            Err(e) => Err(e),
        }
    }
}

/// The page that rows make, where one more than `limit` were fetched to see whether another page
/// follows. That one need not be readable.
pub open spec fn decoded_page(kind: ObjectKind, rows: Seq<RowView>, limit: usize) -> Result<
    QueryListPageView,
    ExecutionErrorView,
> {
    let more = rows.len() > limit;
    let shown = if more {
        rows.take(limit as int)
    } else {
        rows
    };
    match decoded_rows(kind, shown) {
        Ok(objects) => Ok(
            QueryListPageView {
                objects,
                continue_token: if more && objects.len() > 0 {
                    Some(row_text(objects.last()))
                } else {
                    None
                },
            },
        ),
        Err(e) => Err(e),
    }
}

/// Makes a page of rows that were read, where one more than `limit` were fetched to see whether
/// another page follows.
pub fn page_from_rows(kind: ObjectKind, rows: &Vec<Row>, limit: usize) -> (r: Result<
    QueryListPage,
    ExecutionError,
>)
    ensures
        match (r, decoded_page(kind, rows.deep_view(), limit)) {
            (Ok(page), Ok(expected)) => page@ == expected,
            (Err(e), Err(expected)) => e@ == expected,
            _ => false,
        },
{
    let ghost all = rows.deep_view();
    let more = rows.len() > limit;
    let n: usize = if more {
        limit
    } else {
        rows.len()
    };
    let ghost shown = all.take(n as int);
    assert(shown =~= if more {
        all.take(limit as int)
    } else {
        all
    });
    let mut objects: Vec<QueryObject> = Vec::new();
    let mut i: usize = 0;
    assert(shown.take(0) =~= Seq::empty());
    assert(objects.deep_view() =~= Seq::empty());
    while i < n
        invariant
            i <= n <= rows.len(),
            all == rows.deep_view(),
            shown == all.take(n as int),
            more == (rows.len() > limit),
            shown == if more {
                all.take(limit as int)
            } else {
                all
            },
            objects@.len() == i,
            decoded_rows(kind, shown.take(i as int)) == Ok::<
                Seq<QueryObjectView>,
                ExecutionErrorView,
            >(objects.deep_view()),
        decreases n - i,
    {
        let ghost next = shown.take(i as int + 1);
        let ghost before = objects.deep_view();
        assert(next.drop_last() =~= shown.take(i as int));
        assert(next.last() == rows@[i as int]@);
        match decode(kind, &rows[i]) {
            Ok(object) => {
                objects.push(object);
                assert(objects.deep_view() =~= before.push(object@));
            },
            Err(e) => {
                proof {
                    lemma_unreadable_row_fails_all(kind, shown, i as int + 1);
                }
                return Err(e);
            },
        }
        i += 1;
    }
    assert(shown.take(n as int) =~= shown);
    assert(objects.deep_view().len() == objects@.len());
    let continue_token = if more && n > 0 {
        assert(objects.deep_view().last() == objects@[n - 1]@);
        Some(objects[n - 1].name().as_str())
    } else {
        None
    };
    Ok(QueryListPage { objects, continue_token })
}

proof fn lemma_unreadable_row_fails_all(kind: ObjectKind, rows: Seq<RowView>, i: int)
    requires
        0 <= i <= rows.len(),
        decoded_rows(kind, rows.take(i)) is Err,
    ensures
        decoded_rows(kind, rows) == decoded_rows(kind, rows.take(i)),
    decreases rows.len() - i,
{
    if i < rows.len() {
        assert(rows.take(i + 1).drop_last() =~= rows.take(i));
        lemma_unreadable_row_fails_all(kind, rows, i + 1);
    } else {
        assert(rows.take(i) =~= rows);
    }
}

/// A page whose rows are all readable shows every one of them, in order.
pub proof fn law_readable_rows_are_all_shown(kind: ObjectKind, rows: Seq<RowView>)
    requires
        forall|i: int|
            0 <= i < rows.len() ==> ((#[trigger] rows[i]).object matches Some(o) && o.kind() == kind),
    ensures
        decoded_rows(kind, rows) matches Ok(objects) && objects.len() == rows.len() && forall|i: int|
            0 <= i < rows.len() ==> Some(#[trigger] objects[i]) == rows[i].object,
    decreases rows.len(),
{
    if rows.len() > 0 {
        let before = rows.drop_last();
        assert forall|i: int| 0 <= i < before.len() implies ((#[trigger] before[i]).object matches Some(
            o,
        ) && o.kind() == kind) by {
            assert(before[i] == rows[i]);
        }
        law_readable_rows_are_all_shown(kind, before);
        let objects = decoded_rows(kind, rows)->Ok_0;
        assert(rows[rows.len() - 1].object is Some);
        assert forall|i: int| 0 <= i < rows.len() implies Some(#[trigger] objects[i])
            == rows[i].object by {
            if i < before.len() {
                assert(decoded_rows(kind, before)->Ok_0[i] == objects[i]);
                assert(before[i] == rows[i]);
            }
        }
    }
}

} // verus!
