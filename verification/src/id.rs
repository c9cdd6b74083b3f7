//! Identifiers, instants and the names of flows.

use vstd::arithmetic::power::pow;
use vstd::prelude::*;
use vstd::string::*;

use crate::text::join3;
use crate::types::error::{invalid_definition, ExecutionError};

verus! {

/// A ULID, by its 128 bits.
#[derive(Clone, Copy, Debug, PartialEq, Eq, Hash, PartialOrd, Ord, Structural)]
pub struct Uid(pub u128);

impl View for Uid {
    type V = Uid;

    open spec fn view(&self) -> Uid {
        *self
    }
}

impl DeepView for Uid {
    type V = Uid;

    open spec fn deep_view(&self) -> Uid {
        *self
    }
}

impl Uid {
    /// The all-zero ULID, which identifies nothing.
    pub fn nil() -> (r: Self)
        ensures
            r == Uid(0),
    {
        Uid(0)
    }

    /// Mints a fresh ULID.
    pub fn new() -> Self {
        Uid(fresh_ulid())
    }

    /// The canonical text.
    pub fn text(&self) -> (r: String)
        ensures
            r@ == ulid_text(self.0),
    {
        ulid_string(self.0)
    }
}

/// A digit of Crockford's base 32, which has neither `I`, `L`, `O` nor `U`.
pub open spec fn base32_digit(d: int) -> char {
    "0123456789ABCDEFGHJKMNPQRSTVWXYZ"@[d]
}

/// The canonical text of a ULID: its bits as 26 digits in base 32.
pub open spec fn ulid_text(bits: u128) -> Seq<char> {
    Seq::new(26, |i: int| base32_digit(bits as int / pow(32, (25 - i) as nat) % 32))
}

/// `ulid::Ulid::new`: a ULID of this instant with random low bits. Nothing is claimed of which.
#[verifier::external_body]
fn fresh_ulid() -> (r: u128)
{
    ulid::Ulid::new().0
}

/// `ulid::Ulid::to_string`: the canonical text of the ULID with the given bits, the most significant
/// digit first.
#[verifier::external_body]
fn ulid_string(bits: u128) -> (r: String)
    ensures
        r@ == ulid_text(bits),
{
    ulid::Ulid(bits).to_string()
}

/// Identifies one execution.
#[derive(Clone, Copy, Debug, PartialEq, Eq, Hash, PartialOrd, Ord, Structural)]
pub struct ExecutionId(pub Uid);

impl View for ExecutionId {
    type V = ExecutionId;

    open spec fn view(&self) -> ExecutionId {
        *self
    }
}

impl DeepView for ExecutionId {
    type V = ExecutionId;

    open spec fn deep_view(&self) -> ExecutionId {
        *self
    }
}

impl ExecutionId {
    /// Mints a fresh id.
    pub fn new() -> Self {
        ExecutionId(Uid::new())
    }

    /// The all-zero id: not a real one.
    pub fn nil() -> (r: Self)
        ensures
            r == ExecutionId(Uid(0)),
    {
        ExecutionId(Uid(0))
    }

    /// The id in text: the name of its type, with the ULID in brackets.
    pub fn text(&self) -> (r: String)
        ensures
            r@ == "ExecutionId("@ + ulid_text(self.0.0) + ")"@,
    {
        join3("ExecutionId(", ulid_string(self.0.0).as_str(), ")")
    }
}

impl Default for ExecutionId {
    fn default() -> (r: Self)
        ensures
            r == ExecutionId(Uid(0)),
    {
        ExecutionId(Uid(0))
    }
}

impl From<Uid> for ExecutionId {
    fn from(raw: Uid) -> (r: Self) {
        ExecutionId(raw)
    }
}

impl vstd::std_specs::convert::FromSpecImpl<Uid> for ExecutionId {
    open spec fn obeys_from_spec() -> bool {
        true
    }

    open spec fn from_spec(raw: Uid) -> Self {
        ExecutionId(raw)
    }
}

impl From<ExecutionId> for Uid {
    fn from(id: ExecutionId) -> (r: Self) {
        id.0
    }
}

impl vstd::std_specs::convert::FromSpecImpl<ExecutionId> for Uid {
    open spec fn obeys_from_spec() -> bool {
        true
    }

    open spec fn from_spec(id: ExecutionId) -> Self {
        id.0
    }
}

/// Identifies one activation of a state.
#[derive(Clone, Copy, Debug, PartialEq, Eq, Hash, PartialOrd, Ord, Structural)]
pub struct ActivityId(pub Uid);

impl View for ActivityId {
    type V = ActivityId;

    open spec fn view(&self) -> ActivityId {
        *self
    }
}

impl DeepView for ActivityId {
    type V = ActivityId;

    open spec fn deep_view(&self) -> ActivityId {
        *self
    }
}

impl ActivityId {
    /// Mints a fresh id.
    pub fn new() -> Self {
        ActivityId(Uid::new())
    }

    /// The all-zero id: not a real one.
    pub fn nil() -> (r: Self)
        ensures
            r == ActivityId(Uid(0)),
    {
        ActivityId(Uid(0))
    }

    /// The id in text: the name of its type, with the ULID in brackets.
    pub fn text(&self) -> (r: String)
        ensures
            r@ == "ActivityId("@ + ulid_text(self.0.0) + ")"@,
    {
        join3("ActivityId(", ulid_string(self.0.0).as_str(), ")")
    }
}

impl Default for ActivityId {
    fn default() -> (r: Self)
        ensures
            r == ActivityId(Uid(0)),
    {
        ActivityId(Uid(0))
    }
}

impl From<Uid> for ActivityId {
    fn from(raw: Uid) -> (r: Self) {
        ActivityId(raw)
    }
}

impl vstd::std_specs::convert::FromSpecImpl<Uid> for ActivityId {
    open spec fn obeys_from_spec() -> bool {
        true
    }

    open spec fn from_spec(raw: Uid) -> Self {
        ActivityId(raw)
    }
}

impl From<ActivityId> for Uid {
    fn from(id: ActivityId) -> (r: Self) {
        id.0
    }
}

impl vstd::std_specs::convert::FromSpecImpl<ActivityId> for Uid {
    open spec fn obeys_from_spec() -> bool {
        true
    }

    open spec fn from_spec(id: ActivityId) -> Self {
        id.0
    }
}

/// Identifies a timer.
#[derive(Clone, Copy, Debug, PartialEq, Eq, Hash, PartialOrd, Ord, Structural)]
pub struct TimerId(pub Uid);

impl View for TimerId {
    type V = TimerId;

    open spec fn view(&self) -> TimerId {
        *self
    }
}

impl DeepView for TimerId {
    type V = TimerId;

    open spec fn deep_view(&self) -> TimerId {
        *self
    }
}

impl TimerId {
    /// Mints a fresh id.
    pub fn new() -> Self {
        TimerId(Uid::new())
    }

    /// The all-zero id: not a real one.
    pub fn nil() -> (r: Self)
        ensures
            r == TimerId(Uid(0)),
    {
        TimerId(Uid(0))
    }

    /// The id in text: the name of its type, with the ULID in brackets.
    pub fn text(&self) -> (r: String)
        ensures
            r@ == "TimerId("@ + ulid_text(self.0.0) + ")"@,
    {
        join3("TimerId(", ulid_string(self.0.0).as_str(), ")")
    }
}

impl Default for TimerId {
    fn default() -> (r: Self)
        ensures
            r == TimerId(Uid(0)),
    {
        TimerId(Uid(0))
    }
}

impl From<Uid> for TimerId {
    fn from(raw: Uid) -> (r: Self) {
        TimerId(raw)
    }
}

impl vstd::std_specs::convert::FromSpecImpl<Uid> for TimerId {
    open spec fn obeys_from_spec() -> bool {
        true
    }

    open spec fn from_spec(raw: Uid) -> Self {
        TimerId(raw)
    }
}

impl From<TimerId> for Uid {
    fn from(id: TimerId) -> (r: Self) {
        id.0
    }
}

impl vstd::std_specs::convert::FromSpecImpl<TimerId> for Uid {
    open spec fn obeys_from_spec() -> bool {
        true
    }

    open spec fn from_spec(id: TimerId) -> Self {
        id.0
    }
}

/// Identifies a task.
#[derive(Clone, Copy, Debug, PartialEq, Eq, Hash, PartialOrd, Ord, Structural)]
pub struct TaskId(pub Uid);

impl View for TaskId {
    type V = TaskId;

    open spec fn view(&self) -> TaskId {
        *self
    }
}

impl DeepView for TaskId {
    type V = TaskId;

    open spec fn deep_view(&self) -> TaskId {
        *self
    }
}

impl TaskId {
    /// Mints a fresh id.
    pub fn new() -> Self {
        TaskId(Uid::new())
    }

    /// The all-zero id: not a real one.
    pub fn nil() -> (r: Self)
        ensures
            r == TaskId(Uid(0)),
    {
        TaskId(Uid(0))
    }

    /// The id in text: the name of its type, with the ULID in brackets.
    pub fn text(&self) -> (r: String)
        ensures
            r@ == "TaskId("@ + ulid_text(self.0.0) + ")"@,
    {
        join3("TaskId(", ulid_string(self.0.0).as_str(), ")")
    }
}

impl Default for TaskId {
    fn default() -> (r: Self)
        ensures
            r == TaskId(Uid(0)),
    {
        TaskId(Uid(0))
    }
}

impl From<Uid> for TaskId {
    fn from(raw: Uid) -> (r: Self) {
        TaskId(raw)
    }
}

impl vstd::std_specs::convert::FromSpecImpl<Uid> for TaskId {
    open spec fn obeys_from_spec() -> bool {
        true
    }

    open spec fn from_spec(raw: Uid) -> Self {
        TaskId(raw)
    }
}

impl From<TaskId> for Uid {
    fn from(id: TaskId) -> (r: Self) {
        id.0
    }
}

impl vstd::std_specs::convert::FromSpecImpl<TaskId> for Uid {
    open spec fn obeys_from_spec() -> bool {
        true
    }

    open spec fn from_spec(id: TaskId) -> Self {
        id.0
    }
}

/// Identifies one life of a flow name; never used to address a flow.
#[derive(Clone, Copy, Debug, PartialEq, Eq, Hash, PartialOrd, Ord, Structural)]
pub struct FlowId(pub Uid);

impl View for FlowId {
    type V = FlowId;

    open spec fn view(&self) -> FlowId {
        *self
    }
}

impl DeepView for FlowId {
    type V = FlowId;

    open spec fn deep_view(&self) -> FlowId {
        *self
    }
}

impl FlowId {
    /// Mints a fresh id.
    pub fn new() -> Self {
        FlowId(Uid::new())
    }

    /// The all-zero id: not a real one.
    pub fn nil() -> (r: Self)
        ensures
            r == FlowId(Uid(0)),
    {
        FlowId(Uid(0))
    }

    /// The id in text: the name of its type, with the ULID in brackets.
    pub fn text(&self) -> (r: String)
        ensures
            r@ == "FlowId("@ + ulid_text(self.0.0) + ")"@,
    {
        join3("FlowId(", ulid_string(self.0.0).as_str(), ")")
    }
}

impl Default for FlowId {
    fn default() -> (r: Self)
        ensures
            r == FlowId(Uid(0)),
    {
        FlowId(Uid(0))
    }
}

impl From<Uid> for FlowId {
    fn from(raw: Uid) -> (r: Self) {
        FlowId(raw)
    }
}

impl vstd::std_specs::convert::FromSpecImpl<Uid> for FlowId {
    open spec fn obeys_from_spec() -> bool {
        true
    }

    open spec fn from_spec(raw: Uid) -> Self {
        FlowId(raw)
    }
}

impl From<FlowId> for Uid {
    fn from(id: FlowId) -> (r: Self) {
        id.0
    }
}

impl vstd::std_specs::convert::FromSpecImpl<FlowId> for Uid {
    open spec fn obeys_from_spec() -> bool {
        true
    }

    open spec fn from_spec(id: FlowId) -> Self {
        id.0
    }
}

/// Identifies one immutable version of a flow.
#[derive(Clone, Copy, Debug, PartialEq, Eq, Hash, PartialOrd, Ord, Structural)]
pub struct FlowVersionId(pub Uid);

impl View for FlowVersionId {
    type V = FlowVersionId;

    open spec fn view(&self) -> FlowVersionId {
        *self
    }
}

impl DeepView for FlowVersionId {
    type V = FlowVersionId;

    open spec fn deep_view(&self) -> FlowVersionId {
        *self
    }
}

impl FlowVersionId {
    /// Mints a fresh id.
    pub fn new() -> Self {
        FlowVersionId(Uid::new())
    }

    /// The all-zero id: not a real one.
    pub fn nil() -> (r: Self)
        ensures
            r == FlowVersionId(Uid(0)),
    {
        FlowVersionId(Uid(0))
    }

    /// The id in text: the name of its type, with the ULID in brackets.
    pub fn text(&self) -> (r: String)
        ensures
            r@ == "FlowVersionId("@ + ulid_text(self.0.0) + ")"@,
    {
        join3("FlowVersionId(", ulid_string(self.0.0).as_str(), ")")
    }
}

impl Default for FlowVersionId {
    fn default() -> (r: Self)
        ensures
            r == FlowVersionId(Uid(0)),
    {
        FlowVersionId(Uid(0))
    }
}

impl From<Uid> for FlowVersionId {
    fn from(raw: Uid) -> (r: Self) {
        FlowVersionId(raw)
    }
}

impl vstd::std_specs::convert::FromSpecImpl<Uid> for FlowVersionId {
    open spec fn obeys_from_spec() -> bool {
        true
    }

    open spec fn from_spec(raw: Uid) -> Self {
        FlowVersionId(raw)
    }
}

impl From<FlowVersionId> for Uid {
    fn from(id: FlowVersionId) -> (r: Self) {
        id.0
    }
}

impl vstd::std_specs::convert::FromSpecImpl<FlowVersionId> for Uid {
    open spec fn obeys_from_spec() -> bool {
        true
    }

    open spec fn from_spec(id: FlowVersionId) -> Self {
        id.0
    }
}

/// Identifies one request of a client that awaits its answer.
#[derive(Clone, Copy, Debug, PartialEq, Eq, Hash, PartialOrd, Ord, Structural)]
pub struct RequestId(pub Uid);

impl View for RequestId {
    type V = RequestId;

    open spec fn view(&self) -> RequestId {
        *self
    }
}

impl DeepView for RequestId {
    type V = RequestId;

    open spec fn deep_view(&self) -> RequestId {
        *self
    }
}

impl RequestId {
    /// Mints a fresh id.
    pub fn new() -> Self {
        RequestId(Uid::new())
    }

    /// The all-zero id: not a real one.
    pub fn nil() -> (r: Self)
        ensures
            r == RequestId(Uid(0)),
    {
        RequestId(Uid(0))
    }

    /// The id in text: the name of its type, with the ULID in brackets.
    pub fn text(&self) -> (r: String)
        ensures
            r@ == "RequestId("@ + ulid_text(self.0.0) + ")"@,
    {
        join3("RequestId(", ulid_string(self.0.0).as_str(), ")")
    }
}

impl Default for RequestId {
    fn default() -> (r: Self)
        ensures
            r == RequestId(Uid(0)),
    {
        RequestId(Uid(0))
    }
}

impl From<Uid> for RequestId {
    fn from(raw: Uid) -> (r: Self) {
        RequestId(raw)
    }
}

impl vstd::std_specs::convert::FromSpecImpl<Uid> for RequestId {
    open spec fn obeys_from_spec() -> bool {
        true
    }

    open spec fn from_spec(raw: Uid) -> Self {
        RequestId(raw)
    }
}

impl From<RequestId> for Uid {
    fn from(id: RequestId) -> (r: Self) {
        id.0
    }
}

impl vstd::std_specs::convert::FromSpecImpl<RequestId> for Uid {
    open spec fn obeys_from_spec() -> bool {
        true
    }

    open spec fn from_spec(id: RequestId) -> Self {
        id.0
    }
}

/// The position of an entry in its log.
#[derive(Clone, Copy, Debug, PartialEq, Eq, Hash, PartialOrd, Ord, Structural)]
pub struct EntryId(pub i64);

impl View for EntryId {
    type V = EntryId;

    open spec fn view(&self) -> EntryId {
        *self
    }
}

impl DeepView for EntryId {
    type V = EntryId;

    open spec fn deep_view(&self) -> EntryId {
        *self
    }
}

/// Identifies a log.
#[derive(Clone, Copy, Debug, PartialEq, Eq, Hash, PartialOrd, Ord, Structural)]
pub struct StreamId(pub u128);

impl View for StreamId {
    type V = StreamId;

    open spec fn view(&self) -> StreamId {
        *self
    }
}

impl DeepView for StreamId {
    type V = StreamId;

    open spec fn deep_view(&self) -> StreamId {
        *self
    }
}

/// An instant, in milliseconds since the Unix epoch.
#[derive(Clone, Copy, Debug, PartialEq, Eq, Hash, PartialOrd, Ord, Structural)]
pub struct Timestamp(pub i64);

impl View for Timestamp {
    type V = Timestamp;

    open spec fn view(&self) -> Timestamp {
        *self
    }
}

impl DeepView for Timestamp {
    type V = Timestamp;

    open spec fn deep_view(&self) -> Timestamp {
        *self
    }
}

impl EntryId {
    pub fn new(position: i64) -> (r: Self)
        ensures
            r == EntryId(position),
    {
        EntryId(position)
    }

    /// The position of an entry that the log has not placed yet.
    pub fn nil() -> (r: Self)
        ensures
            r == EntryId(0),
    {
        EntryId(0)
    }

    pub fn get(&self) -> (r: i64)
        ensures
            r == self.0,
    {
        self.0
    }
}

impl StreamId {
    /// The log of an entry that has not been written yet.
    pub fn nil() -> (r: Self)
        ensures
            r == StreamId(0),
    {
        StreamId(0)
    }
}

impl Timestamp {
    pub fn from_millis(millis: i64) -> (r: Self)
        ensures
            r == Timestamp(millis),
    {
        Timestamp(millis)
    }

    pub fn as_millis(&self) -> (r: i64)
        ensures
            r == self.0,
    {
        self.0
    }

    /// The instant `seconds` later; `None` when it cannot be represented.
    pub open spec fn later(self, seconds: u64) -> Option<Timestamp> {
        if self.0 + seconds * 1000 <= i64::MAX {
            Some(Timestamp((self.0 + seconds * 1000) as i64))
        } else {
            None
        }
    }

    /// The instant `seconds` later; `None` when it cannot be represented.
    pub fn checked_add(&self, seconds: u64) -> (r: Option<Timestamp>)
        ensures
            r == self.later(seconds),
    {
        let sum: i128 = (self.0 as i128) + (seconds as i128) * 1000;
        if sum <= i64::MAX as i128 {
            Some(Timestamp(sum as i64))
        } else {
            None
        }
    }
}

/// The name of a flow: the name under which its versions are published.
#[derive(Debug, PartialEq, Eq, Hash, PartialOrd, Ord)]
pub struct FlowName {
    text: String,
}

impl View for FlowName {
    type V = Seq<char>;

    closed spec fn view(&self) -> Seq<char> {
        self.text@
    }
}

impl DeepView for FlowName {
    type V = Seq<char>;

    open spec fn deep_view(&self) -> Seq<char> {
        self.view()
    }
}

impl Clone for FlowName {
    fn clone(&self) -> (r: Self)
        ensures
            r@ == self@,
    {
        FlowName { text: self.text.clone() }
    }
}

/// An ASCII letter or digit.
pub open spec fn ascii_alphanumeric(c: char) -> bool {
    ('0' <= c && c <= '9') || ('A' <= c && c <= 'Z') || ('a' <= c && c <= 'z')
}

/// Whether `raw` may name a flow: 1 to 64 characters, the first an ASCII letter or digit, the
/// others ASCII letters, digits or underscores.
pub open spec fn valid_flow_name(raw: Seq<char>) -> bool {
    &&& 1 <= raw.len() <= 64
    &&& ascii_alphanumeric(raw[0])
    &&& forall|i: int|
        0 <= i < raw.len() ==> ascii_alphanumeric(#[trigger] raw[i]) || raw[i] == '_'
}

/// A text in double quotes, with what needs escaping escaped.
pub uninterp spec fn quoted(text: Seq<char>) -> Seq<char>;

/// The `Debug` form of a `str`: the text in double quotes, escaped, which is the same whenever the
/// text is.
#[verifier::external_body]
pub(crate) fn debug_text(text: &str) -> (r: String)
    ensures
        r@ == quoted(text@),
{
    format!("{:?}", text)
}

/// What is said of a text that may not name a flow, given its quoted form.
pub open spec fn bad_flow_name(quoted_raw: Seq<char>) -> Seq<char> {
    "invalid FlowName "@ + quoted_raw
        + ": must be 1..=64 chars, start with A-Za-z0-9, and contain only A-Za-z0-9_"@
}

/// What is said of a text that may not name a flow, given its quoted form.
pub fn bad_flow_name_text(quoted_raw: &str) -> (r: String)
    ensures
        r@ == bad_flow_name(quoted_raw@),
{
    join3(
        "invalid FlowName ",
        quoted_raw,
        ": must be 1..=64 chars, start with A-Za-z0-9, and contain only A-Za-z0-9_",
    )
}

fn is_ascii_alphanumeric(c: char) -> (r: bool)
    ensures
        r == ascii_alphanumeric(c),
{
    ('0' <= c && c <= '9') || ('A' <= c && c <= 'Z') || ('a' <= c && c <= 'z')
}

impl FlowName {
    /// Takes `raw` as the name of a flow, if it may be one.
    pub fn new(raw: &str) -> (r: Result<FlowName, ExecutionError>)
        ensures
            match r {
                Ok(name) => valid_flow_name(raw@) && name@ == raw@,
                Err(e) => !valid_flow_name(raw@) && e@ == invalid_definition(
                    bad_flow_name(quoted(raw@)),
                ),
            },
    {
        let n = raw.unicode_len();
        let mut valid = n >= 1 && n <= 64 && is_ascii_alphanumeric(raw.get_char(0));
        let mut i: usize = 0;
        while valid && i < n
            invariant
                n == raw@.len(),
                i <= n,
                valid ==> 1 <= n <= 64 && ascii_alphanumeric(raw@[0]),
                valid ==> forall|j: int|
                    0 <= j < i ==> ascii_alphanumeric(#[trigger] raw@[j]) || raw@[j] == '_',
                !valid ==> !valid_flow_name(raw@),
            decreases n - i + if valid {
                1int
            } else {
                0int
            },
        {
            let c = raw.get_char(i);
            if is_ascii_alphanumeric(c) || c == '_' {
                i += 1;
            } else {
                assert(!(ascii_alphanumeric(raw@[i as int]) || raw@[i as int] == '_'));
                valid = false;
            }
        }
        if valid {
            Ok(FlowName { text: raw.to_owned() })
        } else {
            Err(
                ExecutionError::invalid_definition(
                    bad_flow_name_text(debug_text(raw).as_str()),
                ),
            )
        }
    }

    /// The name in text.
    pub fn as_str(&self) -> (r: &str)
        ensures
            r@ == self@,
    {
        self.text.as_str()
    }
}

/// A node of the execution tree. Every node but the root is owned by exactly one other.
#[derive(Clone, Copy, Debug, PartialEq, Eq, Hash, Structural)]
pub enum NodeId {
    /// One run of the state machine.
    Execution(ExecutionId),
    /// One activation of a state.
    Activity(ActivityId),
    /// A timer.
    Timer(TimerId),
    /// A task.
    Task(TaskId),
}

impl View for NodeId {
    type V = NodeId;

    open spec fn view(&self) -> NodeId {
        *self
    }
}

impl DeepView for NodeId {
    type V = NodeId;

    open spec fn deep_view(&self) -> NodeId {
        *self
    }
}

/// The kind of a node, with its id.
#[derive(Clone, Copy, Debug, PartialEq, Eq, Structural)]
pub enum NodeKind {
    Execution(ExecutionId),
    Activity(ActivityId),
    Timer(TimerId),
    Task(TaskId),
}

/// The kind of a node, with its id.
pub open spec fn node_kind(node: NodeId) -> NodeKind {
    match node {
        NodeId::Execution(id) => NodeKind::Execution(id),
        NodeId::Activity(id) => NodeKind::Activity(id),
        NodeId::Timer(id) => NodeKind::Timer(id),
        NodeId::Task(id) => NodeKind::Task(id),
    }
}

impl NodeId {
    /// The kind of the node, with its id.
    pub fn kind(&self) -> (r: NodeKind)
        ensures
            r == node_kind(*self),
    {
        match *self {
            NodeId::Execution(id) => NodeKind::Execution(id),
            NodeId::Activity(id) => NodeKind::Activity(id),
            NodeId::Timer(id) => NodeKind::Timer(id),
            NodeId::Task(id) => NodeKind::Task(id),
        }
    }
}

} // verus!
