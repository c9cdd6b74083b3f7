//! Names, references and the metadata that every object carries.

use vstd::prelude::*;
use vstd::string::*;

use crate::id::{Timestamp, Uid};
use crate::text::{
    decimal, decimal_text, digit_value, digits_value, join3, law_decimal_round_trip,
    law_letters_are_no_digits, letters, letters_text, parse_digits,
};
use crate::types::error::{ExecutionError, ExecutionErrorView, RuntimeError, RuntimeErrorView};

verus! {

/// The kind of an object: what its reference addresses.
#[derive(Clone, Copy, Debug, PartialEq, Eq, Structural)]
pub enum ObjectKind {
    Flow,
    FlowVersion,
    Execution,
    Thread,
    Activity,
    Timer,
    Task,
}

impl View for ObjectKind {
    type V = ObjectKind;

    open spec fn view(&self) -> ObjectKind {
        *self
    }
}

impl DeepView for ObjectKind {
    type V = ObjectKind;

    open spec fn deep_view(&self) -> ObjectKind {
        self.view()
    }
}

/// What stands behind the base of a generated name.
#[derive(Clone, Copy, Debug, PartialEq, Eq, Structural)]
pub enum NameKey {
    /// A number, which is written in decimal: one that the partition's counter gave, or a version.
    Number(u64),
    /// Eight letters, by the number that they write to the base of twenty.
    Letters(u64),
}

/// The name an object is addressed by: a plain name its user chose, or a name generated from a plain
/// base and a key.
#[derive(Debug, PartialEq, Eq)]
pub struct ObjectName {
    pub base: String,
    /// What stands behind the base of a generated name; `None` for a plain name.
    pub key: Option<NameKey>,
}

/// What a [`ObjectName`] holds.
pub struct ObjectNameView {
    pub base: Seq<char>,
    pub key: Option<NameKey>,
}

impl View for ObjectName {
    type V = ObjectNameView;

    open spec fn view(&self) -> ObjectNameView {
        ObjectNameView {
            base: self.base@,
            key: self.key,
        }
    }
}

impl DeepView for ObjectName {
    type V = ObjectNameView;

    open spec fn deep_view(&self) -> ObjectNameView {
        self.view()
    }
}

impl Clone for ObjectName {
    fn clone(&self) -> (r: Self)
        ensures
            r@ == self@,
    {
        ObjectName {
            base: self.base.clone(),
            key: self.key,
        }
    }
}

/// Addresses one object: its kind, its name and the incarnation that carries the name.
#[derive(Debug, PartialEq, Eq)]
pub struct ObjectReference {
    pub kind: ObjectKind,
    pub name: ObjectName,
    pub uid: Uid,
}

/// What a [`ObjectReference`] holds.
pub struct ObjectReferenceView {
    pub kind: ObjectKind,
    pub name: ObjectNameView,
    pub uid: Uid,
}

impl View for ObjectReference {
    type V = ObjectReferenceView;

    open spec fn view(&self) -> ObjectReferenceView {
        ObjectReferenceView {
            kind: self.kind,
            name: self.name@,
            uid: self.uid,
        }
    }
}

impl DeepView for ObjectReference {
    type V = ObjectReferenceView;

    open spec fn deep_view(&self) -> ObjectReferenceView {
        self.view()
    }
}

impl Clone for ObjectReference {
    fn clone(&self) -> (r: Self)
        ensures
            r@ == self@,
    {
        ObjectReference {
            kind: self.kind,
            name: self.name.clone(),
            uid: self.uid,
        }
    }
}

/// What every object records of itself.
#[derive(Debug, PartialEq, Eq)]
pub struct ObjectMeta {
    pub kind: ObjectKind,
    pub name: ObjectName,
    pub uid: Uid,
    /// The object this one is a child of.
    pub owner: Option<ObjectReference>,
    pub created_at: Timestamp,
    pub updated_at: Timestamp,
}

/// What a [`ObjectMeta`] holds.
pub struct ObjectMetaView {
    pub kind: ObjectKind,
    pub name: ObjectNameView,
    pub uid: Uid,
    pub owner: Option<ObjectReferenceView>,
    pub created_at: Timestamp,
    pub updated_at: Timestamp,
}

impl View for ObjectMeta {
    type V = ObjectMetaView;

    open spec fn view(&self) -> ObjectMetaView {
        ObjectMetaView {
            kind: self.kind,
            name: self.name@,
            uid: self.uid,
            owner: self.owner.deep_view(),
            created_at: self.created_at,
            updated_at: self.updated_at,
        }
    }
}

impl DeepView for ObjectMeta {
    type V = ObjectMetaView;

    open spec fn deep_view(&self) -> ObjectMetaView {
        self.view()
    }
}

impl Clone for ObjectMeta {
    fn clone(&self) -> (r: Self)
        ensures
            r@ == self@,
    {
        ObjectMeta {
            kind: self.kind,
            name: self.name.clone(),
            uid: self.uid,
            owner: self.owner.clone(),
            created_at: self.created_at,
            updated_at: self.updated_at,
        }
    }
}

impl ObjectKind {
    /// The kind in text.
    pub fn as_str(&self) -> (r: &'static str)
        ensures
            r@ == kind_text(*self),
    {
        match self {
            ObjectKind::Flow => "flow",
            ObjectKind::FlowVersion => "flow_version",
            ObjectKind::Execution => "execution",
            ObjectKind::Thread => "thread",
            ObjectKind::Activity => "activity",
            ObjectKind::Timer => "timer",
            ObjectKind::Task => "task",
        }
    }
}

/// A kind in text.
pub open spec fn kind_text(kind: ObjectKind) -> Seq<char> {
    match kind {
        ObjectKind::Flow => "flow"@,
        ObjectKind::FlowVersion => "flow_version"@,
        ObjectKind::Execution => "execution"@,
        ObjectKind::Thread => "thread"@,
        ObjectKind::Activity => "activity"@,
        ObjectKind::Timer => "timer"@,
        ObjectKind::Task => "task"@,
    }
}

/// A name in text: the base, and behind it a hyphen and the key of a generated name.
pub open spec fn name_text(name: ObjectNameView) -> Seq<char> {
    match name.key {
        None => name.base,
        Some(NameKey::Number(n)) => name.base + "-"@ + decimal(n as nat),
        Some(NameKey::Letters(n)) => name.base + "-"@ + letters(n as nat, 8),
    }
}

/// A reference in text.
pub open spec fn reference_text(reference: ObjectReferenceView) -> Seq<char> {
    kind_text(reference.kind) + "/"@ + name_text(reference.name)
}

/// The plain name `base`.
pub open spec fn plain_name(base: Seq<char>) -> ObjectNameView {
    ObjectNameView { base, key: None }
}

/// The name generated from the base of `name` and the number `key`.
pub open spec fn generated_name(name: ObjectNameView, key: u64) -> ObjectNameView {
    ObjectNameView { base: name.base, key: Some(NameKey::Number(key)) }
}

/// The name generated from the base of `name` and eight letters that `uid` settles.
pub open spec fn lettered_name(name: ObjectNameView, uid: Uid) -> ObjectNameView {
    ObjectNameView {
        base: name.base,
        key: Some(NameKey::Letters((uid.0 % 25_600_000_000u128) as u64)),
    }
}

/// Where the last hyphen of `s` stands.
pub open spec fn last_hyphen(s: Seq<char>) -> Option<int>
    decreases s.len(),
{
    if s.len() == 0 {
        None
    } else if s.last() == '-' {
        Some(s.len() - 1)
    } else {
        last_hyphen(s.drop_last())
    }
}

/// The name that `s` writes: a numbered one when a hyphen and a number in plain decimal follow a
/// base, a plain one otherwise, also where letters were generated. No name is empty.
pub open spec fn parsed_name(s: Seq<char>) -> Option<ObjectNameView> {
    if s.len() == 0 {
        None
    } else {
        match last_hyphen(s) {
            Some(p) if p > 0 => match digits_value(s.skip(p + 1)) {
                Some(n) if n <= u64::MAX && decimal(n) == s.skip(p + 1) => Some(
                    ObjectNameView { base: s.take(p), key: Some(NameKey::Number(n as u64)) },
                ),
                _ => Some(plain_name(s)),
            },
            _ => Some(plain_name(s)),
        }
    }
}

proof fn lemma_last_hyphen(s: Seq<char>)
    ensures
        last_hyphen(s) matches Some(p) ==> 0 <= p < s.len() && s[p] == '-',
    decreases s.len(),
{
    if s.len() > 0 && s.last() != '-' {
        lemma_last_hyphen(s.drop_last());
    }
}

/// Reading a text as a name and writing the name gives the text back.
pub proof fn law_name_text_round_trip(s: Seq<char>)
    ensures
        parsed_name(s) matches Some(name) ==> name_text(name) == s,
        parsed_name(s) is None <==> s.len() == 0,
{
    lemma_last_hyphen(s);
    reveal_strlit("-");
    if let Some(p) = last_hyphen(s) {
        if p > 0 {
            assert(s.take(p) + "-"@ + s.skip(p + 1) =~= s);
        }
    }
}

/// The number that the text of a name ends with, behind a base and a hyphen.
pub open spec fn text_number(text: Seq<char>) -> Option<u64> {
    match parsed_name(text) {
        Some(ObjectNameView { key: Some(NameKey::Number(n)), .. }) => Some(n),
        _ => None,
    }
}

proof fn lemma_last_hyphen_behind_base(base: Seq<char>, tail: Seq<char>)
    requires
        forall|i: int| 0 <= i < tail.len() ==> #[trigger] tail[i] != '-',
    ensures
        last_hyphen(base + "-"@ + tail) == Some(base.len() as int),
    decreases tail.len(),
{
    reveal_strlit("-");
    let s = base + "-"@ + tail;
    if tail.len() > 0 {
        assert(s.last() == tail[tail.len() - 1]);
        assert(s.drop_last() =~= base + "-"@ + tail.drop_last());
        lemma_last_hyphen_behind_base(base, tail.drop_last());
    } else {
        assert(s.last() == '-');
    }
}

proof fn lemma_decimal_has_no_hyphen(n: nat)
    ensures
        forall|i: int| 0 <= i < decimal(n).len() ==> #[trigger] decimal(n)[i] != '-',
    decreases n,
{
    if n >= 10 {
        lemma_decimal_has_no_hyphen(n / 10);
        assert forall|i: int| 0 <= i < decimal(n).len() implies #[trigger] decimal(n)[i] != '-' by {
            if i < decimal(n / 10).len() {
                assert(decimal(n)[i] == decimal(n / 10)[i]);
            }
        }
    }
}

/// A numbered name reads back as it was made.
pub proof fn law_numbered_name_reads_back(name: ObjectNameView, n: u64)
    requires
        name.base.len() > 0,
    ensures
        parsed_name(name_text(generated_name(name, n))) == Some(generated_name(name, n)),
        text_number(name_text(generated_name(name, n))) == Some(n),
{
    let s = name_text(generated_name(name, n));
    let p = name.base.len() as int;
    reveal_strlit("-");
    lemma_decimal_has_no_hyphen(n as nat);
    lemma_last_hyphen_behind_base(name.base, decimal(n as nat));
    law_decimal_round_trip(n as nat);
    assert(s.skip(p + 1) =~= decimal(n as nat));
    assert(s.take(p) =~= name.base);
}

/// A name that ends in letters ends in no number: it is never one that the counter gives.
pub proof fn law_lettered_name_has_no_number(name: ObjectNameView, uid: Uid)
    ensures
        text_number(name_text(lettered_name(name, uid))) is None,
{
    let n = (uid.0 % 25_600_000_000u128) as u64 as nat;
    let tail = letters(n, 8);
    let s = name_text(lettered_name(name, uid));
    law_letters_are_no_digits(n, 8);
    reveal_strlit("-");
    lemma_last_hyphen_behind_base(name.base, tail);
    assert(s.skip(name.base.len() as int + 1) =~= tail);
    assert(digit_value(tail[7]) is None);
    assert(digits_value(tail) is None);
}

impl ObjectName {
    /// The number that the name ends with in text, behind a base and a hyphen.
    pub fn number(&self) -> (r: Option<u64>)
        ensures
            r == text_number(name_text(self@)),
    {
        match ObjectName::from_parsed(self.as_str().as_str()) {
            Ok(name) => match name.key {
                Some(NameKey::Number(n)) => Some(n),
                _ => None,
            },
            Err(_) => None,
        }
    }

    /// The plain name `base`.
    pub fn plain(base: &str) -> (r: ObjectName)
        ensures
            r@ == plain_name(base@),
    {
        ObjectName { base: base.to_owned(), key: None }
    }

    /// Reads a name from its text.
    pub fn from_parsed(text: &str) -> (r: Result<ObjectName, ExecutionError>)
        ensures
            match r {
                Ok(name) => parsed_name(text@) == Some(name@),
                Err(e) => parsed_name(text@) is None && e@ == ExecutionErrorView::Runtime(
                    RuntimeErrorView::InvalidDefinition("an object name is never empty"@),
                ),
            },
    {
        let n = text.unicode_len();
        if n == 0 {
            return Err(
                ExecutionError::Runtime(
                    RuntimeError::InvalidDefinition("an object name is never empty".to_owned()),
                ),
            );
        }
        let mut p: usize = n;
        assert(text@.take(n as int) =~= text@);
        while p > 0
            invariant
                p <= n,
                n == text@.len(),
                last_hyphen(text@.take(p as int)) == last_hyphen(text@),
            ensures
                p == 0 ==> last_hyphen(text@) is None,
                p > 0 ==> last_hyphen(text@) == Some(p - 1),
                p <= n,
            decreases p,
        {
            assert(text@.take(p as int).drop_last() =~= text@.take(p - 1));
            if text.get_char(p - 1) == '-' {
                break;
            }
            p -= 1;
        }
        if p >= 2 {
            if let Some(key) = parse_digits(text, p, u64::MAX) {
                let canonical = decimal_text(key as u128);
                let suffix = text.substring_char(p, n).to_owned();
                assert(text@.subrange(p as int, n as int) =~= text@.skip(p as int));
                if canonical == suffix {
                    assert(text@.subrange(0, p - 1) =~= text@.take(p - 1));
                    return Ok(
                        ObjectName {
                            base: text.substring_char(0, p - 1).to_owned(),
                            key: Some(NameKey::Number(key)),
                        },
                    );
                }
            }
        }
        Ok(ObjectName::plain(text))
    }

    /// The plain name itself; `None` for a generated name.
    pub fn as_plain(&self) -> (r: Option<&String>)
        ensures
            match r {
                Some(base) => self@ == plain_name(base@),
                None => self.key is Some,
            },
    {
        match self.key {
            None => Some(&self.base),
            Some(_) => None,
        }
    }

    /// The name generated from this one's base and `key`.
    pub fn generated_from_key(&self, key: u64) -> (r: ObjectName)
        ensures
            r@ == generated_name(self@, key),
    {
        ObjectName { base: self.base.clone(), key: Some(NameKey::Number(key)) }
    }

    /// The name generated from this one's base and eight letters that `uid` settles.
    pub fn generated_from_uid(&self, uid: Uid) -> (r: ObjectName)
        ensures
            r@ == lettered_name(self@, uid),
    {
        ObjectName {
            base: self.base.clone(),
            key: Some(NameKey::Letters((uid.0 % 25_600_000_000u128) as u64)),
        }
    }

    /// The name in text.
    pub fn as_str(&self) -> (r: String)
        ensures
            r@ == name_text(self@),
    {
        match self.key {
            None => self.base.clone(),
            Some(NameKey::Number(n)) => join3(
                self.base.as_str(),
                "-",
                decimal_text(n as u128).as_str(),
            ),
            Some(NameKey::Letters(n)) => join3(
                self.base.as_str(),
                "-",
                letters_text(n as u128, 8).as_str(),
            ),
        }
    }

    /// Whether the two are the same name.
    pub fn same(&self, other: &ObjectName) -> (r: bool)
        ensures
            r == (self@ == other@),
    {
        self.base == other.base && match (self.key, other.key) {
            (None, None) => true,
            (Some(a), Some(b)) => a == b,
            _ => false,
        }
    }
}

/// The reference that addresses nothing.
pub open spec fn nil_reference() -> ObjectReferenceView {
    ObjectReferenceView {
        kind: ObjectKind::Execution,
        name: plain_name(Seq::empty()),
        uid: Uid(0),
    }
}

impl ObjectReference {
    pub fn new(kind: ObjectKind, name: ObjectName, uid: Uid) -> (r: ObjectReference)
        ensures
            r@ == (ObjectReferenceView { kind, name: name@, uid }),
    {
        ObjectReference { kind, name, uid }
    }

    /// The reference that addresses nothing.
    pub fn nil() -> (r: ObjectReference)
        ensures
            r@ == nil_reference(),
    {
        ObjectReference {
            kind: ObjectKind::Execution,
            name: ObjectName { base: String::new(), key: None },
            uid: Uid(0),
        }
    }

    /// Whether the two address the same incarnation of the same object.
    pub fn same(&self, other: &ObjectReference) -> (r: bool)
        ensures
            r == (self@ == other@),
    {
        self.kind == other.kind && self.name.same(&other.name) && self.uid == other.uid
    }

    /// The reference in text.
    pub fn text(&self) -> (r: String)
        ensures
            r@ == reference_text(self@),
    {
        join3(self.kind.as_str(), "/", self.name.as_str().as_str())
    }
}

/// The metadata of an object born at `at`.
pub open spec fn born_meta(
    kind: ObjectKind,
    name: ObjectNameView,
    uid: Uid,
    at: Timestamp,
    owner: Option<ObjectReferenceView>,
) -> ObjectMetaView {
    ObjectMetaView { kind, name, uid, owner, created_at: at, updated_at: at }
}

impl ObjectMetaView {
    /// The reference of the object that carries this metadata.
    pub open spec fn reference(self) -> ObjectReferenceView {
        ObjectReferenceView { kind: self.kind, name: self.name, uid: self.uid }
    }

    /// The same, last touched at `at`.
    pub open spec fn touched(self, at: Timestamp) -> ObjectMetaView {
        ObjectMetaView { updated_at: at, ..self }
    }
}

impl ObjectMeta {
    /// The metadata of an object born at `at`.
    pub fn born(
        kind: ObjectKind,
        name: ObjectName,
        uid: Uid,
        at: Timestamp,
        owner: Option<ObjectReference>,
    ) -> (r: ObjectMeta)
        ensures
            r@ == born_meta(kind, name@, uid, at, owner.deep_view()),
    {
        ObjectMeta { kind, name, uid, owner, created_at: at, updated_at: at }
    }

    /// Records that the object was touched at `at`.
    pub fn with_update_at(&mut self, at: Timestamp)
        ensures
            final(self)@ == old(self)@.touched(at),
    {
        self.updated_at = at;
    }

    /// The reference of the object that carries this metadata.
    pub fn reference(&self) -> (r: ObjectReference)
        ensures
            r@ == self@.reference(),
    {
        ObjectReference { kind: self.kind, name: self.name.clone(), uid: self.uid }
    }
}

} // verus!
