//! JSON values: the data that flows through a state machine, and the variables a scope binds.

use vstd::prelude::*;

use crate::text::same_text;

verus! {

/// A JSON number: an integral one by its value, any other by its text.
#[derive(Debug, PartialEq, Eq)]
pub enum Number {
    Integral(i128),
    Fraction(String),
}

/// What a [`Number`] holds.
pub enum NumberView {
    Integral(i128),
    Fraction(Seq<char>),
}

impl View for Number {
    type V = NumberView;

    open spec fn view(&self) -> NumberView {
        match self {
            Number::Integral(n) => NumberView::Integral(*n),
            Number::Fraction(t) => NumberView::Fraction(t@),
        }
    }
}

impl Clone for Number {
    fn clone(&self) -> (r: Self)
        ensures
            r@ == self@,
    {
        match self {
            Number::Integral(n) => Number::Integral(*n),
            Number::Fraction(t) => Number::Fraction(t.clone()),
        }
    }
}

impl Number {
    /// Whether the two are the same number.
    pub fn same(&self, other: &Number) -> (r: bool)
        ensures
            r == (self@ == other@),
    {
        match (self, other) {
            (Number::Integral(a), Number::Integral(b)) => *a == *b,
            (Number::Fraction(a), Number::Fraction(b)) => *a == *b,
            _ => false,
        }
    }
}

/// A JSON value.
#[derive(Debug, PartialEq, Eq)]
pub enum Value {
    Null,
    Bool(bool),
    Number(Number),
    String(String),
    Array(Vec<Value>),
    Object(Vec<Member>),
}

/// One member of a JSON object; also one binding of a variable.
#[derive(Debug, PartialEq, Eq)]
pub struct Member {
    pub name: String,
    pub value: Value,
}

/// What a [`Value`] is, mathematically.
pub enum Json {
    Null,
    Bool(bool),
    Number(NumberView),
    String(Seq<char>),
    Array(Seq<Json>),
    Object(Seq<MemberView>),
}

/// What a [`Member`] holds.
pub struct MemberView {
    pub name: Seq<char>,
    pub value: Json,
}

/// The JSON value that `v` represents.
pub open spec fn json(v: Value) -> Json
    decreases v,
{
    match v {
        Value::Null => Json::Null,
        Value::Bool(b) => Json::Bool(b),
        Value::Number(n) => Json::Number(n@),
        Value::String(s) => Json::String(s@),
        Value::Array(a) => Json::Array(
            Seq::new(
                a@.len(),
                |i: int|
                    if 0 <= i < a@.len() {
                        json(a@[i])
                    } else {
                        Json::Null
                    },
            ),
        ),
        Value::Object(o) => Json::Object(
            Seq::new(
                o@.len(),
                |i: int|
                    if 0 <= i < o@.len() {
                        MemberView { name: o@[i].name@, value: json(o@[i].value) }
                    } else {
                        MemberView { name: Seq::empty(), value: Json::Null }
                    },
            ),
        ),
    }
}

impl View for Value {
    type V = Json;

    open spec fn view(&self) -> Json {
        json(*self)
    }
}

impl DeepView for Value {
    type V = Json;

    open spec fn deep_view(&self) -> Json {
        json(*self)
    }
}

impl View for Member {
    type V = MemberView;

    open spec fn view(&self) -> MemberView {
        MemberView { name: self.name@, value: self.value@ }
    }
}

impl DeepView for Member {
    type V = MemberView;

    open spec fn deep_view(&self) -> MemberView {
        self.view()
    }
}

/// An array holds the values of its elements, in order.
pub broadcast proof fn lemma_array_view(a: Vec<Value>)
    ensures
        #[trigger] json(Value::Array(a)) == Json::Array(a.deep_view()),
{
    assert(json(Value::Array(a))->Array_0 =~= a.deep_view());
}

/// An object holds its members, in order.
pub broadcast proof fn lemma_object_view(o: Vec<Member>)
    ensures
        #[trigger] json(Value::Object(o)) == Json::Object(o.deep_view()),
{
    assert(json(Value::Object(o))->Object_0 =~= o.deep_view());
}

impl Clone for Value {
    fn clone(&self) -> (r: Self)
        ensures
            r@ == self@,
        decreases self,
    {
        match self {
            Value::Null => Value::Null,
            Value::Bool(b) => Value::Bool(*b),
            Value::Number(n) => Value::Number(n.clone()),
            Value::String(s) => Value::String(s.clone()),
            Value::Array(a) => {
                let mut out: Vec<Value> = Vec::new();
                let mut i: usize = 0;
                while i < a.len()
                    invariant
                        i <= a.len(),
                        out@.len() == i,
                        forall|j: int| 0 <= j < i ==> json(out@[j]) == json(#[trigger] a@[j]),
                        *self == Value::Array(*a),
                    decreases a.len() - i,
                {
                    proof {
                        broadcast use vstd::std_specs::vec::axiom_vec_index_decreases;

                        assert(decreases_to!(*self => (*self)->Array_0));
                        assert(decreases_to!(*a => a[i as int]));
                    }
                    out.push(a[i].clone());
                    i += 1;
                }
                let r = Value::Array(out);
                assert(json(r)->Array_0 =~= json(*self)->Array_0);
                r
            },
            Value::Object(o) => {
                let mut out: Vec<Member> = Vec::new();
                let mut i: usize = 0;
                while i < o.len()
                    invariant
                        i <= o.len(),
                        out@.len() == i,
                        forall|j: int|
                            0 <= j < i ==> json(out@[j].value) == json((#[trigger] o@[j]).value)
                                && out@[j].name@ == o@[j].name@,
                        *self == Value::Object(*o),
                    decreases o.len() - i,
                {
                    proof {
                        broadcast use vstd::std_specs::vec::axiom_vec_index_decreases;

                        assert(decreases_to!(*self => (*self)->Object_0));
                        assert(decreases_to!(*o => o[i as int]));
                        assert(decreases_to!(o[i as int] => o[i as int].value));
                    }
                    out.push(Member { name: o[i].name.clone(), value: o[i].value.clone() });
                    i += 1;
                }
                let r = Value::Object(out);
                assert(json(r)->Object_0 =~= json(*self)->Object_0);
                r
            },
        }
    }
}

impl Clone for Member {
    fn clone(&self) -> (r: Self)
        ensures
            r@ == self@,
    {
        Member { name: self.name.clone(), value: self.value.clone() }
    }
}

impl Default for Value {
    fn default() -> (r: Self)
        ensures
            r == Value::Null,
    {
        Value::Null
    }
}

impl Value {
    /// Whether the two represent the same JSON value.
    pub fn same(&self, other: &Value) -> (r: bool)
        ensures
            r == (self@ == other@),
        decreases self,
    {
        match (self, other) {
            (Value::Null, Value::Null) => true,
            (Value::Bool(a), Value::Bool(b)) => *a == *b,
            (Value::Number(a), Value::Number(b)) => a.same(b),
            (Value::String(a), Value::String(b)) => *a == *b,
            (Value::Array(a), Value::Array(b)) => {
                if a.len() != b.len() {
                    assert(json(*self)->Array_0.len() != json(*other)->Array_0.len());
                    return false;
                }
                let mut i: usize = 0;
                while i < a.len()
                    invariant
                        i <= a.len(),
                        a.len() == b.len(),
                        forall|j: int| 0 <= j < i ==> json(#[trigger] a@[j]) == json(b@[j]),
                        *self == Value::Array(*a),
                        *other == Value::Array(*b),
                    decreases a.len() - i,
                {
                    proof {
                        broadcast use vstd::std_specs::vec::axiom_vec_index_decreases;

                        assert(decreases_to!(*self => (*self)->Array_0));
                        assert(decreases_to!(*a => a[i as int]));
                    }
                    if !a[i].same(&b[i]) {
                        assert(json(*self)->Array_0[i as int] == json(a@[i as int]));
                        assert(json(*other)->Array_0[i as int] == json(b@[i as int]));
                        return false;
                    }
                    i += 1;
                }
                assert(json(*self)->Array_0 =~= json(*other)->Array_0);
                true
            },
            (Value::Object(a), Value::Object(b)) => {
                if a.len() != b.len() {
                    assert(json(*self)->Object_0.len() != json(*other)->Object_0.len());
                    return false;
                }
                let mut i: usize = 0;
                while i < a.len()
                    invariant
                        i <= a.len(),
                        a.len() == b.len(),
                        forall|j: int|
                            0 <= j < i ==> json((#[trigger] a@[j]).value) == json(b@[j].value)
                                && a@[j].name@ == b@[j].name@,
                        *self == Value::Object(*a),
                        *other == Value::Object(*b),
                    decreases a.len() - i,
                {
                    proof {
                        broadcast use vstd::std_specs::vec::axiom_vec_index_decreases;

                        assert(decreases_to!(*self => (*self)->Object_0));
                        assert(decreases_to!(*a => a[i as int]));
                        assert(decreases_to!(a[i as int] => a[i as int].value));
                    }
                    if a[i].name != b[i].name || !a[i].value.same(&b[i].value) {
                        assert(json(*self)->Object_0[i as int] == a@[i as int]@);
                        assert(json(*other)->Object_0[i as int] == b@[i as int]@);
                        return false;
                    }
                    i += 1;
                }
                assert(json(*self)->Object_0 =~= json(*other)->Object_0);
                true
            },
            _ => false,
        }
    }
}

/// The variables bound in a scope, by name. A name is bound at most once, since
/// [`Variables::insert`] is the only way to add one.
#[derive(Debug, PartialEq, Eq)]
pub struct Variables {
    pub entries: Vec<Member>,
}

impl View for Variables {
    type V = Seq<MemberView>;

    open spec fn view(&self) -> Seq<MemberView> {
        self.entries.deep_view()
    }
}

impl DeepView for Variables {
    type V = Seq<MemberView>;

    open spec fn deep_view(&self) -> Seq<MemberView> {
        self.view()
    }
}

impl Clone for Variables {
    fn clone(&self) -> (r: Self)
        ensures
            r@ == self@,
    {
        let r = Variables { entries: self.entries.clone() };
        assert(r.entries.deep_view() =~= self.entries.deep_view());
        r
    }
}

/// Where `name` is bound, or the number of bindings when it is not.
pub open spec fn binding_of(vars: Seq<MemberView>, name: Seq<char>) -> int
    decreases vars.len(),
{
    if vars.len() == 0 || vars[0].name == name {
        0
    } else {
        1 + binding_of(vars.drop_first(), name)
    }
}

/// `vars` with `name` bound to `value`: in place when it was bound, at the end when it was not.
pub open spec fn bind(vars: Seq<MemberView>, name: Seq<char>, value: Json) -> Seq<MemberView> {
    let i = binding_of(vars, name);
    if i < vars.len() {
        vars.update(i, MemberView { name, value })
    } else {
        vars.push(MemberView { name, value })
    }
}

/// `vars` after every member of `members` has been bound, in order.
pub open spec fn bind_all(vars: Seq<MemberView>, members: Seq<MemberView>) -> Seq<MemberView>
    decreases members.len(),
{
    if members.len() == 0 {
        vars
    } else {
        bind(bind_all(vars, members.drop_last()), members.last().name, members.last().value)
    }
}

/// What `name` is bound to.
pub open spec fn lookup(vars: Seq<MemberView>, name: Seq<char>) -> Option<Json> {
    let i = binding_of(vars, name);
    if i < vars.len() {
        Some(vars[i].value)
    } else {
        None
    }
}

/// [`binding_of`] is the first position that holds the name.
pub proof fn lemma_binding_of(vars: Seq<MemberView>, name: Seq<char>)
    ensures
        0 <= binding_of(vars, name) <= vars.len(),
        binding_of(vars, name) < vars.len() ==> vars[binding_of(vars, name)].name == name,
        forall|j: int| 0 <= j < binding_of(vars, name) ==> (#[trigger] vars[j]).name != name,
    decreases vars.len(),
{
    if vars.len() > 0 && vars[0].name != name {
        let rest = vars.drop_first();
        lemma_binding_of(rest, name);
        assert forall|j: int| 0 <= j < binding_of(vars, name) implies (#[trigger] vars[j]).name
            != name by {
            if j > 0 {
                assert(rest[j - 1] == vars[j]);
            }
        }
    }
}

/// A first position that holds the name is [`binding_of`].
pub proof fn lemma_binding_unique(vars: Seq<MemberView>, name: Seq<char>, i: int)
    requires
        0 <= i <= vars.len(),
        i < vars.len() ==> vars[i].name == name,
        forall|j: int| 0 <= j < i ==> (#[trigger] vars[j]).name != name,
    ensures
        binding_of(vars, name) == i,
{
    lemma_binding_of(vars, name);
    let b = binding_of(vars, name);
    if b < i {
        assert(vars[b].name != name);
    }
}

/// A variable reads back as what it was last bound to, and binding it changes no other variable.
pub proof fn law_bind_then_lookup(
    vars: Seq<MemberView>,
    name: Seq<char>,
    value: Json,
    other: Seq<char>,
)
    ensures
        lookup(bind(vars, name, value), name) == Some(value),
        other != name ==> lookup(bind(vars, name, value), other) == lookup(vars, other),
{
    lemma_binding_of(vars, name);
    let after = bind(vars, name, value);
    let i = binding_of(vars, name);
    assert forall|j: int| 0 <= j < i implies (#[trigger] after[j]).name != name by {
        assert(after[j] == vars[j]);
    }
    lemma_binding_unique(after, name, i);
    if other != name {
        lemma_binding_of(vars, other);
        let k = binding_of(vars, other);
        assert forall|j: int| 0 <= j < k implies (#[trigger] after[j]).name != other by {
            assert(vars[j].name != other);
        }
        if k < vars.len() {
            lemma_binding_unique(after, other, k);
        } else {
            assert forall|j: int| 0 <= j < after.len() implies (#[trigger] after[j]).name
                != other by {
                if j < vars.len() {
                    assert(vars[j].name != other);
                }
            }
            lemma_binding_unique(after, other, after.len() as int);
        }
    }
}

impl Variables {
    /// A scope with no variable bound.
    pub fn new() -> (r: Self)
        ensures
            r@ == Seq::<MemberView>::empty(),
    {
        let r = Variables { entries: Vec::new() };
        assert(r.entries.deep_view() =~= Seq::<MemberView>::empty());
        r
    }

    /// Whether the two bind the same names to the same values, in the same order.
    pub fn same(&self, other: &Variables) -> (r: bool)
        ensures
            r == (self@ == other@),
    {
        if self.entries.len() != other.entries.len() {
            assert(self@.len() != other@.len());
            return false;
        }
        let mut i: usize = 0;
        while i < self.entries.len()
            invariant
                i <= self.entries.len(),
                self.entries.len() == other.entries.len(),
                forall|j: int|
                    0 <= j < i ==> (#[trigger] self.entries@[j])@ == other.entries@[j]@,
            decreases self.entries.len() - i,
        {
            if self.entries[i].name != other.entries[i].name || !self.entries[i].value.same(
                &other.entries[i].value,
            ) {
                assert(self@[i as int] == self.entries@[i as int]@);
                assert(other@[i as int] == other.entries@[i as int]@);
                return false;
            }
            i += 1;
        }
        assert(self@ =~= other@);
        true
    }

    /// Binds `name` to `value`.
    pub fn insert(&mut self, name: String, value: Value)
        ensures
            final(self)@ == bind(old(self)@, name@, value@),
    {
        let ghost before = self@;
        let mut i: usize = 0;
        while i < self.entries.len()
            invariant
                i <= self.entries.len(),
                self@ == before,
                forall|j: int| 0 <= j < i ==> (#[trigger] before[j]).name != name@,
            ensures
                i < self.entries.len() ==> self.entries@[i as int].name@ == name@,
            decreases self.entries.len() - i,
        {
            assert(before[i as int] == self.entries@[i as int]@);
            if self.entries[i].name == name {
                break;
            }
            i += 1;
        }
        proof {
            if i < self.entries.len() {
                assert(before[i as int] == self.entries@[i as int]@);
            }
            lemma_binding_unique(before, name@, i as int);
        }
        if i < self.entries.len() {
            self.entries.set(i, Member { name, value });
        } else {
            self.entries.push(Member { name, value });
        }
        assert(self@ =~= bind(before, name@, value@));
    }

    /// Binds every member of `members`, in order.
    pub fn insert_all(&mut self, members: &Vec<Member>)
        ensures
            final(self)@ == bind_all(old(self)@, members.deep_view()),
    {
        let ghost before = self@;
        let ghost all = members.deep_view();
        let mut i: usize = 0;
        assert(all.take(0) =~= Seq::<MemberView>::empty());
        while i < members.len()
            invariant
                i <= members.len(),
                all == members.deep_view(),
                self@ == bind_all(before, all.take(i as int)),
            decreases members.len() - i,
        {
            let ghost next = all.take(i as int + 1);
            assert(next.drop_last() =~= all.take(i as int));
            assert(next.last() == members@[i as int]@);
            self.insert(members[i].name.clone(), members[i].value.clone());
            i += 1;
        }
        assert(all.take(all.len() as int) =~= all);
    }

    /// What `name` is bound to.
    pub fn get(&self, name: &str) -> (r: Option<&Value>)
        ensures
            r.deep_view() == lookup(self@, name@),
    {
        let mut i: usize = 0;
        while i < self.entries.len()
            invariant
                i <= self.entries.len(),
                forall|j: int| 0 <= j < i ==> (#[trigger] self@[j]).name != name@,
            decreases self.entries.len() - i,
        {
            assert(self@[i as int] == self.entries@[i as int]@);
            if same_text(self.entries[i].name.as_str(), name) {
                proof {
                    lemma_binding_unique(self@, name@, i as int);
                }
                return Some(&self.entries[i].value);
            }
            i += 1;
        }
        proof {
            lemma_binding_unique(self@, name@, i as int);
        }
        None
    }
}

} // verus!
