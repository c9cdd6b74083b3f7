//! State paths: JSON pointers into a machine's definition, by their decoded tokens.

use vstd::prelude::*;
use vstd::string::*;

use crate::text::{decimal, decimal_text};

verus! {

/// Where a state, or a table of states, stands in a machine: the decoded tokens of a JSON pointer
/// (RFC 6901) from the root of the definition.
#[derive(Debug, PartialEq, Eq)]
pub struct StatePath {
    pub tokens: Vec<String>,
}

impl View for StatePath {
    type V = Seq<Seq<char>>;

    open spec fn view(&self) -> Seq<Seq<char>> {
        self.tokens.deep_view()
    }
}

impl DeepView for StatePath {
    type V = Seq<Seq<char>>;

    open spec fn deep_view(&self) -> Seq<Seq<char>> {
        self.view()
    }
}

impl Clone for StatePath {
    fn clone(&self) -> (r: Self)
        ensures
            r@ == self@,
    {
        let r = StatePath { tokens: self.tokens.clone() };
        assert(r.tokens.deep_view() =~= self.tokens.deep_view());
        r
    }
}

/// A token as it stands in a pointer: `~` is written `~0` and `/` is written `~1`.
pub open spec fn encoded(token: Seq<char>) -> Seq<char>
    decreases token.len(),
{
    if token.len() == 0 {
        Seq::empty()
    } else if token.last() == '~' {
        encoded(token.drop_last()) + seq!['~', '0']
    } else if token.last() == '/' {
        encoded(token.drop_last()) + seq!['~', '1']
    } else {
        encoded(token.drop_last()).push(token.last())
    }
}

/// The pointer with the given tokens: each of them, encoded, behind a slash.
pub open spec fn pointer_text(tokens: Seq<Seq<char>>) -> Seq<char>
    decreases tokens.len(),
{
    if tokens.len() == 0 {
        Seq::empty()
    } else {
        pointer_text(tokens.drop_last()).push('/') + encoded(tokens.last())
    }
}

/// `jsonptr::PointerBuf::from_tokens`: writes each token, encoded, behind a slash.
#[verifier::external_body]
fn write_pointer(tokens: &Vec<String>) -> (r: String)
    ensures
        r@ == pointer_text(tokens.deep_view()),
{
    jsonptr::PointerBuf::from_tokens(tokens).as_str().to_owned()
}

/// `jsonptr::Pointer::parse` and its `tokens`, each `decoded`: the tokens of which `text` is the
/// pointer, or nothing when `text` is the pointer of no tokens.
#[verifier::external_body]
fn read_pointer(text: &str) -> (r: Option<Vec<String>>)
    ensures
        match r {
            Some(tokens) => pointer_text(tokens.deep_view()) == text@,
            None => forall|tokens: Seq<Seq<char>>| #[trigger] pointer_text(tokens) != text@,
        },
{
    match jsonptr::Pointer::parse(text) {
        Ok(pointer) => Some(pointer.tokens().map(|t| t.decoded().into_owned()).collect()),
        Err(_) => None,
    }
}

/// The name of the state that a path leads to: its last token.
pub open spec fn state_name(path: Seq<Seq<char>>) -> Seq<char> {
    if path.len() == 0 {
        Seq::empty()
    } else {
        path.last()
    }
}

/// The path of the state `next` in the table that `path` leads into.
pub open spec fn sibling(path: Seq<Seq<char>>, next: Seq<char>) -> Seq<Seq<char>> {
    if path.len() == 0 {
        seq![next]
    } else {
        path.drop_last().push(next)
    }
}

/// The path of the table of one branch of the `Parallel` at `path`.
pub open spec fn branch_path(path: Seq<Seq<char>>, index: nat) -> Seq<Seq<char>> {
    path.push("Branches"@).push(decimal(index)).push("States"@)
}

/// The path of the table of the items of the `Map` at `path`.
pub open spec fn item_processor_path(path: Seq<Seq<char>>) -> Seq<Seq<char>> {
    path.push("ItemProcessor"@).push("States"@)
}

impl StatePath {
    /// The path with no tokens.
    pub fn root() -> (r: StatePath)
        ensures
            r@ == Seq::<Seq<char>>::empty(),
    {
        let r = StatePath { tokens: Vec::new() };
        assert(r@ =~= Seq::<Seq<char>>::empty());
        r
    }

    /// Reads a path from a JSON pointer.
    pub fn parse(text: &str) -> (r: Option<StatePath>)
        ensures
            match r {
                Some(path) => pointer_text(path@) == text@,
                None => forall|path: Seq<Seq<char>>| #[trigger] pointer_text(path) != text@,
            },
    {
        match read_pointer(text) {
            Some(tokens) => Some(StatePath { tokens }),
            None => None,
        }
    }

    /// The path as a JSON pointer.
    pub fn text(&self) -> (r: String)
        ensures
            r@ == pointer_text(self@),
    {
        write_pointer(&self.tokens)
    }

    /// Puts `token` at the end.
    pub fn push_back(&mut self, token: &str)
        ensures
            final(self)@ == old(self)@.push(token@),
    {
        let ghost before = self@;
        self.tokens.push(token.to_owned());
        assert(self@ =~= before.push(token@));
    }

    /// The name of the state that the path leads to.
    pub fn state_name(&self) -> (r: String)
        ensures
            r@ == state_name(self@),
    {
        let n = self.tokens.len();
        if n == 0 {
            String::new()
        } else {
            assert(self@.last() == self.tokens@[n - 1]@);
            self.tokens[n - 1].clone()
        }
    }

    /// The path without its last token.
    pub fn parent(&self) -> (r: StatePath)
        ensures
            r@ == (if self@.len() == 0 {
                self@
            } else {
                self@.drop_last()
            }),
    {
        let mut r = self.clone();
        let ghost before = r@;
        if r.tokens.len() > 0 {
            r.tokens.pop();
            assert(r@ =~= before.drop_last());
        }
        r
    }

    /// The path of the state `next` in the same table.
    pub fn sibling(&self, next: &str) -> (r: StatePath)
        ensures
            r@ == sibling(self@, next@),
    {
        let mut r = self.parent();
        r.push_back(next);
        assert(r@ =~= sibling(self@, next@));
        r
    }

    /// The path of the table of one branch of the `Parallel` at this path.
    pub fn branch(&self, index: usize) -> (r: StatePath)
        ensures
            r@ == branch_path(self@, index as nat),
    {
        let mut r = self.clone();
        r.push_back("Branches");
        r.push_back(decimal_text(index as u128).as_str());
        r.push_back("States");
        r
    }

    /// The path of the table of the items of the `Map` at this path.
    pub fn item_processor(&self) -> (r: StatePath)
        ensures
            r@ == item_processor_path(self@),
    {
        let mut r = self.clone();
        r.push_back("ItemProcessor");
        r.push_back("States");
        r
    }
}

} // verus!
