//! The values that blocks hold.

use crate::identifier::{Identifier, Parts};
use vstd::prelude::*;

verus! {

/// What a block holds: a scalar, a list or a mapping of further values, or a
/// link to another block.
#[derive(Debug)]
pub enum Value {
    /// The null value.
    Null,
    /// A boolean.
    Bool(bool),
    /// An integer, as wide as the block format's.
    Integer(i128),
    /// A 64-bit float, held by its bits.
    Float(u64),
    /// A text.
    String(String),
    /// A byte string.
    Bytes(Vec<u8>),
    /// A list of values.
    List(Vec<Value>),
    /// Keys with their values, in the order in which the block gave them.
    Mapping(Vec<(String, Value)>),
    /// A link to the block with this identifier.
    Link(Identifier),
}

/// A value as a mathematical tree: what [`Value`] is a view of.
pub enum Node {
    /// The null value.
    Null,
    /// A boolean.
    Bool(bool),
    /// An integer.
    Integer(int),
    /// A 64-bit float, by its bits.
    Float(u64),
    /// A text.
    String(Seq<char>),
    /// A byte string.
    Bytes(Seq<u8>),
    /// A list of values.
    List(Seq<Node>),
    /// Keys with their values, in their order.
    Mapping(Seq<(Seq<char>, Node)>),
    /// A link to the block with this identifier.
    Link(Parts),
}

impl Value {
    /// The tree that the value is.
    pub open spec fn node(self) -> Node
        decreases self,
    {
        match self {
            Value::Null => Node::Null,
            Value::Bool(b) => Node::Bool(b),
            Value::Integer(n) => Node::Integer(n as int),
            Value::Float(bits) => Node::Float(bits),
            Value::String(s) => Node::String(s@),
            Value::Bytes(b) => Node::Bytes(b@),
            Value::List(items) => Node::List(
                Seq::new(
                    items.len() as nat,
                    |i: int|
                        if 0 <= i < items.len() {
                            items[i].node()
                        } else {
                            Node::Null
                        },
                ),
            ),
            Value::Mapping(entries) => Node::Mapping(
                Seq::new(
                    entries.len() as nat,
                    |i: int|
                        if 0 <= i < entries.len() {
                            (entries[i].0@, entries[i].1.node())
                        } else {
                            (Seq::empty(), Node::Null)
                        },
                ),
            ),
            Value::Link(id) => Node::Link(id@),
        }
    }
}

impl View for Value {
    type V = Node;

    open spec fn view(&self) -> Node {
        self.node()
    }
}

/// Whether text `a` comes before text `b`: at the first place where they
/// differ, `a` has the character of the lower code point, or `a` ends there
/// and `b` goes on.
pub open spec fn before(a: Seq<char>, b: Seq<char>) -> bool
    decreases a.len(),
{
    if b.len() == 0 {
        false
    } else if a.len() == 0 {
        true
    } else if a[0] != b[0] {
        (a[0] as u32) < (b[0] as u32)
    } else {
        before(a.drop_first(), b.drop_first())
    }
}

/// The least integer that a block can hold.
pub const BLOCK_INTEGER_MIN: i128 = -0x1_0000_0000_0000_0000;

/// The greatest integer that a block can hold.
pub const BLOCK_INTEGER_MAX: i128 = 0xffff_ffff_ffff_ffff;

/// Whether a block can hold the value as it is. It cannot hold a float, since
/// a float is kept here by its bits and is not made of them again. It holds
/// an integer of at most 64 bits beside its sign. It holds the keys of a
/// mapping in ascending order, each once, and so no mapping that has them
/// otherwise.
pub open spec fn writable(node: Node) -> bool
    decreases node,
{
    match node {
        Node::Float(_) => false,
        Node::Integer(n) => BLOCK_INTEGER_MIN <= n <= BLOCK_INTEGER_MAX,
        Node::List(items) => forall|i: int| 0 <= i < items.len() ==> writable(#[trigger] items[i]),
        Node::Mapping(entries) => {
            &&& forall|i: int| 0 <= i < entries.len() ==> writable((#[trigger] entries[i]).1)
            &&& forall|i: int|
                0 < i < entries.len() ==> before(entries[i - 1].0, (#[trigger] entries[i]).0)
        },
        Node::Link(id) => id.well_formed(),
        _ => true,
    }
}

/// `<str as PartialOrd>::lt`, by the operator. The standard library orders
/// texts lexicographically by their bytes, which, as it says, is the order
/// of their code points.
#[verifier::external_body]
fn text_before(a: &str, b: &str) -> (r: bool)
    ensures
        r == before(a@, b@),
{
    a < b
}

impl Value {
    /// Whether a block can hold the value as it is.
    pub fn is_writable(&self) -> (r: bool)
        ensures
            r == writable(self@),
        decreases self,
    {
        match self {
            Value::Float(_) => false,
            Value::Integer(n) => BLOCK_INTEGER_MIN <= *n && *n <= BLOCK_INTEGER_MAX,
            Value::List(items) => {
                let ghost nodes = self@->List_0;
                assert(forall|i: int| 0 <= i < items.len() ==> nodes[i] == #[trigger] items[i]@);
                let all = all_writable(items);
                proof {
                    if all {
                        assert forall|i: int| 0 <= i < nodes.len() implies writable(
                            #[trigger] nodes[i],
                        ) by {
                            assert(writable(items[i]@));
                        }
                    }
                    if writable(self@) {
                        assert forall|i: int| 0 <= i < items.len() implies writable(
                            #[trigger] items[i]@,
                        ) by {
                            assert(writable(nodes[i]));
                        }
                    }
                }
                all
            },
            Value::Mapping(entries) => {
                let ghost nodes = self@->Mapping_0;
                assert(forall|i: int|
                    0 <= i < entries.len() ==> nodes[i] == (
                        (#[trigger] entries[i]).0@,
                        entries[i].1@,
                    ));
                let all = entries_writable(entries);
                proof {
                    if all {
                        assert forall|i: int| 0 <= i < nodes.len() implies writable(
                            (#[trigger] nodes[i]).1,
                        ) by {
                            assert(writable(entries[i].1@));
                        }
                        assert forall|i: int| 0 < i < nodes.len() implies before(
                            nodes[i - 1].0,
                            (#[trigger] nodes[i]).0,
                        ) by {
                            assert(before(entries[i - 1].0@, entries[i].0@));
                        }
                    }
                    if writable(self@) {
                        assert forall|i: int| 0 <= i < entries.len() implies writable(
                            (#[trigger] entries[i]).1@,
                        ) by {
                            assert(writable(nodes[i].1));
                        }
                        assert forall|i: int| 0 < i < entries.len() implies before(
                            entries[i - 1].0@,
                            (#[trigger] entries[i]).0@,
                        ) by {
                            assert(before(nodes[i - 1].0, nodes[i].0));
                        }
                    }
                }
                all
            },
            Value::Link(id) => {
                proof {
                    use_type_invariant(id);
                }
                true
            },
            _ => true,
        }
    }
}

/// Whether a block can hold every item of a list.
fn all_writable(items: &Vec<Value>) -> (r: bool)
    ensures
        r == forall|i: int| 0 <= i < items.len() ==> writable(#[trigger] items[i]@),
    decreases items,
{
    let mut at: usize = 0;
    while at < items.len()
        invariant
            at <= items.len(),
            forall|i: int| 0 <= i < at ==> writable(#[trigger] items[i]@),
        decreases items.len() - at,
    {
        if !items[at].is_writable() {
            return false;
        }
        at += 1;
    }
    true
}

/// Whether a block can hold the entries of a mapping: every value, and the
/// keys in the order in which they stand.
fn entries_writable(entries: &Vec<(String, Value)>) -> (r: bool)
    ensures
        r == {
            &&& forall|i: int| 0 <= i < entries.len() ==> writable((#[trigger] entries[i]).1@)
            &&& forall|i: int|
                0 < i < entries.len() ==> before(entries[i - 1].0@, (#[trigger] entries[i]).0@)
        },
    decreases entries,
{
    let mut at: usize = 0;
    while at < entries.len()
        invariant
            at <= entries.len(),
            forall|i: int| 0 <= i < at ==> writable((#[trigger] entries[i]).1@),
            forall|i: int| 0 < i < at ==> before(entries[i - 1].0@, (#[trigger] entries[i]).0@),
        decreases entries.len() - at,
    {
        if !entries[at].1.is_writable() {
            return false;
        }
        if at > 0 && !text_before(entries[at - 1].0.as_str(), entries[at].0.as_str()) {
            return false;
        }
        at += 1;
    }
    true
}

} // verus!
