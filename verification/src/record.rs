//! What a query is shown of a value, as mathematics: the record of a value,
//! and what holds of it.

use crate::error::Error;
use crate::hexadecimal;
use crate::identifier::text_form;
use crate::value::Node;
use vstd::prelude::*;

verus! {

/// What a query sees of a value, as a mathematical record: one optional slot
/// for each kind of value.
pub struct Record {
    /// `Some(true)` for the null value.
    pub null: Option<bool>,
    /// The boolean.
    pub bool: Option<bool>,
    /// The integer.
    pub integer: Option<int>,
    /// The bits of the 64-bit float.
    pub float: Option<u64>,
    /// The text.
    pub string: Option<Seq<char>>,
    /// The byte string, in lowercase hexadecimal.
    pub bytes: Option<Seq<char>>,
    /// The records of the list's items, in the list's order.
    pub list: Option<Seq<Record>>,
    /// The entries of the mapping, in the mapping's order.
    pub map: Option<Seq<Entry>>,
    /// The text of the identifier linked to.
    pub link: Option<Seq<char>>,
}

/// One key of a mapping with the record of its value.
pub struct Entry {
    /// The key.
    pub key: Seq<char>,
    /// The record of the key's value.
    pub value: Record,
}

impl Record {
    /// The record with no slot filled.
    pub open spec fn empty() -> Record {
        Record {
            null: None,
            bool: None,
            integer: None,
            float: None,
            string: None,
            bytes: None,
            list: None,
            map: None,
            link: None,
        }
    }

    /// How many slots are filled.
    pub open spec fn filled(self) -> nat {
        let null: nat = if self.null is Some { 1 } else { 0 };
        let boolean: nat = if self.bool is Some { 1 } else { 0 };
        let integer: nat = if self.integer is Some { 1 } else { 0 };
        let float: nat = if self.float is Some { 1 } else { 0 };
        let string: nat = if self.string is Some { 1 } else { 0 };
        let bytes: nat = if self.bytes is Some { 1 } else { 0 };
        let list: nat = if self.list is Some { 1 } else { 0 };
        let map: nat = if self.map is Some { 1 } else { 0 };
        let link: nat = if self.link is Some { 1 } else { 0 };
        null + boolean + integer + float + string + bytes + list + map + link
    }

    /// Whether exactly one slot is filled, in this record and in every record
    /// of its list or of its mapping.
    pub open spec fn exclusive(self) -> bool
        decreases self,
    {
        &&& self.filled() == 1
        &&& match self.list {
            Some(items) => forall|i: int|
                0 <= i < items.len() ==> (#[trigger] items[i]).exclusive(),
            None => true,
        }
        &&& match self.map {
            Some(entries) => forall|i: int|
                0 <= i < entries.len() ==> (#[trigger] entries[i]).value.exclusive(),
            None => true,
        }
    }
}

/// Whether every integer of the value, links not followed, fits the record's
/// 32-bit integer slot.
pub open spec fn fits(node: Node) -> bool
    decreases node,
{
    match node {
        Node::Integer(n) => i32::MIN <= n <= i32::MAX,
        Node::List(items) => forall|i: int| 0 <= i < items.len() ==> fits(#[trigger] items[i]),
        Node::Mapping(entries) => forall|i: int|
            0 <= i < entries.len() ==> fits((#[trigger] entries[i]).1),
        _ => true,
    }
}

/// The record of a value: the slot of the value's kind is filled, and no
/// other. A byte string is given in lowercase hexadecimal. A list and a
/// mapping keep their length and their order, item by item. A link gives the
/// text of its identifier and nothing of the block behind it.
pub open spec fn projected(node: Node) -> Record
    decreases node,
{
    match node {
        Node::Null => Record { null: Some(true), ..Record::empty() },
        Node::Bool(b) => Record { bool: Some(b), ..Record::empty() },
        Node::Integer(n) => Record { integer: Some(n), ..Record::empty() },
        Node::Float(bits) => Record { float: Some(bits), ..Record::empty() },
        Node::String(s) => Record { string: Some(s), ..Record::empty() },
        Node::Bytes(b) => Record { bytes: Some(hexadecimal::lower(b)), ..Record::empty() },
        Node::List(items) => Record {
            list: Some(
                Seq::new(
                    items.len(),
                    |i: int|
                        if 0 <= i < items.len() {
                            projected(items[i])
                        } else {
                            Record::empty()
                        },
                ),
            ),
            ..Record::empty()
        },
        Node::Mapping(entries) => Record {
            map: Some(
                Seq::new(
                    entries.len(),
                    |i: int|
                        if 0 <= i < entries.len() {
                            Entry { key: entries[i].0, value: projected(entries[i].1) }
                        } else {
                            Entry { key: Seq::empty(), value: Record::empty() }
                        },
                ),
            ),
            ..Record::empty()
        },
        Node::Link(id) => Record { link: Some(text_form(id)), ..Record::empty() },
    }
}

/// What a query is shown of a value: its record, or `IntegerOverflow` where
/// an integer of the value does not fit.
pub open spec fn shown(node: Node) -> Result<Record, Error> {
    if fits(node) {
        Ok(projected(node))
    } else {
        Err(Error::IntegerOverflow)
    }
}

/// The record of any value has exactly one slot filled, and so has every
/// record within it.
pub proof fn lemma_projected_exclusive(node: Node)
    ensures
        projected(node).exclusive(),
    decreases node,
{
    let record = projected(node);
    match node {
        Node::List(items) => {
            let records = record.list->0;
            assert forall|i: int| 0 <= i < records.len() implies (
            #[trigger] records[i]).exclusive() by {
                lemma_projected_exclusive(items[i]);
            }
        },
        Node::Mapping(entries) => {
            let shown = record.map->0;
            assert forall|i: int| 0 <= i < shown.len() implies (
            #[trigger] shown[i]).value.exclusive() by {
                lemma_projected_exclusive(entries[i].1);
            }
        },
        _ => {},
    }
}

/// Whether `record` keeps the length and the order of `node`: for a list,
/// the record at each place is that of the item at that place; for a mapping,
/// the entry at each place has the key at that place and the record of the
/// value at that place. No item or key moves, and none is dropped, not even
/// a key that occurs twice.
pub open spec fn keeps_order(node: Node, record: Record) -> bool {
    match node {
        Node::List(items) => record.list matches Some(records) && records.len() == items.len()
            && forall|i: int|
            0 <= i < items.len() ==> #[trigger] records[i] == projected(items[i]),
        Node::Mapping(entries) => record.map matches Some(shown) && shown.len() == entries.len()
            && forall|i: int|
            0 <= i < entries.len() ==> (#[trigger] shown[i]).key == entries[i].0 && shown[i].value
                == projected(entries[i].1),
        _ => true,
    }
}

/// The record of a list or of a mapping keeps the length and the order of
/// what it is the record of.
pub proof fn lemma_projected_keeps_order(node: Node)
    ensures
        keeps_order(node, projected(node)),
{
}

} // verus!
