//! What holds of the store's writes and reads taken together.

use crate::error::Error;
use crate::identifier::{binary_form, parsed, text_form, Parts};
use crate::record::shown;
use crate::store::{decoded, encoded, fetched, resolved, retrieved, stored};
use crate::value::{writable, Node};
use vstd::prelude::*;

verus! {

/// A value comes back as it went in: after `value` is stored, the store
/// holds `value` under the identifier that the write gave, and gives a query
/// for it what the query is shown of `value` itself. This holds of a value
/// that a block can hold and that its block decodes to.
pub proof fn lemma_round_trip(
    before: Map<Seq<u8>, Seq<u8>>,
    after: Map<Seq<u8>, Seq<u8>>,
    value: Node,
    id: Parts,
)
    requires
        writable(value),
        stored(before, after, encoded(value), id),
        decoded(encoded(value)) == Some(value),
    ensures
        fetched(after, id) == Ok::<Node, Error>(value),
        retrieved(after, id) == shown(value),
{
}

/// A value comes back by the text of its identifier: after `value` is
/// stored, the store gives, for the text of the identifier that the write
/// gave, what a query is shown of `value`, provided that the text parses
/// back to the identifier, as the text of a standard identifier does.
pub proof fn lemma_round_trip_by_text(
    before: Map<Seq<u8>, Seq<u8>>,
    after: Map<Seq<u8>, Seq<u8>>,
    value: Node,
    id: Parts,
)
    requires
        writable(value),
        stored(before, after, encoded(value), id),
        decoded(encoded(value)) == Some(value),
        parsed(text_form(id)) == Some(id),
    ensures
        resolved(after, text_form(id)) == shown(value),
{
}

/// The identifier of a block depends on the block alone: two writes of one
/// block, and so two writes of one value, give one identifier, whatever the
/// stores held.
pub proof fn lemma_same_block_same_identifier(
    before_one: Map<Seq<u8>, Seq<u8>>,
    after_one: Map<Seq<u8>, Seq<u8>>,
    id_one: Parts,
    before_other: Map<Seq<u8>, Seq<u8>>,
    after_other: Map<Seq<u8>, Seq<u8>>,
    id_other: Parts,
    block: Seq<u8>,
)
    requires
        stored(before_one, after_one, block, id_one),
        stored(before_other, after_other, block, id_other),
    ensures
        id_one == id_other,
{
}

/// Storing a block a second time gives the same identifier and leaves the
/// store as the first write left it.
pub proof fn lemma_store_twice(
    before: Map<Seq<u8>, Seq<u8>>,
    between: Map<Seq<u8>, Seq<u8>>,
    after: Map<Seq<u8>, Seq<u8>>,
    block: Seq<u8>,
    first: Parts,
    second: Parts,
)
    requires
        stored(before, between, block, first),
        stored(between, after, block, second),
    ensures
        second == first,
        after == between,
{
}

/// A read looks at one block: two stores that hold the same block under an
/// identifier give the same for it, whatever else they hold or lack. So what
/// is shown of a value with a link in it is the same whether or not the
/// block linked to is stored.
pub proof fn lemma_read_of_one_block(
    one: Map<Seq<u8>, Seq<u8>>,
    other: Map<Seq<u8>, Seq<u8>>,
    id: Parts,
)
    requires
        one.dom().contains(binary_form(id)),
        other.dom().contains(binary_form(id)),
        one[binary_form(id)] == other[binary_form(id)],
    ensures
        retrieved(one, id) == retrieved(other, id),
{
}

/// A write adds and never removes: what the store gave for an identifier
/// before a write of another block, it gives after it, unless the write
/// reached the identifier's place, which then gives the block written.
pub proof fn lemma_write_keeps_others(
    before: Map<Seq<u8>, Seq<u8>>,
    after: Map<Seq<u8>, Seq<u8>>,
    block: Seq<u8>,
    id: Parts,
    other: Seq<u8>,
)
    requires
        stored(before, after, block, id),
        before.dom().contains(other),
    ensures
        after.dom().contains(other),
        after[other] == before[other] || after[other] == block,
{
}

} // verus!
