//! The block store: what it holds, and what a write and a read make of it.
//!
//! The store is the in-memory database of `forest_db`, written and read
//! through `ipld_blockstore`. Its calls stand here, each with what it is
//! taken to do.

use crate::error::Error;
use crate::identifier::{binary_form, from_cid, parsed, to_cid, Identifier, Parts};
use crate::record::{shown, Record};
use crate::value::{writable, Node, Value};
use forest_cid::Code;
use forest_db::MemoryDB;
use forest_ipld::Ipld;
use ipld_blockstore::BlockStore;
use vstd::prelude::*;

verus! {

/// The in-memory key-value store of `forest_db`.
#[verifier::external_type_specification]
#[verifier::external_body]
pub struct ExMemoryDB(MemoryDB);

/// The value type of `forest_ipld`.
#[verifier::external_type_specification]
#[verifier::external_body]
pub struct ExIpld(Ipld);

/// The blocks of a store: each key that a read of the store finds, with the
/// bytes that the read gives for it.
pub uninterp spec fn blocks(db: MemoryDB) -> Map<Seq<u8>, Seq<u8>>;

/// The codec of the identifiers that the store gives: DAG-CBOR.
pub const DAG_CBOR: u64 = 0x71;

/// The hash of the identifiers that the store gives: BLAKE2b-256.
pub const BLAKE2B_256: u64 = 0xb220;

/// The BLAKE2b-256 hash of `data`.
pub uninterp spec fn blake2b_256(data: Seq<u8>) -> Seq<u8>;

/// The identifier that the store gives to `block`: the version 1 identifier
/// with the DAG-CBOR codec and the BLAKE2b-256 hash of the block.
pub open spec fn address(block: Seq<u8>) -> Parts {
    Parts { version: 1, codec: DAG_CBOR, hash_code: BLAKE2B_256, digest: blake2b_256(block) }
}

/// The value that `block` decodes to as CBOR, or `None` where the bytes are
/// no encoding of a value.
pub uninterp spec fn decoded(block: Seq<u8>) -> Option<Node>;

/// The block that holds `value`: its encoding as CBOR. It is the block of a
/// value that a block can hold; of another value it says nothing.
pub uninterp spec fn encoded(value: Node) -> Seq<u8>;

/// The blocks of a store that holds nothing.
pub open spec fn no_blocks() -> Map<Seq<u8>, Seq<u8>> {
    Map::empty()
}

/// What a write of `block` under `key` makes of a store's blocks.
///
/// The store finds a block by a 64-bit hash of its key. After the write the
/// key reads as `block`. Any other key reads as it did before, or, where its
/// hash is that of `key`, as `block`. A write of what the key already reads
/// as changes nothing.
pub open spec fn wrote(
    before: Map<Seq<u8>, Seq<u8>>,
    after: Map<Seq<u8>, Seq<u8>>,
    key: Seq<u8>,
    block: Seq<u8>,
) -> bool {
    &&& after.dom().contains(key) && after[key] == block
    &&& forall|other: Seq<u8>| #[trigger]
        before.dom().contains(other) ==> after.dom().contains(other) && (after[other]
            == before[other] || after[other] == block)
    &&& forall|other: Seq<u8>| #[trigger]
        after.dom().contains(other) ==> before.dom().contains(other) || after[other] == block
    &&& before.dom().contains(key) && before[key] == block ==> after == before
}

/// What storing `block` makes of a store's blocks, and the identifier that it
/// gives: the block's own, under which the block is then written.
pub open spec fn stored(
    before: Map<Seq<u8>, Seq<u8>>,
    after: Map<Seq<u8>, Seq<u8>>,
    block: Seq<u8>,
    id: Parts,
) -> bool {
    id == address(block) && wrote(before, after, binary_form(id), block)
}

/// The value that a store with these blocks holds under an identifier:
/// `NotFound` where it holds no block under the identifier's binary form,
/// `Corrupt` where the block decodes to no value, and else the value that
/// the block decodes to.
pub open spec fn fetched(blocks: Map<Seq<u8>, Seq<u8>>, id: Parts) -> Result<Node, Error> {
    if !blocks.dom().contains(binary_form(id)) {
        Err(Error::NotFound)
    } else {
        match decoded(blocks[binary_form(id)]) {
            None => Err(Error::Corrupt),
            Some(node) => Ok(node),
        }
    }
}

/// What a store with these blocks gives a query for an identifier: what the
/// query is shown of the value held under the identifier, or the error of
/// the read.
pub open spec fn retrieved(blocks: Map<Seq<u8>, Seq<u8>>, id: Parts) -> Result<Record, Error> {
    match fetched(blocks, id) {
        Ok(node) => shown(node),
        Err(e) => Err(e),
    }
}

/// What a store with these blocks gives for an identifier's text:
/// `MalformedIdentifier` where the text is no identifier, and else what it
/// gives for the identifier.
pub open spec fn resolved(blocks: Map<Seq<u8>, Seq<u8>>, text: Seq<char>) -> Result<
    Record,
    Error,
> {
    match parsed(text) {
        None => Err(Error::MalformedIdentifier),
        Some(id) => retrieved(blocks, id),
    }
}

/// What a read of the store under an identifier came to.
#[derive(Debug)]
pub enum Fetched {
    /// A block is stored under the identifier and decodes to this value.
    Found(Value),
    /// No block is stored under the identifier.
    Missing,
    /// A block is stored under the identifier and decodes to no value.
    Undecodable,
    /// The store did not answer.
    Unavailable,
}

impl Fetched {
    /// The value found, or the error that stands for what the read came to.
    pub fn into_result(self) -> (r: Result<Value, Error>)
        ensures
            match self {
                Fetched::Found(value) => r matches Ok(found) && found == value,
                Fetched::Missing => r matches Err(e) && e == Error::NotFound,
                Fetched::Undecodable => r matches Err(e) && e == Error::Corrupt,
                Fetched::Unavailable => r matches Err(e) && e == Error::BackendUnavailable,
            },
    {
        match self {
            Fetched::Found(value) => Ok(value),
            Fetched::Missing => Err(Error::NotFound),
            Fetched::Undecodable => Err(Error::Corrupt),
            Fetched::Unavailable => Err(Error::BackendUnavailable),
        }
    }
}

/// `MemoryDB::default`: a store in which no read finds anything.
#[verifier::external_body]
pub(crate) fn empty_store() -> (db: MemoryDB)
    ensures
        blocks(db) == no_blocks(),
{
    MemoryDB::default()
}

/// `BlockStore::get::<Ipld>` on the in-memory store. It reads under the
/// identifier's binary form and decodes what it finds. A read of the
/// in-memory store always answers, so a failure is one of the decoding.
#[verifier::external_body]
pub(crate) fn read_block(db: &MemoryDB, id: &Identifier) -> (r: Fetched)
    requires
        id@.well_formed(),
    ensures
        (r is Missing) == !blocks(*db).dom().contains(binary_form(id@)),
        (r is Undecodable) == (blocks(*db).dom().contains(binary_form(id@)) && decoded(
            blocks(*db)[binary_form(id@)],
        ) is None),
        (r is Found) == (blocks(*db).dom().contains(binary_form(id@)) && decoded(
            blocks(*db)[binary_form(id@)],
        ) is Some),
        r matches Fetched::Found(value) ==> decoded(blocks(*db)[binary_form(id@)]) == Some(value@),
{
    match db.get::<Ipld>(&to_cid(id)) {
        Ok(Some(ipld)) => Fetched::Found(value_of(ipld)),
        Ok(None) => Fetched::Missing,
        Err(e) if e.is::<forest_db::Error>() => Fetched::Unavailable,
        Err(_) => Fetched::Undecodable,
    }
}

/// The value that an `Ipld` is, variant by variant: a float by its bits, a
/// map by its entries in the map's order, a link by its identifier's parts.
#[verifier::external_body]
fn value_of(ipld: Ipld) -> Value {
    match ipld {
        Ipld::Null => Value::Null,
        Ipld::Bool(b) => Value::Bool(b),
        Ipld::Integer(n) => Value::Integer(n),
        Ipld::Float(x) => Value::Float(x.to_bits()),
        Ipld::String(s) => Value::String(s),
        Ipld::Bytes(b) => Value::Bytes(b),
        Ipld::List(l) => Value::List(l.into_iter().map(value_of).collect()),
        Ipld::Map(m) => Value::Mapping(m.into_iter().map(|(k, v)| (k, value_of(v))).collect()),
        Ipld::Link(c) => Value::Link(from_cid(&c)),
    }
}

/// The `Ipld` that a value is, variant by variant: a mapping by the map of
/// its entries, a link by the `Cid` of its identifier's parts. It is `None`
/// for a value with a float in it, which is no value that a block can hold.
#[verifier::external_body]
fn ipld_of(value: &Value) -> Option<Ipld>
    requires
        writable(value@),
{
    Some(match value {
        Value::Null => Ipld::Null,
        Value::Bool(b) => Ipld::Bool(*b),
        Value::Integer(n) => Ipld::Integer(*n),
        Value::Float(_) => return None,
        Value::String(s) => Ipld::String(s.clone()),
        Value::Bytes(b) => Ipld::Bytes(b.clone()),
        Value::List(l) => Ipld::List(l.iter().map(ipld_of).collect::<Option<_>>()?),
        Value::Mapping(m) => Ipld::Map(
            m.iter().map(|e| Some((e.0.clone(), ipld_of(&e.1)?))).collect::<Option<_>>()?,
        ),
        Value::Link(id) => Ipld::Link(to_cid(id)),
    })
}

/// `BlockStore::put` of an `Ipld` with the BLAKE2b-256 code, on the in-memory
/// store. It encodes the value as CBOR, makes the block's identifier
/// (`forest_cid::new_from_cbor`) and writes the block under the identifier's
/// binary form. A value that a block can hold always encodes, and a write to
/// the in-memory store never fails.
#[verifier::external_body]
pub(crate) fn write_value(db: &mut MemoryDB, value: &Value) -> (id: Identifier)
    requires
        writable(value@),
    ensures
        id@ == (Parts {
            version: 1,
            codec: DAG_CBOR,
            hash_code: BLAKE2B_256,
            digest: blake2b_256(encoded(value@)),
        }),
        wrote(blocks(*old(db)), blocks(*final(db)), binary_form(id@), encoded(value@)),
{
    from_cid(&db.put(&ipld_of(value).unwrap(), Code::Blake2b256).unwrap())
}

} // verus!
