//! The store that the query surface works on, and the records that it
//! answers with.

use crate::error::Error;
use crate::hexadecimal;
use crate::identifier::Identifier;
use crate::record::{
    fits, keeps_order, lemma_projected_exclusive, lemma_projected_keeps_order, projected, shown,
    Entry, Record,
};
use crate::store::{
    blocks, empty_store, encoded, fetched, no_blocks, read_block, resolved, retrieved, stored,
    write_value,
};
use crate::value::{writable, Node, Value};
use forest_db::MemoryDB;
use vstd::prelude::*;

verus! {

/// The block store that the query surface reads and writes.
#[derive(Debug)]
pub struct IpldStore {
    store: MemoryDB,
}

impl View for IpldStore {
    type V = Map<Seq<u8>, Seq<u8>>;

    /// The blocks stored, each under the binary form of its identifier.
    closed spec fn view(&self) -> Map<Seq<u8>, Seq<u8>> {
        blocks(self.store)
    }
}

/// A byte string in lowercase hexadecimal, two digits for each byte.
#[derive(Debug)]
pub struct Bytes(pub String);

/// An identifier in its text form.
#[derive(Debug)]
pub struct Link(pub String);

/// What a query sees of a value: one optional slot for each kind of value, of
/// which at most one is filled.
#[derive(Debug)]
pub struct GQLIpld {
    null: Option<bool>,
    bool: Option<bool>,
    integer: Option<i32>,
    float: Option<u64>,
    string: Option<String>,
    bytes: Option<Bytes>,
    list: Option<Vec<GQLIpld>>,
    map: Option<Vec<MapItem>>,
    link: Option<Link>,
}

/// One key of a mapping with what a query sees of its value.
#[derive(Debug)]
pub struct MapItem {
    key: String,
    value: GQLIpld,
}

impl Clone for Bytes {
    fn clone(&self) -> (copy: Bytes)
        ensures
            copy.0@ == self.0@,
    {
        Bytes(self.0.clone())
    }
}

impl Clone for Link {
    fn clone(&self) -> (copy: Link)
        ensures
            copy.0@ == self.0@,
    {
        Link(self.0.clone())
    }
}

impl GQLIpld {
    /// The record that the value is.
    pub closed spec fn record(self) -> Record
        decreases self,
    {
        Record {
            null: self.null,
            bool: self.bool,
            integer: match self.integer {
                Some(n) => Some(n as int),
                None => None,
            },
            float: self.float,
            string: match self.string {
                Some(s) => Some(s@),
                None => None,
            },
            bytes: match self.bytes {
                Some(b) => Some(b.0@),
                None => None,
            },
            list: match self.list {
                Some(items) => Some(
                    Seq::new(
                        items.len() as nat,
                        |i: int|
                            if 0 <= i < items.len() {
                                items[i].record()
                            } else {
                                Record::empty()
                            },
                    ),
                ),
                None => None,
            },
            map: match self.map {
                Some(items) => Some(
                    Seq::new(
                        items.len() as nat,
                        |i: int|
                            if 0 <= i < items.len() {
                                Entry { key: items[i].key@, value: items[i].value.record() }
                            } else {
                                Entry { key: Seq::empty(), value: Record::empty() }
                            },
                    ),
                ),
                None => None,
            },
            link: match self.link {
                Some(l) => Some(l.0@),
                None => None,
            },
        }
    }
}

impl View for GQLIpld {
    type V = Record;

    open spec fn view(&self) -> Record {
        self.record()
    }
}

impl View for MapItem {
    type V = Entry;

    closed spec fn view(&self) -> Entry {
        Entry { key: self.key@, value: self.value@ }
    }
}

/// The result of a projection as a query sees it: the record that was made,
/// as the mathematical record that it is.
pub open spec fn seen(r: Result<GQLIpld, Error>) -> Result<Record, Error> {
    match r {
        Ok(record) => Ok(record@),
        Err(e) => Err(e),
    }
}

/// The result of a read as the store holds it: the value that was read, as
/// the tree that it is.
pub open spec fn held(r: Result<Value, Error>) -> Result<Node, Error> {
    match r {
        Ok(value) => Ok(value@),
        Err(e) => Err(e),
    }
}

impl Default for GQLIpld {
    /// The record with no slot filled.
    fn default() -> (record: GQLIpld)
        ensures
            record@ == Record::empty(),
    {
        GQLIpld {
            null: None,
            bool: None,
            integer: None,
            float: None,
            string: None,
            bytes: None,
            list: None,
            map: None,
            link: None,
        }
    }
}

impl GQLIpld {
    /// At most one slot of a record is filled.
    #[verifier::type_invariant]
    spec fn at_most_one_slot(self) -> bool {
        self.record().filled() <= 1
    }

    /// What a query sees of `value`. Fails with `IntegerOverflow` exactly
    /// where an integer of the value does not fit 32 bits. No block is read:
    /// a link gives its identifier's text.
    pub fn project(value: &Value) -> (r: Result<GQLIpld, Error>)
        ensures
            seen(r) == shown(value@),
            r matches Ok(record) ==> record@.exclusive() && keeps_order(value@, record@),
        decreases value,
    {
        let mut record = GQLIpld::default();
        match value {
            Value::Null => {
                record.null = Some(true);
            },
            Value::Bool(b) => {
                record.bool = Some(*b);
            },
            Value::Integer(n) => {
                if *n < i32::MIN as i128 || *n > i32::MAX as i128 {
                    return Err(Error::IntegerOverflow);
                }
                record.integer = Some(*n as i32);
            },
            Value::Float(bits) => {
                record.float = Some(*bits);
            },
            Value::String(s) => {
                record.string = Some(s.clone());
            },
            Value::Bytes(b) => {
                record.bytes = Some(Bytes(hexadecimal::encode(b)));
            },
            Value::List(items) => {
                let ghost nodes = value@->List_0;
                assert(forall|i: int| 0 <= i < items.len() ==> nodes[i] == #[trigger] items[i]@);
                match project_list(items) {
                    Ok(list) => {
                        record.list = Some(list);
                        assert(record@.list->0 =~= projected(value@).list->0);
                        assert forall|i: int| 0 <= i < nodes.len() implies fits(
                            #[trigger] nodes[i],
                        ) by {
                            assert(fits(items[i]@));
                        }
                    },
                    Err(e) => {
                        return Err(e);
                    },
                }
            },
            Value::Mapping(entries) => {
                let ghost nodes = value@->Mapping_0;
                assert(forall|i: int|
                    0 <= i < entries.len() ==> nodes[i] == (
                        (#[trigger] entries[i]).0@,
                        entries[i].1@,
                    ));
                match project_entries(entries) {
                    Ok(map) => {
                        record.map = Some(map);
                        assert(record@.map->0 =~= projected(value@).map->0);
                        assert forall|i: int| 0 <= i < nodes.len() implies fits(
                            (#[trigger] nodes[i]).1,
                        ) by {
                            assert(fits(entries[i].1@));
                        }
                    },
                    Err(e) => {
                        return Err(e);
                    },
                }
            },
            Value::Link(id) => {
                record.link = Some(Link(id.text()));
            },
        }
        proof {
            lemma_projected_exclusive(value@);
            lemma_projected_keeps_order(value@);
        }
        Ok(record)
    }
}

/// The records of a list's items, in the list's order.
fn project_list(items: &Vec<Value>) -> (r: Result<Vec<GQLIpld>, Error>)
    ensures
        match r {
            Ok(list) => {
                &&& list.len() == items.len()
                &&& forall|i: int| 0 <= i < items.len() ==> fits(#[trigger] items[i]@)
                &&& forall|i: int|
                    0 <= i < items.len() ==> (#[trigger] list[i])@ == projected(items[i]@)
            },
            Err(e) => {
                &&& exists|i: int| 0 <= i < items.len() && !fits(#[trigger] items[i]@)
                &&& e == Error::IntegerOverflow
            },
        },
    decreases items,
{
    let mut list: Vec<GQLIpld> = Vec::new();
    let mut at: usize = 0;
    while at < items.len()
        invariant
            at <= items.len(),
            list.len() == at,
            forall|i: int| 0 <= i < at ==> fits(#[trigger] items[i]@),
            forall|i: int| 0 <= i < at ==> (#[trigger] list[i])@ == projected(items[i]@),
        decreases items.len() - at,
    {
        match GQLIpld::project(&items[at]) {
            Ok(record) => {
                list.push(record);
            },
            Err(e) => {
                return Err(e);
            },
        }
        at += 1;
    }
    Ok(list)
}

/// The entries of a mapping, key by key, in the mapping's order.
fn project_entries(entries: &Vec<(String, Value)>) -> (r: Result<Vec<MapItem>, Error>)
    ensures
        match r {
            Ok(map) => {
                &&& map.len() == entries.len()
                &&& forall|i: int| 0 <= i < entries.len() ==> fits((#[trigger] entries[i]).1@)
                &&& forall|i: int|
                    0 <= i < entries.len() ==> (#[trigger] map[i])@ == (Entry {
                        key: entries[i].0@,
                        value: projected(entries[i].1@),
                    })
            },
            Err(e) => {
                &&& exists|i: int| 0 <= i < entries.len() && !fits((#[trigger] entries[i]).1@)
                &&& e == Error::IntegerOverflow
            },
        },
    decreases entries,
{
    let mut map: Vec<MapItem> = Vec::new();
    let mut at: usize = 0;
    while at < entries.len()
        invariant
            at <= entries.len(),
            map.len() == at,
            forall|i: int| 0 <= i < at ==> fits((#[trigger] entries[i]).1@),
            forall|i: int|
                0 <= i < at ==> (#[trigger] map[i])@ == (Entry {
                    key: entries[i].0@,
                    value: projected(entries[i].1@),
                }),
        decreases entries.len() - at,
    {
        match GQLIpld::project(&entries[at].1) {
            Ok(record) => {
                map.push(MapItem { key: entries[at].0.clone(), value: record });
            },
            Err(e) => {
                return Err(e);
            },
        }
        at += 1;
    }
    Ok(map)
}

impl Default for IpldStore {
    /// A store that holds no block.
    fn default() -> (store: IpldStore)
        ensures
            store@ == no_blocks(),
    {
        IpldStore { store: empty_store() }
    }
}

impl IpldStore {
    /// The store over what `store` holds.
    pub fn new(store: MemoryDB) -> (made: IpldStore)
        ensures
            made@ == blocks(store),
    {
        IpldStore { store }
    }

    /// Stores the block that holds `value` and gives the block's identifier,
    /// which depends on the value alone. Gives `None`, and stores nothing,
    /// exactly where no block can hold the value.
    pub fn put(&mut self, value: &Value) -> (r: Option<Identifier>)
        ensures
            match r {
                Some(id) => writable(value@) && stored(
                    old(self)@,
                    final(self)@,
                    encoded(value@),
                    id@,
                ),
                None => !writable(value@) && final(self)@ == old(self)@,
            },
    {
        if value.is_writable() {
            Some(write_value(&mut self.store, value))
        } else {
            None
        }
    }

    /// Stores the block that holds the integer `value` and gives the block's
    /// identifier, which depends on the integer alone.
    pub fn insert_ipld(&mut self, value: i32) -> (id: Identifier)
        ensures
            stored(old(self)@, final(self)@, encoded(Node::Integer(value as int)), id@),
    {
        write_value(&mut self.store, &Value::Integer(value as i128))
    }

    /// The value stored under `id`. Fails with `NotFound` where no block is
    /// stored under the identifier, and with `Corrupt` where the block
    /// stored decodes to no value.
    pub fn get(&self, id: &Identifier) -> (r: Result<Value, Error>)
        ensures
            held(r) == fetched(self@, id@),
    {
        proof {
            use_type_invariant(id);
        }
        read_block(&self.store, id).into_result()
    }

    /// What a query sees of the value stored under `id`: the record of the
    /// value, or the error of the read, or `IntegerOverflow` where the value
    /// does not fit a record.
    pub fn retrieve_ipld(&self, id: &Identifier) -> (r: Result<GQLIpld, Error>)
        ensures
            seen(r) == retrieved(self@, id@),
    {
        match self.get(id) {
            Ok(value) => GQLIpld::from(value),
            Err(e) => Err(e),
        }
    }
}

impl GQLIpld {
    /// What a query sees of `value`: as [`GQLIpld::project`], of a value
    /// handed over.
    pub fn from(value: Value) -> (r: Result<GQLIpld, Error>)
        ensures
            seen(r) == shown(value@),
            r matches Ok(record) ==> record@.exclusive() && keeps_order(value@, record@),
    {
        GQLIpld::project(&value)
    }

    /// The null slot: `Some(true)` for the null value.
    pub fn null(&self) -> (slot: Option<bool>)
        ensures
            slot == self@.null,
    {
        self.null
    }

    /// The boolean slot.
    pub fn bool(&self) -> (slot: Option<bool>)
        ensures
            slot == self@.bool,
    {
        self.bool
    }

    /// The integer slot.
    pub fn integer(&self) -> (slot: Option<i32>)
        ensures
            match slot {
                Some(n) => self@.integer == Some(n as int),
                None => self@.integer is None,
            },
    {
        self.integer
    }

    /// The float slot: the bits of the 64-bit float.
    pub fn float(&self) -> (slot: Option<u64>)
        ensures
            slot == self@.float,
    {
        self.float
    }

    /// The text slot.
    pub fn string(&self) -> (slot: &Option<String>)
        ensures
            match *slot {
                Some(s) => self@.string == Some(s@),
                None => self@.string is None,
            },
    {
        &self.string
    }

    /// The byte string slot, in hexadecimal.
    pub fn bytes(&self) -> (slot: &Option<Bytes>)
        ensures
            match *slot {
                Some(b) => self@.bytes == Some(b.0@),
                None => self@.bytes is None,
            },
    {
        &self.bytes
    }

    /// The list slot: the records of the list's items.
    pub fn list(&self) -> (slot: &Option<Vec<GQLIpld>>)
        ensures
            match *slot {
                Some(items) => self@.list matches Some(records) && records.len() == items.len()
                    && forall|i: int| 0 <= i < items.len() ==> (#[trigger] items[i])@ == records[i],
                None => self@.list is None,
            },
    {
        &self.list
    }

    /// The mapping slot: the entries of the mapping.
    pub fn map(&self) -> (slot: &Option<Vec<MapItem>>)
        ensures
            match *slot {
                Some(items) => self@.map matches Some(entries) && entries.len() == items.len()
                    && forall|i: int| 0 <= i < items.len() ==> (#[trigger] items[i])@ == entries[i],
                None => self@.map is None,
            },
    {
        &self.map
    }

    /// The link slot: the text of the identifier linked to. Reading the slot
    /// reads no block.
    pub fn link_slot(&self) -> (slot: &Option<Link>)
        ensures
            match *slot {
                Some(l) => self@.link == Some(l.0@),
                None => self@.link is None,
            },
    {
        &self.link
    }

    /// What is behind the link slot: `None` where the slot is empty, and else
    /// what `context` gives for the slot's text. The store is read here and
    /// nowhere earlier.
    pub fn link(&self, context: &IpldStore) -> (r: Result<Option<GQLIpld>, Error>)
        ensures
            match self@.link {
                None => r matches Ok(None),
                Some(text) => match resolved(context@, text) {
                    Ok(record) => r matches Ok(Some(target)) && target@ == record,
                    Err(e) => r matches Err(got) && got == e,
                },
            },
    {
        match &self.link {
            None => Ok(None),
            Some(link) => {
                let id = match Identifier::parse(link.0.as_str()) {
                    Ok(id) => id,
                    Err(e) => {
                        return Err(e);
                    },
                };
                match context.retrieve_ipld(&id) {
                    Ok(target) => Ok(Some(target)),
                    Err(e) => Err(e),
                }
            },
        }
    }
}

impl MapItem {
    /// The entry of key `k` with the record `v`.
    pub fn new(k: String, v: GQLIpld) -> (item: MapItem)
        ensures
            item@ == (Entry { key: k@, value: v@ }),
    {
        MapItem { key: k, value: v }
    }

    /// The entry's key.
    pub fn key(&self) -> (key: &str)
        ensures
            key@ == self@.key,
    {
        self.key.as_str()
    }

    /// The record of the entry's value.
    pub fn value(&self) -> (value: &GQLIpld)
        ensures
            value@ == self@.value,
    {
        &self.value
    }
}

} // verus!
