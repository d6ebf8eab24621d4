//! The entry points of the query surface.

use crate::error::Error;
use crate::identifier::{parsed, text_form, Identifier, Parts};
use crate::model::{seen, GQLIpld, IpldStore};
use crate::store::{address, encoded, resolved, stored};
use crate::value::Node;
use vstd::prelude::*;

verus! {

/// The read entry points of the query surface.
pub struct Query;

/// The write entry points of the query surface.
pub struct Mutation;

/// The identifier of the block that holds the integer `value`.
pub open spec fn inserted(value: i32) -> Parts {
    address(encoded(Node::Integer(value as int)))
}

impl Query {
    /// The version of the query surface.
    #[allow(non_snake_case)]
    pub fn apiVersion() -> (version: &'static str)
        ensures
            version@ == "1.0"@,
    {
        "1.0"
    }

    /// The record of the value stored under the identifier that `cid` is the
    /// text of. Links in the value are not followed.
    pub fn resolve(context: &IpldStore, cid: String) -> (r: Result<GQLIpld, Error>)
        ensures
            seen(r) == resolved(context@, cid@),
    {
        let id = match Identifier::parse(cid.as_str()) {
            Ok(id) => id,
            Err(e) => {
                return Err(e);
            },
        };
        context.retrieve_ipld(&id)
    }
}

impl Mutation {
    /// Stores the integer `value` and gives the text of its block's
    /// identifier, which `resolve` takes.
    #[allow(non_snake_case)]
    pub fn insertIpld(context: &mut IpldStore, value: i32) -> (r: Result<String, Error>)
        ensures
            r matches Ok(text) && text@ == text_form(inserted(value)) && parsed(text@) == Some(
                inserted(value),
            ),
            stored(
                old(context)@,
                final(context)@,
                encoded(Node::Integer(value as int)),
                inserted(value),
            ),
    {
        let id = context.insert_ipld(value);
        Ok(id.text())
    }
}

} // verus!
