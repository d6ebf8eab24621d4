//! A typed read and write surface over a content-addressed block store.
//!
//! A block is addressed by an [`Identifier`] made from its bytes. What a block
//! holds is a [`Value`]: a tree of scalars, lists, mappings and links to other
//! blocks. A query sees a value as a [`GQLIpld`]: a flat record with one
//! optional slot per kind of value, in which a link is kept as text and is
//! followed only when its contents are asked for.
//!
//! [`IpldStore`] keeps the blocks, [`Query`] and [`Mutation`] are the entry
//! points of the surface, and [`laws`] states what holds of writes and reads
//! taken together. Reading identifiers, hashing, encoding and keeping blocks
//! are the work of other crates: each call into one stands in a small
//! function of its own, which says what the call is taken to do.

pub mod error;
pub mod hexadecimal;
pub mod identifier;
pub mod laws;
pub mod model;
pub mod record;
pub mod schema;
pub mod store;
pub mod value;

pub use error::Error;
pub use identifier::Identifier;
pub use model::{Bytes, GQLIpld, IpldStore, Link, MapItem};
pub use schema::{Mutation, Query};
pub use store::Fetched;
pub use value::Value;
