//! Content identifiers: their parts, their text and their binary form.
//!
//! The CID library reads and writes the forms. What it gives is named here
//! and not worked out.

use crate::error::Error;
use forest_cid::{Cid, Multihash, Version};
use std::str::FromStr;
use vstd::prelude::*;

verus! {

/// The content identifier of `forest_cid`.
#[verifier::external_type_specification]
#[verifier::external_body]
pub struct ExCid(Cid);

/// The codec that a version 0 identifier has: DAG-PB.
pub const DAG_PB: u64 = 0x70;

/// The hash that a version 0 identifier has: SHA2-256.
pub const SHA2_256: u64 = 0x12;

/// The most bytes that a digest has.
pub const DIGEST_MAX: usize = 32;

/// An identifier as the four things that make it up.
pub struct Parts {
    /// The version of the identifier's format: 0 or 1.
    pub version: u64,
    /// The code of the format of the block identified.
    pub codec: u64,
    /// The code of the hash function.
    pub hash_code: u64,
    /// The hash of the block identified.
    pub digest: Seq<u8>,
}

impl Parts {
    /// Whether the parts make up an identifier: the version is one of the
    /// two there are, the digest is no longer than a digest can be, and a
    /// version 0 identifier has the one codec and the one hash of its
    /// version.
    pub open spec fn well_formed(self) -> bool {
        &&& self.version <= 1
        &&& self.digest.len() <= DIGEST_MAX
        &&& self.version == 0 ==> self.codec == DAG_PB && self.hash_code == SHA2_256
    }

    /// Whether the identifier is of version 1, or of version 0 with a digest
    /// of full length. The text of such an identifier parses back to it. (A
    /// version 0 identifier with a shorter digest has a text, which does not
    /// parse.)
    pub open spec fn standard(self) -> bool {
        self.version == 1 || self.digest.len() == DIGEST_MAX
    }
}

/// The identifier that `text` parses as, or `None` where the CID library
/// refuses the text.
pub uninterp spec fn parsed(text: Seq<char>) -> Option<Parts>;

/// The text form of an identifier.
pub uninterp spec fn text_form(id: Parts) -> Seq<char>;

/// The binary form of an identifier, as `Cid::to_bytes` gives it: the key
/// under which the store keeps the block identified.
pub uninterp spec fn binary_form(id: Parts) -> Seq<u8>;

/// A content identifier.
#[derive(Debug)]
pub struct Identifier {
    version: u64,
    codec: u64,
    hash_code: u64,
    digest: Vec<u8>,
}

impl View for Identifier {
    type V = Parts;

    closed spec fn view(&self) -> Parts {
        Parts {
            version: self.version,
            codec: self.codec,
            hash_code: self.hash_code,
            digest: self.digest@,
        }
    }
}

/// The parts of a `Cid`, each read by its accessor: `version`, `codec`, and
/// of `hash` the `code` and the `digest`. The CID library makes no `Cid`
/// whose parts are not well formed.
#[verifier::external_body]
pub(crate) fn from_cid(cid: &Cid) -> (id: Identifier)
    ensures
        id@.well_formed(),
{
    Identifier {
        version: cid.version().into(),
        codec: cid.codec(),
        hash_code: cid.hash().code(),
        digest: cid.hash().digest().to_vec(),
    }
}

/// The `Cid` of the given parts, made by `Multihash::wrap` and `Cid::new`,
/// which refuse no well-formed parts.
#[verifier::external_body]
pub(crate) fn to_cid(id: &Identifier) -> Cid
    requires
        id@.well_formed(),
{
    let hash = Multihash::wrap(id.hash_code, &id.digest).unwrap();
    Cid::new(Version::try_from(id.version).unwrap(), id.codec, hash).unwrap()
}

/// `<Cid as FromStr>::from_str`. The result is `None` exactly where parsing
/// fails.
#[verifier::external_body]
fn parse_cid(text: &str) -> (r: Option<Identifier>)
    ensures
        match r {
            Some(id) => parsed(text@) == Some(id@) && id@.well_formed(),
            None => parsed(text@) is None,
        },
{
    Cid::from_str(text).ok().map(|cid| from_cid(&cid))
}

/// `Cid::to_string`, which is the `Display` of a `Cid`: base 58 of the hash
/// for version 0, and for version 1 the letter `b` and base 32 of the binary
/// form. `Cid::from_str` reads either back to the same `Cid`, except a
/// version 0 text of a digest shorter than 32 bytes, which it does not take
/// for version 0.
#[verifier::external_body]
fn cid_text(id: &Identifier) -> (text: String)
    requires
        id@.well_formed(),
    ensures
        text@ == text_form(id@),
        id@.standard() ==> parsed(text@) == Some(id@),
{
    to_cid(id).to_string()
}

impl Identifier {
    /// Every identifier is made up of well-formed parts.
    #[verifier::type_invariant]
    pub open spec fn holds_well_formed_parts(self) -> bool {
        self@.well_formed()
    }

    /// The identifier of the given parts, or `None` where they are not well
    /// formed.
    pub fn new(version: u64, codec: u64, hash_code: u64, digest: Vec<u8>) -> (r: Option<Identifier>)
        ensures
            match r {
                Some(id) => id@ == (Parts { version, codec, hash_code, digest: digest@ }),
                None => !(Parts { version, codec, hash_code, digest: digest@ }).well_formed(),
            },
    {
        if version > 1 || digest.len() > DIGEST_MAX {
            return None;
        }
        if version == 0 && (codec != DAG_PB || hash_code != SHA2_256) {
            return None;
        }
        Some(Identifier { version, codec, hash_code, digest })
    }

    /// Reads an identifier from its text form. Fails with
    /// `MalformedIdentifier` exactly where the text is no identifier.
    pub fn parse(text: &str) -> (r: Result<Identifier, Error>)
        ensures
            match r {
                Ok(id) => parsed(text@) == Some(id@),
                Err(e) => parsed(text@) is None && e == Error::MalformedIdentifier,
            },
    {
        match parse_cid(text) {
            Some(id) => Ok(id),
            None => Err(Error::MalformedIdentifier),
        }
    }

    /// The text form of the identifier, which parses back to the identifier
    /// where the identifier is standard.
    pub fn text(&self) -> (text: String)
        ensures
            text@ == text_form(self@),
            self@.standard() ==> parsed(text@) == Some(self@),
    {
        proof {
            use_type_invariant(self);
        }
        cid_text(self)
    }

    /// The version of the identifier's format.
    pub fn version(&self) -> (version: u64)
        ensures
            version == self@.version,
    {
        self.version
    }

    /// The code of the format of the block identified.
    pub fn codec(&self) -> (codec: u64)
        ensures
            codec == self@.codec,
    {
        self.codec
    }

    /// The code of the hash function.
    pub fn hash_code(&self) -> (code: u64)
        ensures
            code == self@.hash_code,
    {
        self.hash_code
    }

    /// The hash of the block identified.
    pub fn digest(&self) -> (digest: &Vec<u8>)
        ensures
            digest@ == self@.digest,
    {
        &self.digest
    }
}

impl Clone for Identifier {
    fn clone(&self) -> (copy: Identifier)
        ensures
            copy@ == self@,
    {
        proof {
            use_type_invariant(self);
        }
        Identifier {
            version: self.version,
            codec: self.codec,
            hash_code: self.hash_code,
            digest: self.digest.clone(),
        }
    }
}

} // verus!
