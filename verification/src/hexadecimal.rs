//! Lowercase hexadecimal, in which a record shows a byte string.

use vstd::prelude::*;

verus! {

/// The sixteen lowercase hexadecimal digits, by their value.
pub open spec fn digits() -> Seq<char> {
    seq!['0', '1', '2', '3', '4', '5', '6', '7', '8', '9', 'a', 'b', 'c', 'd', 'e', 'f']
}

/// `bytes` in lowercase hexadecimal: for each byte its high digit, then its
/// low digit, with nothing before, between or after.
pub open spec fn lower(bytes: Seq<u8>) -> Seq<char> {
    Seq::new(
        2 * bytes.len(),
        |i: int|
            if i % 2 == 0 {
                digits()[bytes[i / 2] as int / 16]
            } else {
                digits()[bytes[i / 2] as int % 16]
            },
    )
}

/// `hex::encode`. Its documentation gives the result as lowercase digits, two
/// for each byte of the input, in the input's order.
#[verifier::external_body]
pub(crate) fn encode(bytes: &Vec<u8>) -> (text: String)
    ensures
        text@ == lower(bytes@),
{
    hex::encode(bytes)
}

} // verus!
