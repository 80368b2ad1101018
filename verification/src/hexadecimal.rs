//! Hexadecimal text of bytes, as keys are shown and exported.

use vstd::prelude::*;

verus! {

/// The sixteen digits, lowest first.
pub open spec fn hex_digits() -> Seq<char> {
    seq!['0', '1', '2', '3', '4', '5', '6', '7', '8', '9', 'a', 'b', 'c', 'd', 'e', 'f']
}

/// The digit at position `i` of the text of `bytes`: the high half of a byte
/// at an even position, the low half at an odd one.
pub open spec fn hex_digit_at(bytes: Seq<u8>, i: int) -> char {
    if i % 2 == 0 {
        hex_digits()[bytes[i / 2] as int / 16]
    } else {
        hex_digits()[bytes[i / 2] as int % 16]
    }
}

/// The hexadecimal text of bytes: two lower-case digits for every byte, the
/// first byte first.
pub open spec fn hex_text(bytes: Seq<u8>) -> Seq<char> {
    Seq::new(2 * bytes.len(), |i: int| hex_digit_at(bytes, i))
}

/// Calls `hex::encode`, which writes every byte as two lower-case digits.
#[verifier::external_body]
pub(crate) fn hex_encode(bytes: &[u8]) -> (text: String)
    ensures
        text@ == hex_text(bytes@),
{
    hex::encode(bytes)
}

} // verus!
