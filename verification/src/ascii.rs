//! ASCII case folding, shared by header and extension matching.

use vstd::prelude::*;

verus! {

/// The lowercase form of one byte: ASCII letters fold, everything else
/// is itself.
pub open spec fn spec_lower(b: u8) -> u8 {
    if 65 <= b <= 90 {
        (b + 32) as u8
    } else {
        b
    }
}

/// The lowercase form of a byte sequence.
pub open spec fn fold_lower(s: Seq<u8>) -> Seq<u8> {
    Seq::new(s.len(), |i: int| spec_lower(s[i]))
}

/// Folds one byte to lowercase.
pub fn lower_byte(b: u8) -> (r: u8)
    ensures
        r == spec_lower(b),
{
    if 65 <= b && b <= 90 {
        b + 32
    } else {
        b
    }
}

} // verus!
