//! A look at a PHC hash string before it goes to the verifier.
//!
//! A stored hash names its own cost parameters, and the verifier multiplies
//! the number of lanes before it checks it. The library therefore reads the
//! lanes parameter itself and keeps a hash with nine digits or more away from
//! the verifier. No such hash can verify: the largest number of lanes the
//! hash function takes has eight digits.

use vstd::prelude::*;
use vstd::utf8::encode_utf8;

verus! {

/// The most digits the lanes parameter of a hash may have.
pub const MAX_LANES_DIGITS: usize = 8;

/// Whether a byte is an ASCII digit.
pub open spec fn is_digit(byte: u8) -> bool {
    0x30 <= byte <= 0x39
}

/// How many ASCII digits stand in a row from position `from` on.
pub open spec fn digits_from(bytes: Seq<u8>, from: int) -> nat
    decreases bytes.len() - from,
{
    if 0 <= from < bytes.len() && is_digit(bytes[from]) {
        1 + digits_from(bytes, from + 1)
    } else {
        0
    }
}

/// Whether a lanes parameter begins at position `at`: the name `p` and `=`,
/// right after the `$` that opens the parameter field or the `,` that parts
/// two parameters.
pub open spec fn lanes_begin(bytes: Seq<u8>, at: int) -> bool {
    &&& 0 <= at
    &&& at + 2 < bytes.len()
    &&& (bytes[at] == 0x24 || bytes[at] == 0x2c)
    &&& bytes[at + 1] == 0x70
    &&& bytes[at + 2] == 0x3d
}

/// Whether every lanes parameter in the bytes of a hash has at most
/// [`MAX_LANES_DIGITS`] digits.
pub open spec fn lanes_bounded(bytes: Seq<u8>) -> bool {
    forall|at: int| #[trigger] lanes_begin(bytes, at) ==> digits_from(bytes, at + 3) <= 8
}

/// Whether the text of a hash passes [`lanes_bounded`].
pub open spec fn lanes_fit(hash: Seq<char>) -> bool {
    lanes_bounded(encode_utf8(hash))
}

/// Counts the digits that stand in a row from `from` on, up to `limit`.
fn count_digits(bytes: &[u8], from: usize, limit: usize) -> (count: usize)
    ensures
        count <= limit,
        count < limit ==> count == digits_from(bytes@, from as int),
        count == limit ==> digits_from(bytes@, from as int) >= limit,
{
    let mut count: usize = 0;
    let mut at: usize = from;
    while count < limit && at < bytes.len() && 0x30 <= bytes[at] && bytes[at] <= 0x39
        invariant
            count <= limit,
            at == from + count,
            digits_from(bytes@, from as int) == count + digits_from(bytes@, at as int),
        decreases limit - count,
    {
        count += 1;
        at += 1;
    }
    count
}

/// Whether a lanes parameter begins at `at`: see [`lanes_begin`].
fn begins_lanes(bytes: &[u8], at: usize) -> (yes: bool)
    ensures
        yes == lanes_begin(bytes@, at as int),
{
    bytes.len() >= 3 && at < bytes.len() - 2 && (bytes[at] == 0x24 || bytes[at] == 0x2c)
        && bytes[at + 1] == 0x70 && bytes[at + 2] == 0x3d
}

/// Tests a hash against [`lanes_fit`].
pub fn lanes_in_bounds(hash: &str) -> (ok: bool)
    ensures
        ok == lanes_fit(hash@),
{
    let bytes = hash.as_bytes();
    let mut at: usize = 0;
    while at < bytes.len()
        invariant
            bytes@ == encode_utf8(hash@),
            forall|k: int|
                0 <= k < at && #[trigger] lanes_begin(bytes@, k) ==> digits_from(bytes@, k + 3)
                    <= 8,
        decreases bytes@.len() - at,
    {
        if begins_lanes(bytes, at) {
            let digits = count_digits(bytes, at + 3, MAX_LANES_DIGITS + 1);
            if digits > MAX_LANES_DIGITS {
                assert(lanes_begin(bytes@, at as int));
                return false;
            }
        }
        at += 1;
    }
    true
}

} // verus!
