//! Big-endian integers: how a scalar's representation relates to the integer
//! it stands for.

use vstd::prelude::*;

verus! {

/// The integer that `bytes` encodes, most significant byte first.
pub open spec fn be_nat(bytes: Seq<u8>) -> nat
    decreases bytes.len(),
{
    if bytes.len() == 0 {
        0
    } else {
        be_nat(bytes.drop_last()) * 256 + bytes.last() as nat
    }
}

/// The `len` bytes that encode `value` modulo `256^len`, most significant byte
/// first.
pub open spec fn be_bytes(len: nat, value: nat) -> Seq<u8>
    decreases len,
{
    if len == 0 {
        seq![]
    } else {
        be_bytes((len - 1) as nat, value / 256).push((value % 256) as u8)
    }
}

/// `256^len`, the number of integers that `len` bytes can encode.
pub open spec fn byte_range(len: nat) -> nat
    decreases len,
{
    if len == 0 {
        1
    } else {
        256 * byte_range((len - 1) as nat)
    }
}

/// `be_bytes(len, value)` has `len` bytes, and encodes `value` when `value`
/// fits in them.
pub proof fn lemma_be_bytes(len: nat, value: nat)
    ensures
        be_bytes(len, value).len() == len,
        value < byte_range(len) ==> be_nat(be_bytes(len, value)) == value,
    decreases len,
{
    if len > 0 {
        let high = value / 256;
        let low = (value % 256) as u8;
        lemma_be_bytes((len - 1) as nat, high);
        let bytes = be_bytes(len, value);
        assert(bytes.drop_last() =~= be_bytes((len - 1) as nat, high));
        assert(value == high * 256 + value % 256);
        if value < byte_range(len) {
            assert(high < byte_range((len - 1) as nat)) by (nonlinear_arith)
                requires
                    value < 256 * byte_range((len - 1) as nat),
                    high == value / 256,
            ;
        }
    }
}

/// `256^32`.
pub proof fn lemma_byte_range_32()
    ensures
        byte_range(32) == 0x1_0000_0000_0000_0000_0000_0000_0000_0000_0000_0000_0000_0000_0000_0000_0000_0000,
{
    reveal_with_fuel(byte_range, 33);
}

/// The `len`-byte representation of `value % modulus`, for a modulus that fits
/// in `len` bytes, encodes `value % modulus`.
pub proof fn lemma_be_bytes_of_residue(len: nat, value: nat, modulus: nat)
    requires
        0 < modulus <= byte_range(len),
    ensures
        be_bytes(len, value % modulus).len() == len,
        be_nat(be_bytes(len, value % modulus)) == value % modulus,
        value % modulus < modulus,
{
    lemma_be_bytes(len, value % modulus);
}

} // verus!
