//! Little-endian encodings of the integer fields of a frame.

use vstd::prelude::*;
use vstd::bytes::*;

verus! {

/// The four bytes that `i32::to_le_bytes` yields: those of the same bits read as a `u32`.
pub open spec fn spec_i32_to_le_bytes(x: i32) -> Seq<u8> {
    spec_u32_to_le_bytes(#[verifier::truncate] (x as u32))
}

/// The `i32` that `i32::from_le_bytes` yields for four bytes.
pub open spec fn spec_i32_from_le_bytes(s: Seq<u8>) -> i32 {
    #[verifier::truncate] (spec_u32_from_le_bytes(s) as i32)
}

/// Encoding and decoding the little-endian integer fields undo each other.
pub proof fn lemma_le_roundtrip()
    ensures
        forall|x: u16|
            {
                &&& #[trigger] spec_u16_to_le_bytes(x).len() == 2
                &&& spec_u16_from_le_bytes(spec_u16_to_le_bytes(x)) == x
            },
        forall|x: u32|
            {
                &&& #[trigger] spec_u32_to_le_bytes(x).len() == 4
                &&& spec_u32_from_le_bytes(spec_u32_to_le_bytes(x)) == x
            },
        forall|x: i32|
            {
                &&& #[trigger] spec_i32_to_le_bytes(x).len() == 4
                &&& spec_i32_from_le_bytes(spec_i32_to_le_bytes(x)) == x
            },
{
    lemma_auto_spec_u16_to_from_le_bytes();
    lemma_auto_spec_u32_to_from_le_bytes();
    assert forall|x: i32|
        {
            &&& #[trigger] spec_i32_to_le_bytes(x).len() == 4
            &&& spec_i32_from_le_bytes(spec_i32_to_le_bytes(x)) == x
        } by {
        let u = #[verifier::truncate] (x as u32);
        assert(spec_u32_to_le_bytes(u).len() == 4);
        assert((x as u32) as i32 == x) by (bit_vector);
    }
}

} // verus!
