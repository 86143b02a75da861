//! Byte forms of integers.

use vstd::prelude::*;

verus! {

/// Spreads `i` over four bytes by masking each shifted copy of it down to
/// eight bits. Shifting to the left leaves nothing in the low eight bits, so
/// the first three bytes are zero and the last one is the low byte of `i`.
pub fn le_u32_to_u8(i: u32) -> (r: [u8; 4])
    ensures
        r@ == seq![0u8, 0u8, 0u8, (i % 256) as u8],
{
    assert((i << 24) & 0xFF == 0) by (bit_vector);
    assert((i << 16) & 0xFF == 0) by (bit_vector);
    assert((i << 8) & 0xFF == 0) by (bit_vector);
    assert(i & 0xFF == i % 256) by (bit_vector);
    let r: [u8; 4] = [
        ((i << 24) & 0xFF) as u8,
        ((i << 16) & 0xFF) as u8,
        ((i << 8) & 0xFF) as u8,
        (i & 0xFF) as u8,
    ];
    assert(r@ =~= seq![0u8, 0u8, 0u8, (i % 256) as u8]);
    r
}

} // verus!
