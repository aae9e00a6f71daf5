//! Two 32-bit patterns in one 64-bit word.

use vstd::prelude::*;

verus! {

/// The weight of the upper half of a word.
pub const HALF: u64 = 0x1_0000_0000;

/// The word that holds `x` in its lower half and `y` in its upper half.
pub open spec fn packed(x: u32, y: u32) -> u64 {
    (x + y * HALF) as u64
}

/// The lower half of a word.
pub open spec fn lower_half(u: u64) -> u32 {
    (u % HALF) as u32
}

/// The upper half of a word.
pub open spec fn upper_half(u: u64) -> u32 {
    (u / HALF) as u32
}

/// Packs two patterns into one word: `x` below, `y` above.
pub fn f32x2_to_u64(x: u32, y: u32) -> (u: u64)
    ensures
        u == packed(x, y),
        lower_half(u) == x,
        upper_half(u) == y,
{
    let low: u64 = x as u64;
    let high: u64 = y as u64;
    low + high * HALF
}

/// Takes a word apart into its lower and its upper pattern.
pub fn u64_to_f32x2(u: u64) -> (r: [u32; 2])
    ensures
        r[0] == lower_half(u),
        r[1] == upper_half(u),
        packed(r[0], r[1]) == u,
{
    let x: u32 = (u % HALF) as u32;
    let y: u32 = (u / HALF) as u32;
    [x, y]
}

/// A pair that was packed comes out of the word as it went in, and a word
/// that was taken apart is put together again by packing.
pub proof fn lemma_pack_round_trip(x: u32, y: u32, u: u64)
    ensures
        lower_half(packed(x, y)) == x,
        upper_half(packed(x, y)) == y,
        packed(lower_half(u), upper_half(u)) == u,
{
}

} // verus!
