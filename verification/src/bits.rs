//! Small bit-level facts shared by the bus, the timer, the sound controller
//! and the save-state codec.

use vstd::prelude::*;

verus! {

/// An 8-bit value masked by `m` never exceeds `m`, and a mask test keeps
/// every value below 256.
pub proof fn lemma_u8_and_bound()
    by (bit_vector)
    ensures
        forall|x: u8, m: u8| #[trigger] (x & m) <= m,
        forall|x: u8, m: u8| #[trigger] (x | m) >= m,
{
}

/// Bounds of the right shifts the register decoders use.
pub proof fn lemma_u8_shr_bound()
    by (bit_vector)
    ensures
        forall|x: u8| #[trigger] (x >> 4) < 16,
        forall|x: u8| #[trigger] (x >> 5) < 8,
        forall|x: u8| #[trigger] (x >> 6) < 4,
{
}

/// The 11-bit channel frequency assembled from a high and a low register
/// byte stays below 2048.
pub open spec fn freq11(hi: u8, lo: u8) -> u16 {
    (((hi as u16) << 8) | (lo as u16)) & 0x07FF
}

pub proof fn lemma_freq11_bound()
    by (bit_vector)
    ensures
        forall|hi: u8, lo: u8| #[trigger] freq11(hi, lo) < 2048,
{
}

/// A zeroed byte vector of the given length.
pub fn zero_vec(n: usize) -> (r: Vec<u8>)
    ensures
        r@ =~= Seq::new(n as nat, |i: int| 0u8),
{
    let mut v: Vec<u8> = Vec::new();
    let mut i: usize = 0;
    while i < n
        invariant
            i <= n,
            v@ =~= Seq::new(i as nat, |j: int| 0u8),
        decreases n - i,
    {
        v.push(0);
        i = i + 1;
    }
    v
}

/// A right shift never grows an unsigned value.
pub proof fn lemma_u16_shr_le()
    by (bit_vector)
    ensures
        forall|x: u16, s: u16| s < 16 ==> #[trigger] (x >> s) <= x,
{
}

/// A right shift never grows an unsigned byte.
pub proof fn lemma_u8_shr_le()
    by (bit_vector)
    ensures
        forall|x: u8, s: u8| s < 8 ==> #[trigger] (x >> s) <= x,
{
}

/// The lowest bit of a byte is zero or one.
pub proof fn lemma_u8_bit01()
    by (bit_vector)
    ensures
        forall|x: u8| #[trigger] (x & 1) == 0 || (x & 1) == 1,
{
}

/// Bounds of the masked-then-shifted volume fields.
pub proof fn lemma_volume_bounds()
    by (bit_vector)
    ensures
        forall|x: u8| #[trigger] ((x & 0x70) >> 4) < 8,
        forall|x: u8| #[trigger] ((x & 0xF0) >> 4) < 16,
{
}

} // verus!
