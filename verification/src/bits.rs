//! Facts about bit operations on small unsigned integers, shared by the
//! address decoders of the picture and audio units.
use vstd::prelude::*;

verus! {

/// Shifting right and masking never make a value larger.
pub proof fn lemma_shift_mask_bounds()
    by (bit_vector)
    ensures
        forall|x: u16, k: u16| #[trigger] (x >> k) <= x,
        forall|x: u16, c: u16| #[trigger] (x & c) <= c,
        forall|x: u8, k: u8| #[trigger] (x >> k) <= x,
        forall|x: u8, c: u8| #[trigger] (x & c) <= c,
        forall|x: u8, k: u16| #[trigger] (x >> k) <= x,
        forall|x: u32, c: u32| #[trigger] (x & c) <= c,
        forall|x: u8| #[trigger] ((x & 3) << 1u8) <= 6,
        forall|x: u16| #[trigger] ((x & 1) << 2u16) <= 4,
        forall|x: u16| #[trigger] ((x & 3) << 1u16) <= 6,
{
}

} // verus!
