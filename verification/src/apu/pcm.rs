//! CGB PCM12 / PCM34 (`$FF76` / `$FF77`) — digital generator nibbles
//! (Pan Docs, Audio details).

use vstd::prelude::*;

verus! {

pub const PCM12: u16 = 0xFF76;

pub const PCM34: u16 = 0xFF77;

/// `lo`'s low nibble in bits 0–3, `hi`'s low nibble in bits 4–7.
pub fn pack_pcm(lo: u8, hi: u8) -> (r: u8)
    ensures
        r == lo % 16 + 16 * (hi % 16),
{
    assert((lo & 0x0F) | ((hi & 0x0F) << 4u8) == lo % 16 + 16 * (hi % 16)) by (bit_vector);
    (lo & 0x0F) | ((hi & 0x0F) << 4u8)
}

} // verus!
