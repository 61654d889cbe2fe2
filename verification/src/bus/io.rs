//! DMG unused / unmapped `$FFxx` I/O open-bus behavior (Mooneye unused_hwio-GS).
//!
//! `$FF68`–`$FF6B` stay in this set for DMG. CGB silicon handles those ports
//! before asking [`is_unmapped`].

use vstd::prelude::*;

verus! {

/// Unmapped I/O ports: they always read `$FF` and ignore writes.
pub open spec fn spec_is_unmapped(addr: u16) -> bool {
    ||| addr == 0xFF03
    ||| 0xFF08 <= addr <= 0xFF0E
    ||| addr == 0xFF15
    ||| addr == 0xFF1F
    ||| 0xFF27 <= addr <= 0xFF2F
    ||| 0xFF4C <= addr <= 0xFF4E
    ||| 0xFF51 <= addr <= 0xFF6F
    ||| 0xFF71 <= addr <= 0xFF7F
}

/// Bits of a mapped I/O register that read as `1` whatever was written.
pub open spec fn spec_unused_bits(addr: u16) -> u8 {
    if addr == 0xFF00 { 0xC0 }       // P1 bits 6–7
    else if addr == 0xFF02 { 0x7E }  // SC bits 1–6
    else if addr == 0xFF0F { 0xE0 }  // IF bits 5–7
    else if addr == 0xFF10 { 0x80 }  // NR10 bit 7
    else if addr == 0xFF1A { 0x7F }  // NR30 bits 0–6
    else if addr == 0xFF1C { 0x9F }  // NR32 bits 0–4, 7
    else if addr == 0xFF20 { 0xC0 }  // NR41 bits 6–7
    else if addr == 0xFF23 { 0x3F }  // NR44 bits 0–5
    else if addr == 0xFF26 { 0x70 }  // NR52 bits 4–6
    else { 0x00 }
}

/// Unmapped I/O that always reads `$FF` (writes ignored).
pub fn is_unmapped(addr: u16) -> (r: bool)
    ensures
        r == spec_is_unmapped(addr),
{
    matches!(
        addr,
        0xFF03
            | 0xFF08..=0xFF0E
            | 0xFF15
            | 0xFF1F
            | 0xFF27..=0xFF2F
            | 0xFF4C..=0xFF4E
            | 0xFF51..=0xFF6F
            | 0xFF71..=0xFF7F
    )
}

/// Apply unused-bit open bus (read-as-1) for mapped I/O stubs.
pub fn apply_unused_bits(addr: u16, value: u8) -> (r: u8)
    ensures
        r == value | spec_unused_bits(addr),
{
    let mask: u8 = match addr {
        0xFF00 => 0xC0,
        0xFF02 => 0x7E,
        0xFF0F => 0xE0,
        0xFF10 => 0x80,
        0xFF1A => 0x7F,
        0xFF1C => 0x9F,
        0xFF20 => 0xC0,
        0xFF23 => 0x3F,
        0xFF26 => 0x70,
        _ => 0x00,
    };
    value | mask
}

/// Unused bits always read as ones, and the used bits read as written.
pub proof fn lemma_unused_bits_read_as_one(addr: u16, value: u8)
    ensures
        (value | spec_unused_bits(addr)) & spec_unused_bits(addr) == spec_unused_bits(addr),
        (value | spec_unused_bits(addr)) & !spec_unused_bits(addr) == value & !spec_unused_bits(addr),
{
    let m = spec_unused_bits(addr);
    assert((value | m) & m == m && (value | m) & !m == value & !m) by (bit_vector);
}

} // verus!
