//! Undocumented CGB registers `$FF72`–`$FF75` (Pan Docs, "Undocumented
//! registers"): `$FF72`/`$FF73` are fully read/write, `$FF74` is read/write
//! in CGB mode only (the bus locks it otherwise), and only bits 4–6 of
//! `$FF75` are writable; its other bits read as one.

use vstd::prelude::*;
use super::ports::{FF72, FF73, FF74, FF75};

verus! {

/// Writable bits of `$FF75`.
pub const FF75_RW_BITS: u8 = 0x70;

#[derive(Debug, Clone, Copy, PartialEq, Eq, Structural)]
pub struct CgbScratch {
    pub ff72: u8,
    pub ff73: u8,
    pub ff74: u8,
    /// Writable bits only.
    pub ff75: u8,
}

impl CgbScratch {
    pub fn new() -> (s: Self)
        ensures
            s == (CgbScratch { ff72: 0, ff73: 0, ff74: 0, ff75: 0 }),
    {
        CgbScratch { ff72: 0, ff73: 0, ff74: 0, ff75: 0 }
    }

    pub open spec fn spec_read(self, addr: u16) -> Option<u8> {
        if addr == FF72 {
            Some(self.ff72)
        } else if addr == FF73 {
            Some(self.ff73)
        } else if addr == FF74 {
            Some(self.ff74)
        } else if addr == FF75 {
            Some(self.ff75 | !FF75_RW_BITS)
        } else {
            None
        }
    }

    pub open spec fn spec_write(self, addr: u16, value: u8) -> Self {
        if addr == FF72 {
            CgbScratch { ff72: value, ..self }
        } else if addr == FF73 {
            CgbScratch { ff73: value, ..self }
        } else if addr == FF74 {
            CgbScratch { ff74: value, ..self }
        } else if addr == FF75 {
            CgbScratch { ff75: value & FF75_RW_BITS, ..self }
        } else {
            self
        }
    }

    /// Register value at `addr`, or `None` outside `$FF72`–`$FF75`.
    pub fn read(&self, addr: u16) -> (r: Option<u8>)
        ensures
            r == self.spec_read(addr),
    {
        if addr == FF72 {
            Some(self.ff72)
        } else if addr == FF73 {
            Some(self.ff73)
        } else if addr == FF74 {
            Some(self.ff74)
        } else if addr == FF75 {
            Some(self.ff75 | !FF75_RW_BITS)
        } else {
            None
        }
    }

    /// Store `value` at `addr` (writable bits only); other addresses are ignored.
    pub fn write(&mut self, addr: u16, value: u8)
        ensures
            *final(self) == old(self).spec_write(addr, value),
    {
        if addr == FF72 {
            self.ff72 = value;
        } else if addr == FF73 {
            self.ff73 = value;
        } else if addr == FF74 {
            self.ff74 = value;
        } else if addr == FF75 {
            self.ff75 = value & FF75_RW_BITS;
        }
    }
}

/// `$FF74` as read outside CGB mode.
pub fn ff74_locked() -> (r: u8)
    ensures
        r == 0xFF,
{
    0xFF
}

/// A scratch register reads back what was written, except that `$FF75`
/// keeps only bits 4–6 and reads ones elsewhere.
pub proof fn lemma_scratch_read_after_write(s: CgbScratch, addr: u16, value: u8)
    requires
        FF72 <= addr <= FF75,
    ensures
        s.spec_write(addr, value).spec_read(addr) == Some(
            if addr == FF75 { (value & FF75_RW_BITS) | !FF75_RW_BITS } else { value },
        ),
        addr == FF75 ==> s.spec_write(addr, value).spec_read(addr) == Some(value | 0x8F),
{
    assert((value & 0x70u8) | !0x70u8 == value | 0x8Fu8) by (bit_vector);
}

} // verus!
