//! ROM-only / no mapper: flat `$0000–$7FFF`, no external RAM window.

use vstd::prelude::*;

verus! {

#[derive(Debug, Clone, Copy, Default, PartialEq, Eq)]
pub struct NoMbc;

impl NoMbc {
    pub fn switchable_rom_bank(self) -> (b: u8)
        ensures
            b == 1,
    {
        1
    }

    pub fn active_ram_bank(self) -> (r: Option<u8>)
        ensures
            r is None,
    {
        None
    }

    pub fn write_reg(self, _addr: u16, _value: u8) {
    }
}

} // verus!
