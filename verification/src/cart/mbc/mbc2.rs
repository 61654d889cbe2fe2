//! MBC2: 4-bit ROM banking + 512×4-bit built-in RAM (Pan Docs, MBC2).

use vstd::prelude::*;
use crate::snapshot::Mbc2StateV1;
use super::mbc1::ram_enable_value;

verus! {

/// Built-in RAM: 512 half-bytes (saved as 512 bytes; high nibble unused).
pub const MBC2_RAM_SIZE: usize = 512;

#[derive(Debug, Clone, Copy, PartialEq, Eq)]
pub struct Mbc2 {
    pub ram_enabled: bool,
    /// ROM bank at `$4000–$7FFF` (lower 4 bits; `0` maps to `1`).
    pub rom_bank: u8,
}

/// Index into the built-in RAM: address bits 0–8.
pub open spec fn mbc2_ram_index(addr: u16) -> int {
    (addr % 512) as int
}

impl Mbc2 {
    pub open spec fn spec_switchable_rom_bank(self) -> u8 {
        if self.rom_bank % 16 == 0 { 1 } else { self.rom_bank % 16 }
    }

    /// Value read at `addr` from the built-in RAM `ram`: the stored low nibble
    /// (`$F` past the end of `ram`) with the upper nibble reading as ones.
    pub open spec fn spec_read_ram(self, addr: u16, ram: Seq<u8>) -> u8 {
        if !self.ram_enabled {
            0xFF
        } else {
            let i = mbc2_ram_index(addr);
            let lo: u8 = if i < ram.len() { ram[i] % 16 } else { 0x0F };
            (lo + 0xF0) as u8
        }
    }

    /// Whether a RAM write at `addr` lands in `ram`.
    pub open spec fn spec_ram_write_lands(self, addr: u16, ram_len: nat) -> bool {
        self.ram_enabled && mbc2_ram_index(addr) < ram_len
    }

    /// Register file after a CPU write to `addr`: in `$0000–$3FFF` address
    /// bit 8 selects RAM enable (clear) or ROM bank (set).
    pub open spec fn spec_write_reg(self, addr: u16, value: u8) -> Mbc2 {
        if addr > 0x3FFF {
            self
        } else if (addr / 256) % 2 == 0 {
            Mbc2 { ram_enabled: ram_enable_value(value), ..self }
        } else {
            Mbc2 { rom_bank: if value % 16 == 0 { 1 } else { value % 16 }, ..self }
        }
    }

    pub fn new() -> (m: Self)
        ensures
            m == (Mbc2 { ram_enabled: false, rom_bank: 1 }),
    {
        Self { ram_enabled: false, rom_bank: 1 }
    }

    pub fn switchable_rom_bank(&self) -> (b: u8)
        ensures
            b == self.spec_switchable_rom_bank(),
    {
        let bank: u8 = self.rom_bank % 16;
        if bank == 0 { 1 } else { bank }
    }

    /// Read built-in RAM (`$A000–$BFFF`); address uses only bits 0–8.
    /// Upper nibble of the returned byte is open-bus / undefined → read as `1`.
    pub fn read_ram(&self, addr: u16, ram: &[u8]) -> (r: u8)
        ensures
            r == self.spec_read_ram(addr, ram@),
    {
        if !self.ram_enabled {
            return 0xFF;
        }
        let idx: usize = (addr % 512) as usize;
        let lo: u8 = if idx < ram.len() { ram[idx] % 16 } else { 0x0F };
        lo + 0xF0
    }

    /// Write built-in RAM; only the low nibble is stored.
    /// Returns `true` if a byte was updated.
    pub fn write_ram(&self, addr: u16, value: u8, ram: &mut Vec<u8>) -> (wrote: bool)
        ensures
            wrote == self.spec_ram_write_lands(addr, old(ram)@.len()),
            wrote ==> final(ram)@ == old(ram)@.update(mbc2_ram_index(addr), value % 16),
            !wrote ==> final(ram)@ == old(ram)@,
    {
        if !self.ram_enabled {
            return false;
        }
        let idx: usize = (addr % 512) as usize;
        if idx < ram.len() {
            ram.set(idx, value % 16);
            true
        } else {
            false
        }
    }

    pub fn write_reg(&mut self, addr: u16, value: u8)
        ensures
            *final(self) == old(self).spec_write_reg(addr, value),
    {
        // Both RAM enable and ROM bank live in `$0000–$3FFF`; bit 8 of the
        // address selects which.
        if addr > 0x3FFF {
            return;
        }
        if (addr / 256) % 2 == 0 {
            self.ram_enabled = value % 16 == 0x0A;
        } else {
            let bank: u8 = value % 16;
            self.rom_bank = if bank == 0 { 1 } else { bank };
        }
    }

    pub open spec fn spec_snapshot(self) -> Mbc2StateV1 {
        Mbc2StateV1 { rom_bank: self.rom_bank, ram_enable: self.ram_enabled }
    }

    pub fn snapshot(&self) -> (s: Mbc2StateV1)
        ensures
            s == self.spec_snapshot(),
    {
        Mbc2StateV1 { rom_bank: self.rom_bank, ram_enable: self.ram_enabled }
    }

    pub open spec fn spec_apply(self, state: Mbc2StateV1) -> Mbc2 {
        Mbc2 { rom_bank: state.rom_bank, ram_enabled: state.ram_enable }
    }

    pub fn apply(&mut self, state: &Mbc2StateV1)
        ensures
            *final(self) == old(self).spec_apply(*state),
    {
        self.rom_bank = state.rom_bank;
        self.ram_enabled = state.ram_enable;
    }
}

} // verus!
