//! Minimal MBC5: 9-bit ROM banking, RAM enable, RAM banking. No rumble (Pan Docs, MBC5).

use vstd::prelude::*;
use crate::snapshot::Mbc5StateV1;
use super::mbc1::ram_enable_value;

verus! {

#[derive(Debug, Clone, Copy, PartialEq, Eq)]
pub struct Mbc5 {
    pub ram_enabled: bool,
    /// Bank mapped at `$4000–$7FFF` (bits 0–8). Bank `0` is allowed.
    pub rom_bank: u16,
    /// RAM bank `$00–$0F`.
    pub ram_bank: u8,
}

impl Mbc5 {
    pub open spec fn spec_active_ram_bank(self) -> Option<u8> {
        if self.ram_enabled { Some(self.ram_bank) } else { None }
    }

    /// Register file after a CPU write: `$2000–$2FFF` sets bank bits 0–7,
    /// `$3000–$3FFF` sets bank bit 8.
    pub open spec fn spec_write_reg(self, addr: u16, value: u8) -> Mbc5 {
        if addr <= 0x1FFF {
            Mbc5 { ram_enabled: ram_enable_value(value), ..self }
        } else if addr <= 0x2FFF {
            Mbc5 { rom_bank: (((self.rom_bank / 256) % 2) * 256 + value) as u16, ..self }
        } else if addr <= 0x3FFF {
            Mbc5 { rom_bank: (self.rom_bank % 256 + (value % 2) * 256) as u16, ..self }
        } else if addr <= 0x5FFF {
            Mbc5 { ram_bank: value % 16, ..self }
        } else {
            self
        }
    }

    pub fn new() -> (m: Self)
        ensures
            m == (Mbc5 { ram_enabled: false, rom_bank: 1, ram_bank: 0 }),
    {
        Self { ram_enabled: false, rom_bank: 1, ram_bank: 0 }
    }

    pub fn switchable_rom_bank(&self) -> (b: u16)
        ensures
            b == self.rom_bank,
    {
        self.rom_bank
    }

    pub fn active_ram_bank(&self) -> (r: Option<u8>)
        ensures
            r == self.spec_active_ram_bank(),
    {
        if self.ram_enabled { Some(self.ram_bank) } else { None }
    }

    pub fn write_reg(&mut self, addr: u16, value: u8)
        ensures
            *final(self) == old(self).spec_write_reg(addr, value),
    {
        match addr {
            0x0000..=0x1FFF => {
                self.ram_enabled = value % 16 == 0x0A;
            },
            0x2000..=0x2FFF => {
                self.rom_bank = ((self.rom_bank / 256) % 2) * 256 + value as u16;
            },
            0x3000..=0x3FFF => {
                self.rom_bank = self.rom_bank % 256 + (value % 2) as u16 * 256;
            },
            0x4000..=0x5FFF => {
                self.ram_bank = value % 16;
            },
            _ => {},
        }
    }

    pub open spec fn spec_snapshot(self) -> Mbc5StateV1 {
        Mbc5StateV1 {
            rom_bank_low: (self.rom_bank % 256) as u8,
            rom_bank_high: ((self.rom_bank / 256) % 2) as u8,
            ram_bank: self.ram_bank,
            ram_enable: self.ram_enabled,
        }
    }

    pub fn snapshot(&self) -> (s: Mbc5StateV1)
        ensures
            s == self.spec_snapshot(),
    {
        Mbc5StateV1 {
            rom_bank_low: (self.rom_bank % 256) as u8,
            rom_bank_high: ((self.rom_bank / 256) % 2) as u8,
            ram_bank: self.ram_bank,
            ram_enable: self.ram_enabled,
        }
    }

    pub open spec fn spec_apply(self, state: Mbc5StateV1) -> Mbc5 {
        Mbc5 {
            rom_bank: (state.rom_bank_low + state.rom_bank_high * 256) as u16,
            ram_bank: state.ram_bank,
            ram_enabled: state.ram_enable,
        }
    }

    pub fn apply(&mut self, state: &Mbc5StateV1)
        ensures
            *final(self) == old(self).spec_apply(*state),
    {
        self.rom_bank = state.rom_bank_low as u16 + state.rom_bank_high as u16 * 256;
        self.ram_bank = state.ram_bank;
        self.ram_enabled = state.ram_enable;
    }
}

/// Restoring an MBC5 record taken from a controller with a 9-bit bank
/// gives that controller back, whatever controller it is applied to.
pub proof fn lemma_mbc5_snapshot_round_trip(m: Mbc5, other: Mbc5)
    requires
        m.rom_bank < 512,
    ensures
        other.spec_apply(m.spec_snapshot()) == m,
{
}

} // verus!
