//! MBC1: ROM/RAM banking (Pan Docs, MBC1).
//!
//! Mode 0 (default): `$0000–$3FFF` fixed bank 0; `$4000–$7FFF` uses 5+2 bank bits.
//! Mode 1: advanced banking (upper bits also affect `$0000–$3FFF` / RAM).

use vstd::prelude::*;
use crate::snapshot::Mbc1StateV1;

verus! {

#[derive(Debug, Clone, Copy, PartialEq, Eq)]
pub struct Mbc1 {
    pub ram_enabled: bool,
    /// Lower 5 bits of ROM bank (writes of `0` map to `1`).
    pub rom_bank_lo: u8,
    /// 2-bit RAM bank / ROM bank upper bits.
    pub bank_hi: u8,
    /// `false` = simple ROM banking; `true` = advanced.
    pub advanced_mode: bool,
}

/// RAM enable register: enabled exactly when the low nibble written is `$A`.
pub open spec fn ram_enable_value(value: u8) -> bool {
    value % 16 == 0x0A
}

impl Mbc1 {
    /// Registers hold what the write ports can store: 5 low bank bits, 2 high bits.
    pub open spec fn wf(self) -> bool {
        self.rom_bank_lo < 32 && self.bank_hi < 4
    }

    pub open spec fn spec_switchable_rom_bank(self) -> u8 {
        let lo: u8 = if self.rom_bank_lo == 0 { 1 } else { self.rom_bank_lo };
        ((self.bank_hi * 32) % 256) as u8 | lo
    }

    pub open spec fn spec_fixed_rom_bank(self) -> u8 {
        if self.advanced_mode { ((self.bank_hi * 32) % 256) as u8 } else { 0 }
    }

    pub open spec fn spec_active_ram_bank(self) -> Option<u8> {
        if !self.ram_enabled { None } else { Some(if self.advanced_mode { self.bank_hi } else { 0 }) }
    }

    /// Register file after a CPU write to `addr` in `$0000–$7FFF`.
    pub open spec fn spec_write_reg(self, addr: u16, value: u8) -> Mbc1 {
        if addr <= 0x1FFF {
            Mbc1 { ram_enabled: ram_enable_value(value), ..self }
        } else if addr <= 0x3FFF {
            Mbc1 { rom_bank_lo: value % 32, ..self }
        } else if addr <= 0x5FFF {
            Mbc1 { bank_hi: value % 4, ..self }
        } else if addr <= 0x7FFF {
            Mbc1 { advanced_mode: value % 2 != 0, ..self }
        } else {
            self
        }
    }

    pub open spec fn spec_new() -> Mbc1 {
        Mbc1 { ram_enabled: false, rom_bank_lo: 1, bank_hi: 0, advanced_mode: false }
    }

    pub fn new() -> (m: Self)
        ensures
            m == Self::spec_new(),
    {
        Self { ram_enabled: false, rom_bank_lo: 1, bank_hi: 0, advanced_mode: false }
    }

    /// Bank at `$4000–$7FFF`: the two upper bits above the five lower ones
    /// (a lower field of `0` selects `1`), in either banking mode.
    pub fn switchable_rom_bank(&self) -> (b: u8)
        ensures
            b == self.spec_switchable_rom_bank(),
    {
        let lo: u8 = if self.rom_bank_lo == 0 { 1 } else { self.rom_bank_lo };
        ((self.bank_hi as u16 * 32) % 256) as u8 | lo
    }

    /// ROM bank mapped at `$0000–$3FFF` (always 0 in simple mode).
    pub fn fixed_rom_bank(&self) -> (b: u8)
        ensures
            b == self.spec_fixed_rom_bank(),
    {
        if self.advanced_mode {
            ((self.bank_hi as u16 * 32) % 256) as u8
        } else {
            0
        }
    }

    pub fn active_ram_bank(&self) -> (r: Option<u8>)
        ensures
            r == self.spec_active_ram_bank(),
    {
        if !self.ram_enabled {
            return None;
        }
        let bank: u8 = if self.advanced_mode { self.bank_hi } else { 0 };
        Some(bank)
    }

    pub fn write_reg(&mut self, addr: u16, value: u8)
        ensures
            *final(self) == old(self).spec_write_reg(addr, value),
    {
        match addr {
            0x0000..=0x1FFF => {
                self.ram_enabled = value % 16 == 0x0A;
            },
            0x2000..=0x3FFF => {
                self.rom_bank_lo = value % 32;
            },
            0x4000..=0x5FFF => {
                self.bank_hi = value % 4;
            },
            0x6000..=0x7FFF => {
                self.advanced_mode = value % 2 != 0;
            },
            _ => {},
        }
    }

    pub open spec fn spec_snapshot(self) -> Mbc1StateV1 {
        Mbc1StateV1 {
            rom_bank: self.rom_bank_lo,
            ram_bank: self.bank_hi,
            ram_enable: self.ram_enabled,
            mode: if self.advanced_mode { 1 } else { 0 },
        }
    }

    pub fn snapshot(&self) -> (s: Mbc1StateV1)
        ensures
            s == self.spec_snapshot(),
    {
        Mbc1StateV1 {
            rom_bank: self.rom_bank_lo,
            ram_bank: self.bank_hi,
            ram_enable: self.ram_enabled,
            mode: if self.advanced_mode { 1 } else { 0 },
        }
    }

    pub open spec fn spec_apply(self, state: Mbc1StateV1) -> Mbc1 {
        Mbc1 {
            rom_bank_lo: state.rom_bank,
            bank_hi: state.ram_bank,
            ram_enabled: state.ram_enable,
            advanced_mode: state.mode != 0,
        }
    }

    pub fn apply(&mut self, state: &Mbc1StateV1)
        ensures
            *final(self) == old(self).spec_apply(*state),
    {
        self.rom_bank_lo = state.rom_bank;
        self.bank_hi = state.ram_bank;
        self.ram_enabled = state.ram_enable;
        self.advanced_mode = state.mode != 0;
    }
}

/// Register writes keep the MBC1 registers within their port widths, and the
/// `$4000–$7FFF` bank, in either mode, is the upper two bits above the lower
/// five (`0` there selecting `1`), so never one whose low five bits are zero.
pub proof fn lemma_mbc1_invariants(m: Mbc1, addr: u16, value: u8)
    requires
        m.wf(),
    ensures
        m.spec_write_reg(addr, value).wf(),
        m.spec_switchable_rom_bank() % 32 != 0,
        m.spec_switchable_rom_bank() == m.bank_hi * 32 + (if m.rom_bank_lo == 0 { 1 } else { m.rom_bank_lo as int }),
{
    let lo: u8 = if m.rom_bank_lo == 0 { 1 } else { m.rom_bank_lo };
    let hi: u8 = ((m.bank_hi * 32) % 256) as u8;
    assert(hi == m.bank_hi * 32);
    lemma_or_disjoint(m.bank_hi, lo);
}

/// RAM bank selection: with RAM enabled, in advanced banking mode the bank
/// at `$A000–$BFFF` is the two-bit value last written to `$4000–$5FFF`, and in
/// simple mode it is bank 0. Enabling (low nibble `$A` at `$0000–$1FFF`),
/// selecting the mode (bit 0 at `$6000–$7FFF`) and writing the bank number
/// gives that bank, whatever the registers held before.
pub proof fn lemma_mbc1_ram_bank_select(m: Mbc1, enable: u8, mode: u8, bank: u8, a0: u16, a1: u16, a2: u16)
    requires
        a0 <= 0x1FFF,
        0x6000 <= a1 <= 0x7FFF,
        0x4000 <= a2 <= 0x5FFF,
    ensures
        m.ram_enabled && m.advanced_mode ==> m.spec_write_reg(a2, bank).spec_active_ram_bank() == Some(bank % 4),
        m.ram_enabled && !m.advanced_mode ==> m.spec_write_reg(a2, bank).spec_active_ram_bank() == Some(0u8),
        !m.ram_enabled ==> m.spec_active_ram_bank() is None,
        m.spec_write_reg(a0, enable).spec_write_reg(a1, mode).spec_write_reg(a2, bank).spec_active_ram_bank() == (
        if enable % 16 != 0x0A {
            None
        } else if mode % 2 == 1 {
            Some(bank % 4)
        } else {
            Some(0u8)
        }),
        m.spec_write_reg(a0, enable).spec_write_reg(a2, bank).spec_write_reg(a1, mode).spec_active_ram_bank() == (
        if enable % 16 != 0x0A {
            None
        } else if mode % 2 == 1 {
            Some(bank % 4)
        } else {
            Some(0u8)
        }),
{
}

/// `(hi << 5) | lo` equals `hi * 32 + lo` for a 2-bit `hi` and 5-bit `lo`.
proof fn lemma_or_disjoint(hi: u8, lo: u8)
    by (bit_vector)
    requires
        hi < 4,
        0 < lo < 32,
    ensures
        ((hi * 32) as u8 | lo) == hi * 32 + lo,
        ((hi * 32) as u8 | lo) % 32 != 0,
{
}

} // verus!
