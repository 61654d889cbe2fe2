//! MBC3: ROM/RAM banking + RTC (Pan Docs, MBC3).

use vstd::prelude::*;
use crate::snapshot::Mbc3StateV1;
use super::mbc1::ram_enable_value;
use super::rtc::Rtc;

verus! {

#[derive(Debug, Clone, Copy)]
pub struct Mbc3 {
    pub ram_enabled: bool,
    /// Bank mapped at `$4000–$7FFF`. Never `0` (hardware maps that to bank 1).
    pub rom_bank: u8,
    /// `$00–$07` = RAM bank; `$08–$0C` = RTC register select.
    pub ram_bank_or_rtc: u8,
    pub rtc: Rtc,
}

impl Mbc3 {
    pub open spec fn spec_active_ram_bank(self) -> Option<u8> {
        if self.ram_enabled && self.ram_bank_or_rtc <= 0x07 { Some(self.ram_bank_or_rtc) } else { None }
    }

    pub open spec fn spec_selected_rtc_reg(self) -> Option<u8> {
        if self.ram_enabled && 0x08 <= self.ram_bank_or_rtc <= 0x0C {
            Some(self.ram_bank_or_rtc)
        } else {
            None
        }
    }

    pub open spec fn spec_read_rtc(self) -> Option<u8> {
        match self.spec_selected_rtc_reg() {
            Some(r) => Some(self.rtc.spec_latched_reg(r)),
            None => None,
        }
    }

    /// Controller after a CPU write to `addr` in `$0000–$7FFF`.
    pub open spec fn spec_write_reg(self, addr: u16, value: u8) -> Mbc3 {
        if addr <= 0x1FFF {
            Mbc3 { ram_enabled: ram_enable_value(value), ..self }
        } else if addr <= 0x3FFF {
            Mbc3 { rom_bank: if value % 128 == 0 { 1 } else { value % 128 }, ..self }
        } else if addr <= 0x5FFF {
            Mbc3 { ram_bank_or_rtc: value % 16, ..self }
        } else if addr <= 0x7FFF {
            Mbc3 { rtc: self.rtc.spec_write_latch(value), ..self }
        } else {
            self
        }
    }

    pub fn new() -> (m: Self)
        ensures
            m == (Mbc3 { ram_enabled: false, rom_bank: 1, ram_bank_or_rtc: 0, rtc: Rtc::spec_new() }),
    {
        Self { ram_enabled: false, rom_bank: 1, ram_bank_or_rtc: 0, rtc: Rtc::new() }
    }

    pub fn switchable_rom_bank(&self) -> (b: u8)
        ensures
            b == self.rom_bank,
    {
        self.rom_bank
    }

    /// Active external RAM bank, if RAM (not RTC) is selected and enabled.
    pub fn active_ram_bank(&self) -> (r: Option<u8>)
        ensures
            r == self.spec_active_ram_bank(),
    {
        if !self.ram_enabled {
            return None;
        }
        if self.ram_bank_or_rtc <= 0x07 { Some(self.ram_bank_or_rtc) } else { None }
    }

    /// Selected RTC register (`$08`–`$0C`) when RAM/timer is enabled.
    pub fn selected_rtc_reg(&self) -> (r: Option<u8>)
        ensures
            r == self.spec_selected_rtc_reg(),
    {
        if !self.ram_enabled {
            return None;
        }
        let r: u8 = self.ram_bank_or_rtc;
        if 0x08 <= r && r <= 0x0C { Some(r) } else { None }
    }

    pub fn read_rtc(&self) -> (v: Option<u8>)
        ensures
            v == self.spec_read_rtc(),
    {
        match self.selected_rtc_reg() {
            Some(r) => Some(self.rtc.read_latched(r)),
            None => None,
        }
    }

    /// Write the selected RTC register; `false` when no RTC register is selected.
    pub fn write_rtc(&mut self, value: u8) -> (wrote: bool)
        ensures
            wrote == old(self).spec_selected_rtc_reg() is Some,
            wrote ==> *final(self) == (Mbc3 {
                rtc: old(self).rtc.spec_write_reg(old(self).ram_bank_or_rtc, value),
                ..*old(self)
            }),
            !wrote ==> *final(self) == *old(self),
    {
        match self.selected_rtc_reg() {
            Some(r) => {
                self.rtc.write_reg(r, value);
                true
            },
            None => false,
        }
    }

    pub fn tick(&mut self, t_cycles: u32)
        ensures
            *final(self) == (Mbc3 { rtc: old(self).rtc.spec_ticked(t_cycles), ..*old(self) }),
    {
        self.rtc.tick(t_cycles);
    }

    pub fn write_reg(&mut self, addr: u16, value: u8)
        ensures
            *final(self) == old(self).spec_write_reg(addr, value),
    {
        match addr {
            0x0000..=0x1FFF => {
                self.ram_enabled = value % 16 == 0x0A;
            },
            0x2000..=0x3FFF => {
                let bank: u8 = value % 128;
                self.rom_bank = if bank == 0 { 1 } else { bank };
            },
            0x4000..=0x5FFF => {
                self.ram_bank_or_rtc = value % 16;
            },
            0x6000..=0x7FFF => {
                self.rtc.write_latch(value);
            },
            _ => {},
        }
    }

    pub open spec fn spec_snapshot(self) -> Mbc3StateV1 {
        Mbc3StateV1 {
            rom_bank: self.rom_bank,
            ram_bank: self.ram_bank_or_rtc,
            ram_enable: self.ram_enabled,
            rtc_reg: self.ram_bank_or_rtc,
            rtc: self.rtc.spec_snapshot(),
        }
    }

    pub fn snapshot(&self) -> (s: Mbc3StateV1)
        ensures
            s == self.spec_snapshot(),
    {
        Mbc3StateV1 {
            rom_bank: self.rom_bank,
            ram_bank: self.ram_bank_or_rtc,
            ram_enable: self.ram_enabled,
            rtc_reg: self.ram_bank_or_rtc,
            rtc: self.rtc.snapshot(),
        }
    }

    pub open spec fn spec_apply(self, state: Mbc3StateV1) -> Mbc3 {
        Mbc3 {
            rom_bank: state.rom_bank,
            ram_bank_or_rtc: state.ram_bank,
            ram_enabled: state.ram_enable,
            rtc: self.rtc.spec_apply(state.rtc),
        }
    }

    pub fn apply(&mut self, state: &Mbc3StateV1)
        ensures
            *final(self) == old(self).spec_apply(*state),
    {
        self.rom_bank = state.rom_bank;
        self.ram_bank_or_rtc = state.ram_bank;
        self.ram_enabled = state.ram_enable;
        self.rtc.apply(&state.rtc);
    }
}

} // verus!
