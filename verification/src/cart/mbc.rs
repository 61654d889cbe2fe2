//! Memory bank controllers (Pan Docs, MBCs).
//!
//! Mapper implementations are driven by documented hardware behavior and test
//! coverage. Unsupported cartridge types fail clearly rather than silently
//! behaving like ROM-only.

pub mod mbc1;
pub mod mbc2;
pub mod mbc3;
pub mod mbc5;
pub mod none;
pub mod rtc;

use vstd::prelude::*;
use crate::snapshot::MapperStateV1;
use crate::text::{hex_chars, push_hex};
use super::cart_type::CartType;
use mbc1::Mbc1;
use mbc2::Mbc2;
use mbc3::Mbc3;
use mbc5::Mbc5;
use none::NoMbc;

verus! {

pub const ROM_BANK_SIZE: usize = 0x4000;

pub const RAM_BANK_SIZE: usize = 0x2000;

/// Bank-controller backend owned by a cartridge.
///
/// Extend only when a mapper is implemented and covered by tests; exotic
/// controllers are refused, never stubbed as ROM-only.
#[derive(Debug, Clone, Copy)]
pub enum Mapper {
    RomOnly(NoMbc),
    Mbc1(Mbc1),
    Mbc2(Mbc2),
    Mbc3(Mbc3),
    Mbc5(Mbc5),
}

/// Error text for a cartridge type byte with no known meaning.
pub open spec fn unknown_mapper_message(byte: u8) -> Seq<char> {
    "unsupported mapper: $"@ + hex_chars(byte as nat, 2)
}

/// Error text for a known cartridge type whose controller is not implemented.
pub open spec fn unsupported_mapper_message(t: CartType) -> Seq<char> {
    "unsupported mapper: "@ + t.spec_name()
}

impl Mapper {
    /// Mapper kind chosen for a supported cartridge type, at power-on.
    pub open spec fn spec_for_cart_type(t: CartType) -> Mapper {
        if t.spec_is_rom_mapper() {
            Mapper::RomOnly(NoMbc)
        } else if t.spec_is_mbc1() {
            Mapper::Mbc1(Mbc1::spec_new())
        } else if t.spec_is_mbc2() {
            Mapper::Mbc2(Mbc2 { ram_enabled: false, rom_bank: 1 })
        } else if t.spec_is_mbc3() {
            Mapper::Mbc3(Mbc3 { ram_enabled: false, rom_bank: 1, ram_bank_or_rtc: 0, rtc: rtc::Rtc::spec_new() })
        } else {
            Mapper::Mbc5(Mbc5 { ram_enabled: false, rom_bank: 1, ram_bank: 0 })
        }
    }

    pub open spec fn spec_switchable_rom_bank(self) -> u16 {
        match self {
            Mapper::RomOnly(_) => 1,
            Mapper::Mbc1(m) => m.spec_switchable_rom_bank() as u16,
            Mapper::Mbc2(m) => m.spec_switchable_rom_bank() as u16,
            Mapper::Mbc3(m) => m.rom_bank as u16,
            Mapper::Mbc5(m) => m.rom_bank,
        }
    }

    pub open spec fn spec_fixed_rom_bank(self) -> u16 {
        match self {
            Mapper::Mbc1(m) => m.spec_fixed_rom_bank() as u16,
            _ => 0,
        }
    }

    pub open spec fn spec_active_ram_bank(self) -> Option<u8> {
        match self {
            Mapper::RomOnly(_) => None,
            Mapper::Mbc1(m) => m.spec_active_ram_bank(),
            Mapper::Mbc2(_) => None,
            Mapper::Mbc3(m) => m.spec_active_ram_bank(),
            Mapper::Mbc5(m) => m.spec_active_ram_bank(),
        }
    }

    pub open spec fn spec_write_reg(self, addr: u16, value: u8) -> Mapper {
        match self {
            Mapper::RomOnly(m) => Mapper::RomOnly(m),
            Mapper::Mbc1(m) => Mapper::Mbc1(m.spec_write_reg(addr, value)),
            Mapper::Mbc2(m) => Mapper::Mbc2(m.spec_write_reg(addr, value)),
            Mapper::Mbc3(m) => Mapper::Mbc3(m.spec_write_reg(addr, value)),
            Mapper::Mbc5(m) => Mapper::Mbc5(m.spec_write_reg(addr, value)),
        }
    }

    pub open spec fn spec_ticked(self, t: u32) -> Mapper {
        match self {
            Mapper::Mbc3(m) => Mapper::Mbc3(Mbc3 { rtc: m.rtc.spec_ticked(t), ..m }),
            _ => self,
        }
    }

    pub open spec fn spec_read_rtc(self) -> Option<u8> {
        match self {
            Mapper::Mbc3(m) => m.spec_read_rtc(),
            _ => None,
        }
    }

    /// Build a mapper for a known supported cart type.
    ///
    /// Returns an error for unknown bytes or unimplemented controllers
    /// (e.g. `"unsupported mapper: MBC7"`).
    pub fn try_for_cart_type(cart_type: Option<CartType>, cart_type_byte: u8) -> (r: Result<Self, String>)
        ensures
            match cart_type {
                None => r is Err && r->Err_0@ == unknown_mapper_message(cart_type_byte),
                Some(t) => if t.spec_is_supported() {
                    r is Ok && r->Ok_0 == Self::spec_for_cart_type(t)
                } else {
                    r is Err && r->Err_0@ == unsupported_mapper_message(t)
                },
            },
    {
        let t = match cart_type {
            Some(t) => t,
            None => {
                let mut e: String = String::from_str("unsupported mapper: $");
                push_hex(&mut e, cart_type_byte as u64, 2);
                return Err(e);
            },
        };
        if t.is_rom_mapper() {
            return Ok(Self::RomOnly(NoMbc));
        }
        if t.is_mbc1() {
            return Ok(Self::Mbc1(Mbc1::new()));
        }
        if t.is_mbc2() {
            return Ok(Self::Mbc2(Mbc2::new()));
        }
        if t.is_mbc3() {
            return Ok(Self::Mbc3(Mbc3::new()));
        }
        if t.is_mbc5() {
            return Ok(Self::Mbc5(Mbc5::new()));
        }
        let mut e: String = String::from_str("unsupported mapper: ");
        e.append(t.name());
        Err(e)
    }

    pub fn switchable_rom_bank(&self) -> (b: u16)
        ensures
            b == self.spec_switchable_rom_bank(),
    {
        match self {
            Self::RomOnly(m) => m.switchable_rom_bank() as u16,
            Self::Mbc1(m) => m.switchable_rom_bank() as u16,
            Self::Mbc2(m) => m.switchable_rom_bank() as u16,
            Self::Mbc3(m) => m.switchable_rom_bank() as u16,
            Self::Mbc5(m) => m.switchable_rom_bank(),
        }
    }

    /// ROM bank mapped at `$0000–$3FFF` (MBC1 advanced mode may remap).
    pub fn fixed_rom_bank(&self) -> (b: u16)
        ensures
            b == self.spec_fixed_rom_bank(),
    {
        match self {
            Self::Mbc1(m) => m.fixed_rom_bank() as u16,
            _ => 0,
        }
    }

    /// Active external RAM bank when RAM access is allowed (not used for MBC2).
    pub fn active_ram_bank(&self) -> (r: Option<u8>)
        ensures
            r == self.spec_active_ram_bank(),
    {
        match self {
            Self::RomOnly(m) => m.active_ram_bank(),
            Self::Mbc1(m) => m.active_ram_bank(),
            Self::Mbc2(_) => None,
            Self::Mbc3(m) => m.active_ram_bank(),
            Self::Mbc5(m) => m.active_ram_bank(),
        }
    }

    pub fn write_reg(&mut self, addr: u16, value: u8)
        ensures
            *final(self) == old(self).spec_write_reg(addr, value),
    {
        match self {
            Self::RomOnly(m) => m.write_reg(addr, value),
            Self::Mbc1(m) => m.write_reg(addr, value),
            Self::Mbc2(m) => m.write_reg(addr, value),
            Self::Mbc3(m) => m.write_reg(addr, value),
            Self::Mbc5(m) => m.write_reg(addr, value),
        }
    }

    /// Advance the MBC3 clock; other mappers have no timer.
    pub fn tick(&mut self, t_cycles: u32)
        ensures
            *final(self) == old(self).spec_ticked(t_cycles),
    {
        if let Self::Mbc3(m) = self {
            m.tick(t_cycles);
        }
    }

    pub fn mbc3_read_rtc(&self) -> (r: Option<u8>)
        ensures
            r == self.spec_read_rtc(),
    {
        match self {
            Self::Mbc3(m) => m.read_rtc(),
            _ => None,
        }
    }

    /// Write the selected MBC3 clock register; `false` when none is selected.
    pub fn mbc3_write_rtc(&mut self, value: u8) -> (wrote: bool)
        ensures
            wrote == (*old(self) matches Mapper::Mbc3(m) && m.spec_selected_rtc_reg() is Some),
            wrote ==> (*old(self) matches Mapper::Mbc3(m0) && *final(self) == Mapper::Mbc3(Mbc3 {
                rtc: m0.rtc.spec_write_reg(m0.ram_bank_or_rtc, value),
                ..m0
            })),
            !wrote ==> *final(self) == *old(self),
    {
        match self {
            Self::Mbc3(m) => m.write_rtc(value),
            _ => false,
        }
    }

    pub open spec fn spec_snapshot(self) -> MapperStateV1 {
        match self {
            Mapper::RomOnly(_) => MapperStateV1::RomOnly,
            Mapper::Mbc1(m) => MapperStateV1::Mbc1(m.spec_snapshot()),
            Mapper::Mbc2(m) => MapperStateV1::Mbc2(m.spec_snapshot()),
            Mapper::Mbc3(m) => MapperStateV1::Mbc3(m.spec_snapshot()),
            Mapper::Mbc5(m) => MapperStateV1::Mbc5(m.spec_snapshot()),
        }
    }

    /// Record of the banking registers.
    pub fn snapshot(&self) -> (s: MapperStateV1)
        ensures
            s == self.spec_snapshot(),
            *self is RomOnly <==> s is RomOnly,
            *self matches Mapper::Mbc1(m) ==> s == MapperStateV1::Mbc1(m.spec_snapshot()),
            *self matches Mapper::Mbc2(m) ==> s == MapperStateV1::Mbc2(m.spec_snapshot()),
            *self matches Mapper::Mbc3(m) ==> s == MapperStateV1::Mbc3(m.spec_snapshot()),
            *self matches Mapper::Mbc5(m) ==> s == MapperStateV1::Mbc5(m.spec_snapshot()),
    {
        match self {
            Self::RomOnly(_) => MapperStateV1::RomOnly,
            Self::Mbc1(m) => MapperStateV1::Mbc1(m.snapshot()),
            Self::Mbc2(m) => MapperStateV1::Mbc2(m.snapshot()),
            Self::Mbc3(m) => MapperStateV1::Mbc3(m.snapshot()),
            Self::Mbc5(m) => MapperStateV1::Mbc5(m.snapshot()),
        }
    }

    /// Restore banking registers from a record of the same mapper kind; a
    /// record of another kind is ignored.
    pub fn apply(&mut self, state: &MapperStateV1)
        ensures
            *final(self) == old(self).spec_apply(*state),
    {
        match (self, state) {
            (Self::RomOnly(_), MapperStateV1::RomOnly) => {},
            (Self::Mbc1(m), MapperStateV1::Mbc1(s)) => m.apply(s),
            (Self::Mbc2(m), MapperStateV1::Mbc2(s)) => m.apply(s),
            (Self::Mbc3(m), MapperStateV1::Mbc3(s)) => m.apply(s),
            (Self::Mbc5(m), MapperStateV1::Mbc5(s)) => m.apply(s),
            _ => {},
        }
    }

    pub open spec fn spec_apply(self, st: MapperStateV1) -> Mapper {
        match (self, st) {
            (Mapper::Mbc1(m), MapperStateV1::Mbc1(s)) => Mapper::Mbc1(m.spec_apply(s)),
            (Mapper::Mbc2(m), MapperStateV1::Mbc2(s)) => Mapper::Mbc2(m.spec_apply(s)),
            (Mapper::Mbc3(m), MapperStateV1::Mbc3(s)) => Mapper::Mbc3(m.spec_apply(s)),
            (Mapper::Mbc5(m), MapperStateV1::Mbc5(s)) => Mapper::Mbc5(m.spec_apply(s)),
            _ => self,
        }
    }

    /// Mapper after a power-on reset: banking registers back to their
    /// defaults, the MBC3 clock kept.
    pub open spec fn spec_power_on_reset(self) -> Mapper {
        match self {
            Mapper::RomOnly(_) => Mapper::RomOnly(NoMbc),
            Mapper::Mbc1(_) => Mapper::Mbc1(Mbc1::spec_new()),
            Mapper::Mbc2(_) => Mapper::Mbc2(Mbc2 { ram_enabled: false, rom_bank: 1 }),
            Mapper::Mbc3(m) => Mapper::Mbc3(Mbc3 { ram_enabled: false, rom_bank: 1, ram_bank_or_rtc: 0, rtc: m.rtc }),
            Mapper::Mbc5(_) => Mapper::Mbc5(Mbc5 { ram_enabled: false, rom_bank: 1, ram_bank: 0 }),
        }
    }

    /// Reset banking registers to power-on defaults; MBC3 RTC clock contents are preserved.
    pub fn power_on_reset(&mut self)
        ensures
            *final(self) == old(self).spec_power_on_reset(),
    {
        match self {
            Self::RomOnly(_) => *self = Self::RomOnly(NoMbc),
            Self::Mbc1(m) => *m = Mbc1::new(),
            Self::Mbc2(m) => *m = Mbc2::new(),
            Self::Mbc5(m) => *m = Mbc5::new(),
            Self::Mbc3(m) => {
                let rtc = m.rtc;
                *m = Mbc3::new();
                m.rtc = rtc;
            },
        }
    }
}

/// Restoring a mapper's own record gives the mapper back (an MBC5 bank
/// register holds at most 9 bits).
pub proof fn lemma_mapper_snapshot_round_trip(m: Mapper)
    requires
        m matches Mapper::Mbc5(x) ==> x.rom_bank < 512,
    ensures
        m.spec_apply(m.spec_snapshot()) == m,
{
    match m {
        Mapper::Mbc5(x) => {
            mbc5::lemma_mbc5_snapshot_round_trip(x, x);
        },
        _ => {},
    }
}

} // verus!
