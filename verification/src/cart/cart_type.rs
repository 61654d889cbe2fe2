//! Cartridge type byte at header offset `$0147`

use vstd::prelude::*;

verus! {

/// Cartridge type byte at header offset `$0147` (Pan Docs).
#[derive(Debug, Clone, Copy, PartialEq, Eq, Structural)]
pub enum CartType {
    RomOnly,
    Mbc1,
    Mbc1Ram,
    Mbc1RamBattery,
    Mbc2,
    Mbc2Battery,
    RomRam,
    RomRamBattery,
    Mmm01,
    Mmm01Ram,
    Mmm01RamBattery,
    Mbc3TimerBattery,
    Mbc3TimerRamBattery,
    Mbc3,
    Mbc3Ram,
    Mbc3RamBattery,
    Mbc5,
    Mbc5Ram,
    Mbc5RamBattery,
    Mbc5Rumble,
    Mbc5RumbleRam,
    Mbc5RumbleRamBattery,
    Mbc6,
    Mbc7SensorRumbleRamBattery,
    PocketCamera,
    BandaiTama5,
    Huc3,
    Huc1RamBattery,
}

impl CartType {
    /// Header byte that encodes this value.
    pub open spec fn code(self) -> u8 {
        match self {
            CartType::RomOnly => 0x00,
            CartType::Mbc1 => 0x01,
            CartType::Mbc1Ram => 0x02,
            CartType::Mbc1RamBattery => 0x03,
            CartType::Mbc2 => 0x05,
            CartType::Mbc2Battery => 0x06,
            CartType::RomRam => 0x08,
            CartType::RomRamBattery => 0x09,
            CartType::Mmm01 => 0x0B,
            CartType::Mmm01Ram => 0x0C,
            CartType::Mmm01RamBattery => 0x0D,
            CartType::Mbc3TimerBattery => 0x0F,
            CartType::Mbc3TimerRamBattery => 0x10,
            CartType::Mbc3 => 0x11,
            CartType::Mbc3Ram => 0x12,
            CartType::Mbc3RamBattery => 0x13,
            CartType::Mbc5 => 0x19,
            CartType::Mbc5Ram => 0x1A,
            CartType::Mbc5RamBattery => 0x1B,
            CartType::Mbc5Rumble => 0x1C,
            CartType::Mbc5RumbleRam => 0x1D,
            CartType::Mbc5RumbleRamBattery => 0x1E,
            CartType::Mbc6 => 0x20,
            CartType::Mbc7SensorRumbleRamBattery => 0x22,
            CartType::PocketCamera => 0xFC,
            CartType::BandaiTama5 => 0xFD,
            CartType::Huc3 => 0xFE,
            CartType::Huc1RamBattery => 0xFF,
        }
    }

    /// Header byte that encodes this value (the inverse of [`Self::from_byte`]).
    pub fn byte(self) -> (r: u8)
        ensures
            r == self.code(),
            Self::spec_from_byte(r) == Some(self),
    {
        match self {
            Self::RomOnly => 0x00,
            Self::Mbc1 => 0x01,
            Self::Mbc1Ram => 0x02,
            Self::Mbc1RamBattery => 0x03,
            Self::Mbc2 => 0x05,
            Self::Mbc2Battery => 0x06,
            Self::RomRam => 0x08,
            Self::RomRamBattery => 0x09,
            Self::Mmm01 => 0x0B,
            Self::Mmm01Ram => 0x0C,
            Self::Mmm01RamBattery => 0x0D,
            Self::Mbc3TimerBattery => 0x0F,
            Self::Mbc3TimerRamBattery => 0x10,
            Self::Mbc3 => 0x11,
            Self::Mbc3Ram => 0x12,
            Self::Mbc3RamBattery => 0x13,
            Self::Mbc5 => 0x19,
            Self::Mbc5Ram => 0x1A,
            Self::Mbc5RamBattery => 0x1B,
            Self::Mbc5Rumble => 0x1C,
            Self::Mbc5RumbleRam => 0x1D,
            Self::Mbc5RumbleRamBattery => 0x1E,
            Self::Mbc6 => 0x20,
            Self::Mbc7SensorRumbleRamBattery => 0x22,
            Self::PocketCamera => 0xFC,
            Self::BandaiTama5 => 0xFD,
            Self::Huc3 => 0xFE,
            Self::Huc1RamBattery => 0xFF,
        }
    }

    /// Value encoded by a header byte, if any.
    pub open spec fn spec_from_byte(byte: u8) -> Option<Self> {
        if byte == 0x00 { Some(CartType::RomOnly) }
        else if byte == 0x01 { Some(CartType::Mbc1) }
        else if byte == 0x02 { Some(CartType::Mbc1Ram) }
        else if byte == 0x03 { Some(CartType::Mbc1RamBattery) }
        else if byte == 0x05 { Some(CartType::Mbc2) }
        else if byte == 0x06 { Some(CartType::Mbc2Battery) }
        else if byte == 0x08 { Some(CartType::RomRam) }
        else if byte == 0x09 { Some(CartType::RomRamBattery) }
        else if byte == 0x0B { Some(CartType::Mmm01) }
        else if byte == 0x0C { Some(CartType::Mmm01Ram) }
        else if byte == 0x0D { Some(CartType::Mmm01RamBattery) }
        else if byte == 0x0F { Some(CartType::Mbc3TimerBattery) }
        else if byte == 0x10 { Some(CartType::Mbc3TimerRamBattery) }
        else if byte == 0x11 { Some(CartType::Mbc3) }
        else if byte == 0x12 { Some(CartType::Mbc3Ram) }
        else if byte == 0x13 { Some(CartType::Mbc3RamBattery) }
        else if byte == 0x19 { Some(CartType::Mbc5) }
        else if byte == 0x1A { Some(CartType::Mbc5Ram) }
        else if byte == 0x1B { Some(CartType::Mbc5RamBattery) }
        else if byte == 0x1C { Some(CartType::Mbc5Rumble) }
        else if byte == 0x1D { Some(CartType::Mbc5RumbleRam) }
        else if byte == 0x1E { Some(CartType::Mbc5RumbleRamBattery) }
        else if byte == 0x20 { Some(CartType::Mbc6) }
        else if byte == 0x22 { Some(CartType::Mbc7SensorRumbleRamBattery) }
        else if byte == 0xFC { Some(CartType::PocketCamera) }
        else if byte == 0xFD { Some(CartType::BandaiTama5) }
        else if byte == 0xFE { Some(CartType::Huc3) }
        else if byte == 0xFF { Some(CartType::Huc1RamBattery) }
        else { None }
    }

    pub open spec fn spec_name(self) -> Seq<char> {
        match self {
            CartType::RomOnly => "ROM ONLY"@,
            CartType::Mbc1 => "MBC1"@,
            CartType::Mbc1Ram => "MBC1+RAM"@,
            CartType::Mbc1RamBattery => "MBC1+RAM+BATTERY"@,
            CartType::Mbc2 => "MBC2"@,
            CartType::Mbc2Battery => "MBC2+BATTERY"@,
            CartType::RomRam => "ROM+RAM"@,
            CartType::RomRamBattery => "ROM+RAM+BATTERY"@,
            CartType::Mmm01 => "MMM01"@,
            CartType::Mmm01Ram => "MMM01+RAM"@,
            CartType::Mmm01RamBattery => "MMM01+RAM+BATTERY"@,
            CartType::Mbc3TimerBattery => "MBC3+TIMER+BATTERY"@,
            CartType::Mbc3TimerRamBattery => "MBC3+TIMER+RAM+BATTERY"@,
            CartType::Mbc3 => "MBC3"@,
            CartType::Mbc3Ram => "MBC3+RAM"@,
            CartType::Mbc3RamBattery => "MBC3+RAM+BATTERY"@,
            CartType::Mbc5 => "MBC5"@,
            CartType::Mbc5Ram => "MBC5+RAM"@,
            CartType::Mbc5RamBattery => "MBC5+RAM+BATTERY"@,
            CartType::Mbc5Rumble => "MBC5+RUMBLE"@,
            CartType::Mbc5RumbleRam => "MBC5+RUMBLE+RAM"@,
            CartType::Mbc5RumbleRamBattery => "MBC5+RUMBLE+RAM+BATTERY"@,
            CartType::Mbc6 => "MBC6"@,
            CartType::Mbc7SensorRumbleRamBattery => "MBC7+SENSOR+RUMBLE+RAM+BATTERY"@,
            CartType::PocketCamera => "POCKET CAMERA"@,
            CartType::BandaiTama5 => "BANDAI TAMA5"@,
            CartType::Huc3 => "HuC3"@,
            CartType::Huc1RamBattery => "HuC1+RAM+BATTERY"@,
        }
    }

    pub open spec fn spec_is_mbc1(self) -> bool {
        self == CartType::Mbc1 || self == CartType::Mbc1Ram || self == CartType::Mbc1RamBattery
    }

    pub open spec fn spec_is_mbc2(self) -> bool {
        self == CartType::Mbc2 || self == CartType::Mbc2Battery
    }

    pub open spec fn spec_is_rom_mapper(self) -> bool {
        self == CartType::RomOnly || self == CartType::RomRam || self == CartType::RomRamBattery
    }

    pub open spec fn spec_is_mbc3(self) -> bool {
        ||| self == CartType::Mbc3
        ||| self == CartType::Mbc3Ram
        ||| self == CartType::Mbc3RamBattery
        ||| self == CartType::Mbc3TimerBattery
        ||| self == CartType::Mbc3TimerRamBattery
    }

    pub open spec fn spec_is_mbc5(self) -> bool {
        ||| self == CartType::Mbc5
        ||| self == CartType::Mbc5Ram
        ||| self == CartType::Mbc5RamBattery
        ||| self == CartType::Mbc5Rumble
        ||| self == CartType::Mbc5RumbleRam
        ||| self == CartType::Mbc5RumbleRamBattery
    }

    pub open spec fn spec_is_supported(self) -> bool {
        self.spec_is_rom_mapper() || self.spec_is_mbc1() || self.spec_is_mbc2() || self.spec_is_mbc3()
            || self.spec_is_mbc5()
    }

    pub open spec fn spec_has_battery(self) -> bool {
        ||| self == CartType::Mbc1RamBattery
        ||| self == CartType::Mbc2Battery
        ||| self == CartType::RomRamBattery
        ||| self == CartType::Mmm01RamBattery
        ||| self == CartType::Mbc3TimerBattery
        ||| self == CartType::Mbc3TimerRamBattery
        ||| self == CartType::Mbc3RamBattery
        ||| self == CartType::Mbc5RamBattery
        ||| self == CartType::Mbc5RumbleRamBattery
        ||| self == CartType::Mbc7SensorRumbleRamBattery
        ||| self == CartType::Huc1RamBattery
    }

    pub open spec fn spec_has_rtc(self) -> bool {
        self == CartType::Mbc3TimerBattery || self == CartType::Mbc3TimerRamBattery
    }


    /// Parse a header byte, if there is a value for it.
    pub fn from_byte(byte: u8) -> (r: Option<Self>)
        ensures
            r == Self::spec_from_byte(byte),
    {
        match byte {
            0x00 => Some(Self::RomOnly),
            0x01 => Some(Self::Mbc1),
            0x02 => Some(Self::Mbc1Ram),
            0x03 => Some(Self::Mbc1RamBattery),
            0x05 => Some(Self::Mbc2),
            0x06 => Some(Self::Mbc2Battery),
            0x08 => Some(Self::RomRam),
            0x09 => Some(Self::RomRamBattery),
            0x0B => Some(Self::Mmm01),
            0x0C => Some(Self::Mmm01Ram),
            0x0D => Some(Self::Mmm01RamBattery),
            0x0F => Some(Self::Mbc3TimerBattery),
            0x10 => Some(Self::Mbc3TimerRamBattery),
            0x11 => Some(Self::Mbc3),
            0x12 => Some(Self::Mbc3Ram),
            0x13 => Some(Self::Mbc3RamBattery),
            0x19 => Some(Self::Mbc5),
            0x1A => Some(Self::Mbc5Ram),
            0x1B => Some(Self::Mbc5RamBattery),
            0x1C => Some(Self::Mbc5Rumble),
            0x1D => Some(Self::Mbc5RumbleRam),
            0x1E => Some(Self::Mbc5RumbleRamBattery),
            0x20 => Some(Self::Mbc6),
            0x22 => Some(Self::Mbc7SensorRumbleRamBattery),
            0xFC => Some(Self::PocketCamera),
            0xFD => Some(Self::BandaiTama5),
            0xFE => Some(Self::Huc3),
            0xFF => Some(Self::Huc1RamBattery),
            _ => None,
        }
    }

    /// Human-readable name.
    pub fn name(self) -> (r: &'static str)
        ensures
            r@ == self.spec_name(),
    {
        match self {
            Self::RomOnly => "ROM ONLY",
            Self::Mbc1 => "MBC1",
            Self::Mbc1Ram => "MBC1+RAM",
            Self::Mbc1RamBattery => "MBC1+RAM+BATTERY",
            Self::Mbc2 => "MBC2",
            Self::Mbc2Battery => "MBC2+BATTERY",
            Self::RomRam => "ROM+RAM",
            Self::RomRamBattery => "ROM+RAM+BATTERY",
            Self::Mmm01 => "MMM01",
            Self::Mmm01Ram => "MMM01+RAM",
            Self::Mmm01RamBattery => "MMM01+RAM+BATTERY",
            Self::Mbc3TimerBattery => "MBC3+TIMER+BATTERY",
            Self::Mbc3TimerRamBattery => "MBC3+TIMER+RAM+BATTERY",
            Self::Mbc3 => "MBC3",
            Self::Mbc3Ram => "MBC3+RAM",
            Self::Mbc3RamBattery => "MBC3+RAM+BATTERY",
            Self::Mbc5 => "MBC5",
            Self::Mbc5Ram => "MBC5+RAM",
            Self::Mbc5RamBattery => "MBC5+RAM+BATTERY",
            Self::Mbc5Rumble => "MBC5+RUMBLE",
            Self::Mbc5RumbleRam => "MBC5+RUMBLE+RAM",
            Self::Mbc5RumbleRamBattery => "MBC5+RUMBLE+RAM+BATTERY",
            Self::Mbc6 => "MBC6",
            Self::Mbc7SensorRumbleRamBattery => "MBC7+SENSOR+RUMBLE+RAM+BATTERY",
            Self::PocketCamera => "POCKET CAMERA",
            Self::BandaiTama5 => "BANDAI TAMA5",
            Self::Huc3 => "HuC3",
            Self::Huc1RamBattery => "HuC1+RAM+BATTERY",
        }
    }

    pub fn is_mbc1(self) -> (r: bool)
        ensures
            r == self.spec_is_mbc1(),
    {
        matches!(self, Self::Mbc1 | Self::Mbc1Ram | Self::Mbc1RamBattery)
    }

    pub fn is_mbc2(self) -> (r: bool)
        ensures
            r == self.spec_is_mbc2(),
    {
        matches!(self, Self::Mbc2 | Self::Mbc2Battery)
    }

    /// ROM-only style carts (no MBC chip; optional external RAM still via header).
    pub fn is_rom_mapper(self) -> (r: bool)
        ensures
            r == self.spec_is_rom_mapper(),
    {
        matches!(self, Self::RomOnly | Self::RomRam | Self::RomRamBattery)
    }

    /// Whether this cart type has a working mapper implementation.
    pub fn is_supported(self) -> (r: bool)
        ensures
            r == self.spec_is_supported(),
    {
        self.is_rom_mapper() || self.is_mbc1() || self.is_mbc2() || self.is_mbc3() || self.is_mbc5()
    }

    pub fn is_mbc3(self) -> (r: bool)
        ensures
            r == self.spec_is_mbc3(),
    {
        matches!(
            self,
            Self::Mbc3 | Self::Mbc3Ram | Self::Mbc3RamBattery | Self::Mbc3TimerBattery
                | Self::Mbc3TimerRamBattery
        )
    }

    pub fn is_mbc5(self) -> (r: bool)
        ensures
            r == self.spec_is_mbc5(),
    {
        matches!(
            self,
            Self::Mbc5 | Self::Mbc5Ram | Self::Mbc5RamBattery | Self::Mbc5Rumble | Self::Mbc5RumbleRam
                | Self::Mbc5RumbleRamBattery
        )
    }

    /// Cartridge types with a battery (SRAM and/or RTC).
    pub fn has_battery(self) -> (r: bool)
        ensures
            r == self.spec_has_battery(),
    {
        matches!(
            self,
            Self::Mbc1RamBattery | Self::Mbc2Battery | Self::RomRamBattery | Self::Mmm01RamBattery
                | Self::Mbc3TimerBattery | Self::Mbc3TimerRamBattery | Self::Mbc3RamBattery
                | Self::Mbc5RamBattery | Self::Mbc5RumbleRamBattery
                | Self::Mbc7SensorRumbleRamBattery | Self::Huc1RamBattery
        )
    }

    /// MBC3 variants that include the real-time clock.
    pub fn has_rtc(self) -> (r: bool)
        ensures
            r == self.spec_has_rtc(),
    {
        matches!(self, Self::Mbc3TimerBattery | Self::Mbc3TimerRamBattery)
    }

}

/// Each value is parsed back from its own header byte, and a parsed byte is the
/// code of the value it yields.
pub proof fn lemma_cart_type_code_round_trip(v: CartType, byte: u8)
    ensures
        CartType::spec_from_byte(v.code()) == Some(v),
        CartType::spec_from_byte(byte) matches Some(w) ==> w.code() == byte,
{
}

/// `p` begins `s`.
pub open spec fn starts_with(s: Seq<char>, p: Seq<char>) -> bool {
    p.len() <= s.len() && s.take(p.len() as int) == p
}

/// `p` ends `s`.
pub open spec fn ends_with(s: Seq<char>, p: Seq<char>) -> bool {
    p.len() <= s.len() && s.skip(s.len() - p.len()) == p
}

/// `p` occurs in `s` at some position.
pub open spec fn contains_seq(s: Seq<char>, p: Seq<char>) -> bool {
    exists|i: int| 0 <= i <= s.len() - p.len() && #[trigger] s.subrange(i, i + p.len()) == p
}

/// Length and first and fourth characters of a name, as one number.
pub open spec fn name_key(n: Seq<char>) -> int {
    n.len() * 1000000 + (n[0] as int) * 1000 + (n[3] as int)
}

/// `name_key` of each type's name.
spec fn name_key_table(t: CartType) -> int {
        match t {
            CartType::RomOnly => 8082032,
            CartType::Mbc1 => 4077049,
            CartType::Mbc1Ram => 8077049,
            CartType::Mbc1RamBattery => 16077049,
            CartType::Mbc2 => 4077050,
            CartType::Mbc2Battery => 12077050,
            CartType::RomRam => 7082043,
            CartType::RomRamBattery => 15082043,
            CartType::Mmm01 => 5077048,
            CartType::Mmm01Ram => 9077048,
            CartType::Mmm01RamBattery => 17077048,
            CartType::Mbc3TimerBattery => 18077051,
            CartType::Mbc3TimerRamBattery => 22077051,
            CartType::Mbc3 => 4077051,
            CartType::Mbc3Ram => 8077051,
            CartType::Mbc3RamBattery => 16077051,
            CartType::Mbc5 => 4077053,
            CartType::Mbc5Ram => 8077053,
            CartType::Mbc5RamBattery => 16077053,
            CartType::Mbc5Rumble => 11077053,
            CartType::Mbc5RumbleRam => 15077053,
            CartType::Mbc5RumbleRamBattery => 23077053,
            CartType::Mbc6 => 4077054,
            CartType::Mbc7SensorRumbleRamBattery => 30077055,
            CartType::PocketCamera => 13080075,
            CartType::BandaiTama5 => 12066068,
            CartType::Huc3 => 4072051,
            CartType::Huc1RamBattery => 16072049,
        }
}

/// What a type's name says of it: the MBC family is the name's prefix, a
/// battery its `BATTERY` suffix, a clock a `TIMER` part.
proof fn lemma_cart_type_name_parts(a: CartType)
    ensures
        name_key(a.spec_name()) == name_key_table(a),
        a.spec_is_mbc1() == starts_with(a.spec_name(), "MBC1"@),
        a.spec_is_mbc2() == starts_with(a.spec_name(), "MBC2"@),
        a.spec_is_mbc3() == starts_with(a.spec_name(), "MBC3"@),
        a.spec_is_mbc5() == starts_with(a.spec_name(), "MBC5"@),
        a.spec_has_battery() == ends_with(a.spec_name(), "BATTERY"@),
        a.spec_has_rtc() == contains_seq(a.spec_name(), "TIMER"@),
{
    reveal_strlit("MBC1");
    reveal_strlit("MBC2");
    reveal_strlit("MBC3");
    reveal_strlit("MBC5");
    reveal_strlit("BATTERY");
    reveal_strlit("TIMER");
    assert("TIMER"@.len() == 5 && "TIMER"@[0] == 'T' && "TIMER"@[1] == 'I');
    match a {
        CartType::RomOnly => {
            reveal_strlit("ROM ONLY");
            let n = a.spec_name();
            assert(n.take(4)[0] != "MBC1"@[0]);
            assert(n.take(4)[0] != "MBC2"@[0]);
            assert(n.take(4)[0] != "MBC3"@[0]);
            assert(n.take(4)[0] != "MBC5"@[0]);
            assert(n.skip(1)[0] != "BATTERY"@[0]);
            assert forall|i: int| 0 <= i <= n.len() - "TIMER"@.len() implies #[trigger] n.subrange(i, i + "TIMER"@.len()) != "TIMER"@ by {
                assert(n.subrange(i, i + "TIMER"@.len())[0] == n[i] && n.subrange(i, i + "TIMER"@.len())[1] == n[i + 1]);
                if i == 0 {} else if i == 1 {} else if i == 2 {} else if i == 3 {}
            }
        },
        CartType::Mbc1 => {
            reveal_strlit("MBC1");
            let n = a.spec_name();
            assert(n.take(4) =~= "MBC1"@);
            assert(n.take(4)[3] != "MBC2"@[3]);
            assert(n.take(4)[3] != "MBC3"@[3]);
            assert(n.take(4)[3] != "MBC5"@[3]);
            assert forall|i: int| 0 <= i <= n.len() - "TIMER"@.len() implies #[trigger] n.subrange(i, i + "TIMER"@.len()) != "TIMER"@ by {
                assert(n.subrange(i, i + "TIMER"@.len())[0] == n[i] && n.subrange(i, i + "TIMER"@.len())[1] == n[i + 1]);
                
            }
        },
        CartType::Mbc1Ram => {
            reveal_strlit("MBC1+RAM");
            let n = a.spec_name();
            assert(n.take(4) =~= "MBC1"@);
            assert(n.take(4)[3] != "MBC2"@[3]);
            assert(n.take(4)[3] != "MBC3"@[3]);
            assert(n.take(4)[3] != "MBC5"@[3]);
            assert(n.skip(1)[1] != "BATTERY"@[1]);
            assert forall|i: int| 0 <= i <= n.len() - "TIMER"@.len() implies #[trigger] n.subrange(i, i + "TIMER"@.len()) != "TIMER"@ by {
                assert(n.subrange(i, i + "TIMER"@.len())[0] == n[i] && n.subrange(i, i + "TIMER"@.len())[1] == n[i + 1]);
                if i == 0 {} else if i == 1 {} else if i == 2 {} else if i == 3 {}
            }
        },
        CartType::Mbc1RamBattery => {
            reveal_strlit("MBC1+RAM+BATTERY");
            let n = a.spec_name();
            assert(n.take(4) =~= "MBC1"@);
            assert(n.take(4)[3] != "MBC2"@[3]);
            assert(n.take(4)[3] != "MBC3"@[3]);
            assert(n.take(4)[3] != "MBC5"@[3]);
            assert(n.skip(9) =~= "BATTERY"@);
            assert forall|i: int| 0 <= i <= n.len() - "TIMER"@.len() implies #[trigger] n.subrange(i, i + "TIMER"@.len()) != "TIMER"@ by {
                assert(n.subrange(i, i + "TIMER"@.len())[0] == n[i] && n.subrange(i, i + "TIMER"@.len())[1] == n[i + 1]);
                if i == 0 {} else if i == 1 {} else if i == 2 {} else if i == 3 {} else if i == 4 {} else if i == 5 {} else if i == 6 {} else if i == 7 {} else if i == 8 {} else if i == 9 {} else if i == 10 {} else if i == 11 {}
            }
        },
        CartType::Mbc2 => {
            reveal_strlit("MBC2");
            let n = a.spec_name();
            assert(n.take(4)[3] != "MBC1"@[3]);
            assert(n.take(4) =~= "MBC2"@);
            assert(n.take(4)[3] != "MBC3"@[3]);
            assert(n.take(4)[3] != "MBC5"@[3]);
            assert forall|i: int| 0 <= i <= n.len() - "TIMER"@.len() implies #[trigger] n.subrange(i, i + "TIMER"@.len()) != "TIMER"@ by {
                assert(n.subrange(i, i + "TIMER"@.len())[0] == n[i] && n.subrange(i, i + "TIMER"@.len())[1] == n[i + 1]);
                
            }
        },
        CartType::Mbc2Battery => {
            reveal_strlit("MBC2+BATTERY");
            let n = a.spec_name();
            assert(n.take(4)[3] != "MBC1"@[3]);
            assert(n.take(4) =~= "MBC2"@);
            assert(n.take(4)[3] != "MBC3"@[3]);
            assert(n.take(4)[3] != "MBC5"@[3]);
            assert(n.skip(5) =~= "BATTERY"@);
            assert forall|i: int| 0 <= i <= n.len() - "TIMER"@.len() implies #[trigger] n.subrange(i, i + "TIMER"@.len()) != "TIMER"@ by {
                assert(n.subrange(i, i + "TIMER"@.len())[0] == n[i] && n.subrange(i, i + "TIMER"@.len())[1] == n[i + 1]);
                if i == 0 {} else if i == 1 {} else if i == 2 {} else if i == 3 {} else if i == 4 {} else if i == 5 {} else if i == 6 {} else if i == 7 {}
            }
        },
        CartType::RomRam => {
            reveal_strlit("ROM+RAM");
            let n = a.spec_name();
            assert(n.take(4)[0] != "MBC1"@[0]);
            assert(n.take(4)[0] != "MBC2"@[0]);
            assert(n.take(4)[0] != "MBC3"@[0]);
            assert(n.take(4)[0] != "MBC5"@[0]);
            assert(n.skip(0)[0] != "BATTERY"@[0]);
            assert forall|i: int| 0 <= i <= n.len() - "TIMER"@.len() implies #[trigger] n.subrange(i, i + "TIMER"@.len()) != "TIMER"@ by {
                assert(n.subrange(i, i + "TIMER"@.len())[0] == n[i] && n.subrange(i, i + "TIMER"@.len())[1] == n[i + 1]);
                if i == 0 {} else if i == 1 {} else if i == 2 {}
            }
        },
        CartType::RomRamBattery => {
            reveal_strlit("ROM+RAM+BATTERY");
            let n = a.spec_name();
            assert(n.take(4)[0] != "MBC1"@[0]);
            assert(n.take(4)[0] != "MBC2"@[0]);
            assert(n.take(4)[0] != "MBC3"@[0]);
            assert(n.take(4)[0] != "MBC5"@[0]);
            assert(n.skip(8) =~= "BATTERY"@);
            assert forall|i: int| 0 <= i <= n.len() - "TIMER"@.len() implies #[trigger] n.subrange(i, i + "TIMER"@.len()) != "TIMER"@ by {
                assert(n.subrange(i, i + "TIMER"@.len())[0] == n[i] && n.subrange(i, i + "TIMER"@.len())[1] == n[i + 1]);
                if i == 0 {} else if i == 1 {} else if i == 2 {} else if i == 3 {} else if i == 4 {} else if i == 5 {} else if i == 6 {} else if i == 7 {} else if i == 8 {} else if i == 9 {} else if i == 10 {}
            }
        },
        CartType::Mmm01 => {
            reveal_strlit("MMM01");
            let n = a.spec_name();
            assert(n.take(4)[1] != "MBC1"@[1]);
            assert(n.take(4)[1] != "MBC2"@[1]);
            assert(n.take(4)[1] != "MBC3"@[1]);
            assert(n.take(4)[1] != "MBC5"@[1]);
            assert forall|i: int| 0 <= i <= n.len() - "TIMER"@.len() implies #[trigger] n.subrange(i, i + "TIMER"@.len()) != "TIMER"@ by {
                assert(n.subrange(i, i + "TIMER"@.len())[0] == n[i] && n.subrange(i, i + "TIMER"@.len())[1] == n[i + 1]);
                if i == 0 {}
            }
        },
        CartType::Mmm01Ram => {
            reveal_strlit("MMM01+RAM");
            let n = a.spec_name();
            assert(n.take(4)[1] != "MBC1"@[1]);
            assert(n.take(4)[1] != "MBC2"@[1]);
            assert(n.take(4)[1] != "MBC3"@[1]);
            assert(n.take(4)[1] != "MBC5"@[1]);
            assert(n.skip(2)[0] != "BATTERY"@[0]);
            assert forall|i: int| 0 <= i <= n.len() - "TIMER"@.len() implies #[trigger] n.subrange(i, i + "TIMER"@.len()) != "TIMER"@ by {
                assert(n.subrange(i, i + "TIMER"@.len())[0] == n[i] && n.subrange(i, i + "TIMER"@.len())[1] == n[i + 1]);
                if i == 0 {} else if i == 1 {} else if i == 2 {} else if i == 3 {} else if i == 4 {}
            }
        },
        CartType::Mmm01RamBattery => {
            reveal_strlit("MMM01+RAM+BATTERY");
            let n = a.spec_name();
            assert(n.take(4)[1] != "MBC1"@[1]);
            assert(n.take(4)[1] != "MBC2"@[1]);
            assert(n.take(4)[1] != "MBC3"@[1]);
            assert(n.take(4)[1] != "MBC5"@[1]);
            assert(n.skip(10) =~= "BATTERY"@);
            assert forall|i: int| 0 <= i <= n.len() - "TIMER"@.len() implies #[trigger] n.subrange(i, i + "TIMER"@.len()) != "TIMER"@ by {
                assert(n.subrange(i, i + "TIMER"@.len())[0] == n[i] && n.subrange(i, i + "TIMER"@.len())[1] == n[i + 1]);
                if i == 0 {} else if i == 1 {} else if i == 2 {} else if i == 3 {} else if i == 4 {} else if i == 5 {} else if i == 6 {} else if i == 7 {} else if i == 8 {} else if i == 9 {} else if i == 10 {} else if i == 11 {} else if i == 12 {}
            }
        },
        CartType::Mbc3TimerBattery => {
            reveal_strlit("MBC3+TIMER+BATTERY");
            let n = a.spec_name();
            assert(n.take(4)[3] != "MBC1"@[3]);
            assert(n.take(4)[3] != "MBC2"@[3]);
            assert(n.take(4) =~= "MBC3"@);
            assert(n.take(4)[3] != "MBC5"@[3]);
            assert(n.skip(11) =~= "BATTERY"@);
            let j: int = 5;
            assert(n.subrange(j, j + "TIMER"@.len()) =~= "TIMER"@);
        },
        CartType::Mbc3TimerRamBattery => {
            reveal_strlit("MBC3+TIMER+RAM+BATTERY");
            let n = a.spec_name();
            assert(n.take(4)[3] != "MBC1"@[3]);
            assert(n.take(4)[3] != "MBC2"@[3]);
            assert(n.take(4) =~= "MBC3"@);
            assert(n.take(4)[3] != "MBC5"@[3]);
            assert(n.skip(15) =~= "BATTERY"@);
            let j: int = 5;
            assert(n.subrange(j, j + "TIMER"@.len()) =~= "TIMER"@);
        },
        CartType::Mbc3 => {
            reveal_strlit("MBC3");
            let n = a.spec_name();
            assert(n.take(4)[3] != "MBC1"@[3]);
            assert(n.take(4)[3] != "MBC2"@[3]);
            assert(n.take(4) =~= "MBC3"@);
            assert(n.take(4)[3] != "MBC5"@[3]);
            assert forall|i: int| 0 <= i <= n.len() - "TIMER"@.len() implies #[trigger] n.subrange(i, i + "TIMER"@.len()) != "TIMER"@ by {
                assert(n.subrange(i, i + "TIMER"@.len())[0] == n[i] && n.subrange(i, i + "TIMER"@.len())[1] == n[i + 1]);
                
            }
        },
        CartType::Mbc3Ram => {
            reveal_strlit("MBC3+RAM");
            let n = a.spec_name();
            assert(n.take(4)[3] != "MBC1"@[3]);
            assert(n.take(4)[3] != "MBC2"@[3]);
            assert(n.take(4) =~= "MBC3"@);
            assert(n.take(4)[3] != "MBC5"@[3]);
            assert(n.skip(1)[1] != "BATTERY"@[1]);
            assert forall|i: int| 0 <= i <= n.len() - "TIMER"@.len() implies #[trigger] n.subrange(i, i + "TIMER"@.len()) != "TIMER"@ by {
                assert(n.subrange(i, i + "TIMER"@.len())[0] == n[i] && n.subrange(i, i + "TIMER"@.len())[1] == n[i + 1]);
                if i == 0 {} else if i == 1 {} else if i == 2 {} else if i == 3 {}
            }
        },
        CartType::Mbc3RamBattery => {
            reveal_strlit("MBC3+RAM+BATTERY");
            let n = a.spec_name();
            assert(n.take(4)[3] != "MBC1"@[3]);
            assert(n.take(4)[3] != "MBC2"@[3]);
            assert(n.take(4) =~= "MBC3"@);
            assert(n.take(4)[3] != "MBC5"@[3]);
            assert(n.skip(9) =~= "BATTERY"@);
            assert forall|i: int| 0 <= i <= n.len() - "TIMER"@.len() implies #[trigger] n.subrange(i, i + "TIMER"@.len()) != "TIMER"@ by {
                assert(n.subrange(i, i + "TIMER"@.len())[0] == n[i] && n.subrange(i, i + "TIMER"@.len())[1] == n[i + 1]);
                if i == 0 {} else if i == 1 {} else if i == 2 {} else if i == 3 {} else if i == 4 {} else if i == 5 {} else if i == 6 {} else if i == 7 {} else if i == 8 {} else if i == 9 {} else if i == 10 {} else if i == 11 {}
            }
        },
        CartType::Mbc5 => {
            reveal_strlit("MBC5");
            let n = a.spec_name();
            assert(n.take(4)[3] != "MBC1"@[3]);
            assert(n.take(4)[3] != "MBC2"@[3]);
            assert(n.take(4)[3] != "MBC3"@[3]);
            assert(n.take(4) =~= "MBC5"@);
            assert forall|i: int| 0 <= i <= n.len() - "TIMER"@.len() implies #[trigger] n.subrange(i, i + "TIMER"@.len()) != "TIMER"@ by {
                assert(n.subrange(i, i + "TIMER"@.len())[0] == n[i] && n.subrange(i, i + "TIMER"@.len())[1] == n[i + 1]);
                
            }
        },
        CartType::Mbc5Ram => {
            reveal_strlit("MBC5+RAM");
            let n = a.spec_name();
            assert(n.take(4)[3] != "MBC1"@[3]);
            assert(n.take(4)[3] != "MBC2"@[3]);
            assert(n.take(4)[3] != "MBC3"@[3]);
            assert(n.take(4) =~= "MBC5"@);
            assert(n.skip(1)[1] != "BATTERY"@[1]);
            assert forall|i: int| 0 <= i <= n.len() - "TIMER"@.len() implies #[trigger] n.subrange(i, i + "TIMER"@.len()) != "TIMER"@ by {
                assert(n.subrange(i, i + "TIMER"@.len())[0] == n[i] && n.subrange(i, i + "TIMER"@.len())[1] == n[i + 1]);
                if i == 0 {} else if i == 1 {} else if i == 2 {} else if i == 3 {}
            }
        },
        CartType::Mbc5RamBattery => {
            reveal_strlit("MBC5+RAM+BATTERY");
            let n = a.spec_name();
            assert(n.take(4)[3] != "MBC1"@[3]);
            assert(n.take(4)[3] != "MBC2"@[3]);
            assert(n.take(4)[3] != "MBC3"@[3]);
            assert(n.take(4) =~= "MBC5"@);
            assert(n.skip(9) =~= "BATTERY"@);
            assert forall|i: int| 0 <= i <= n.len() - "TIMER"@.len() implies #[trigger] n.subrange(i, i + "TIMER"@.len()) != "TIMER"@ by {
                assert(n.subrange(i, i + "TIMER"@.len())[0] == n[i] && n.subrange(i, i + "TIMER"@.len())[1] == n[i + 1]);
                if i == 0 {} else if i == 1 {} else if i == 2 {} else if i == 3 {} else if i == 4 {} else if i == 5 {} else if i == 6 {} else if i == 7 {} else if i == 8 {} else if i == 9 {} else if i == 10 {} else if i == 11 {}
            }
        },
        CartType::Mbc5Rumble => {
            reveal_strlit("MBC5+RUMBLE");
            let n = a.spec_name();
            assert(n.take(4)[3] != "MBC1"@[3]);
            assert(n.take(4)[3] != "MBC2"@[3]);
            assert(n.take(4)[3] != "MBC3"@[3]);
            assert(n.take(4) =~= "MBC5"@);
            assert(n.skip(4)[0] != "BATTERY"@[0]);
            assert forall|i: int| 0 <= i <= n.len() - "TIMER"@.len() implies #[trigger] n.subrange(i, i + "TIMER"@.len()) != "TIMER"@ by {
                assert(n.subrange(i, i + "TIMER"@.len())[0] == n[i] && n.subrange(i, i + "TIMER"@.len())[1] == n[i + 1]);
                if i == 0 {} else if i == 1 {} else if i == 2 {} else if i == 3 {} else if i == 4 {} else if i == 5 {} else if i == 6 {}
            }
        },
        CartType::Mbc5RumbleRam => {
            reveal_strlit("MBC5+RUMBLE+RAM");
            let n = a.spec_name();
            assert(n.take(4)[3] != "MBC1"@[3]);
            assert(n.take(4)[3] != "MBC2"@[3]);
            assert(n.take(4)[3] != "MBC3"@[3]);
            assert(n.take(4) =~= "MBC5"@);
            assert(n.skip(8)[1] != "BATTERY"@[1]);
            assert forall|i: int| 0 <= i <= n.len() - "TIMER"@.len() implies #[trigger] n.subrange(i, i + "TIMER"@.len()) != "TIMER"@ by {
                assert(n.subrange(i, i + "TIMER"@.len())[0] == n[i] && n.subrange(i, i + "TIMER"@.len())[1] == n[i + 1]);
                if i == 0 {} else if i == 1 {} else if i == 2 {} else if i == 3 {} else if i == 4 {} else if i == 5 {} else if i == 6 {} else if i == 7 {} else if i == 8 {} else if i == 9 {} else if i == 10 {}
            }
        },
        CartType::Mbc5RumbleRamBattery => {
            reveal_strlit("MBC5+RUMBLE+RAM+BATTERY");
            let n = a.spec_name();
            assert(n.take(4)[3] != "MBC1"@[3]);
            assert(n.take(4)[3] != "MBC2"@[3]);
            assert(n.take(4)[3] != "MBC3"@[3]);
            assert(n.take(4) =~= "MBC5"@);
            assert(n.skip(16) =~= "BATTERY"@);
            assert forall|i: int| 0 <= i <= n.len() - "TIMER"@.len() implies #[trigger] n.subrange(i, i + "TIMER"@.len()) != "TIMER"@ by {
                assert(n.subrange(i, i + "TIMER"@.len())[0] == n[i] && n.subrange(i, i + "TIMER"@.len())[1] == n[i + 1]);
                if i == 0 {} else if i == 1 {} else if i == 2 {} else if i == 3 {} else if i == 4 {} else if i == 5 {} else if i == 6 {} else if i == 7 {} else if i == 8 {} else if i == 9 {} else if i == 10 {} else if i == 11 {} else if i == 12 {} else if i == 13 {} else if i == 14 {} else if i == 15 {} else if i == 16 {} else if i == 17 {} else if i == 18 {}
            }
        },
        CartType::Mbc6 => {
            reveal_strlit("MBC6");
            let n = a.spec_name();
            assert(n.take(4)[3] != "MBC1"@[3]);
            assert(n.take(4)[3] != "MBC2"@[3]);
            assert(n.take(4)[3] != "MBC3"@[3]);
            assert(n.take(4)[3] != "MBC5"@[3]);
            assert forall|i: int| 0 <= i <= n.len() - "TIMER"@.len() implies #[trigger] n.subrange(i, i + "TIMER"@.len()) != "TIMER"@ by {
                assert(n.subrange(i, i + "TIMER"@.len())[0] == n[i] && n.subrange(i, i + "TIMER"@.len())[1] == n[i + 1]);
                
            }
        },
        CartType::Mbc7SensorRumbleRamBattery => {
            reveal_strlit("MBC7+SENSOR+RUMBLE+RAM+BATTERY");
            let n = a.spec_name();
            assert(n.take(4)[3] != "MBC1"@[3]);
            assert(n.take(4)[3] != "MBC2"@[3]);
            assert(n.take(4)[3] != "MBC3"@[3]);
            assert(n.take(4)[3] != "MBC5"@[3]);
            assert(n.skip(23) =~= "BATTERY"@);
            assert forall|i: int| 0 <= i <= n.len() - "TIMER"@.len() implies #[trigger] n.subrange(i, i + "TIMER"@.len()) != "TIMER"@ by {
                assert(n.subrange(i, i + "TIMER"@.len())[0] == n[i] && n.subrange(i, i + "TIMER"@.len())[1] == n[i + 1]);
                if i == 0 {} else if i == 1 {} else if i == 2 {} else if i == 3 {} else if i == 4 {} else if i == 5 {} else if i == 6 {} else if i == 7 {} else if i == 8 {} else if i == 9 {} else if i == 10 {} else if i == 11 {} else if i == 12 {} else if i == 13 {} else if i == 14 {} else if i == 15 {} else if i == 16 {} else if i == 17 {} else if i == 18 {} else if i == 19 {} else if i == 20 {} else if i == 21 {} else if i == 22 {} else if i == 23 {} else if i == 24 {} else if i == 25 {}
            }
        },
        CartType::PocketCamera => {
            reveal_strlit("POCKET CAMERA");
            let n = a.spec_name();
            assert(n.take(4)[0] != "MBC1"@[0]);
            assert(n.take(4)[0] != "MBC2"@[0]);
            assert(n.take(4)[0] != "MBC3"@[0]);
            assert(n.take(4)[0] != "MBC5"@[0]);
            assert(n.skip(6)[0] != "BATTERY"@[0]);
            assert forall|i: int| 0 <= i <= n.len() - "TIMER"@.len() implies #[trigger] n.subrange(i, i + "TIMER"@.len()) != "TIMER"@ by {
                assert(n.subrange(i, i + "TIMER"@.len())[0] == n[i] && n.subrange(i, i + "TIMER"@.len())[1] == n[i + 1]);
                if i == 0 {} else if i == 1 {} else if i == 2 {} else if i == 3 {} else if i == 4 {} else if i == 5 {} else if i == 6 {} else if i == 7 {} else if i == 8 {}
            }
        },
        CartType::BandaiTama5 => {
            reveal_strlit("BANDAI TAMA5");
            let n = a.spec_name();
            assert(n.take(4)[0] != "MBC1"@[0]);
            assert(n.take(4)[0] != "MBC2"@[0]);
            assert(n.take(4)[0] != "MBC3"@[0]);
            assert(n.take(4)[0] != "MBC5"@[0]);
            assert(n.skip(5)[0] != "BATTERY"@[0]);
            assert forall|i: int| 0 <= i <= n.len() - "TIMER"@.len() implies #[trigger] n.subrange(i, i + "TIMER"@.len()) != "TIMER"@ by {
                assert(n.subrange(i, i + "TIMER"@.len())[0] == n[i] && n.subrange(i, i + "TIMER"@.len())[1] == n[i + 1]);
                if i == 0 {} else if i == 1 {} else if i == 2 {} else if i == 3 {} else if i == 4 {} else if i == 5 {} else if i == 6 {} else if i == 7 {}
            }
        },
        CartType::Huc3 => {
            reveal_strlit("HuC3");
            let n = a.spec_name();
            assert(n.take(4)[0] != "MBC1"@[0]);
            assert(n.take(4)[0] != "MBC2"@[0]);
            assert(n.take(4)[0] != "MBC3"@[0]);
            assert(n.take(4)[0] != "MBC5"@[0]);
            assert forall|i: int| 0 <= i <= n.len() - "TIMER"@.len() implies #[trigger] n.subrange(i, i + "TIMER"@.len()) != "TIMER"@ by {
                assert(n.subrange(i, i + "TIMER"@.len())[0] == n[i] && n.subrange(i, i + "TIMER"@.len())[1] == n[i + 1]);
                
            }
        },
        CartType::Huc1RamBattery => {
            reveal_strlit("HuC1+RAM+BATTERY");
            let n = a.spec_name();
            assert(n.take(4)[0] != "MBC1"@[0]);
            assert(n.take(4)[0] != "MBC2"@[0]);
            assert(n.take(4)[0] != "MBC3"@[0]);
            assert(n.take(4)[0] != "MBC5"@[0]);
            assert(n.skip(9) =~= "BATTERY"@);
            assert forall|i: int| 0 <= i <= n.len() - "TIMER"@.len() implies #[trigger] n.subrange(i, i + "TIMER"@.len()) != "TIMER"@ by {
                assert(n.subrange(i, i + "TIMER"@.len())[0] == n[i] && n.subrange(i, i + "TIMER"@.len())[1] == n[i + 1]);
                if i == 0 {} else if i == 1 {} else if i == 2 {} else if i == 3 {} else if i == 4 {} else if i == 5 {} else if i == 6 {} else if i == 7 {} else if i == 8 {} else if i == 9 {} else if i == 10 {} else if i == 11 {}
            }
        },
    }
}

/// Names tell the cartridge types apart, and say what the type is: the MBC
/// family is the name's prefix, a battery its `BATTERY` suffix, a clock a
/// `TIMER` part.
pub proof fn lemma_cart_type_names(a: CartType, b: CartType)
    ensures
        a != b ==> a.spec_name() != b.spec_name(),
        a.spec_is_mbc1() == starts_with(a.spec_name(), "MBC1"@),
        a.spec_is_mbc2() == starts_with(a.spec_name(), "MBC2"@),
        a.spec_is_mbc3() == starts_with(a.spec_name(), "MBC3"@),
        a.spec_is_mbc5() == starts_with(a.spec_name(), "MBC5"@),
        a.spec_has_battery() == ends_with(a.spec_name(), "BATTERY"@),
        a.spec_has_rtc() == contains_seq(a.spec_name(), "TIMER"@),
{
    lemma_cart_type_name_parts(a);
    lemma_cart_type_name_parts(b);
}

} // verus!
