//! RAM size code at header offset `$0149`

use vstd::prelude::*;

verus! {

/// RAM size code at header offset `$0149` (Pan Docs).
#[derive(Debug, Clone, Copy, PartialEq, Eq, Structural)]
pub enum RamSize {
    /// No RAM
    NoRam,
    /// Unused / mistaken homebrew tag; treat as no cartridge RAM
    Unused,
    /// 8 KiB, 1 bank
    Kb8,
    /// 32 KiB, 4 banks of 8 KiB each
    Kb32,
    /// 128 KiB, 16 banks of 8 KiB each
    Kb128,
    /// 64 KiB, 8 banks of 8 KiB each
    Kb64,
}

impl RamSize {
    /// Header byte that encodes this value.
    pub open spec fn code(self) -> u8 {
        match self {
            RamSize::NoRam => 0x00,
            RamSize::Unused => 0x01,
            RamSize::Kb8 => 0x02,
            RamSize::Kb32 => 0x03,
            RamSize::Kb128 => 0x04,
            RamSize::Kb64 => 0x05,
        }
    }

    /// Header byte that encodes this value (the inverse of [`Self::from_byte`]).
    pub fn byte(self) -> (r: u8)
        ensures
            r == self.code(),
            Self::spec_from_byte(r) == Some(self),
    {
        match self {
            Self::NoRam => 0x00,
            Self::Unused => 0x01,
            Self::Kb8 => 0x02,
            Self::Kb32 => 0x03,
            Self::Kb128 => 0x04,
            Self::Kb64 => 0x05,
        }
    }

    /// Value encoded by a header byte, if any.
    pub open spec fn spec_from_byte(byte: u8) -> Option<Self> {
        if byte == 0x00 { Some(RamSize::NoRam) }
        else if byte == 0x01 { Some(RamSize::Unused) }
        else if byte == 0x02 { Some(RamSize::Kb8) }
        else if byte == 0x03 { Some(RamSize::Kb32) }
        else if byte == 0x04 { Some(RamSize::Kb128) }
        else if byte == 0x05 { Some(RamSize::Kb64) }
        else { None }
    }

    pub open spec fn spec_name(self) -> Seq<char> {
        match self {
            RamSize::NoRam => "0"@,
            RamSize::Unused => "unused"@,
            RamSize::Kb8 => "8 KiB"@,
            RamSize::Kb32 => "32 KiB"@,
            RamSize::Kb128 => "128 KiB"@,
            RamSize::Kb64 => "64 KiB"@,
        }
    }

    /// Number of 8 KiB RAM banks.
    pub open spec fn spec_bank_count(self) -> u8 {
        match self {
            RamSize::NoRam => 0,
            RamSize::Unused => 0,
            RamSize::Kb8 => 1,
            RamSize::Kb32 => 4,
            RamSize::Kb128 => 16,
            RamSize::Kb64 => 8,
        }
    }


    /// Parse a header byte, if there is a value for it.
    pub fn from_byte(byte: u8) -> (r: Option<Self>)
        ensures
            r == Self::spec_from_byte(byte),
    {
        match byte {
            0x00 => Some(Self::NoRam),
            0x01 => Some(Self::Unused),
            0x02 => Some(Self::Kb8),
            0x03 => Some(Self::Kb32),
            0x04 => Some(Self::Kb128),
            0x05 => Some(Self::Kb64),
            _ => None,
        }
    }

    /// Human-readable name.
    pub fn name(self) -> (r: &'static str)
        ensures
            r@ == self.spec_name(),
    {
        match self {
            Self::NoRam => "0",
            Self::Unused => "unused",
            Self::Kb8 => "8 KiB",
            Self::Kb32 => "32 KiB",
            Self::Kb128 => "128 KiB",
            Self::Kb64 => "64 KiB",
        }
    }

    /// Number of 8 KiB RAM banks (`0` when none / unused).
    pub fn bank_count(self) -> (r: u8)
        ensures
            r == self.spec_bank_count(),
    {
        match self {
            Self::NoRam => 0,
            Self::Unused => 0,
            Self::Kb8 => 1,
            Self::Kb32 => 4,
            Self::Kb128 => 16,
            Self::Kb64 => 8,
        }
    }

    /// Total external cartridge RAM size in bytes (`0` when none / unused).
    pub fn size_bytes(self) -> (r: usize)
        ensures
            r == self.spec_bank_count() * 8192,
    {
        self.bank_count() as usize * 8 * 1024
    }

}

/// Each value is parsed back from its own header byte, and a parsed byte is the
/// code of the value it yields.
pub proof fn lemma_ram_size_code_round_trip(v: RamSize, byte: u8)
    ensures
        RamSize::spec_from_byte(v.code()) == Some(v),
        RamSize::spec_from_byte(byte) matches Some(w) ==> w.code() == byte,
{
}

} // verus!
