//! ROM size code at header offset `$0148`

use vstd::prelude::*;
use vstd::arithmetic::power2::{lemma2_to64, pow2};

verus! {

/// ROM size code at header offset `$0148` (Pan Docs).
#[derive(Debug, Clone, Copy, PartialEq, Eq, Structural)]
pub enum RomSize {
    /// 32 KiB, 2 banks (no banking)
    Kb32,
    /// 64 KiB, 4 banks
    Kb64,
    /// 128 KiB, 8 banks
    Kb128,
    /// 256 KiB, 16 banks
    Kb256,
    /// 512 KiB, 32 banks
    Kb512,
    /// 1 MiB, 64 banks
    Mb1,
    /// 2 MiB, 128 banks
    Mb2,
    /// 4 MiB, 256 banks
    Mb4,
    /// 8 MiB, 512 banks
    Mb8,
    /// 1.1 MiB, 72 banks (rare)
    Mb1_1,
    /// 1.2 MiB, 80 banks (rare)
    Mb1_2,
    /// 1.5 MiB, 96 banks (rare)
    Mb1_5,
}

impl RomSize {
    /// Header byte that encodes this value.
    pub open spec fn code(self) -> u8 {
        match self {
            RomSize::Kb32 => 0x00,
            RomSize::Kb64 => 0x01,
            RomSize::Kb128 => 0x02,
            RomSize::Kb256 => 0x03,
            RomSize::Kb512 => 0x04,
            RomSize::Mb1 => 0x05,
            RomSize::Mb2 => 0x06,
            RomSize::Mb4 => 0x07,
            RomSize::Mb8 => 0x08,
            RomSize::Mb1_1 => 0x52,
            RomSize::Mb1_2 => 0x53,
            RomSize::Mb1_5 => 0x54,
        }
    }

    /// Header byte that encodes this value (the inverse of [`Self::from_byte`]).
    pub fn byte(self) -> (r: u8)
        ensures
            r == self.code(),
            Self::spec_from_byte(r) == Some(self),
    {
        match self {
            Self::Kb32 => 0x00,
            Self::Kb64 => 0x01,
            Self::Kb128 => 0x02,
            Self::Kb256 => 0x03,
            Self::Kb512 => 0x04,
            Self::Mb1 => 0x05,
            Self::Mb2 => 0x06,
            Self::Mb4 => 0x07,
            Self::Mb8 => 0x08,
            Self::Mb1_1 => 0x52,
            Self::Mb1_2 => 0x53,
            Self::Mb1_5 => 0x54,
        }
    }

    /// Value encoded by a header byte, if any.
    pub open spec fn spec_from_byte(byte: u8) -> Option<Self> {
        if byte == 0x00 { Some(RomSize::Kb32) }
        else if byte == 0x01 { Some(RomSize::Kb64) }
        else if byte == 0x02 { Some(RomSize::Kb128) }
        else if byte == 0x03 { Some(RomSize::Kb256) }
        else if byte == 0x04 { Some(RomSize::Kb512) }
        else if byte == 0x05 { Some(RomSize::Mb1) }
        else if byte == 0x06 { Some(RomSize::Mb2) }
        else if byte == 0x07 { Some(RomSize::Mb4) }
        else if byte == 0x08 { Some(RomSize::Mb8) }
        else if byte == 0x52 { Some(RomSize::Mb1_1) }
        else if byte == 0x53 { Some(RomSize::Mb1_2) }
        else if byte == 0x54 { Some(RomSize::Mb1_5) }
        else { None }
    }

    pub open spec fn spec_name(self) -> Seq<char> {
        match self {
            RomSize::Kb32 => "32 KiB"@,
            RomSize::Kb64 => "64 KiB"@,
            RomSize::Kb128 => "128 KiB"@,
            RomSize::Kb256 => "256 KiB"@,
            RomSize::Kb512 => "512 KiB"@,
            RomSize::Mb1 => "1 MiB"@,
            RomSize::Mb2 => "2 MiB"@,
            RomSize::Mb4 => "4 MiB"@,
            RomSize::Mb8 => "8 MiB"@,
            RomSize::Mb1_1 => "1.1 MiB"@,
            RomSize::Mb1_2 => "1.2 MiB"@,
            RomSize::Mb1_5 => "1.5 MiB"@,
        }
    }

    /// Number of 16 KiB ROM banks.
    pub open spec fn spec_bank_count(self) -> u16 {
        match self {
            RomSize::Kb32 => 2,
            RomSize::Kb64 => 4,
            RomSize::Kb128 => 8,
            RomSize::Kb256 => 16,
            RomSize::Kb512 => 32,
            RomSize::Mb1 => 64,
            RomSize::Mb2 => 128,
            RomSize::Mb4 => 256,
            RomSize::Mb8 => 512,
            RomSize::Mb1_1 => 72,
            RomSize::Mb1_2 => 80,
            RomSize::Mb1_5 => 96,
        }
    }


    /// Parse a header byte, if there is a value for it.
    pub fn from_byte(byte: u8) -> (r: Option<Self>)
        ensures
            r == Self::spec_from_byte(byte),
    {
        match byte {
            0x00 => Some(Self::Kb32),
            0x01 => Some(Self::Kb64),
            0x02 => Some(Self::Kb128),
            0x03 => Some(Self::Kb256),
            0x04 => Some(Self::Kb512),
            0x05 => Some(Self::Mb1),
            0x06 => Some(Self::Mb2),
            0x07 => Some(Self::Mb4),
            0x08 => Some(Self::Mb8),
            0x52 => Some(Self::Mb1_1),
            0x53 => Some(Self::Mb1_2),
            0x54 => Some(Self::Mb1_5),
            _ => None,
        }
    }

    /// Human-readable name.
    pub fn name(self) -> (r: &'static str)
        ensures
            r@ == self.spec_name(),
    {
        match self {
            Self::Kb32 => "32 KiB",
            Self::Kb64 => "64 KiB",
            Self::Kb128 => "128 KiB",
            Self::Kb256 => "256 KiB",
            Self::Kb512 => "512 KiB",
            Self::Mb1 => "1 MiB",
            Self::Mb2 => "2 MiB",
            Self::Mb4 => "4 MiB",
            Self::Mb8 => "8 MiB",
            Self::Mb1_1 => "1.1 MiB",
            Self::Mb1_2 => "1.2 MiB",
            Self::Mb1_5 => "1.5 MiB",
        }
    }

    /// Number of 16 KiB ROM banks.
    pub fn bank_count(self) -> (r: u16)
        ensures
            r == self.spec_bank_count(),
    {
        match self {
            Self::Kb32 => 2,
            Self::Kb64 => 4,
            Self::Kb128 => 8,
            Self::Kb256 => 16,
            Self::Kb512 => 32,
            Self::Mb1 => 64,
            Self::Mb2 => 128,
            Self::Mb4 => 256,
            Self::Mb8 => 512,
            Self::Mb1_1 => 72,
            Self::Mb1_2 => 80,
            Self::Mb1_5 => 96,
        }
    }

    /// Total ROM size in bytes.
    pub fn size_bytes(self) -> (r: usize)
        ensures
            r == self.spec_bank_count() * 16384,
    {
        self.bank_count() as usize * 16 * 1024
    }

}

/// Each value is parsed back from its own header byte, and a parsed byte is the
/// code of the value it yields.
pub proof fn lemma_rom_size_code_round_trip(v: RomSize, byte: u8)
    ensures
        RomSize::spec_from_byte(v.code()) == Some(v),
        RomSize::spec_from_byte(byte) matches Some(w) ==> w.code() == byte,
{
}

/// Bank counts follow the size a header byte names: codes `$00`–`$08` name
/// `32 KiB << code`, that is `2 * 2^code` banks of 16 KiB; the three rare
/// codes `$52`, `$53`, `$54` name 72, 80 and 96 banks. Either way the bank
/// count times 16 KiB is the size in bytes.
pub proof fn lemma_rom_bank_count_matches_size(byte: u8)
    ensures
        RomSize::spec_from_byte(byte) matches Some(r) ==> {
            &&& byte <= 8 ==> r.spec_bank_count() == 2 * pow2(byte as nat)
            &&& byte <= 8 ==> r.spec_bank_count() * 16384 == 32768 * pow2(byte as nat)
            &&& byte == 0x52 ==> r.spec_bank_count() == 72
            &&& byte == 0x53 ==> r.spec_bank_count() == 80
            &&& byte == 0x54 ==> r.spec_bank_count() == 96
        },
{
    lemma2_to64();
}

} // verus!
