//! Destination code at header offset `$014A`.

use vstd::prelude::*;

verus! {

/// Destination code at header offset `$014A` (Pan Docs).
#[derive(Debug, Clone, Copy, PartialEq, Eq, Structural)]
pub enum Destination {
    /// Japan (and possibly overseas)
    Japan,
    /// Overseas only
    Overseas,
}

impl Destination {
    /// Header byte that encodes this destination.
    pub open spec fn code(self) -> u8 {
        match self {
            Destination::Japan => 0x00,
            Destination::Overseas => 0x01,
        }
    }

    /// Header byte that encodes this value (the inverse of [`Self::from_byte`]).
    pub fn byte(self) -> (r: u8)
        ensures
            r == self.code(),
            Self::spec_from_byte(r) == Some(self),
    {
        match self {
            Self::Japan => 0x00,
            Self::Overseas => 0x01,
        }
    }

    /// Value encoded by a header byte, if any.
    pub open spec fn spec_from_byte(byte: u8) -> Option<Self> {
        if byte == 0x00 { Some(Destination::Japan) }
        else if byte == 0x01 { Some(Destination::Overseas) }
        else { None }
    }

    pub open spec fn spec_name(self) -> Seq<char> {
        match self {
            Destination::Japan => "Japan (and possibly overseas)"@,
            Destination::Overseas => "Overseas only"@,
        }
    }

    pub fn from_byte(byte: u8) -> (r: Option<Self>)
        ensures
            r == Self::spec_from_byte(byte),
    {
        match byte {
            0x00 => Some(Self::Japan),
            0x01 => Some(Self::Overseas),
            _ => None,
        }
    }

    pub fn name(self) -> (r: &'static str)
        ensures
            r@ == self.spec_name(),
    {
        match self {
            Self::Japan => "Japan (and possibly overseas)",
            Self::Overseas => "Overseas only",
        }
    }
}

/// Each destination is parsed back from its own header byte, and a parsed byte is
/// the code of the destination it yields.
pub proof fn lemma_destination_code_round_trip(v: Destination, byte: u8)
    ensures
        Destination::spec_from_byte(v.code()) == Some(v),
        Destination::spec_from_byte(byte) matches Some(w) ==> w.code() == byte,
{
}

} // verus!
