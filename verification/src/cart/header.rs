//! Cartridge header (`$0100`–`$014F`).

use vstd::prelude::*;
use super::cart_type::CartType;
use super::destination::Destination;
use super::ram_size::RamSize;
use super::rom_size::RomSize;
use super::{NINTENDO_LOGO, OLD_LICENSEE_USE_NEW, SGB_FLAG_ENABLED};
use crate::text::{dec_chars, push_dec, trim, trim_spec, lossy_utf8, utf8_lossy};

verus! {

/// Fallback label for header fields that are not recognized.
pub open spec fn unknown_label() -> Seq<char> {
    "unknown (see Pan Docs)"@
}

fn unknown() -> (r: &'static str)
    ensures
        r@ == unknown_label(),
{
    "unknown (see Pan Docs)"
}

/// Error while parsing a cartridge header.
#[derive(Debug, Clone, Copy, PartialEq, Eq, Structural)]
pub enum HeaderError {
    /// ROM shorter than `$0150` bytes.
    TooShort { len: usize },
}

impl HeaderError {
    /// Human-readable description of the error.
    pub fn message(&self) -> (r: String)
        ensures
            self matches HeaderError::TooShort { len } ==> r@ == "ROM too short for cartridge header ("@
                + dec_chars(len as nat) + " bytes, need at least 0x150)"@,
    {
        match self {
            HeaderError::TooShort { len } => {
                let mut s: String = String::from_str("ROM too short for cartridge header (");
                push_dec(&mut s, *len as u64);
                s.append(" bytes, need at least 0x150)");
                s
            },
        }
    }
}

/// CGB support byte at header offset `$0143` (cartridge capability, not hardware model).
#[derive(Debug, Clone, Copy, PartialEq, Eq, Structural)]
pub enum CartridgeCgbSupport {
    /// No CGB features (typical DMG titles); bit 7 clear.
    DmgOnly,
    /// `$80` — CGB enhancements, DMG compatible.
    CgbCompatible,
    /// `$C0` — CGB only.
    CgbOnly,
    /// Other value (still may have bit 7 set on some homebrew).
    Other(u8),
}

/// Compatibility alias: header `$0143` is cartridge CGB capability, not a hardware-model switch.
pub type CgbFlag = CartridgeCgbSupport;

impl CartridgeCgbSupport {
    pub open spec fn spec_from_byte(byte: u8) -> Self {
        if byte == 0x80 {
            CartridgeCgbSupport::CgbCompatible
        } else if byte == 0xC0 {
            CartridgeCgbSupport::CgbOnly
        } else if byte < 0x80 {
            CartridgeCgbSupport::DmgOnly
        } else {
            CartridgeCgbSupport::Other(byte)
        }
    }

    pub open spec fn spec_is_cgb(self) -> bool {
        match self {
            CartridgeCgbSupport::CgbCompatible | CartridgeCgbSupport::CgbOnly => true,
            CartridgeCgbSupport::Other(b) => b >= 0x80,
            CartridgeCgbSupport::DmgOnly => false,
        }
    }

    pub open spec fn spec_name(self) -> Seq<char> {
        match self {
            CartridgeCgbSupport::CgbCompatible => "CGB compatible (works on DMG too)"@,
            CartridgeCgbSupport::CgbOnly => "CGB only"@,
            CartridgeCgbSupport::DmgOnly => "DMG / non-CGB"@,
            CartridgeCgbSupport::Other(_) => "unknown CGB flag"@,
        }
    }

    pub fn from_byte(byte: u8) -> (r: Self)
        ensures
            r == Self::spec_from_byte(byte),
    {
        match byte {
            0x80 => Self::CgbCompatible,
            0xC0 => Self::CgbOnly,
            b if b < 0x80 => Self::DmgOnly,
            b => Self::Other(b),
        }
    }

    /// True when bit 7 is set (CGB mode / shortened title field).
    pub fn is_cgb(self) -> (r: bool)
        ensures
            r == self.spec_is_cgb(),
    {
        match self {
            Self::CgbCompatible | Self::CgbOnly => true,
            Self::Other(b) => b >= 0x80,
            Self::DmgOnly => false,
        }
    }

    pub fn name(self) -> (r: &'static str)
        ensures
            r@ == self.spec_name(),
    {
        match self {
            Self::CgbCompatible => "CGB compatible (works on DMG too)",
            Self::CgbOnly => "CGB only",
            Self::DmgOnly => "DMG / non-CGB",
            Self::Other(_) => "unknown CGB flag",
        }
    }
}

/// A parsed header byte is CGB-capable exactly when its bit 7 is set.
pub proof fn lemma_cgb_support_is_bit7(byte: u8)
    ensures
        CartridgeCgbSupport::spec_from_byte(byte).spec_is_cgb() == (byte >= 0x80),
{
}


/// Parsed cartridge header (`$0100`–`$014F`).
#[derive(Debug, Clone)]
pub struct Header {
    pub entry_point: [u8; 4],
    pub logo_ok: bool,
    pub title: String,
    pub manufacturer: [u8; 4],
    pub cgb_byte: u8,
    pub cgb: CartridgeCgbSupport,
    pub new_licensee: [u8; 2],
    pub sgb_byte: u8,
    pub sgb: bool,
    pub cart_type_byte: u8,
    pub cart_type: Option<CartType>,
    pub rom_size_byte: u8,
    pub rom_size: Option<RomSize>,
    pub ram_size_byte: u8,
    pub ram_size: Option<RamSize>,
    pub destination_byte: u8,
    pub destination: Option<Destination>,
    pub old_licensee: u8,
    pub mask_rom_version: u8,
    pub header_checksum: u8,
    pub computed_header_checksum: u8,
    pub global_checksum: u16,
    pub computed_global_checksum: u16,
}

/// Sum of a byte sequence.
pub open spec fn sum_bytes(s: Seq<u8>) -> int
    decreases s.len(),
{
    if s.len() == 0 { 0 } else { sum_bytes(s.drop_last()) + s.last() }
}

/// Header checksum over `$0134..=$014C`: `x = x - byte - 1` for each byte, from 0.
pub open spec fn header_checksum_spec(rom: Seq<u8>) -> u8 {
    ((0 - sum_bytes(rom.subrange(0x134, 0x14D)) - 25) % 256) as u8
}

/// Global checksum: 16-bit sum of every ROM byte except the checksum itself (`$014E–$014F`).
pub open spec fn global_checksum_spec(rom: Seq<u8>) -> u16 {
    ((sum_bytes(rom) - rom[0x14E] - rom[0x14F]) % 65536) as u16
}

/// Title bytes: the title field up to its first NUL.
pub open spec fn title_field(rom: Seq<u8>) -> Seq<u8> {
    let end: int = if CartridgeCgbSupport::spec_from_byte(rom[0x143]).spec_is_cgb() { 0x13F } else { 0x144 };
    rom.subrange(0x134, end)
}

/// Prefix of `raw` before its first NUL byte.
pub open spec fn until_nul(raw: Seq<u8>) -> Seq<u8>
    decreases raw.len(),
{
    if raw.len() == 0 {
        raw
    } else if raw[0] == 0 {
        Seq::empty()
    } else {
        seq![raw[0]] + until_nul(raw.drop_first())
    }
}

/// The header fields read from a ROM image of at least `$0150` bytes.
pub open spec fn header_fields_ok(h: Header, rom: Seq<u8>) -> bool {
    &&& h.entry_point@ == rom.subrange(0x100, 0x104)
    &&& h.logo_ok == (rom.subrange(0x104, 0x134) == NINTENDO_LOGO@)
    &&& h.title@ == trim_spec(lossy_utf8(until_nul(title_field(rom))))
    &&& h.manufacturer@ == rom.subrange(0x13F, 0x143)
    &&& h.cgb_byte == rom[0x143]
    &&& h.cgb == CartridgeCgbSupport::spec_from_byte(rom[0x143])
    &&& h.new_licensee@ == rom.subrange(0x144, 0x146)
    &&& h.sgb_byte == rom[0x146]
    &&& h.sgb == (rom[0x146] == SGB_FLAG_ENABLED)
    &&& h.cart_type_byte == rom[0x147]
    &&& h.cart_type == CartType::spec_from_byte(rom[0x147])
    &&& h.rom_size_byte == rom[0x148]
    &&& h.rom_size == RomSize::spec_from_byte(rom[0x148])
    &&& h.ram_size_byte == rom[0x149]
    &&& h.ram_size == RamSize::spec_from_byte(rom[0x149])
    &&& h.destination_byte == rom[0x14A]
    &&& h.destination == Destination::spec_from_byte(rom[0x14A])
    &&& h.old_licensee == rom[0x14B]
    &&& h.mask_rom_version == rom[0x14C]
    &&& h.header_checksum == rom[0x14D]
    &&& h.computed_header_checksum == header_checksum_spec(rom)
    &&& h.global_checksum == rom[0x14E] * 256 + rom[0x14F]
    &&& h.computed_global_checksum == global_checksum_spec(rom)
}

proof fn lemma_sum_bytes_take(s: Seq<u8>, i: int)
    requires
        0 <= i < s.len(),
    ensures
        sum_bytes(s.take(i + 1)) == sum_bytes(s.take(i)) + s[i],
{
    assert(s.take(i + 1).drop_last() =~= s.take(i));
}

fn compute_header_checksum(rom: &[u8]) -> (c: u8)
    requires
        rom@.len() >= 0x150,
    ensures
        c == header_checksum_spec(rom@),
{
    let ghost field = rom@.subrange(0x134, 0x14D);
    let mut checksum: u8 = 0;
    let mut i: usize = 0x134;
    assert(field.take(0) =~= Seq::<u8>::empty());
    while i <= 0x14C
        invariant
            0x134 <= i <= 0x14D,
            rom@.len() >= 0x150,
            field == rom@.subrange(0x134, 0x14D),
            checksum == ((0 - sum_bytes(field.take(i - 0x134)) - (i - 0x134)) % 256) as u8,
        decreases 0x14D - i,
    {
        proof {
            lemma_sum_bytes_take(field, i - 0x134);
        }
        checksum = checksum.wrapping_sub(rom[i]).wrapping_sub(1);
        i += 1;
    }
    assert(field.take(25) =~= field);
    checksum
}

fn compute_global_checksum(rom: &[u8]) -> (c: u16)
    requires
        rom@.len() >= 0x150,
    ensures
        c == global_checksum_spec(rom@),
{
    let mut sum: u16 = 0;
    let mut i: usize = 0;
    assert(rom@.take(0) =~= Seq::<u8>::empty());
    while i < rom.len()
        invariant
            0 <= i <= rom@.len(),
            rom@.len() >= 0x150,
            sum == ((sum_bytes(rom@.take(i as int))
                - (if i > 0x14E { rom@[0x14E] as int } else { 0 })
                - (if i > 0x14F { rom@[0x14F] as int } else { 0 })) % 65536) as u16,
        decreases rom@.len() - i,
    {
        proof {
            lemma_sum_bytes_take(rom@, i as int);
        }
        if i != 0x014E && i != 0x014F {
            sum = sum.wrapping_add(rom[i] as u16);
        }
        i += 1;
    }
    assert(rom@.take(rom@.len() as int) =~= rom@);
    sum
}

fn logo_matches(rom: &[u8]) -> (ok: bool)
    requires
        rom@.len() >= 0x150,
    ensures
        ok == (rom@.subrange(0x104, 0x134) == NINTENDO_LOGO@),
{
    let logo: [u8; 48] = NINTENDO_LOGO;
    let mut i: usize = 0;
    while i < 48
        invariant
            0 <= i <= 48,
            rom@.len() >= 0x150,
            logo@ == NINTENDO_LOGO@,
            forall|k: int| 0 <= k < i ==> rom@[0x104 + k] == logo@[k],
        decreases 48 - i,
    {
        if rom[0x104 + i] != logo[i] {
            assert(rom@.subrange(0x104, 0x134)[i as int] != NINTENDO_LOGO@[i as int]);
            return false;
        }
        i += 1;
    }
    assert(rom@.subrange(0x104, 0x134) =~= NINTENDO_LOGO@);
    true
}

/// Length of `raw` before its first NUL byte.
fn nul_position(raw: &[u8]) -> (end: usize)
    ensures
        end <= raw@.len(),
        raw@.take(end as int) == until_nul(raw@),
{
    let mut i: usize = 0;
    while i < raw.len() && raw[i] != 0
        invariant
            0 <= i <= raw@.len(),
            forall|k: int| 0 <= k < i ==> raw@[k] != 0,
        decreases raw@.len() - i,
    {
        i += 1;
    }
    proof {
        lemma_until_nul(raw@, i as int);
    }
    i
}

proof fn lemma_until_nul(raw: Seq<u8>, i: int)
    requires
        0 <= i <= raw.len(),
        forall|k: int| 0 <= k < i ==> raw[k] != 0,
        i == raw.len() || raw[i] == 0,
    ensures
        raw.take(i) == until_nul(raw),
    decreases i,
{
    if i == 0 {
        assert(raw.take(0) =~= Seq::<u8>::empty());
    } else {
        lemma_until_nul(raw.drop_first(), i - 1);
        assert(raw.take(i) =~= seq![raw[0]] + raw.drop_first().take(i - 1));
    }
}

fn ascii_title(raw: &[u8]) -> (t: String)
    ensures
        t@ == trim_spec(lossy_utf8(until_nul(raw@))),
{
    let end: usize = nul_position(raw);
    let text: String = utf8_lossy(vstd::slice::slice_subrange(raw, 0, end));
    String::from_str(trim(text.as_str()))
}

impl Header {
    /// Parse the header from a full ROM image.
    pub fn parse(rom: &[u8]) -> (r: Result<Self, HeaderError>)
        ensures
            rom@.len() < 0x150 ==> r == Err::<Header, HeaderError>(HeaderError::TooShort { len: rom@.len() as usize }),
            rom@.len() >= 0x150 ==> (r matches Ok(h) && header_fields_ok(h, rom@)),
    {
        if rom.len() < 0x150 {
            return Err(HeaderError::TooShort { len: rom.len() });
        }
        let cgb_byte: u8 = rom[0x0143];
        let cgb: CartridgeCgbSupport = CartridgeCgbSupport::from_byte(cgb_byte);
        let title_end: usize = if cgb.is_cgb() { 0x013F } else { 0x0144 };
        let sgb_byte: u8 = rom[0x0146];
        let computed_header_checksum: u8 = compute_header_checksum(rom);
        let computed_global_checksum: u16 = compute_global_checksum(rom);
        let cart_type_byte: u8 = rom[0x0147];
        let rom_size_byte: u8 = rom[0x0148];
        let ram_size_byte: u8 = rom[0x0149];
        let destination_byte: u8 = rom[0x014A];
        let header_checksum: u8 = rom[0x014D];
        let global_checksum: u16 = rom[0x014E] as u16 * 256 + rom[0x014F] as u16;
        let entry_point: [u8; 4] = [rom[0x100], rom[0x101], rom[0x102], rom[0x103]];
        let manufacturer: [u8; 4] = [rom[0x13F], rom[0x140], rom[0x141], rom[0x142]];
        let new_licensee: [u8; 2] = [rom[0x144], rom[0x145]];
        let title: String = ascii_title(vstd::slice::slice_subrange(rom, 0x0134, title_end));
        let h = Header {
            entry_point,
            logo_ok: logo_matches(rom),
            title,
            manufacturer,
            cgb_byte,
            cgb,
            new_licensee,
            sgb_byte,
            sgb: sgb_byte == SGB_FLAG_ENABLED,
            cart_type_byte,
            cart_type: CartType::from_byte(cart_type_byte),
            rom_size_byte,
            rom_size: RomSize::from_byte(rom_size_byte),
            ram_size_byte,
            ram_size: RamSize::from_byte(ram_size_byte),
            destination_byte,
            destination: Destination::from_byte(destination_byte),
            old_licensee: rom[0x014B],
            mask_rom_version: rom[0x014C],
            header_checksum,
            computed_header_checksum,
            global_checksum,
            computed_global_checksum,
        };
        assert(h.entry_point@ =~= rom@.subrange(0x100, 0x104));
        assert(h.manufacturer@ =~= rom@.subrange(0x13F, 0x143));
        assert(h.new_licensee@ =~= rom@.subrange(0x144, 0x146));
        Ok(h)
    }

    pub fn header_checksum_ok(&self) -> (r: bool)
        ensures
            r == (self.header_checksum == self.computed_header_checksum),
    {
        self.header_checksum == self.computed_header_checksum
    }

    pub fn global_checksum_ok(&self) -> (r: bool)
        ensures
            r == (self.global_checksum == self.computed_global_checksum),
    {
        self.global_checksum == self.computed_global_checksum
    }

    /// Boot ROM–style validity: Nintendo logo + header checksum.
    pub fn is_valid(&self) -> (r: bool)
        ensures
            r == (self.logo_ok && self.header_checksum == self.computed_header_checksum),
    {
        self.logo_ok && self.header_checksum_ok()
    }

    pub fn uses_new_licensee(&self) -> (r: bool)
        ensures
            r == (self.old_licensee == OLD_LICENSEE_USE_NEW),
    {
        self.old_licensee == OLD_LICENSEE_USE_NEW
    }

    pub fn cart_type_name(&self) -> (r: &'static str)
        ensures
            r@ == (match self.cart_type { Some(t) => t.spec_name(), None => unknown_label() }),
    {
        match self.cart_type {
            Some(t) => t.name(),
            None => unknown(),
        }
    }

    pub fn rom_size_name(&self) -> (r: &'static str)
        ensures
            r@ == (match self.rom_size { Some(t) => t.spec_name(), None => unknown_label() }),
    {
        match self.rom_size {
            Some(t) => t.name(),
            None => unknown(),
        }
    }

    pub fn ram_size_name(&self) -> (r: &'static str)
        ensures
            r@ == (match self.ram_size { Some(t) => t.spec_name(), None => unknown_label() }),
    {
        match self.ram_size {
            Some(t) => t.name(),
            None => unknown(),
        }
    }

    pub fn destination_name(&self) -> (r: &'static str)
        ensures
            r@ == (match self.destination { Some(t) => t.spec_name(), None => unknown_label() }),
    {
        match self.destination {
            Some(t) => t.name(),
            None => unknown(),
        }
    }
}

} // verus!
