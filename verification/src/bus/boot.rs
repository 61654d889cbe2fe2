//! Boot firmware overlay mapped over cartridge reads until `$FF50`.
//!
//! Owns the optional firmware image and whether the overlay is currently mapped.
//! Fast-boot paths never install this; snapshot restore clears it via [`BootRom::clear`].

use vstd::prelude::*;

verus! {

/// Size of the CGB boot firmware image (the `$0100–$01FF` header window is not in it).
pub const CGB_BOOT_ROM_SIZE: usize = 2048;

/// Byte of a 2048-byte CGB firmware image mapped at `addr`: `$0000–$00FF`
/// from its start, `$0200–$08FF` from offset `$0100` on; `None` elsewhere.
pub open spec fn spec_cgb_boot_byte(rom: Seq<u8>, addr: u16) -> Option<u8> {
    if addr < 0x100 {
        Some(rom[addr as int])
    } else if 0x200 <= addr < 0x900 {
        Some(rom[addr - 0x100])
    } else {
        None
    }
}

pub fn cgb_boot_byte(rom: &[u8; 2048], addr: u16) -> (r: Option<u8>)
    ensures
        r == spec_cgb_boot_byte(rom@, addr),
{
    if addr < 0x100 {
        Some(rom[addr as usize])
    } else if 0x200 <= addr && addr < 0x900 {
        Some(rom[(addr - 0x100) as usize])
    } else {
        None
    }
}

/// Installable boot firmware. CGB is a split map, not a longer DMG overlay.
pub enum BootFirmware {
    Dmg(Box<[u8; 256]>),
    Cgb(Box<[u8; 2048]>),
}

/// Boot ROM overlay state.
pub struct BootRom {
    pub firmware: Option<BootFirmware>,
    pub mapped: bool,
}

impl BootRom {
    /// Byte the overlay supplies at `addr`, if it is mapped and covers `addr`.
    pub open spec fn spec_overlay_byte(self, addr: u16) -> Option<u8> {
        if !self.mapped {
            None
        } else {
            match self.firmware {
                None => None,
                Some(BootFirmware::Dmg(rom)) => if addr <= 0xFF { Some(rom@[addr as int]) } else { None },
                Some(BootFirmware::Cgb(rom)) => spec_cgb_boot_byte(rom@, addr),
            }
        }
    }

    pub fn new() -> (b: Self)
        ensures
            b.firmware is None,
            !b.mapped,
    {
        Self { firmware: None, mapped: false }
    }

    /// Map a 256-byte DMG boot ROM over `$0000`–`$00FF` until `$FF50` or [`Self::clear`].
    pub fn enable_dmg(&mut self, rom: &[u8; 256])
        ensures
            final(self).mapped,
            final(self).firmware matches Some(BootFirmware::Dmg(r)) && r@ == rom@,
    {
        self.firmware = Some(BootFirmware::Dmg(Box::new(*rom)));
        self.mapped = true;
    }

    /// Map 2048-byte CGB firmware (header window `$0100–$01FF` stays cartridge).
    pub fn enable_cgb(&mut self, rom: &[u8; 2048])
        ensures
            final(self).mapped,
            final(self).firmware matches Some(BootFirmware::Cgb(r)) && r@ == rom@,
    {
        self.firmware = Some(BootFirmware::Cgb(Box::new(*rom)));
        self.mapped = true;
    }

    /// Force the overlay off and drop firmware (restore / snapshot / power-on).
    pub fn clear(&mut self)
        ensures
            final(self).firmware is None,
            !final(self).mapped,
    {
        self.firmware = None;
        self.mapped = false;
    }

    /// Unmap without dropping firmware (`$FF50` write with non-zero value).
    pub fn unmap(&mut self)
        ensures
            !final(self).mapped,
            final(self).firmware == old(self).firmware,
    {
        self.mapped = false;
    }

    /// True while the boot ROM overlay is mapped for CPU reads.
    pub fn is_mapped(&self) -> (r: bool)
        ensures
            r == self.mapped,
    {
        self.mapped
    }

    /// Byte from the active overlay, if any, for `addr`.
    pub fn overlay_byte(&self, addr: u16) -> (r: Option<u8>)
        ensures
            r == self.spec_overlay_byte(addr),
    {
        if !self.mapped {
            return None;
        }
        match &self.firmware {
            None => None,
            Some(BootFirmware::Dmg(rom)) => if addr <= 0x00FF { Some(rom[addr as usize]) } else { None },
            Some(BootFirmware::Cgb(rom)) => cgb_boot_byte(rom, addr),
        }
    }
}

impl Default for BootRom {
    fn default() -> (b: Self)
        ensures
            b.firmware is None,
            !b.mapped,
    {
        Self::new()
    }
}

/// Once unmapped, the overlay supplies no byte anywhere; the CGB overlay
/// never covers the cartridge header window `$0100–$01FF`.
pub proof fn lemma_overlay_coverage(b: BootRom, addr: u16)
    ensures
        !b.mapped ==> b.spec_overlay_byte(addr) is None,
        0x100 <= addr < 0x200 ==> b.spec_overlay_byte(addr) is None,
        addr >= 0x900 ==> b.spec_overlay_byte(addr) is None,
{
}

} // verus!
