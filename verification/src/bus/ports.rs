//! Routing of CPU accesses to the `$FF00`–`$FF7F` I/O ports that the joypad,
//! timer, APU and PPU did not claim, by hardware model.
//!
//! CGB-only ports answer only where the model maps them: on DMG they are open
//! bus, and several of them exist on CGB silicon in native CGB mode alone.

use vstd::prelude::*;
use super::io::{is_unmapped, spec_is_unmapped};
use super::wram::SVBK;
use crate::apu::pcm::{PCM12, PCM34};

verus! {

pub const KEY0: u16 = 0xFF4C;
pub const KEY1: u16 = 0xFF4D;
pub const VBK: u16 = 0xFF4F;
pub const BOOT_DISABLE: u16 = 0xFF50;
pub const HDMA1: u16 = 0xFF51;
pub const HDMA2: u16 = 0xFF52;
pub const HDMA3: u16 = 0xFF53;
pub const HDMA4: u16 = 0xFF54;
pub const HDMA5: u16 = 0xFF55;
pub const BGPI: u16 = 0xFF68;
pub const BGPD: u16 = 0xFF69;
pub const OBPI: u16 = 0xFF6A;
pub const OBPD: u16 = 0xFF6B;
pub const OPRI: u16 = 0xFF6C;
pub const FF72: u16 = 0xFF72;
pub const FF73: u16 = 0xFF73;
pub const FF74: u16 = 0xFF74;
pub const FF75: u16 = 0xFF75;

/// What answers a CPU read of an I/O port.
#[derive(Debug, Clone, Copy, PartialEq, Eq, Structural)]
pub enum IoRead {
    Bgpi,
    Bgpd,
    Obpi,
    Obpd,
    Key0,
    Key1,
    Opri,
    /// CGB scratch register `$FF72`–`$FF75`.
    Scratch,
    /// `$FF74` outside native CGB mode.
    Ff74Locked,
    Pcm12,
    Pcm34,
    Hdma5,
    Vbk,
    Svbk,
    /// A fixed value.
    Constant(u8),
    /// The I/O backing store with unused bits read as one.
    Backing,
}

/// What a CPU write to an I/O port reaches.
#[derive(Debug, Clone, Copy, PartialEq, Eq, Structural)]
pub enum IoWrite {
    /// `$FF50`: stored, and a non-zero value unmaps the boot ROM.
    BootDisable,
    Bgpi,
    Bgpd,
    Obpi,
    Obpd,
    Key0,
    Key1,
    Opri,
    Scratch,
    HdmaSourceHigh,
    HdmaSourceLow,
    HdmaDestHigh,
    HdmaDestLow,
    /// `$FF55`: starts (or stops) a VRAM DMA.
    HdmaStart,
    Vbk,
    Svbk,
    /// Dropped.
    Ignored,
    /// Stored in the I/O backing store; `$FF01` also feeds the serial capture.
    Backing,
}

pub open spec fn spec_io_read(addr: u16, cgb_memory: bool, native_cgb: bool) -> IoRead {
    if cgb_memory && addr == BGPI {
        IoRead::Bgpi
    } else if cgb_memory && addr == BGPD && native_cgb {
        IoRead::Bgpd
    } else if cgb_memory && addr == OBPI {
        IoRead::Obpi
    } else if cgb_memory && addr == OBPD && native_cgb {
        IoRead::Obpd
    } else if cgb_memory && addr == KEY0 && native_cgb {
        IoRead::Key0
    } else if cgb_memory && addr == KEY1 && native_cgb {
        IoRead::Key1
    } else if cgb_memory && addr == OPRI && native_cgb {
        IoRead::Opri
    } else if cgb_memory && (addr == FF72 || addr == FF73 || addr == FF75) {
        IoRead::Scratch
    } else if cgb_memory && addr == FF74 {
        if native_cgb { IoRead::Scratch } else { IoRead::Ff74Locked }
    } else if cgb_memory && addr == PCM12 {
        if native_cgb { IoRead::Pcm12 } else { IoRead::Constant(0x00) }
    } else if cgb_memory && addr == PCM34 {
        if native_cgb { IoRead::Pcm34 } else { IoRead::Constant(0x00) }
    } else if native_cgb && HDMA1 <= addr <= HDMA4 {
        IoRead::Constant(0xFF)
    } else if native_cgb && addr == HDMA5 {
        IoRead::Hdma5
    } else if spec_is_unmapped(addr) || addr == BOOT_DISABLE {
        IoRead::Constant(0xFF)
    } else if addr == VBK {
        if cgb_memory { IoRead::Vbk } else { IoRead::Constant(0xFF) }
    } else if addr == SVBK {
        if native_cgb { IoRead::Svbk } else { IoRead::Constant(0xFF) }
    } else {
        IoRead::Backing
    }
}

/// Source of a CPU read of I/O port `addr` under the given model flags
/// (`cgb_memory`: CGB memory map; `native_cgb`: CGB silicon in CGB mode).
pub fn io_read(addr: u16, cgb_memory: bool, native_cgb: bool) -> (r: IoRead)
    ensures
        r == spec_io_read(addr, cgb_memory, native_cgb),
{
    if cgb_memory {
        if addr == BGPI {
            return IoRead::Bgpi;
        }
        if addr == BGPD && native_cgb {
            return IoRead::Bgpd;
        }
        if addr == OBPI {
            return IoRead::Obpi;
        }
        if addr == OBPD && native_cgb {
            return IoRead::Obpd;
        }
        if addr == KEY0 && native_cgb {
            return IoRead::Key0;
        }
        if addr == KEY1 && native_cgb {
            return IoRead::Key1;
        }
        if addr == OPRI && native_cgb {
            return IoRead::Opri;
        }
        if addr == FF72 || addr == FF73 || addr == FF75 {
            return IoRead::Scratch;
        }
        if addr == FF74 {
            return if native_cgb { IoRead::Scratch } else { IoRead::Ff74Locked };
        }
        if addr == PCM12 {
            return if native_cgb { IoRead::Pcm12 } else { IoRead::Constant(0x00) };
        }
        if addr == PCM34 {
            return if native_cgb { IoRead::Pcm34 } else { IoRead::Constant(0x00) };
        }
    }
    if native_cgb {
        if HDMA1 <= addr && addr <= HDMA4 {
            return IoRead::Constant(0xFF);
        }
        if addr == HDMA5 {
            return IoRead::Hdma5;
        }
    }
    if is_unmapped(addr) || addr == BOOT_DISABLE {
        return IoRead::Constant(0xFF);
    }
    if addr == VBK {
        return if cgb_memory { IoRead::Vbk } else { IoRead::Constant(0xFF) };
    }
    if addr == SVBK {
        return if native_cgb { IoRead::Svbk } else { IoRead::Constant(0xFF) };
    }
    IoRead::Backing
}

pub open spec fn spec_io_write(addr: u16, cgb_memory: bool, native_cgb: bool) -> IoWrite {
    if addr == BOOT_DISABLE {
        IoWrite::BootDisable
    } else if cgb_memory && addr == BGPI {
        IoWrite::Bgpi
    } else if cgb_memory && addr == BGPD && native_cgb {
        IoWrite::Bgpd
    } else if cgb_memory && addr == OBPI {
        IoWrite::Obpi
    } else if cgb_memory && addr == OBPD && native_cgb {
        IoWrite::Obpd
    } else if cgb_memory && addr == KEY0 && native_cgb {
        IoWrite::Key0
    } else if cgb_memory && addr == KEY1 && native_cgb {
        IoWrite::Key1
    } else if cgb_memory && addr == OPRI && native_cgb {
        IoWrite::Opri
    } else if cgb_memory && (addr == FF72 || addr == FF73 || addr == FF75) {
        IoWrite::Scratch
    } else if cgb_memory && addr == FF74 {
        if native_cgb { IoWrite::Scratch } else { IoWrite::Ignored }
    } else if cgb_memory && (addr == PCM12 || addr == PCM34) {
        IoWrite::Ignored
    } else if native_cgb && addr == HDMA1 {
        IoWrite::HdmaSourceHigh
    } else if native_cgb && addr == HDMA2 {
        IoWrite::HdmaSourceLow
    } else if native_cgb && addr == HDMA3 {
        IoWrite::HdmaDestHigh
    } else if native_cgb && addr == HDMA4 {
        IoWrite::HdmaDestLow
    } else if native_cgb && addr == HDMA5 {
        IoWrite::HdmaStart
    } else if spec_is_unmapped(addr) {
        IoWrite::Ignored
    } else if addr == VBK {
        if cgb_memory { IoWrite::Vbk } else { IoWrite::Ignored }
    } else if addr == SVBK {
        if native_cgb { IoWrite::Svbk } else { IoWrite::Ignored }
    } else {
        IoWrite::Backing
    }
}

/// Target of a CPU write to I/O port `addr` under the given model flags.
pub fn io_write(addr: u16, cgb_memory: bool, native_cgb: bool) -> (r: IoWrite)
    ensures
        r == spec_io_write(addr, cgb_memory, native_cgb),
{
    if addr == BOOT_DISABLE {
        return IoWrite::BootDisable;
    }
    if cgb_memory {
        if addr == BGPI {
            return IoWrite::Bgpi;
        }
        if addr == BGPD && native_cgb {
            return IoWrite::Bgpd;
        }
        if addr == OBPI {
            return IoWrite::Obpi;
        }
        if addr == OBPD && native_cgb {
            return IoWrite::Obpd;
        }
        if addr == KEY0 && native_cgb {
            return IoWrite::Key0;
        }
        if addr == KEY1 && native_cgb {
            return IoWrite::Key1;
        }
        if addr == OPRI && native_cgb {
            return IoWrite::Opri;
        }
        if addr == FF72 || addr == FF73 || addr == FF75 {
            return IoWrite::Scratch;
        }
        if addr == FF74 {
            return if native_cgb { IoWrite::Scratch } else { IoWrite::Ignored };
        }
        if addr == PCM12 || addr == PCM34 {
            return IoWrite::Ignored;
        }
    }
    if native_cgb {
        if addr == HDMA1 {
            return IoWrite::HdmaSourceHigh;
        }
        if addr == HDMA2 {
            return IoWrite::HdmaSourceLow;
        }
        if addr == HDMA3 {
            return IoWrite::HdmaDestHigh;
        }
        if addr == HDMA4 {
            return IoWrite::HdmaDestLow;
        }
        if addr == HDMA5 {
            return IoWrite::HdmaStart;
        }
    }
    if is_unmapped(addr) {
        return IoWrite::Ignored;
    }
    if addr == VBK {
        return if cgb_memory { IoWrite::Vbk } else { IoWrite::Ignored };
    }
    if addr == SVBK {
        return if native_cgb { IoWrite::Svbk } else { IoWrite::Ignored };
    }
    IoWrite::Backing
}

/// On DMG (no CGB memory map) every CGB-only port is open bus: it reads `$FF`
/// and drops writes.
pub proof fn lemma_dmg_cgb_ports_open_bus(addr: u16)
    requires
        addr == KEY0 || addr == KEY1 || addr == VBK || (HDMA1 <= addr <= HDMA5)
            || (BGPI <= addr <= OPRI) || addr == SVBK || (FF72 <= addr <= PCM34),
    ensures
        spec_io_read(addr, false, false) == IoRead::Constant(0xFF),
        spec_io_write(addr, false, false) == IoWrite::Ignored,
{
}

} // verus!
