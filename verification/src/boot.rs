//! Boot / startup modes and the fast-boot hand-off.
//!
//! - [`BootMode::Fast`] — jump straight to the known post-boot state (`$0100`):
//!   the model's CPU registers plus the hand-off writes of [`fast_handoff`].
//! - [`BootMode::BootRom`] — power-on CPU at `$0000` with the boot-ROM overlay enabled
//!   by the caller; firmware runs in the normal frame loop.

use vstd::prelude::*;
use crate::cpu::registers::{Cpu, CpuView, boot_view, zero_view};
use crate::bus::ports::{BGPI, OBPI};

verus! {

/// How CGB silicon runs the inserted cartridge.
#[derive(Debug, Clone, Copy, PartialEq, Eq, Structural)]
pub enum CgbExecutionMode {
    NativeCgb,
    DmgCompatibility,
}

/// Console model the machine emulates.
#[derive(Debug, Clone, Copy, PartialEq, Eq, Structural)]
pub enum HardwareModel {
    Dmg,
    Cgb { mode: CgbExecutionMode },
}

impl HardwareModel {
    /// CGB memory map (VRAM/WRAM banking, palette ports) present.
    pub fn cgb_mmio(self) -> (r: bool)
        ensures
            r == (self is Cgb),
    {
        match self {
            HardwareModel::Dmg => false,
            HardwareModel::Cgb { .. } => true,
        }
    }

    /// CGB silicon running in CGB mode (CGB-only ports live).
    pub fn native_cgb(self) -> (r: bool)
        ensures
            r == (self == HardwareModel::Cgb { mode: CgbExecutionMode::NativeCgb }),
    {
        match self {
            HardwareModel::Cgb { mode: CgbExecutionMode::NativeCgb } => true,
            _ => false,
        }
    }
}

/// LCD control (`$FF40`).
pub const LCDC: u16 = 0xFF40;
/// Background scroll Y (`$FF42`).
pub const SCY: u16 = 0xFF42;
/// DMG background palette (`$FF47`).
pub const BGP: u16 = 0xFF47;
/// LCDC as the boot ROM leaves it: LCD and background on, tiles at `$8000`.
pub const LCDC_AFTER_BOOT: u8 = 0x91;
/// BGP as the boot ROM leaves it.
pub const BGP_AFTER_BOOT: u8 = 0xFC;

/// One hand-off action of a fast boot, in order.
#[derive(Debug, Clone, Copy, PartialEq, Eq, Structural)]
pub enum Handoff {
    /// CPU write of `value` to I/O port `addr`.
    Write { addr: u16, value: u8 },
    /// APU registers as after boot (Pan Docs power-up values).
    ApuAfterBoot,
    /// CGB background palettes all white.
    FillBgWhite,
    /// CGB palettes as the compatibility gray ramp.
    FillCompatGrayRamp,
    /// Write and lock KEY0 with `value`.
    LockKey0 { value: u8 },
    /// Object priority mode (OPRI).
    SetOpri { value: u8 },
}

/// CPU registers a boot path starts from.
pub open spec fn spec_boot_cpu(mode: BootMode, model: HardwareModel) -> CpuView {
    match mode {
        BootMode::BootRom => zero_view(),
        BootMode::Fast => match model {
            HardwareModel::Dmg => boot_view(0x01, 0xB0, 0x00, 0x13, 0x00, 0xD8, 0x01, 0x4D),
            HardwareModel::Cgb { mode: CgbExecutionMode::NativeCgb } => boot_view(
                0x11, 0x80, 0x00, 0x00, 0xFF, 0x56, 0x00, 0x0D),
            HardwareModel::Cgb { mode: CgbExecutionMode::DmgCompatibility } => boot_view(
                0x11, 0x80, 0x00, 0x00, 0x00, 0x08, 0x00, 0x7C),
        },
    }
}

/// Hand-off shared by every model: LCD registers, APU, and IF with VBlank pending.
pub open spec fn spec_shared_handoff() -> Seq<Handoff> {
    seq![
        Handoff::Write { addr: SCY, value: 0 },
        Handoff::Write { addr: BGP, value: BGP_AFTER_BOOT },
        Handoff::Write { addr: LCDC, value: LCDC_AFTER_BOOT },
        Handoff::ApuAfterBoot,
        Handoff::Write { addr: 0xFF0F, value: 0xE1 },
    ]
}

/// Hand-off of a fast boot for `model`; `cgb_byte` is header byte `$0143`.
pub open spec fn spec_fast_handoff(model: HardwareModel, cgb_byte: u8) -> Seq<Handoff> {
    match model {
        HardwareModel::Dmg => spec_shared_handoff(),
        HardwareModel::Cgb { mode: CgbExecutionMode::NativeCgb } => spec_shared_handoff() + seq![
            Handoff::FillBgWhite,
            Handoff::LockKey0 { value: cgb_byte },
            Handoff::SetOpri { value: 0 },
            Handoff::Write { addr: 0xFF00, value: 0x30 },
            Handoff::Write { addr: BGPI, value: 0xC8 },
            Handoff::Write { addr: OBPI, value: 0xD0 },
        ],
        HardwareModel::Cgb { mode: CgbExecutionMode::DmgCompatibility } => spec_shared_handoff() + seq![
            Handoff::FillCompatGrayRamp,
            Handoff::LockKey0 { value: 0x04 },
            Handoff::SetOpri { value: 1 },
            Handoff::Write { addr: 0xFF00, value: 0x30 },
            Handoff::Write { addr: BGPI, value: 0xC8 },
            Handoff::Write { addr: OBPI, value: 0xD0 },
        ],
    }
}

/// CPU registers a boot path starts from: power-on for the boot ROM, the
/// model's post-boot values for a fast boot.
pub fn boot_cpu(mode: BootMode, model: HardwareModel) -> (cpu: Cpu)
    ensures
        cpu@ == spec_boot_cpu(mode, model),
{
    match mode {
        BootMode::BootRom => Cpu::new(),
        BootMode::Fast => match model {
            HardwareModel::Dmg => Cpu::after_boot(),
            HardwareModel::Cgb { mode: CgbExecutionMode::NativeCgb } => Cpu::after_boot_cgb(),
            HardwareModel::Cgb { mode: CgbExecutionMode::DmgCompatibility } => Cpu::after_boot_cgb_compat(),
        },
    }
}

/// Machine hand-off a fast boot performs after loading the CPU registers
/// (Pan Docs power-up sequence; CGB values from the boot_hwio tests).
pub fn fast_handoff(model: HardwareModel, cgb_byte: u8) -> (r: Vec<Handoff>)
    ensures
        r@ == spec_fast_handoff(model, cgb_byte),
{
    let mut r: Vec<Handoff> = Vec::new();
    r.push(Handoff::Write { addr: SCY, value: 0 });
    r.push(Handoff::Write { addr: BGP, value: BGP_AFTER_BOOT });
    r.push(Handoff::Write { addr: LCDC, value: LCDC_AFTER_BOOT });
    r.push(Handoff::ApuAfterBoot);
    r.push(Handoff::Write { addr: 0xFF0F, value: 0xE1 });
    match model {
        HardwareModel::Dmg => {},
        HardwareModel::Cgb { mode: CgbExecutionMode::NativeCgb } => {
            r.push(Handoff::FillBgWhite);
            r.push(Handoff::LockKey0 { value: cgb_byte });
            r.push(Handoff::SetOpri { value: 0 });
            r.push(Handoff::Write { addr: 0xFF00, value: 0x30 });
            r.push(Handoff::Write { addr: BGPI, value: 0xC8 });
            r.push(Handoff::Write { addr: OBPI, value: 0xD0 });
        },
        HardwareModel::Cgb { mode: CgbExecutionMode::DmgCompatibility } => {
            r.push(Handoff::FillCompatGrayRamp);
            r.push(Handoff::LockKey0 { value: 0x04 });
            r.push(Handoff::SetOpri { value: 1 });
            r.push(Handoff::Write { addr: 0xFF00, value: 0x30 });
            r.push(Handoff::Write { addr: BGPI, value: 0xC8 });
            r.push(Handoff::Write { addr: OBPI, value: 0xD0 });
        },
    }
    assert(r@ =~= spec_fast_handoff(model, cgb_byte));
    r
}

/// How the emulator reaches cartridge entry at `$0100`.
#[derive(Debug, Clone, Copy, PartialEq, Eq, Structural)]
pub enum BootMode {
    /// Direct post-boot CPU/MMIO snapshot (debug / conformance / `--skip-boot`).
    Fast,
    /// Real boot-ROM overlay; CPU starts at power-on (`$0000`).
    BootRom,
}

impl BootMode {
    pub fn label(self) -> (r: &'static str)
        ensures
            r@ == match self {
                BootMode::Fast => "skip (post-boot state)"@,
                BootMode::BootRom => "boot ROM"@,
            },
    {
        match self {
            Self::Fast => "skip (post-boot state)",
            Self::BootRom => "boot ROM",
        }
    }
}

} // verus!
