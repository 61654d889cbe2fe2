//! I/O port behaviour of the bus, driven through the library's routing
//! (`io_read` / `io_write`) and the devices it routes to. Ports whose device
//! is not modelled here panic if a test reaches them.

use graycart::apu::pcm::{PCM12, PCM34};
use graycart::apu::{Apu, NR11, NR12, NR14, NR52};
use graycart::boot::{CgbExecutionMode, HardwareModel};
use graycart::bus::io::apply_unused_bits;
use graycart::bus::map::io_stored_value;
use graycart::bus::ports::{io_read, io_write, IoRead, IoWrite, FF72, FF74, FF75};
use graycart::bus::scratch::{ff74_locked, CgbScratch};

struct IoBus {
    model: HardwareModel,
    apu: Apu,
    scratch: CgbScratch,
    io: [u8; 0x80],
}

impl IoBus {
    fn new(model: HardwareModel) -> Self {
        IoBus { model, apu: Apu::new(), scratch: CgbScratch::new(), io: [0; 0x80] }
    }

    fn read8(&self, addr: u16) -> u8 {
        if let Some(v) = self.apu.read(addr) {
            return v;
        }
        match io_read(addr, self.model.cgb_mmio(), self.model.native_cgb()) {
            IoRead::Scratch => self.scratch.read(addr).unwrap_or(0xFF),
            IoRead::Ff74Locked => ff74_locked(),
            IoRead::Pcm12 => self.apu.pcm12(),
            IoRead::Pcm34 => self.apu.pcm34(),
            IoRead::Constant(v) => v,
            IoRead::Backing => apply_unused_bits(addr, self.io[(addr - 0xFF00) as usize]),
            other => panic!("{other:?} not modelled"),
        }
    }

    fn write8(&mut self, addr: u16, value: u8) {
        if self.apu.write(addr, value) {
            return;
        }
        match io_write(addr, self.model.cgb_mmio(), self.model.native_cgb()) {
            IoWrite::Scratch => self.scratch.write(addr, value),
            IoWrite::Ignored => {}
            IoWrite::Backing => self.io[(addr - 0xFF00) as usize] = io_stored_value(addr, value),
            other => panic!("{other:?} not modelled"),
        }
    }
}

fn native_cgb_bus() -> IoBus {
    IoBus::new(HardwareModel::Cgb { mode: CgbExecutionMode::NativeCgb })
}

#[test]
fn native_cgb_ff72_fully_rw() {
    let mut bus = native_cgb_bus();
    bus.write8(FF72, 0x00);
    assert_eq!(bus.read8(FF72), 0x00);
    bus.write8(FF72, 0xFF);
    assert_eq!(bus.read8(FF72), 0xFF);
}

#[test]
fn native_cgb_ff75_write_zero_reads_8f() {
    let mut bus = native_cgb_bus();
    bus.write8(FF75, 0x00);
    assert_eq!(bus.read8(FF75), 0x8F);
}

#[test]
fn native_cgb_pcm_writes_ignored_silent_reads_zero() {
    let mut bus = native_cgb_bus();
    bus.write8(PCM12, 0xFF);
    assert_eq!(bus.read8(PCM12), 0x00);
    bus.write8(PCM34, 0xFF);
    assert_eq!(bus.read8(PCM34), 0x00);
}

#[test]
fn native_cgb_pcm_follows_generators_until_power_off() {
    let mut bus = native_cgb_bus();
    bus.write8(NR52, 0x80);
    bus.write8(NR11, 0x40);
    bus.write8(NR12, 0xF0);
    bus.write8(NR14, 0x80);
    bus.write8(PCM12, 0xAA);
    assert_eq!(bus.read8(PCM12) & 0x0F, 0x0F, "Native PCM12 tracks CH1");
    bus.write8(NR52, 0x00);
    assert_eq!(bus.read8(PCM12), 0x00);
    assert_eq!(bus.read8(PCM34), 0x00);
}

#[test]
fn native_cgb_ff71_and_ff78_stay_unmapped() {
    let mut bus = native_cgb_bus();
    bus.write8(0xFF71, 0x00);
    assert_eq!(bus.read8(0xFF71), 0xFF);
    bus.write8(0xFF78, 0x00);
    assert_eq!(bus.read8(0xFF78), 0xFF);
    bus.write8(0xFF7F, 0x00);
    assert_eq!(bus.read8(0xFF7F), 0xFF);
}

#[test]
fn dmg_ff72_stays_unmapped() {
    let mut bus = IoBus::new(HardwareModel::Dmg);
    assert_eq!(bus.read8(FF72), 0xFF);
    bus.write8(FF72, 0x00);
    assert_eq!(bus.read8(FF72), 0xFF);
}

#[test]
fn dmg_compatibility_ff72_rw_ff74_locked() {
    let mut bus = IoBus::new(HardwareModel::Cgb { mode: CgbExecutionMode::DmgCompatibility });
    assert_eq!(bus.read8(FF72), 0x00);
    bus.write8(FF72, 0x5A);
    assert_eq!(bus.read8(FF72), 0x5A);
    assert_eq!(bus.read8(FF74), 0xFF);
    bus.write8(FF74, 0x00);
    assert_eq!(bus.read8(FF74), 0xFF);
}

#[test]
fn if_register_keeps_five_flag_bits_and_reads_top_bits_set() {
    let mut bus = IoBus::new(HardwareModel::Dmg);
    bus.write8(0xFF0F, 0xFF);
    assert_eq!(bus.read8(0xFF0F), 0xFF);
    bus.write8(0xFF0F, 0x04);
    assert_eq!(bus.read8(0xFF0F), 0xE4);
}
