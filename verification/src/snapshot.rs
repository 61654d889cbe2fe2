//! Plain save-state records for the CPU, cartridge mappers and audio channels.
//!
//! Each component converts to and from its record; the records hold only
//! integers and flags so they can be written out by the host.

use vstd::prelude::*;

verus! {

/// CPU registers and interrupt-enable pipeline.
#[derive(Debug, Clone, Copy, PartialEq, Eq)]
pub struct CpuStateV1 {
    pub a: u8,
    pub f: u8,
    pub b: u8,
    pub c: u8,
    pub d: u8,
    pub e: u8,
    pub h: u8,
    pub l: u8,
    pub sp: u16,
    pub pc: u16,
    pub ime: bool,
    pub ime_enable_pending: bool,
    pub ime_enable_armed: bool,
    pub halted: bool,
}


/// MBC1 banking registers.
#[derive(Debug, Clone, Copy, PartialEq, Eq)]
pub struct Mbc1StateV1 {
    pub rom_bank: u8,
    pub ram_bank: u8,
    pub ram_enable: bool,
    pub mode: u8,
}

/// MBC2 banking registers.
#[derive(Debug, Clone, Copy, PartialEq, Eq)]
pub struct Mbc2StateV1 {
    pub rom_bank: u8,
    pub ram_enable: bool,
}

/// MBC3 real-time clock registers and latch.
#[derive(Debug, Clone, Copy, PartialEq, Eq)]
pub struct RtcStateV1 {
    pub s: u8,
    pub m: u8,
    pub h: u8,
    pub dl: u8,
    pub dh: u8,
    pub latched: [u8; 5],
    pub latch_prev: u8,
    pub cycle_accum: u64,
    pub unix_secs: u64,
}

/// MBC3 banking registers and clock.
#[derive(Debug, Clone, Copy, PartialEq, Eq)]
pub struct Mbc3StateV1 {
    pub rom_bank: u8,
    pub ram_bank: u8,
    pub ram_enable: bool,
    pub rtc_reg: u8,
    pub rtc: RtcStateV1,
}

/// MBC5 banking registers.
#[derive(Debug, Clone, Copy, PartialEq, Eq)]
pub struct Mbc5StateV1 {
    pub rom_bank_low: u8,
    pub rom_bank_high: u8,
    pub ram_bank: u8,
    pub ram_enable: bool,
}

/// Mapper registers by controller kind.
#[derive(Debug, Clone, Copy, PartialEq, Eq)]
pub enum MapperStateV1 {
    RomOnly,
    Mbc1(Mbc1StateV1),
    Mbc2(Mbc2StateV1),
    Mbc3(Mbc3StateV1),
    Mbc5(Mbc5StateV1),
}

/// Pulse channel (CH1/CH2) generator state.
#[derive(Debug, Clone, Copy, PartialEq, Eq)]
pub struct SquareStateV1 {
    pub enabled: bool,
    pub dac_on: bool,
    pub length: u8,
    pub length_enable: bool,
    pub duty: u8,
    pub envelope_volume: u8,
    pub envelope_dir: bool,
    pub envelope_period: u8,
    pub envelope_timer: u8,
    pub frequency: u16,
    pub frequency_timer: u16,
    pub duty_pos: u8,
}

/// Channel 1: pulse state plus the NR10 sweep unit.
#[derive(Debug, Clone, Copy, PartialEq, Eq)]
pub struct Ch1StateV1 {
    pub square: SquareStateV1,
    pub sweep_period: u8,
    pub sweep_negate: bool,
    pub sweep_shift: u8,
    pub sweep_timer: u8,
    pub sweep_enable: bool,
}

/// Wave channel (CH3) state; wave RAM is stored separately.
#[derive(Debug, Clone, Copy, PartialEq, Eq)]
pub struct WaveStateV1 {
    pub dac_on: bool,
    pub length: u8,
    pub length_enable: bool,
    pub volume_code: u8,
    pub frequency: u16,
    pub frequency_timer: u16,
    pub pos_nib: u8,
}

/// Noise channel (CH4) state.
#[derive(Debug, Clone, Copy, PartialEq, Eq)]
pub struct NoiseStateV1 {
    pub enabled: bool,
    pub dac_on: bool,
    pub length: u8,
    pub length_enable: bool,
    pub envelope_volume: u8,
    pub envelope_dir: bool,
    pub envelope_period: u8,
    pub envelope_timer: u8,
    pub clock_shift: u8,
    pub width_mode: bool,
    pub divisor_code: u8,
    pub lfsr: u16,
    pub timer: u16,
}

/// APU registers and channel state. The host audio clock (sample phase) is
/// not part of the APU and is saved beside this record.
#[derive(Debug, Clone, Copy, PartialEq, Eq)]
pub struct ApuStateV1 {
    pub powered: bool,
    pub frame_seq_step: u8,
    pub ch1: Ch1StateV1,
    pub ch2: SquareStateV1,
    pub ch3: WaveStateV1,
    pub ch4: NoiseStateV1,
    pub nr50: u8,
    pub nr51: u8,
    pub wave_ram: [u8; 16],
}

} // verus!
