//! Audio processing unit channel logic: frame sequencer, pulse, wave and
//! noise generators, PCM read-back, the NR50/NR51 routing registers and the
//! register file that ties them together (Pan Docs, Audio).
//!
//! Host sample generation (floating-point mixing and resampling) runs
//! outside the library on top of the digital state kept here.

pub mod envelope;
pub mod frame_sequencer;
pub mod mixer;
pub mod noise;
pub mod pcm;
pub mod sample_buffer;
pub mod square;
pub mod wave;

use vstd::prelude::*;
use frame_sequencer::{FrameEvents, FrameSequencer};
use mixer::Mixer;
use noise::NoiseChannel;
use square::{Channel1, SquareChannel};
use wave::{WAVE_RAM_START, WaveChannel};
use crate::snapshot::ApuStateV1;

verus! {

/// CPU clocks per second (DMG).
pub const CPU_HZ: u32 = 4_194_304;

pub const NR10: u16 = 0xFF10;
pub const NR11: u16 = 0xFF11;
pub const NR12: u16 = 0xFF12;
pub const NR13: u16 = 0xFF13;
pub const NR14: u16 = 0xFF14;
pub const NR21: u16 = 0xFF16;
pub const NR22: u16 = 0xFF17;
pub const NR23: u16 = 0xFF18;
pub const NR24: u16 = 0xFF19;
pub const NR30: u16 = 0xFF1A;
pub const NR31: u16 = 0xFF1B;
pub const NR32: u16 = 0xFF1C;
pub const NR33: u16 = 0xFF1D;
pub const NR34: u16 = 0xFF1E;
pub const NR41: u16 = 0xFF20;
pub const NR42: u16 = 0xFF21;
pub const NR43: u16 = 0xFF22;
pub const NR44: u16 = 0xFF23;
pub const NR50: u16 = 0xFF24;
pub const NR51: u16 = 0xFF25;
pub const NR52: u16 = 0xFF26;

/// Last wave RAM address.
pub const WAVE_RAM_END: u16 = 0xFF3F;

/// Digital state of the APU: power, frame sequencer, four generators and routing.
pub struct Apu {
    pub powered: bool,
    pub sequencer: FrameSequencer,
    pub ch1: Channel1,
    pub ch2: SquareChannel,
    pub ch3: WaveChannel,
    pub ch4: NoiseChannel,
    pub mixer: Mixer,
}

/// Channel 1 after the post-boot register load.
pub open spec fn spec_ch1_after_boot() -> Channel1 {
    let c = Channel1::spec_new().spec_write_nr10(0x80);
    let c2 = Channel1 { pulse: c.pulse.spec_write_nrx1(0xBF).spec_write_nrx2(0xF3).spec_write_nrx3(0xFF), ..c };
    c2.spec_write_nr14(0xBF)
}

/// Channels after one frame-sequencer step's clocks.
pub open spec fn spec_apply_event(a: Apu, ev: FrameEvents) -> Apu {
    let a1 = if ev.length {
        Apu {
            ch1: Channel1 { pulse: a.ch1.pulse.spec_clock_length(), ..a.ch1 },
            ch2: a.ch2.spec_clock_length(),
            ch3: a.ch3.spec_clock_length(),
            ch4: a.ch4.spec_clock_length(),
            ..a
        }
    } else {
        a
    };
    let a2 = if ev.envelope {
        Apu {
            ch1: Channel1 { pulse: a1.ch1.pulse.spec_clock_envelope(), ..a1.ch1 },
            ch2: a1.ch2.spec_clock_envelope(),
            ch4: a1.ch4.spec_clock_envelope(),
            ..a1
        }
    } else {
        a1
    };
    if ev.sweep { Apu { ch1: a2.ch1.spec_clock_sweep(), ..a2 } } else { a2 }
}

/// Channels after the clocks of `evs`, in order.
pub open spec fn spec_apply_events(a: Apu, evs: Seq<FrameEvents>) -> Apu
    decreases evs.len(),
{
    if evs.len() == 0 {
        a
    } else {
        spec_apply_event(spec_apply_events(a, evs.drop_last()), evs.last())
    }
}

/// Debug view of one channel.
#[derive(Debug, Clone, Copy, PartialEq, Eq)]
pub struct ChannelDebug {
    pub active: bool,
    pub dac: bool,
    pub volume: u8,
    /// Period value (square and wave), or NR43 for noise.
    pub frequency: u16,
    /// Duty index for the square channels.
    pub duty: Option<u8>,
}

/// Debug view of the APU registers and channels (the host adds its sample
/// statistics).
#[derive(Debug, Clone, Copy, PartialEq, Eq)]
pub struct ApuDebug {
    pub powered: bool,
    pub nr50: u8,
    pub nr51: u8,
    pub nr52: u8,
    pub ch1: ChannelDebug,
    pub ch2: ChannelDebug,
    pub ch3: ChannelDebug,
    pub ch4: ChannelDebug,
}

pub open spec fn square_debug(c: SquareChannel) -> ChannelDebug {
    ChannelDebug {
        active: c.enabled,
        dac: c.dac_enabled,
        volume: c.volume,
        frequency: c.spec_frequency(),
        duty: Some(c.nrx1 / 64),
    }
}

/// Record fields within the ranges the registers can hold (so that saving
/// after restoring gives the record back).
pub open spec fn apu_state_in_range(s: ApuStateV1) -> bool {
    &&& s.frame_seq_step < 8
    &&& square::ch1_state_in_range(s.ch1)
    &&& square::square_state_in_range(s.ch2)
    &&& wave::wave_state_in_range(s.ch3)
    &&& noise::noise_state_in_range(s.ch4)
}

impl Apu {
    /// Generator positions index their waveforms; the sequencer timer is
    /// below one step.
    pub open spec fn wf(self) -> bool {
        &&& self.sequencer.timer_view() < 8192
        &&& self.ch1.pulse.duty_step < 8
        &&& self.ch2.duty_step < 8
        &&& self.ch3.position < 32
    }

    /// Same frame-sequencer position as `other`.
    pub open spec fn same_sequencer(self, other: Apu) -> bool {
        self.sequencer.timer_view() == other.sequencer.timer_view() && self.sequencer.step_view()
            == other.sequencer.step_view()
    }

    /// Channels and routing as after power-off (wave RAM kept).
    pub open spec fn spec_channels_off(self) -> Apu {
        Apu {
            powered: false,
            ch1: Channel1::spec_new(),
            ch2: SquareChannel::spec_new(),
            ch3: WaveChannel { wave_ram: self.ch3.wave_ram, ..WaveChannel::spec_new() },
            ch4: NoiseChannel::spec_new(),
            mixer: Mixer { nr50: 0, nr51: 0 },
            ..self
        }
    }

    /// NR52: power in bit 7, unused bits 4–6 as ones, channel-on flags in bits 0–3.
    pub open spec fn spec_nr52(self) -> u8 {
        (0x70 + (if self.powered { 0x80int } else { 0 }) + (if self.ch1.pulse.enabled { 1int } else { 0 })
            + (if self.ch2.enabled { 2int } else { 0 }) + (if self.ch3.enabled { 4int } else { 0 })
            + (if self.ch4.enabled { 8int } else { 0 })) as u8
    }

    /// Register read at `addr`; `None` for addresses the APU does not claim.
    pub open spec fn spec_read(self, addr: u16) -> Option<u8> {
        if WAVE_RAM_START <= addr <= WAVE_RAM_END {
            Some(self.ch3.wave_ram@[addr - WAVE_RAM_START])
        } else if addr == NR10 {
            Some(self.ch1.nr10 | 0x80)
        } else if addr == NR11 {
            Some(self.ch1.pulse.nrx1 | 0x3F)
        } else if addr == NR12 {
            Some(self.ch1.pulse.nrx2)
        } else if addr == NR14 {
            Some(self.ch1.pulse.nrx4 | 0xBF)
        } else if addr == NR21 {
            Some(self.ch2.nrx1 | 0x3F)
        } else if addr == NR22 {
            Some(self.ch2.nrx2)
        } else if addr == NR24 {
            Some(self.ch2.nrx4 | 0xBF)
        } else if addr == NR30 {
            Some(self.ch3.nr30 | 0x7F)
        } else if addr == NR32 {
            Some(self.ch3.nr32 | 0x9F)
        } else if addr == NR34 {
            Some(self.ch3.nr34 | 0xBF)
        } else if addr == NR42 {
            Some(self.ch4.nr42)
        } else if addr == NR43 {
            Some(self.ch4.nr43)
        } else if addr == NR44 {
            Some(self.ch4.nr44 | 0xBF)
        } else if addr == NR50 {
            Some(self.mixer.nr50)
        } else if addr == NR51 {
            Some(self.mixer.nr51)
        } else if addr == NR52 {
            Some(self.spec_nr52())
        } else if addr == NR13 || addr == 0xFF15 || addr == NR23 || addr == NR31 || addr == NR33 || addr == 0xFF1F
            || addr == NR41 {
            Some(0xFF)
        } else {
            None
        }
    }

    /// Register file after a powered write that is not wave RAM or NR52.
    pub open spec fn spec_write_powered(self, addr: u16, value: u8) -> (Apu, bool) {
        if addr == NR10 {
            (Apu { ch1: self.ch1.spec_write_nr10(value), ..self }, true)
        } else if addr == NR11 {
            (Apu { ch1: Channel1 { pulse: self.ch1.pulse.spec_write_nrx1(value), ..self.ch1 }, ..self }, true)
        } else if addr == NR12 {
            (Apu { ch1: Channel1 { pulse: self.ch1.pulse.spec_write_nrx2(value), ..self.ch1 }, ..self }, true)
        } else if addr == NR13 {
            (Apu { ch1: Channel1 { pulse: self.ch1.pulse.spec_write_nrx3(value), ..self.ch1 }, ..self }, true)
        } else if addr == NR14 {
            (Apu { ch1: self.ch1.spec_write_nr14(value), ..self }, true)
        } else if addr == NR21 {
            (Apu { ch2: self.ch2.spec_write_nrx1(value), ..self }, true)
        } else if addr == NR22 {
            (Apu { ch2: self.ch2.spec_write_nrx2(value), ..self }, true)
        } else if addr == NR23 {
            (Apu { ch2: self.ch2.spec_write_nrx3(value), ..self }, true)
        } else if addr == NR24 {
            (Apu { ch2: self.ch2.spec_write_nrx4(value), ..self }, true)
        } else if addr == NR30 {
            (Apu { ch3: self.ch3.spec_write_nr30(value), ..self }, true)
        } else if addr == NR31 {
            (Apu { ch3: self.ch3.spec_write_nr31(value), ..self }, true)
        } else if addr == NR32 {
            (Apu { ch3: self.ch3.spec_write_nr32(value), ..self }, true)
        } else if addr == NR33 {
            (Apu { ch3: self.ch3.spec_write_nr33(value), ..self }, true)
        } else if addr == NR34 {
            (Apu { ch3: self.ch3.spec_write_nr34(value), ..self }, true)
        } else if addr == NR41 {
            (Apu { ch4: self.ch4.spec_write_nr41(value), ..self }, true)
        } else if addr == NR42 {
            (Apu { ch4: self.ch4.spec_write_nr42(value), ..self }, true)
        } else if addr == NR43 {
            (Apu { ch4: self.ch4.spec_write_nr43(value), ..self }, true)
        } else if addr == NR44 {
            (Apu { ch4: self.ch4.spec_write_nr44(value), ..self }, true)
        } else if addr == NR50 {
            (Apu { mixer: Mixer { nr50: value, ..self.mixer }, ..self }, true)
        } else if addr == NR51 {
            (Apu { mixer: Mixer { nr51: value, ..self.mixer }, ..self }, true)
        } else {
            (self, addr == 0xFF15 || addr == 0xFF1F)
        }
    }

    pub fn new() -> (a: Self)
        ensures
            !a.powered,
            a.sequencer.timer_view() == 0 && a.sequencer.step_view() == 0,
            a.ch1 == Channel1::spec_new(),
            a.ch2 == SquareChannel::spec_new(),
            a.ch3 == WaveChannel::spec_new(),
            a.ch4 == NoiseChannel::spec_new(),
            a.mixer == (Mixer { nr50: 0, nr51: 0 }),
            a.wf(),
    {
        Self {
            powered: false,
            sequencer: FrameSequencer::new(),
            ch1: Channel1::new(),
            ch2: SquareChannel::new(),
            ch3: WaveChannel::new(),
            ch4: NoiseChannel::new(),
            mixer: Mixer::new(),
        }
    }

    /// Power-on reset (same defaults as [`Self::new`]).
    pub fn power_on_reset(&mut self)
        ensures
            !final(self).powered,
            final(self).sequencer.timer_view() == 0 && final(self).sequencer.step_view() == 0,
            final(self).ch1 == Channel1::spec_new(),
            final(self).ch2 == SquareChannel::spec_new(),
            final(self).ch3 == WaveChannel::spec_new(),
            final(self).ch4 == NoiseChannel::spec_new(),
            final(self).mixer == (Mixer { nr50: 0, nr51: 0 }),
            final(self).wf(),
    {
        *self = Self::new();
    }

    /// PCM12 (`$FF76`): CH1 digital in the low nibble, CH2 in the high nibble.
    pub fn pcm12(&self) -> (r: u8)
        requires
            self.wf(),
        ensures
            r == self.ch1.pulse.spec_digital_output() % 16 + 16 * (self.ch2.spec_digital_output() % 16),
    {
        pcm::pack_pcm(self.ch1.pulse.digital_output(), self.ch2.digital_output())
    }

    /// PCM34 (`$FF77`): CH3 digital in the low nibble, CH4 in the high nibble.
    pub fn pcm34(&self) -> (r: u8)
        ensures
            r == (if !self.ch3.enabled { 0 } else { self.ch3.spec_apply_level(self.ch3.sample_buffer) }) % 16
                + 16 * (self.ch4.spec_digital_output() % 16),
    {
        pcm::pack_pcm(self.ch3.digital_output(), self.ch4.digital_output())
    }

    pub fn read_nr52(&self) -> (r: u8)
        ensures
            r == self.spec_nr52(),
    {
        let mut v: u8 = 0x70; // unused bits read as 1
        if self.powered {
            v = v + 0x80;
        }
        if self.ch1.pulse.enabled() {
            v = v + 0x01;
        }
        if self.ch2.enabled() {
            v = v + 0x02;
        }
        if self.ch3.enabled() {
            v = v + 0x04;
        }
        if self.ch4.enabled() {
            v = v + 0x08;
        }
        v
    }

    pub fn read(&self, addr: u16) -> (r: Option<u8>)
        ensures
            r == self.spec_read(addr),
    {
        if WAVE_RAM_START <= addr && addr <= WAVE_RAM_END {
            return Some(self.ch3.read_wave(addr));
        }
        match addr {
            NR10 => Some(self.ch1.read_nr10()),
            NR11 => Some(self.ch1.pulse.read_nrx1()),
            NR12 => Some(self.ch1.pulse.read_nrx2()),
            NR13 => Some(0xFF), // write-only
            NR14 => Some(self.ch1.pulse.read_nrx4()),
            0xFF15 => Some(0xFF),
            NR21 => Some(self.ch2.read_nrx1()),
            NR22 => Some(self.ch2.read_nrx2()),
            NR23 => Some(0xFF), // write-only
            NR24 => Some(self.ch2.read_nrx4()),
            NR30 => Some(self.ch3.read_nr30()),
            NR31 => Some(0xFF), // write-only
            NR32 => Some(self.ch3.read_nr32()),
            NR33 => Some(0xFF), // write-only
            NR34 => Some(self.ch3.read_nr34()),
            0xFF1F => Some(0xFF),
            NR41 => Some(0xFF), // write-only
            NR42 => Some(self.ch4.read_nr42()),
            NR43 => Some(self.ch4.read_nr43()),
            NR44 => Some(self.ch4.read_nr44()),
            NR50 => Some(self.mixer.read_nr50()),
            NR51 => Some(self.mixer.read_nr51()),
            NR52 => Some(self.read_nr52()),
            _ => None,
        }
    }

    fn power_off(&mut self)
        ensures
            final(self).ch1 == old(self).spec_channels_off().ch1,
            final(self).ch2 == old(self).spec_channels_off().ch2,
            final(self).ch3 == old(self).spec_channels_off().ch3,
            final(self).ch4 == old(self).spec_channels_off().ch4,
            final(self).mixer == old(self).spec_channels_off().mixer,
            !final(self).powered,
            final(self).sequencer.timer_view() == 0 && final(self).sequencer.step_view() == 0,
            final(self).wf(),
    {
        self.powered = false;
        self.ch1.power_off();
        self.ch2.power_off();
        self.ch3.power_off();
        self.ch4.power_off();
        self.mixer.power_off();
        self.sequencer.reset();
    }

    /// NR52 write: clearing bit 7 powers everything off (wave RAM kept),
    /// setting it powers on with the frame sequencer reset.
    pub fn write_nr52(&mut self, value: u8)
        requires
            old(self).wf(),
        ensures
            final(self).wf(),
            final(self).powered == (value >= 0x80),
            value < 0x80 && old(self).powered ==> {
                &&& final(self).ch1 == old(self).spec_channels_off().ch1
                &&& final(self).ch2 == old(self).spec_channels_off().ch2
                &&& final(self).ch3 == old(self).spec_channels_off().ch3
                &&& final(self).ch4 == old(self).spec_channels_off().ch4
                &&& final(self).mixer == old(self).spec_channels_off().mixer
                &&& final(self).sequencer.timer_view() == 0 && final(self).sequencer.step_view() == 0
            },
            value >= 0x80 && !old(self).powered ==> final(self).sequencer.timer_view() == 0
                && final(self).sequencer.step_view() == 0,
            !(value < 0x80 && old(self).powered) ==> {
                &&& final(self).ch1 == old(self).ch1
                &&& final(self).ch2 == old(self).ch2
                &&& final(self).ch3 == old(self).ch3
                &&& final(self).ch4 == old(self).ch4
                &&& final(self).mixer == old(self).mixer
            },
            !(value < 0x80 && old(self).powered) && !(value >= 0x80 && !old(self).powered) ==> final(
                self).sequencer.timer_view() == old(self).sequencer.timer_view() && final(self).sequencer.step_view()
                == old(self).sequencer.step_view(),
    {
        let power: bool = value >= 0x80;
        if !power && self.powered {
            self.power_off();
        } else if power && !self.powered {
            self.powered = true;
            self.sequencer.reset();
        }
        self.powered = power;
    }

    /// Register write at `addr`; returns whether the APU claims the address.
    /// Wave RAM and NR52 are writable while powered off; other registers
    /// ignore writes then.
    pub fn write(&mut self, addr: u16, value: u8) -> (claimed: bool)
        requires
            old(self).wf(),
        ensures
            final(self).wf(),
            WAVE_RAM_START <= addr <= WAVE_RAM_END ==> {
                &&& claimed
                &&& final(self).ch3.wave_ram@ == old(self).ch3.wave_ram@.update(addr - WAVE_RAM_START, value)
                &&& final(self).ch3 == (WaveChannel { wave_ram: final(self).ch3.wave_ram, ..old(self).ch3 })
                &&& final(self).powered == old(self).powered
                &&& final(self).ch1 == old(self).ch1 && final(self).ch2 == old(self).ch2
                &&& final(self).ch4 == old(self).ch4 && final(self).mixer == old(self).mixer
                &&& final(self).same_sequencer(*old(self))
            },
            addr == NR52 ==> {
                let off = value < 0x80 && old(self).powered;
                let on = value >= 0x80 && !old(self).powered;
                &&& claimed
                &&& final(self).powered == (value >= 0x80)
                &&& (off || on) ==> final(self).sequencer.timer_view() == 0 && final(self).sequencer.step_view() == 0
                &&& !(off || on) ==> final(self).same_sequencer(*old(self))
                &&& final(self).ch1 == (if off { old(self).spec_channels_off().ch1 } else { old(self).ch1 })
                &&& final(self).ch2 == (if off { old(self).spec_channels_off().ch2 } else { old(self).ch2 })
                &&& final(self).ch3 == (if off { old(self).spec_channels_off().ch3 } else { old(self).ch3 })
                &&& final(self).ch4 == (if off { old(self).spec_channels_off().ch4 } else { old(self).ch4 })
                &&& final(self).mixer == (if off { old(self).spec_channels_off().mixer } else { old(self).mixer })
            },
            !(WAVE_RAM_START <= addr <= WAVE_RAM_END) && addr != NR52 && !old(self).powered ==> claimed == (0xFF10
                <= addr <= 0xFF26) && !final(self).powered && final(self).ch1 == old(self).ch1 && final(self).ch2
                == old(self).ch2 && final(self).ch3 == old(self).ch3 && final(self).ch4 == old(self).ch4
                && final(self).mixer == old(self).mixer && final(self).same_sequencer(*old(self)),
            !(WAVE_RAM_START <= addr <= WAVE_RAM_END) && addr != NR52 && old(self).powered ==> {
                let (a, c) = old(self).spec_write_powered(addr, value);
                &&& claimed == c
                &&& final(self).powered
                &&& final(self).ch1 == a.ch1
                &&& final(self).ch2 == a.ch2
                &&& final(self).ch3 == a.ch3
                &&& final(self).ch4 == a.ch4
                &&& final(self).mixer == a.mixer
                &&& final(self).same_sequencer(*old(self))
            },
    {
        // Wave RAM is accessible even while the APU is powered off.
        if WAVE_RAM_START <= addr && addr <= WAVE_RAM_END {
            self.ch3.write_wave(addr, value);
            return true;
        }
        if addr == NR52 {
            self.write_nr52(value);
            return true;
        }
        if !self.powered {
            // Only the NR52 power bit is writable while off (already handled).
            return 0xFF10 <= addr && addr <= 0xFF26;
        }
        match addr {
            NR10 => {
                self.ch1.write_nr10(value);
                true
            },
            NR11 => {
                self.ch1.pulse.write_nrx1(value);
                true
            },
            NR12 => {
                self.ch1.pulse.write_nrx2(value);
                true
            },
            NR13 => {
                self.ch1.pulse.write_nrx3(value);
                true
            },
            NR14 => {
                let next: bool = self.sequencer.next_frame_will_length();
                self.ch1.write_nr14(value, next);
                true
            },
            NR21 => {
                self.ch2.write_nrx1(value);
                true
            },
            NR22 => {
                self.ch2.write_nrx2(value);
                true
            },
            NR23 => {
                self.ch2.write_nrx3(value);
                true
            },
            NR24 => {
                let next: bool = self.sequencer.next_frame_will_length();
                self.ch2.write_nrx4(value, next);
                true
            },
            NR30 => {
                self.ch3.write_nr30(value);
                true
            },
            NR31 => {
                self.ch3.write_nr31(value);
                true
            },
            NR32 => {
                self.ch3.write_nr32(value);
                true
            },
            NR33 => {
                self.ch3.write_nr33(value);
                true
            },
            NR34 => {
                let next: bool = self.sequencer.next_frame_will_length();
                self.ch3.write_nr34(value, next);
                true
            },
            NR41 => {
                self.ch4.write_nr41(value);
                true
            },
            NR42 => {
                self.ch4.write_nr42(value);
                true
            },
            NR43 => {
                self.ch4.write_nr43(value);
                true
            },
            NR44 => {
                let next: bool = self.sequencer.next_frame_will_length();
                self.ch4.write_nr44(value, next);
                true
            },
            NR50 => {
                self.mixer.write_nr50(value);
                true
            },
            NR51 => {
                self.mixer.write_nr51(value);
                true
            },
            0xFF15 | 0xFF1F => true, // unused
            _ => false,
        }
    }

    /// Apply one frame-sequencer step's clocks to the channels.
    pub fn clock_frame_events(&mut self, ev: FrameEvents)
        requires
            old(self).wf(),
        ensures
            final(self).wf(),
            final(self).ch1 == spec_apply_event(*old(self), ev).ch1,
            final(self).ch2 == spec_apply_event(*old(self), ev).ch2,
            final(self).ch3 == spec_apply_event(*old(self), ev).ch3,
            final(self).ch4 == spec_apply_event(*old(self), ev).ch4,
            final(self).mixer == old(self).mixer,
            final(self).powered == old(self).powered,
            final(self).sequencer.timer_view() == old(self).sequencer.timer_view(),
            final(self).sequencer.step_view() == old(self).sequencer.step_view(),
    {
        if ev.length {
            self.ch1.pulse.clock_length();
            self.ch2.clock_length();
            self.ch3.clock_length();
            self.ch4.clock_length();
        }
        if ev.envelope {
            self.ch1.pulse.clock_envelope();
            self.ch2.clock_envelope();
            self.ch4.clock_envelope();
        }
        if ev.sweep {
            self.ch1.clock_sweep();
        }
    }

    /// Apply the clocks of `events`, in order.
    fn clock_all(&mut self, events: &Vec<FrameEvents>)
        requires
            old(self).wf(),
        ensures
            final(self).wf(),
            final(self).powered == old(self).powered,
            final(self).mixer == old(self).mixer,
            final(self).ch1 == spec_apply_events(*old(self), events@).ch1,
            final(self).ch2 == spec_apply_events(*old(self), events@).ch2,
            final(self).ch3 == spec_apply_events(*old(self), events@).ch3,
            final(self).ch4 == spec_apply_events(*old(self), events@).ch4,
            final(self).same_sequencer(*old(self)),
    {
        let ghost start = *self;
        let mut i: usize = 0;
        while i < events.len()
            invariant
                i <= events@.len(),
                self.wf(),
                self.powered == start.powered,
                self.mixer == start.mixer,
                self.ch1 == spec_apply_events(start, events@.take(i as int)).ch1,
                self.ch2 == spec_apply_events(start, events@.take(i as int)).ch2,
                self.ch3 == spec_apply_events(start, events@.take(i as int)).ch3,
                self.ch4 == spec_apply_events(start, events@.take(i as int)).ch4,
                self.same_sequencer(start),
                start == *old(self),
            decreases events@.len() - i,
        {
            let ev: FrameEvents = events[i];
            proof {
                assert(events@.take(i + 1).drop_last() =~= events@.take(i as int));
                assert(events@.take(i + 1).last() == ev);
                lemma_apply_event_only_channels(spec_apply_events(start, events@.take(i as int)), ev);
            }
            self.clock_frame_events(ev);
            i = i + 1;
        }
        assert(events@.take(events@.len() as int) =~= events@);
    }

    /// Digital part of one APU slice of `step` T-cycles (at most 64): frame
    /// sequencer clocks, then each generator advances. Returns the frame
    /// events that fired (the host mixes samples afterwards).
    pub fn step_channels(&mut self, step: u32) -> (events: Vec<FrameEvents>)
        requires
            old(self).wf(),
            step <= 64,
        ensures
            final(self).wf(),
            final(self).powered == old(self).powered,
            final(self).mixer == old(self).mixer,
            ({
                let clocked = spec_apply_events(*old(self), events@);
                &&& final(self).ch1 == Channel1 { pulse: clocked.ch1.pulse.spec_ticked(step), ..clocked.ch1 }
                &&& final(self).ch2 == clocked.ch2.spec_ticked(step)
                &&& final(self).ch3 == clocked.ch3.spec_ticked(step)
                &&& final(self).ch4 == clocked.ch4.spec_ticked(step)
            }),
            events@.len() == (old(self).sequencer.timer_view() + step) / 8192,
            final(self).sequencer.timer_view() == (old(self).sequencer.timer_view() + step) % 8192,
            final(self).sequencer.step_view() == (old(self).sequencer.step_view() + events@.len()) % 8,
            forall|i: int| 0 <= i < events@.len() ==> #[trigger] events@[i] == frame_sequencer::spec_events(
                (old(self).sequencer.step_view() + i) % 8),
    {
        let ghost start = *self;
        let events: Vec<FrameEvents> = self.sequencer.tick(step);
        let ghost ticked = *self;
        self.clock_all(&events);
        proof {
            lemma_apply_events_channels_only(start, ticked, events@);
        }
        self.ch1.pulse.tick(step);
        self.ch2.tick(step);
        self.ch3.tick(step);
        self.ch4.tick(step);
        events
    }

    pub open spec fn spec_debug(self) -> ApuDebug {
        ApuDebug {
            powered: self.powered,
            nr50: self.mixer.nr50,
            nr51: self.mixer.nr51,
            nr52: self.spec_nr52(),
            ch1: square_debug(self.ch1.pulse),
            ch2: square_debug(self.ch2),
            ch3: ChannelDebug {
                active: self.ch3.enabled,
                dac: self.ch3.dac_enabled,
                volume: if self.ch3.spec_output_level() == 0 { 0u8 } else if self.ch3.spec_output_level() == 1 {
                    15u8
                } else if self.ch3.spec_output_level() == 2 { 8u8 } else { 4u8 },
                frequency: self.ch3.spec_frequency(),
                duty: None,
            },
            ch4: ChannelDebug {
                active: self.ch4.enabled,
                dac: self.ch4.dac_enabled,
                volume: self.ch4.volume,
                frequency: self.ch4.nr43 as u16,
                duty: None,
            },
        }
    }

    /// Channel and mixer state for a debug monitor.
    pub fn debug_snapshot(&self) -> (d: ApuDebug)
        ensures
            d == self.spec_debug(),
    {
        ApuDebug {
            powered: self.powered,
            nr50: self.mixer.read_nr50(),
            nr51: self.mixer.read_nr51(),
            nr52: self.read_nr52(),
            ch1: ChannelDebug {
                active: self.ch1.pulse.enabled(),
                dac: self.ch1.pulse.dac_enabled(),
                volume: self.ch1.pulse.volume(),
                frequency: self.ch1.pulse.frequency(),
                duty: Some(self.ch1.pulse.duty()),
            },
            ch2: ChannelDebug {
                active: self.ch2.enabled(),
                dac: self.ch2.dac_enabled(),
                volume: self.ch2.volume(),
                frequency: self.ch2.frequency(),
                duty: Some(self.ch2.duty()),
            },
            ch3: ChannelDebug {
                active: self.ch3.enabled(),
                dac: self.ch3.dac_enabled(),
                volume: self.ch3.volume_level(),
                frequency: self.ch3.frequency(),
                duty: None,
            },
            ch4: ChannelDebug {
                active: self.ch4.enabled(),
                dac: self.ch4.dac_enabled(),
                volume: self.ch4.volume(),
                frequency: self.ch4.read_nr43() as u16,
                duty: None,
            },
        }
    }

    pub open spec fn spec_snapshot(self) -> ApuStateV1 {
        ApuStateV1 {
            powered: self.powered,
            frame_seq_step: self.sequencer.step_view(),
            ch1: self.ch1.spec_snapshot(),
            ch2: self.ch2.spec_snapshot(),
            ch3: self.ch3.spec_snapshot(),
            ch4: self.ch4.spec_snapshot(),
            nr50: self.mixer.nr50,
            nr51: self.mixer.nr51,
            wave_ram: self.ch3.wave_ram,
        }
    }

    /// Save-state record of the registers and channels.
    pub fn snapshot(&self) -> (s: ApuStateV1)
        ensures
            s == self.spec_snapshot(),
    {
        ApuStateV1 {
            powered: self.powered,
            frame_seq_step: self.sequencer.step_index(),
            ch1: self.ch1.snapshot(),
            ch2: self.ch2.snapshot(),
            ch3: self.ch3.snapshot(),
            ch4: self.ch4.snapshot(),
            nr50: self.mixer.read_nr50(),
            nr51: self.mixer.read_nr51(),
            wave_ram: self.ch3.wave_ram_bytes(),
        }
    }

    /// Restore registers and channels from a save-state record. Generator
    /// positions must index their waveforms (duty step below 8, wave
    /// position below 32).
    pub fn apply_snapshot(&mut self, s: &ApuStateV1)
        requires
            old(self).wf(),
            s.ch1.square.duty_pos < 8,
            s.ch2.duty_pos < 8,
            s.ch3.pos_nib < 32,
        ensures
            final(self).wf(),
            final(self).powered == s.powered,
            final(self).sequencer.step_view() == s.frame_seq_step % 8,
            final(self).sequencer.timer_view() == old(self).sequencer.timer_view(),
            final(self).ch1 == old(self).ch1.spec_apply_snapshot(s.ch1),
            final(self).ch2 == old(self).ch2.spec_apply_snapshot(s.ch2),
            final(self).ch3 == old(self).ch3.spec_apply_snapshot(s.ch3, s.wave_ram),
            final(self).ch4 == old(self).ch4.spec_apply_snapshot(s.ch4),
            final(self).mixer == (Mixer { nr50: s.nr50, nr51: s.nr51 }),
            apu_state_in_range(*s) ==> final(self).spec_snapshot() == *s,
    {
        proof {
            if apu_state_in_range(*s) {
                square::lemma_ch1_snapshot_reload(self.ch1, s.ch1);
                square::lemma_square_snapshot_reload(self.ch2, s.ch2);
                wave::lemma_wave_snapshot_reload(self.ch3, s.ch3, s.wave_ram);
                noise::lemma_noise_snapshot_reload(self.ch4, s.ch4);
            }
        }
        self.powered = s.powered;
        self.sequencer.set_step_index(s.frame_seq_step);
        self.ch1.apply_snapshot(&s.ch1);
        self.ch2.apply_snapshot(&s.ch2);
        self.ch3.apply_snapshot(&s.ch3, &s.wave_ram);
        self.ch4.apply_snapshot(&s.ch4);
        self.mixer.write_nr50(s.nr50);
        self.mixer.write_nr51(s.nr51);
    }

    /// DMG register state after the boot ROM hands off (`$0100`), from the
    /// Pan Docs power-up sequence (DMG column).
    pub fn apply_after_boot(&mut self)
        requires
            old(self).wf(),
        ensures
            final(self).wf(),
            final(self).powered,
            final(self).mixer == (Mixer { nr50: 0x77, nr51: 0xF3 }),
            final(self).ch1 == spec_ch1_after_boot(),
            final(self).ch2 == SquareChannel::spec_new().spec_write_nrx1(0x3F).spec_write_nrx2(0x00).spec_write_nrx3(
                0xFF).spec_write_nrx4(0xBF),
            final(self).ch3 == (WaveChannel { wave_ram: old(self).ch3.wave_ram, ..WaveChannel::spec_new() }).spec_write_nr30(
                0x7F).spec_write_nr31(0xFF).spec_write_nr32(0x9F).spec_write_nr33(0xFF).spec_write_nr34(0xBF),
            final(self).ch4 == NoiseChannel::spec_new().spec_write_nr41(0xFF).spec_write_nr42(0x00).spec_write_nr43(
                0x00).spec_write_nr44(0xBF),
            final(self).sequencer.timer_view() == 0 && final(self).sequencer.step_view() == 0,
    {
        self.power_off();
        self.powered = true;
        self.sequencer.reset();
        // Direct register load (APU already powered).
        self.ch1.write_nr10(0x80);
        self.ch1.pulse.write_nrx1(0xBF);
        self.ch1.pulse.write_nrx2(0xF3);
        self.ch1.pulse.write_nrx3(0xFF);
        self.ch1.write_nr14(0xBF, false); // includes trigger (bit 7)
        // CH2 post-boot: DAC off (NR22=$00).
        self.ch2.write_nrx1(0x3F);
        self.ch2.write_nrx2(0x00);
        self.ch2.write_nrx3(0xFF);
        self.ch2.write_nrx4(0xBF, false);
        // CH3 post-boot: DAC off (NR30 bit7 clear).
        self.ch3.write_nr30(0x7F);
        self.ch3.write_nr31(0xFF);
        self.ch3.write_nr32(0x9F);
        self.ch3.write_nr33(0xFF);
        self.ch3.write_nr34(0xBF, false);
        // CH4 post-boot: DAC off (NR42=$00).
        self.ch4.write_nr41(0xFF);
        self.ch4.write_nr42(0x00);
        self.ch4.write_nr43(0x00);
        self.ch4.write_nr44(0xBF, false);
        self.mixer.write_nr50(0x77);
        self.mixer.write_nr51(0xF3);
    }
}

/// Frame-sequencer clocks touch only the four channels, and keep the
/// waveform positions in range.
pub proof fn lemma_apply_event_only_channels(a: Apu, ev: FrameEvents)
    ensures
        spec_apply_event(a, ev).powered == a.powered,
        spec_apply_event(a, ev).mixer == a.mixer,
        spec_apply_event(a, ev).ch1.pulse.duty_step == a.ch1.pulse.duty_step,
        spec_apply_event(a, ev).ch2.duty_step == a.ch2.duty_step,
        spec_apply_event(a, ev).ch3.position == a.ch3.position,
{
}

/// The channels after a run of frame-sequencer clocks depend only on the
/// channels before it.
pub proof fn lemma_apply_events_channels_only(a: Apu, b: Apu, evs: Seq<FrameEvents>)
    requires
        a.ch1 == b.ch1 && a.ch2 == b.ch2 && a.ch3 == b.ch3 && a.ch4 == b.ch4,
    ensures
        spec_apply_events(a, evs).ch1 == spec_apply_events(b, evs).ch1,
        spec_apply_events(a, evs).ch2 == spec_apply_events(b, evs).ch2,
        spec_apply_events(a, evs).ch3 == spec_apply_events(b, evs).ch3,
        spec_apply_events(a, evs).ch4 == spec_apply_events(b, evs).ch4,
    decreases evs.len(),
{
    if evs.len() > 0 {
        lemma_apply_events_channels_only(a, b, evs.drop_last());
    }
}

/// Wave RAM survives an APU power cycle.
pub proof fn lemma_power_off_keeps_wave_ram(a: Apu)
    ensures
        a.spec_channels_off().ch3.wave_ram == a.ch3.wave_ram,
        a.spec_channels_off().spec_nr52() == 0x70,
{
}

} // verus!
