//! Sound Channel 3 — wave RAM playback, 32 × 4-bit samples (Pan Docs, CH3).

use vstd::prelude::*;
use crate::snapshot::WaveStateV1;

verus! {

/// First wave RAM address (`$FF30`); 16 bytes follow.
pub const WAVE_RAM_START: u16 = 0xFF30;

/// Sample `position` (0–31) of wave RAM: high nibble of each byte first.
pub open spec fn spec_nibble(ram: Seq<u8>, position: u8) -> u8 {
    let byte = ram[(position / 2) as int];
    if position % 2 == 0 { byte / 16 } else { byte % 16 }
}

/// Timer, position and sample buffer after running `left` cycles with reload `period`.
pub open spec fn spec_wave_run(timer: u32, pos: u8, buf: u8, left: u32, period: u32, ram: Seq<u8>) -> (u32, u8, u8)
    decreases left,
{
    if left == 0 || period == 0 {
        (timer, pos, buf)
    } else {
        let t0: u32 = if timer == 0 { period } else { timer };
        let s: u32 = if left < t0 { left } else { t0 };
        let t1: u32 = (t0 - s) as u32;
        let left1: u32 = (left - s) as u32;
        if t1 == 0 {
            spec_wave_run(period, ((pos + 1) % 32) as u8, spec_nibble(ram, pos), left1, period, ram)
        } else {
            spec_wave_run(t1, pos, buf, left1, period, ram)
        }
    }
}

#[derive(Debug, Clone, Copy, PartialEq, Eq)]
pub struct WaveChannel {
    pub nr30: u8,
    pub nr31: u8,
    pub nr32: u8,
    pub nr33: u8,
    pub nr34: u8,
    pub enabled: bool,
    pub dac_enabled: bool,
    /// Frequency timer (T-cycles until next nibble).
    pub timer: u32,
    /// 0..31 sample index into wave RAM nibbles.
    pub position: u8,
    /// Last digital sample read (0..=15); emitted continuously.
    pub sample_buffer: u8,
    pub length_counter: u16,
    /// 16 bytes; each holds high-nibble then low-nibble samples.
    pub wave_ram: [u8; 16],
}

impl WaveChannel {
    pub open spec fn spec_new() -> WaveChannel {
        WaveChannel {
            nr30: 0,
            nr31: 0,
            nr32: 0,
            nr33: 0,
            nr34: 0,
            enabled: false,
            dac_enabled: false,
            timer: 0,
            position: 0,
            sample_buffer: 0,
            length_counter: 0,
            wave_ram: [0u8, 0u8, 0u8, 0u8, 0u8, 0u8, 0u8, 0u8, 0u8, 0u8, 0u8, 0u8, 0u8, 0u8, 0u8, 0u8],
        }
    }

    /// Reachable state: the sample position indexes wave RAM, the buffer holds
    /// a nibble, and only a channel with its DAC on can be enabled.
    pub open spec fn wf(self) -> bool {
        &&& self.position < 32
        &&& self.sample_buffer < 16
        &&& self.enabled ==> self.dac_enabled
    }

    pub open spec fn spec_frequency(self) -> u16 {
        (self.nr33 + 256 * (self.nr34 % 8)) as u16
    }

    pub open spec fn spec_period(self) -> u32 {
        ((2048 - self.spec_frequency()) * 2) as u32
    }

    pub open spec fn spec_output_level(self) -> u8 {
        (self.nr32 / 32) % 4
    }

    pub open spec fn spec_apply_level(self, sample: u8) -> u8 {
        let level = self.spec_output_level();
        if level == 0 { 0 } else if level == 1 { sample } else if level == 2 { sample / 2 } else { sample / 4 }
    }

    pub open spec fn spec_trigger(self) -> WaveChannel {
        WaveChannel {
            enabled: self.dac_enabled,
            length_counter: if self.length_counter == 0 { 256 } else { self.length_counter },
            timer: self.spec_period(),
            position: 0,
            ..self
        }
    }

    pub open spec fn spec_ticked(self, t: u32) -> WaveChannel {
        if !self.enabled {
            self
        } else {
            let r = spec_wave_run(self.timer, self.position, self.sample_buffer, t, self.spec_period(), self.wave_ram@);
            WaveChannel { timer: r.0, position: r.1, sample_buffer: r.2, ..self }
        }
    }

    pub open spec fn spec_clock_length(self) -> WaveChannel {
        if (self.nr34 / 64) % 2 == 0 || self.length_counter == 0 {
            self
        } else {
            let l = (self.length_counter - 1) as u16;
            WaveChannel { length_counter: l, enabled: if l == 0 { false } else { self.enabled }, ..self }
        }
    }

    pub open spec fn spec_write_nr30(self, v: u8) -> WaveChannel {
        WaveChannel { nr30: v & 0x80, dac_enabled: v >= 0x80, enabled: if v >= 0x80 { self.enabled } else { false },
            ..self }
    }

    pub open spec fn spec_write_nr31(self, v: u8) -> WaveChannel {
        WaveChannel { nr31: v, length_counter: (256 - v) as u16, ..self }
    }

    pub open spec fn spec_write_nr32(self, v: u8) -> WaveChannel {
        WaveChannel { nr32: v & 0x60, ..self }
    }

    pub open spec fn spec_write_nr33(self, v: u8) -> WaveChannel {
        WaveChannel { nr33: v, ..self }
    }

    pub open spec fn spec_write_nr34(self, v: u8) -> WaveChannel {
        let c = WaveChannel { nr34: v & 0xC7, ..self };
        if v >= 0x80 { c.spec_trigger() } else { c }
    }

    pub fn new() -> (c: Self)
        ensures
            c == Self::spec_new(),
    {
        let c = Self {
            nr30: 0,
            nr31: 0,
            nr32: 0,
            nr33: 0,
            nr34: 0,
            enabled: false,
            dac_enabled: false,
            timer: 0,
            position: 0,
            sample_buffer: 0,
            length_counter: 0,
            wave_ram: [0; 16],
        };
        assert(c.wave_ram =~= Self::spec_new().wave_ram);
        c
    }

    pub fn enabled(&self) -> (r: bool)
        ensures
            r == self.enabled,
    {
        self.enabled
    }

    pub fn dac_enabled(&self) -> (r: bool)
        ensures
            r == self.dac_enabled,
    {
        self.dac_enabled
    }

    pub fn frequency(&self) -> (r: u16)
        ensures
            r == self.spec_frequency(),
            r < 2048,
    {
        self.nr33 as u16 + 256 * (self.nr34 % 8) as u16
    }

    /// NR32 output level reported as a 4-bit volume: mute, full, half, quarter.
    pub fn volume_level(&self) -> (r: u8)
        ensures
            r == (if self.spec_output_level() == 0 { 0u8 } else if self.spec_output_level() == 1 { 15u8 }
                else if self.spec_output_level() == 2 { 8u8 } else { 4u8 }),
    {
        match (self.nr32 / 32) % 4 {
            0 => 0,
            1 => 15,
            2 => 8,
            _ => 4,
        }
    }

    /// Clear channel regs/state; wave RAM is preserved.
    pub fn power_off(&mut self)
        ensures
            *final(self) == (WaveChannel { wave_ram: old(self).wave_ram, ..Self::spec_new() }),
    {
        let wave_ram = self.wave_ram;
        *self = Self::new();
        self.wave_ram = wave_ram;
        self.sample_buffer = 0;
    }

    pub fn read_nr30(&self) -> (r: u8)
        ensures
            r == self.nr30 | 0x7F,
    {
        self.nr30 | 0x7F
    }

    pub fn read_nr32(&self) -> (r: u8)
        ensures
            r == self.nr32 | 0x9F,
    {
        self.nr32 | 0x9F
    }

    pub fn read_nr34(&self) -> (r: u8)
        ensures
            r == self.nr34 | 0xBF,
    {
        self.nr34 | 0xBF
    }

    pub fn write_nr30(&mut self, value: u8)
        ensures
            *final(self) == old(self).spec_write_nr30(value),
    {
        self.nr30 = value & 0x80;
        self.dac_enabled = value >= 0x80;
        if !self.dac_enabled {
            self.enabled = false;
        }
    }

    pub fn write_nr31(&mut self, value: u8)
        ensures
            *final(self) == old(self).spec_write_nr31(value),
    {
        self.nr31 = value;
        self.length_counter = 256 - value as u16;
    }

    pub fn write_nr32(&mut self, value: u8)
        ensures
            *final(self) == old(self).spec_write_nr32(value),
    {
        self.nr32 = value & 0x60;
    }

    pub fn write_nr33(&mut self, value: u8)
        ensures
            *final(self) == old(self).spec_write_nr33(value),
    {
        self.nr33 = value;
    }

    pub fn write_nr34(&mut self, value: u8, _next_frame_length: bool)
        ensures
            *final(self) == old(self).spec_write_nr34(value),
    {
        self.nr34 = value & 0xC7;
        if value >= 0x80 {
            self.trigger();
        }
    }

    pub fn read_wave(&self, addr: u16) -> (r: u8)
        requires
            WAVE_RAM_START <= addr < WAVE_RAM_START + 16,
        ensures
            r == self.wave_ram@[addr - WAVE_RAM_START],
    {
        let i: usize = (addr - WAVE_RAM_START) as usize;
        self.wave_ram[i]
    }

    pub fn write_wave(&mut self, addr: u16, value: u8)
        requires
            WAVE_RAM_START <= addr < WAVE_RAM_START + 16,
        ensures
            final(self).wave_ram@ == old(self).wave_ram@.update(addr - WAVE_RAM_START, value),
            *final(self) == (WaveChannel { wave_ram: final(self).wave_ram, ..*old(self) }),
    {
        // CPU access is always allowed here; accurate contention is not modeled.
        let i: usize = (addr - WAVE_RAM_START) as usize;
        self.wave_ram[i] = value;
    }

    /// T-cycles between wave RAM nibble advances: `(2048 - freq) * 2`.
    fn period_t(&self) -> (p: u32)
        ensures
            p == self.spec_period(),
            p >= 2,
    {
        (2048 - self.frequency() as u32) * 2
    }

    fn output_level(&self) -> (r: u8)
        ensures
            r == self.spec_output_level(),
    {
        (self.nr32 / 32) % 4
    }

    pub fn nibble_at(&self, position: u8) -> (r: u8)
        requires
            position < 32,
        ensures
            r == spec_nibble(self.wave_ram@, position),
    {
        let byte: u8 = self.wave_ram[(position / 2) as usize];
        if position % 2 == 0 { byte / 16 } else { byte % 16 }
    }

    pub fn apply_level(&self, sample: u8) -> (r: u8)
        ensures
            r == self.spec_apply_level(sample),
    {
        match self.output_level() {
            0 => 0,
            1 => sample,
            2 => sample / 2,
            _ => sample / 4,
        }
    }

    fn trigger(&mut self)
        ensures
            *final(self) == old(self).spec_trigger(),
    {
        self.enabled = self.dac_enabled;
        if self.length_counter == 0 {
            self.length_counter = 256;
        }
        self.timer = self.period_t();
        // Position reset; the sample buffer keeps the previous value until the
        // first timer expiry.
        self.position = 0;
    }

    pub fn tick(&mut self, t_cycles: u32)
        requires
            old(self).position < 32,
        ensures
            *final(self) == old(self).spec_ticked(t_cycles),
            final(self).position < 32,
    {
        if !self.enabled {
            return;
        }
        let period: u32 = self.period_t();
        let ghost target = spec_wave_run(self.timer, self.position, self.sample_buffer, t_cycles, period, self.wave_ram@);
        let mut left: u32 = t_cycles;
        while left > 0
            invariant
                period == old(self).spec_period(),
                period >= 2,
                self.position < 32,
                spec_wave_run(self.timer, self.position, self.sample_buffer, left, period, self.wave_ram@) == target,
                *self == (WaveChannel { timer: self.timer, position: self.position, sample_buffer: self.sample_buffer,
                    ..*old(self) }),
            decreases left,
        {
            if self.timer == 0 {
                self.timer = period;
            }
            let step: u32 = if left < self.timer { left } else { self.timer };
            self.timer = self.timer - step;
            left = left - step;
            if self.timer == 0 {
                // Fetch then advance: the first fetch after trigger is nibble 0
                // (high nibble of $FF30).
                self.sample_buffer = self.nibble_at(self.position);
                self.position = (self.position + 1) % 32;
                self.timer = period;
            }
        }
    }

    pub fn clock_length(&mut self)
        ensures
            *final(self) == old(self).spec_clock_length(),
    {
        if (self.nr34 / 64) % 2 == 0 {
            return;
        }
        if self.length_counter > 0 {
            self.length_counter = self.length_counter - 1;
            if self.length_counter == 0 {
                self.enabled = false;
            }
        }
    }

    /// Generator digital output `$0`–`$F` after NR32 level (disabled → 0).
    pub fn digital_output(&self) -> (r: u8)
        ensures
            r == if !self.enabled { 0 } else { self.spec_apply_level(self.sample_buffer) },
    {
        if !self.enabled {
            return 0;
        }
        self.apply_level(self.sample_buffer)
    }

    pub fn wave_ram_bytes(&self) -> (r: [u8; 16])
        ensures
            r == self.wave_ram,
    {
        self.wave_ram
    }

    pub open spec fn spec_snapshot(self) -> WaveStateV1 {
        WaveStateV1 {
            dac_on: self.dac_enabled,
            length: if self.length_counter > 255 { 255 } else { self.length_counter as u8 },
            length_enable: (self.nr34 / 64) % 2 == 1,
            volume_code: (self.nr32 / 32) % 4,
            frequency: self.spec_frequency(),
            frequency_timer: if self.timer > 0xFFFF { 0xFFFF } else { self.timer as u16 },
            pos_nib: self.position,
        }
    }

    pub fn snapshot(&self) -> (s: WaveStateV1)
        ensures
            s == self.spec_snapshot(),
    {
        WaveStateV1 {
            dac_on: self.dac_enabled,
            length: if self.length_counter > 255 { 255 } else { self.length_counter as u8 },
            length_enable: (self.nr34 / 64) % 2 == 1,
            volume_code: (self.nr32 / 32) % 4,
            frequency: self.frequency(),
            frequency_timer: if self.timer > 0xFFFF { 0xFFFF } else { self.timer as u16 },
            pos_nib: self.position,
        }
    }

    pub open spec fn spec_apply_snapshot(self, s: WaveStateV1, ram: [u8; 16]) -> WaveChannel {
        WaveChannel {
            dac_enabled: s.dac_on,
            length_counter: s.length as u16,
            // The record has no `enabled` field: inferred from DAC + length.
            enabled: s.dac_on && (s.length > 0 || !s.length_enable),
            position: s.pos_nib,
            timer: s.frequency_timer as u32,
            wave_ram: ram,
            nr30: if s.dac_on { 0x80 } else { 0 },
            nr31: (256 - s.length) as u8,
            nr32: (((s.volume_code as u32) << 5u32) as u8) & 0x60,
            nr33: (s.frequency & 0xFF) as u8,
            nr34: (((s.frequency >> 8u16) as u8) & 0x07) | (if s.length_enable { 0x40u8 } else { 0u8 }),
            sample_buffer: spec_nibble(ram@, s.pos_nib),
        }
    }

    pub fn apply_snapshot(&mut self, s: &WaveStateV1, wave_ram: &[u8; 16])
        requires
            s.pos_nib < 32,
        ensures
            *final(self) == old(self).spec_apply_snapshot(*s, *wave_ram),
    {
        self.dac_enabled = s.dac_on;
        self.length_counter = s.length as u16;
        // The record has no `enabled` field; infer it from DAC + length
        // (matches trigger / clock_length).
        self.enabled = s.dac_on && (self.length_counter > 0 || !s.length_enable);
        self.position = s.pos_nib;
        self.timer = s.frequency_timer as u32;
        self.wave_ram = *wave_ram;
        self.nr30 = if s.dac_on { 0x80 } else { 0 };
        self.nr31 = 256u16.wrapping_sub(self.length_counter) as u8;
        self.nr32 = (((s.volume_code as u32) << 5u32) as u8) & 0x60;
        self.nr33 = (s.frequency & 0xFF) as u8;
        self.nr34 = (((s.frequency >> 8u16) as u8) & 0x07) | if s.length_enable { 0x40 } else { 0 };
        self.sample_buffer = self.nibble_at(self.position);
    }
}

/// Powering the channel off keeps wave RAM.
pub proof fn lemma_power_off_keeps_wave_ram(c: WaveChannel)
    ensures
        (WaveChannel { wave_ram: c.wave_ram, ..WaveChannel::spec_new() }).wave_ram == c.wave_ram,
{
}

/// A snapshot restored into any channel, with the same wave RAM, gives back
/// the enabled state, DAC, position and length of a channel whose length
/// counter fits the record (at most 255) and which is disabled exactly when
/// its length ran out.
pub proof fn lemma_wave_snapshot_round_trip(c: WaveChannel, other: WaveChannel)
    requires
        c.wf(),
        c.length_counter <= 255,
        c.enabled == (c.dac_enabled && (c.length_counter > 0 || (c.nr34 / 64) % 2 == 0)),
    ensures
        ({
            let r = other.spec_apply_snapshot(c.spec_snapshot(), c.wave_ram);
            &&& r.enabled == c.enabled
            &&& r.dac_enabled == c.dac_enabled
            &&& r.position == c.position
            &&& r.length_counter == c.length_counter
            &&& r.wave_ram == c.wave_ram
            &&& r.spec_frequency() == c.spec_frequency()
        }),
{
    let s = c.spec_snapshot();
    let f = s.frequency;
    assert(((f >> 8u16) as u8) & 0x07 == (f / 256) % 8 && (f & 0xFF) as u8 == f % 256) by (bit_vector);
    let n4 = (((f >> 8u16) as u8) & 0x07) | (if s.length_enable { 0x40u8 } else { 0u8 });
    let hi = ((f >> 8u16) as u8) & 0x07;
    assert(hi < 8 ==> (hi | 0x40u8) % 8 == hi && (hi | 0u8) % 8 == hi) by (bit_vector);
}

/// Ticking keeps the sample position inside wave RAM and the buffer a nibble.
pub proof fn lemma_wave_ticks_keep_wf(c: WaveChannel, t: u32)
    requires
        c.wf(),
    ensures
        c.spec_ticked(t).wf(),
{
    if c.enabled {
        lemma_wave_run_bounds(c.timer, c.position, c.sample_buffer, t, c.spec_period(), c.wave_ram@);
    }
}

proof fn lemma_wave_run_bounds(timer: u32, pos: u8, buf: u8, left: u32, period: u32, ram: Seq<u8>)
    requires
        pos < 32,
        buf < 16,
    ensures
        spec_wave_run(timer, pos, buf, left, period, ram).1 < 32,
        spec_wave_run(timer, pos, buf, left, period, ram).2 < 16,
    decreases left,
{
    if left == 0 || period == 0 {
    } else {
        let t0: u32 = if timer == 0 { period } else { timer };
        let s: u32 = if left < t0 { left } else { t0 };
        let t1: u32 = (t0 - s) as u32;
        let left1: u32 = (left - s) as u32;
        if t1 == 0 {
            lemma_wave_run_bounds(period, ((pos + 1) % 32) as u8, spec_nibble(ram, pos), left1, period, ram);
        } else {
            lemma_wave_run_bounds(t1, pos, buf, left1, period, ram);
        }
    }
}

/// Record fields within the ranges the registers can hold.
pub open spec fn wave_state_in_range(s: WaveStateV1) -> bool {
    s.volume_code < 4 && s.frequency < 2048
}

/// Restoring a wave-channel record and saving again gives the same record.
pub proof fn lemma_wave_snapshot_reload(c: WaveChannel, s: WaveStateV1, ram: [u8; 16])
    requires
        wave_state_in_range(s),
    ensures
        c.spec_apply_snapshot(s, ram).spec_snapshot() == s,
{
    let vc = s.volume_code;
    let f = s.frequency;
    let le: u8 = if s.length_enable { 0x40u8 } else { 0u8 };
    assert(vc < 4 ==> (((((vc as u32) << 5u32) as u8) & 0x60) / 32) % 4 == vc) by (bit_vector);
    assert((le == 0x40u8 || le == 0u8) && f < 2048 ==> {
        let lo = (f & 0xFF) as u8;
        let hi = (((f >> 8u16) as u8) & 0x07) | le;
        &&& lo + 256 * (hi % 8) == f
        &&& (hi / 64) % 2 == (if le == 0x40u8 { 1u8 } else { 0u8 })
    }) by (bit_vector);
}

} // verus!
