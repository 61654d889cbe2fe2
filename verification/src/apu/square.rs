//! Shared pulse/square channel core (CH1 and CH2); the NR10 sweep lives
//! only on Channel 1.

use vstd::prelude::*;
use crate::snapshot::{Ch1StateV1, SquareStateV1};
use super::envelope::{envelope_step, spec_envelope_step};

verus! {

/// Duty waveforms, one byte per duty setting; bit `k` is the output at step `k`.
const DUTY: [u8; 4] = [0x80, 0x81, 0xE1, 0x7E];

/// Output bit of duty setting `duty` (0–3) at waveform step `step` (0–7).
pub open spec fn spec_duty_bit(duty: u8, step: u8) -> u8 {
    let pattern: u8 = if duty == 0 { 0x80 } else if duty == 1 { 0x81 } else if duty == 2 { 0xE1 } else { 0x7E };
    (pattern >> step) & 1
}

/// Timer and waveform step after running `left` cycles with reload `period`.
pub open spec fn spec_square_run(timer: u32, step: u8, left: u32, period: u32) -> (u32, u8)
    decreases left,
{
    if left == 0 || period == 0 {
        (timer, step)
    } else {
        let t0: u32 = if timer == 0 { period } else { timer };
        let s: u32 = if left < t0 { left } else { t0 };
        let t1: u32 = (t0 - s) as u32;
        let left1: u32 = (left - s) as u32;
        if t1 == 0 {
            spec_square_run(period, ((step + 1) % 8) as u8, left1, period)
        } else {
            spec_square_run(t1, step, left1, period)
        }
    }
}

/// Duty / length / envelope / frequency / trigger / DAC — no sweep.
#[derive(Debug, Clone, Copy, PartialEq, Eq)]
pub struct SquareChannel {
    pub nrx1: u8,
    pub nrx2: u8,
    pub nrx3: u8,
    pub nrx4: u8,
    pub enabled: bool,
    pub dac_enabled: bool,
    /// Frequency timer period counter (T-cycles).
    pub timer: u32,
    pub duty_step: u8,
    pub volume: u8,
    pub envelope_timer: u8,
    pub length_counter: u8,
}

impl SquareChannel {
    pub open spec fn spec_new() -> SquareChannel {
        SquareChannel {
            nrx1: 0,
            nrx2: 0,
            nrx3: 0,
            nrx4: 0,
            enabled: false,
            dac_enabled: false,
            timer: 0,
            duty_step: 0,
            volume: 0,
            envelope_timer: 0,
            length_counter: 0,
        }
    }

    /// Reachable state: 4-bit volume, 3-bit duty step, enabled only with the DAC on.
    pub open spec fn wf(self) -> bool {
        &&& self.volume <= 15
        &&& self.duty_step < 8
        &&& self.enabled ==> self.dac_enabled
    }

    pub open spec fn spec_frequency(self) -> u16 {
        (self.nrx3 + 256 * (self.nrx4 % 8)) as u16
    }

    pub open spec fn spec_period(self) -> u32 {
        ((2048 - self.spec_frequency()) * 4) as u32
    }

    pub open spec fn spec_trigger(self) -> SquareChannel {
        let et = self.nrx2 % 8;
        SquareChannel {
            enabled: self.dac_enabled,
            length_counter: if self.length_counter == 0 { 64 } else { self.length_counter },
            timer: self.spec_period(),
            volume: self.nrx2 / 16,
            envelope_timer: if et == 0 { 8 } else { et },
            duty_step: 0,
            ..self
        }
    }

    pub open spec fn spec_ticked(self, t: u32) -> SquareChannel {
        if !self.enabled {
            self
        } else {
            let r = spec_square_run(self.timer, self.duty_step, t, self.spec_period());
            SquareChannel { timer: r.0, duty_step: r.1, ..self }
        }
    }

    pub open spec fn spec_clock_length(self) -> SquareChannel {
        if (self.nrx4 / 64) % 2 == 0 || self.length_counter == 0 {
            self
        } else {
            let l = (self.length_counter - 1) as u8;
            SquareChannel { length_counter: l, enabled: if l == 0 { false } else { self.enabled }, ..self }
        }
    }

    pub open spec fn spec_clock_envelope(self) -> SquareChannel {
        if !self.enabled {
            self
        } else {
            let r = spec_envelope_step(self.nrx2, self.envelope_timer, self.volume);
            SquareChannel { envelope_timer: r.0, volume: r.1, ..self }
        }
    }

    pub open spec fn spec_digital_output(self) -> u8 {
        if !self.enabled || spec_duty_bit(self.nrx1 / 64, self.duty_step) == 0 { 0 } else { self.volume % 16 }
    }

    pub open spec fn spec_set_frequency(self, freq: u16) -> SquareChannel {
        let f = freq % 2048;
        SquareChannel { nrx3: (f % 256) as u8, nrx4: (self.nrx4 - self.nrx4 % 8 + f / 256) as u8, ..self }
    }

    pub open spec fn spec_write_nrx1(self, v: u8) -> SquareChannel {
        SquareChannel { nrx1: v, length_counter: (64 - v % 64) as u8, ..self }
    }

    pub open spec fn spec_write_nrx2(self, v: u8) -> SquareChannel {
        SquareChannel { nrx2: v, dac_enabled: v >= 8, enabled: if v >= 8 { self.enabled } else { false }, ..self }
    }

    pub open spec fn spec_write_nrx3(self, v: u8) -> SquareChannel {
        SquareChannel { nrx3: v, ..self }
    }

    pub open spec fn spec_write_nrx4(self, v: u8) -> SquareChannel {
        let c = SquareChannel { nrx4: v & 0xC7, ..self };
        if v >= 0x80 { c.spec_trigger() } else { c }
    }

    pub fn new() -> (c: Self)
        ensures
            c == Self::spec_new(),
    {
        Self {
            nrx1: 0,
            nrx2: 0,
            nrx3: 0,
            nrx4: 0,
            enabled: false,
            dac_enabled: false,
            timer: 0,
            duty_step: 0,
            volume: 0,
            envelope_timer: 0,
            length_counter: 0,
        }
    }

    pub fn enabled(&self) -> (r: bool)
        ensures
            r == self.enabled,
    {
        self.enabled
    }

    pub fn dac_enabled(&self) -> (r: bool)
        ensures
            r == self.dac_enabled,
    {
        self.dac_enabled
    }

    pub fn volume(&self) -> (r: u8)
        ensures
            r == self.volume,
    {
        self.volume
    }

    pub fn duty(&self) -> (r: u8)
        ensures
            r == self.nrx1 / 64,
    {
        self.nrx1 / 64
    }

    /// 11-bit period value from NRx3 and NRx4 bits 0–2.
    pub fn frequency(&self) -> (r: u16)
        ensures
            r == self.spec_frequency(),
            r < 2048,
    {
        self.nrx3 as u16 + 256 * (self.nrx4 % 8) as u16
    }

    /// Write 11-bit period into NRx3/NRx4 (used by CH1 sweep).
    pub fn set_frequency(&mut self, freq: u16)
        ensures
            *final(self) == old(self).spec_set_frequency(freq),
    {
        let f: u16 = freq % 2048;
        self.nrx3 = (f % 256) as u8;
        self.nrx4 = self.nrx4 - self.nrx4 % 8 + (f / 256) as u8;
    }

    pub fn disable(&mut self)
        ensures
            *final(self) == (SquareChannel { enabled: false, ..*old(self) }),
    {
        self.enabled = false;
    }

    pub fn power_off(&mut self)
        ensures
            *final(self) == Self::spec_new(),
    {
        *self = Self::new();
    }

    pub fn read_nrx1(&self) -> (r: u8)
        ensures
            r == self.nrx1 | 0x3F,
    {
        self.nrx1 | 0x3F
    }

    pub fn read_nrx2(&self) -> (r: u8)
        ensures
            r == self.nrx2,
    {
        self.nrx2
    }

    pub fn read_nrx4(&self) -> (r: u8)
        ensures
            r == self.nrx4 | 0xBF,
    {
        self.nrx4 | 0xBF
    }

    pub fn write_nrx1(&mut self, value: u8)
        ensures
            *final(self) == old(self).spec_write_nrx1(value),
    {
        self.nrx1 = value;
        self.length_counter = 64 - value % 64;
    }

    pub fn write_nrx2(&mut self, value: u8)
        ensures
            *final(self) == old(self).spec_write_nrx2(value),
    {
        self.nrx2 = value;
        self.dac_enabled = value >= 8;
        if !self.dac_enabled {
            self.enabled = false;
        }
    }

    pub fn write_nrx3(&mut self, value: u8)
        ensures
            *final(self) == old(self).spec_write_nrx3(value),
    {
        self.nrx3 = value;
    }

    pub fn write_nrx4(&mut self, value: u8, _next_frame_length: bool)
        ensures
            *final(self) == old(self).spec_write_nrx4(value),
    {
        self.nrx4 = value & 0xC7;
        if value >= 0x80 {
            self.trigger();
        }
    }

    fn period_t(&self) -> (p: u32)
        ensures
            p == self.spec_period(),
            p >= 4,
    {
        (2048 - self.frequency() as u32) * 4
    }

    fn trigger(&mut self)
        ensures
            *final(self) == old(self).spec_trigger(),
    {
        self.enabled = self.dac_enabled;
        if self.length_counter == 0 {
            self.length_counter = 64;
        }
        self.timer = self.period_t();
        self.volume = self.nrx2 / 16;
        self.envelope_timer = self.nrx2 % 8;
        if self.envelope_timer == 0 {
            self.envelope_timer = 8; // period 0 treated as 8 on DMG for envelope
        }
        self.duty_step = 0;
    }

    /// Shadow frequency after trigger (for CH1 sweep).
    pub fn frequency_after_trigger(&self) -> (r: u16)
        ensures
            r == self.spec_frequency(),
    {
        self.frequency()
    }

    pub fn tick(&mut self, t_cycles: u32)
        ensures
            *final(self) == old(self).spec_ticked(t_cycles),
            old(self).duty_step < 8 ==> final(self).duty_step < 8,
    {
        if !self.enabled {
            return;
        }
        let period: u32 = self.period_t();
        proof {
            if self.duty_step < 8 {
                lemma_square_run_step_bound(self.timer, self.duty_step, t_cycles, period);
            }
        }
        let ghost target = spec_square_run(self.timer, self.duty_step, t_cycles, period);
        let mut left: u32 = t_cycles;
        while left > 0
            invariant
                period == old(self).spec_period(),
                period >= 4,
                spec_square_run(self.timer, self.duty_step, left, period) == target,
                *self == (SquareChannel { timer: self.timer, duty_step: self.duty_step, ..*old(self) }),
            decreases left,
        {
            if self.timer == 0 {
                self.timer = period;
            }
            let step: u32 = if left < self.timer { left } else { self.timer };
            self.timer = self.timer - step;
            left = left - step;
            if self.timer == 0 {
                self.duty_step = self.duty_step.wrapping_add(1) % 8;
                self.timer = period;
            }
        }
    }

    pub fn clock_length(&mut self)
        ensures
            *final(self) == old(self).spec_clock_length(),
    {
        if (self.nrx4 / 64) % 2 == 0 {
            return;
        }
        if self.length_counter > 0 {
            self.length_counter = self.length_counter - 1;
            if self.length_counter == 0 {
                self.enabled = false;
            }
        }
    }

    pub fn clock_envelope(&mut self)
        ensures
            *final(self) == old(self).spec_clock_envelope(),
    {
        if !self.enabled {
            return;
        }
        let (t, v) = envelope_step(self.nrx2, self.envelope_timer, self.volume);
        self.envelope_timer = t;
        self.volume = v;
    }

    /// Generator digital output `$0`–`$F` (disabled/silent → 0).
    pub fn digital_output(&self) -> (r: u8)
        requires
            self.duty_step < 8,
        ensures
            r == self.spec_digital_output(),
    {
        if !self.enabled {
            return 0;
        }
        let duty: usize = (self.nrx1 / 64) as usize;
        let bit: u8 = (DUTY[duty] >> self.duty_step) & 1;
        if bit == 0 { 0 } else { self.volume % 16 }
    }

    pub open spec fn spec_snapshot(self) -> SquareStateV1 {
        SquareStateV1 {
            enabled: self.enabled,
            dac_on: self.dac_enabled,
            length: self.length_counter,
            length_enable: (self.nrx4 / 64) % 2 == 1,
            duty: self.nrx1 / 64,
            envelope_volume: self.volume,
            envelope_dir: (self.nrx2 / 8) % 2 == 1,
            envelope_period: self.nrx2 % 8,
            envelope_timer: self.envelope_timer,
            frequency: self.spec_frequency(),
            frequency_timer: if self.timer > 0xFFFF { 0xFFFF } else { self.timer as u16 },
            duty_pos: self.duty_step,
        }
    }

    pub fn snapshot(&self) -> (s: SquareStateV1)
        ensures
            s == self.spec_snapshot(),
    {
        SquareStateV1 {
            enabled: self.enabled,
            dac_on: self.dac_enabled,
            length: self.length_counter,
            length_enable: (self.nrx4 / 64) % 2 == 1,
            duty: self.duty(),
            envelope_volume: self.volume,
            envelope_dir: (self.nrx2 / 8) % 2 == 1,
            envelope_period: self.nrx2 % 8,
            envelope_timer: self.envelope_timer,
            frequency: self.frequency(),
            frequency_timer: if self.timer > 0xFFFF { 0xFFFF } else { self.timer as u16 },
            duty_pos: self.duty_step,
        }
    }

    pub open spec fn spec_apply_snapshot(self, s: SquareStateV1) -> SquareChannel {
        SquareChannel {
            enabled: s.enabled,
            dac_enabled: s.dac_on,
            length_counter: s.length,
            volume: s.envelope_volume,
            envelope_timer: s.envelope_timer,
            timer: s.frequency_timer as u32,
            duty_step: s.duty_pos,
            nrx1: (((s.duty as u32) << 6u32) as u8) | ((64u8.wrapping_sub(s.length)) & 0x3F),
            nrx2: (((s.envelope_volume as u32) << 4u32) as u8) | (if s.envelope_dir { 0x08u8 } else { 0u8 })
                | (s.envelope_period & 0x07) | (if s.dac_on { 0xF0u8 } else { 0u8 }),
            nrx3: (s.frequency & 0xFF) as u8,
            nrx4: (((s.frequency >> 8u16) as u8) & 0x07) | (if s.length_enable { 0x40u8 } else { 0u8 }),
        }
    }

    pub fn apply_snapshot(&mut self, s: &SquareStateV1)
        ensures
            *final(self) == old(self).spec_apply_snapshot(*s),
    {
        self.enabled = s.enabled;
        self.dac_enabled = s.dac_on;
        self.length_counter = s.length;
        self.volume = s.envelope_volume;
        self.envelope_timer = s.envelope_timer;
        self.timer = s.frequency_timer as u32;
        self.duty_step = s.duty_pos;
        self.nrx1 = (((s.duty as u32) << 6u32) as u8) | (64u8.wrapping_sub(s.length) & 0x3F);
        self.nrx2 = (((s.envelope_volume as u32) << 4u32) as u8) | (if s.envelope_dir { 0x08 } else { 0 })
            | (s.envelope_period & 0x07) | if s.dac_on { 0xF0 } else { 0 };
        self.nrx3 = (s.frequency & 0xFF) as u8;
        self.nrx4 = (((s.frequency >> 8u16) as u8) & 0x07) | if s.length_enable { 0x40 } else { 0 };
    }
}

/// Channel 1: square pulse + NR10 period sweep.
#[derive(Debug, Clone, Copy, PartialEq, Eq)]
pub struct Channel1 {
    pub pulse: SquareChannel,
    pub nr10: u8,
    pub shadow_freq: u16,
    pub sweep_timer: u8,
    pub sweep_enabled: bool,
    /// Set when a subtract-mode calculation has run since last trigger
    /// (clearing NR10 negate bit then disables CH1).
    pub negate_used: bool,
}

/// Next shadow frequency from `shadow` with NR10 `nr10` (bits 0–2 shift, bit 3 negate).
pub open spec fn spec_sweep_target(shadow: u16, nr10: u8) -> u16 {
    let offset = shadow >> (nr10 % 8);
    if (nr10 / 8) % 2 == 1 {
        if shadow >= offset { (shadow - offset) as u16 } else { (shadow - offset + 65536) as u16 }
    } else {
        if shadow + offset > 0xFFFF { (shadow + offset - 65536) as u16 } else { (shadow + offset) as u16 }
    }
}

impl Channel1 {
    pub open spec fn spec_new() -> Channel1 {
        Channel1 {
            pulse: SquareChannel::spec_new(),
            nr10: 0,
            shadow_freq: 0,
            sweep_timer: 0,
            sweep_enabled: false,
            negate_used: false,
        }
    }

    /// One sweep calculation: overflow past `$7FF` disables the channel and
    /// gives `None`; with `write_back` and a non-zero shift the result
    /// becomes the shadow and pulse frequency.
    pub open spec fn spec_calculate(self, write_back: bool) -> (Channel1, Option<u16>) {
        let new_freq = spec_sweep_target(self.shadow_freq, self.nr10);
        let c = Channel1 { negate_used: if (self.nr10 / 8) % 2 == 1 { true } else { self.negate_used }, ..self };
        if new_freq > 0x07FF {
            (Channel1 { pulse: SquareChannel { enabled: false, ..c.pulse }, ..c }, None)
        } else if write_back && self.nr10 % 8 != 0 {
            (Channel1 { shadow_freq: new_freq, pulse: c.pulse.spec_set_frequency(new_freq), ..c }, Some(new_freq))
        } else {
            (c, Some(new_freq))
        }
    }

    pub open spec fn spec_reload_timer(self) -> Channel1 {
        let pace = (self.nr10 / 16) % 8;
        Channel1 { sweep_timer: if pace == 0 { 8 } else { pace }, ..self }
    }

    pub open spec fn spec_trigger_sweep(self) -> Channel1 {
        let c = Channel1 {
            shadow_freq: self.pulse.spec_frequency(),
            sweep_enabled: (self.nr10 / 16) % 8 != 0 || self.nr10 % 8 != 0,
            negate_used: false,
            ..self
        }.spec_reload_timer();
        if self.nr10 % 8 != 0 { c.spec_calculate(false).0 } else { c }
    }

    pub open spec fn spec_clock_sweep(self) -> Channel1 {
        if !self.sweep_enabled {
            self
        } else {
            let t: u8 = if self.sweep_timer > 0 { (self.sweep_timer - 1) as u8 } else { 0 };
            if t != 0 {
                Channel1 { sweep_timer: t, ..self }
            } else {
                let c = Channel1 { sweep_timer: t, ..self }.spec_reload_timer();
                if (self.nr10 / 16) % 8 == 0 {
                    c
                } else {
                    let (c1, r) = c.spec_calculate(true);
                    if r is Some { c1.spec_calculate(false).0 } else { c1 }
                }
            }
        }
    }

    pub open spec fn spec_write_nr10(self, value: u8) -> Channel1 {
        let old_negate = (self.nr10 / 8) % 2 == 1;
        let nr10 = value % 128;
        let new_negate = (nr10 / 8) % 2 == 1;
        let c = Channel1 { nr10, ..self };
        if old_negate && !new_negate && self.negate_used {
            Channel1 { pulse: SquareChannel { enabled: false, ..c.pulse }, ..c }
        } else {
            c
        }
    }

    pub open spec fn spec_write_nr14(self, v: u8) -> Channel1 {
        let c = Channel1 { pulse: self.pulse.spec_write_nrx4(v), ..self };
        if v >= 0x80 { c.spec_trigger_sweep() } else { c }
    }

    pub fn new() -> (c: Self)
        ensures
            c == Self::spec_new(),
    {
        Self {
            pulse: SquareChannel::new(),
            nr10: 0,
            shadow_freq: 0,
            sweep_timer: 0,
            sweep_enabled: false,
            negate_used: false,
        }
    }

    pub fn power_off(&mut self)
        ensures
            *final(self) == Self::spec_new(),
    {
        *self = Self::new();
    }

    pub fn read_nr10(&self) -> (r: u8)
        ensures
            r == self.nr10 | 0x80,
    {
        self.nr10 | 0x80
    }

    pub fn write_nr10(&mut self, value: u8)
        ensures
            *final(self) == old(self).spec_write_nr10(value),
    {
        let old_negate: bool = (self.nr10 / 8) % 2 == 1;
        self.nr10 = value % 128;
        let new_negate: bool = (self.nr10 / 8) % 2 == 1;
        // Clearing negate after a subtract calc since trigger → disable.
        if old_negate && !new_negate && self.negate_used {
            self.pulse.disable();
        }
    }

    pub fn write_nr14(&mut self, value: u8, next_frame_length: bool)
        ensures
            *final(self) == old(self).spec_write_nr14(value),
    {
        self.pulse.write_nrx4(value, next_frame_length);
        if value >= 0x80 {
            self.trigger_sweep();
        }
    }

    fn pace(&self) -> (r: u8)
        ensures
            r == (self.nr10 / 16) % 8,
    {
        (self.nr10 / 16) % 8
    }

    fn shift(&self) -> (r: u8)
        ensures
            r == self.nr10 % 8,
    {
        self.nr10 % 8
    }

    fn negate(&self) -> (r: bool)
        ensures
            r == ((self.nr10 / 8) % 2 == 1),
    {
        (self.nr10 / 8) % 2 == 1
    }

    fn reload_sweep_timer(&mut self)
        ensures
            *final(self) == old(self).spec_reload_timer(),
    {
        let pace: u8 = self.pace();
        // Period 0 treated as 8.
        self.sweep_timer = if pace == 0 { 8 } else { pace };
    }

    fn trigger_sweep(&mut self)
        ensures
            *final(self) == old(self).spec_trigger_sweep(),
    {
        self.shadow_freq = self.pulse.frequency_after_trigger();
        self.reload_sweep_timer();
        self.sweep_enabled = self.pace() != 0 || self.shift() != 0;
        self.negate_used = false;
        // Immediate overflow check when shift != 0 (result not written back).
        if self.shift() != 0 {
            let _ = self.calculate_sweep(false);
        }
    }

    /// Compute next shadow frequency. On overflow, disables CH1 and returns `None`.
    /// When `write_back`, updates shadow + pulse frequency.
    fn calculate_sweep(&mut self, write_back: bool) -> (r: Option<u16>)
        ensures
            (*final(self), r) == old(self).spec_calculate(write_back),
    {
        let offset: u16 = self.shadow_freq >> self.shift();
        let new_freq: u16 = if self.negate() {
            self.negate_used = true;
            self.shadow_freq.wrapping_sub(offset)
        } else {
            self.shadow_freq.wrapping_add(offset)
        };
        if new_freq > 0x07FF {
            self.pulse.disable();
            return None;
        }
        if write_back && self.shift() != 0 {
            self.shadow_freq = new_freq;
            self.pulse.set_frequency(new_freq);
        }
        Some(new_freq)
    }

    /// Clocked at 128 Hz by the frame sequencer.
    pub fn clock_sweep(&mut self)
        ensures
            *final(self) == old(self).spec_clock_sweep(),
    {
        if !self.sweep_enabled {
            return;
        }
        if self.sweep_timer > 0 {
            self.sweep_timer = self.sweep_timer - 1;
        }
        if self.sweep_timer != 0 {
            return;
        }
        self.reload_sweep_timer();
        // Pace 0: timer still reloads, but iterations are disabled.
        if self.pace() == 0 {
            return;
        }
        if let Some(_freq) = self.calculate_sweep(true) {
            // Second overflow check with the new shadow; do not write back.
            let _ = self.calculate_sweep(false);
        }
    }

    pub open spec fn spec_snapshot(self) -> Ch1StateV1 {
        Ch1StateV1 {
            square: self.pulse.spec_snapshot(),
            sweep_period: (self.nr10 / 16) % 8,
            sweep_negate: (self.nr10 / 8) % 2 == 1,
            sweep_shift: self.nr10 % 8,
            sweep_timer: self.sweep_timer,
            sweep_enable: self.sweep_enabled,
        }
    }

    pub fn snapshot(&self) -> (s: Ch1StateV1)
        ensures
            s == self.spec_snapshot(),
    {
        Ch1StateV1 {
            square: self.pulse.snapshot(),
            sweep_period: (self.nr10 / 16) % 8,
            sweep_negate: (self.nr10 / 8) % 2 == 1,
            sweep_shift: self.nr10 % 8,
            sweep_timer: self.sweep_timer,
            sweep_enable: self.sweep_enabled,
        }
    }

    pub open spec fn spec_apply_snapshot(self, s: Ch1StateV1) -> Channel1 {
        let pulse = self.pulse.spec_apply_snapshot(s.square);
        Channel1 {
            pulse,
            nr10: (((s.sweep_period as u32) << 4u32) as u8) | (if s.sweep_negate { 0x08u8 } else { 0u8 }) | (
            s.sweep_shift & 0x07),
            sweep_timer: s.sweep_timer,
            sweep_enabled: s.sweep_enable,
            shadow_freq: pulse.spec_frequency(),
            negate_used: false,
        }
    }

    pub fn apply_snapshot(&mut self, s: &Ch1StateV1)
        ensures
            *final(self) == old(self).spec_apply_snapshot(*s),
    {
        self.pulse.apply_snapshot(&s.square);
        self.nr10 = (((s.sweep_period as u32) << 4u32) as u8) | (if s.sweep_negate { 0x08 } else { 0 }) | (
        s.sweep_shift & 0x07);
        self.sweep_timer = s.sweep_timer;
        self.sweep_enabled = s.sweep_enable;
        self.shadow_freq = self.pulse.frequency();
        self.negate_used = false;
    }
}

/// Setting the period through the sweep path reads back the same 11-bit value.
pub proof fn lemma_set_frequency_reads_back(c: SquareChannel, f: u16)
    ensures
        c.spec_set_frequency(f).spec_frequency() == f % 2048,
        c.spec_set_frequency(f).nrx4 / 8 == c.nrx4 / 8,
{
}

/// The sweep never leaves a period above `$7FF` in the pulse channel: a
/// calculation either writes back an in-range period or disables the channel.
pub proof fn lemma_sweep_keeps_period_in_range(c: Channel1, write_back: bool)
    ensures
        c.spec_calculate(write_back).1 matches Some(f) ==> f <= 0x7FF,
        c.spec_calculate(write_back).1 is None ==> !c.spec_calculate(write_back).0.pulse.enabled,
{
}

/// Envelope, length and tick steps keep a well-formed pulse channel well formed.
pub proof fn lemma_square_ops_keep_wf(c: SquareChannel, t: u32)
    requires
        c.wf(),
    ensures
        c.spec_clock_length().wf(),
        c.spec_clock_envelope().wf(),
        c.spec_trigger().wf(),
        c.spec_ticked(t).wf(),
{
    super::envelope::lemma_envelope_volume_bounded(c.nrx2, c.envelope_timer, c.volume);
    if c.enabled {
        lemma_square_run_step_bound(c.timer, c.duty_step, t, c.spec_period());
    }
}

proof fn lemma_square_run_step_bound(timer: u32, step: u8, left: u32, period: u32)
    requires
        step < 8,
    ensures
        spec_square_run(timer, step, left, period).1 < 8,
    decreases left,
{
    if left == 0 || period == 0 {
    } else {
        let t0: u32 = if timer == 0 { period } else { timer };
        let s: u32 = if left < t0 { left } else { t0 };
        let t1: u32 = (t0 - s) as u32;
        let left1: u32 = (left - s) as u32;
        if t1 == 0 {
            lemma_square_run_step_bound(period, ((step + 1) % 8) as u8, left1, period);
        } else {
            lemma_square_run_step_bound(t1, step, left1, period);
        }
    }
}

/// The duty waveform advances exactly once every `(2048 - f) * 4` T-cycles,
/// `f` being the 11-bit frequency in NRx3 (low byte) and NRx4 bits 0–2. A
/// running channel whose timer holds a full period steps to the next duty
/// position after exactly that many cycles, with the timer reloaded, and
/// stays on its position for any shorter run; a trigger loads the timer with
/// that period and restarts the waveform at step 0.
pub proof fn lemma_duty_step_period(c: SquareChannel, k: u32)
    requires
        c.wf(),
    ensures
        ({
            let p: int = (2048 - (c.nrx3 + 256 * (c.nrx4 % 8))) * 4;
            &&& c.spec_trigger().timer == p
            &&& c.spec_trigger().duty_step == 0
            &&& c.enabled && c.timer == p ==> {
                &&& c.spec_ticked(p as u32).duty_step == (c.duty_step + 1) % 8
                &&& c.spec_ticked(p as u32).timer == p
                &&& 0 < k < p ==> c.spec_ticked(k).duty_step == c.duty_step && c.spec_ticked(k).timer == p - k
            }
        }),
{
    reveal_with_fuel(spec_square_run, 2);
}

/// Record fields within the ranges the registers can hold.
pub open spec fn square_state_in_range(s: SquareStateV1) -> bool {
    s.duty < 4 && s.envelope_period < 8 && s.frequency < 2048
}

/// Restoring a square-channel record and saving again gives the same record.
pub proof fn lemma_square_snapshot_reload(c: SquareChannel, s: SquareStateV1)
    requires
        square_state_in_range(s),
    ensures
        c.spec_apply_snapshot(s).spec_snapshot() == s,
{
    let r = c.spec_apply_snapshot(s);
    let d = s.duty;
    let l = s.length;
    let v = s.envelope_volume;
    let p = s.envelope_period;
    let f = s.frequency;
    let dir: u8 = if s.envelope_dir { 0x08u8 } else { 0u8 };
    let dac: u8 = if s.dac_on { 0xF0u8 } else { 0u8 };
    let le: u8 = if s.length_enable { 0x40u8 } else { 0u8 };
    assert(d < 4 ==> ((((d as u32) << 6u32) as u8) | ((64u8.wrapping_sub(l)) & 0x3F)) / 64 == d) by (bit_vector);
    assert((dir == 0x08u8 || dir == 0u8) && (dac == 0xF0u8 || dac == 0u8) && p < 8 ==> {
        let x = (((v as u32) << 4u32) as u8) | dir | (p & 0x07) | dac;
        &&& (x / 8) % 2 == (if dir == 0x08u8 { 1u8 } else { 0u8 })
        &&& x % 8 == p
    }) by (bit_vector);
    assert((le == 0x40u8 || le == 0u8) && f < 2048 ==> {
        let lo = (f & 0xFF) as u8;
        let hi = (((f >> 8u16) as u8) & 0x07) | le;
        &&& lo + 256 * (hi % 8) == f
        &&& (hi / 64) % 2 == (if le == 0x40u8 { 1u8 } else { 0u8 })
    }) by (bit_vector);
}

/// Channel 1 record within register ranges.
pub open spec fn ch1_state_in_range(s: Ch1StateV1) -> bool {
    square_state_in_range(s.square) && s.sweep_period < 8 && s.sweep_shift < 8
}

/// Restoring a channel 1 record and saving again gives the same record.
pub proof fn lemma_ch1_snapshot_reload(c: Channel1, s: Ch1StateV1)
    requires
        ch1_state_in_range(s),
    ensures
        c.spec_apply_snapshot(s).spec_snapshot() == s,
{
    lemma_square_snapshot_reload(c.pulse, s.square);
    let sp = s.sweep_period;
    let sh = s.sweep_shift;
    let neg: u8 = if s.sweep_negate { 0x08u8 } else { 0u8 };
    assert((neg == 0x08u8 || neg == 0u8) && sp < 8 && sh < 8 ==> {
        let x = (((sp as u32) << 4u32) as u8) | neg | (sh & 0x07);
        &&& (x / 16) % 8 == sp
        &&& (x / 8) % 2 == (if neg == 0x08u8 { 1u8 } else { 0u8 })
        &&& x % 8 == sh
    }) by (bit_vector);
}

} // verus!
