//! Sound Channel 4 — LFSR noise (Pan Docs, Audio Registers / CH4).

use vstd::prelude::*;
use crate::snapshot::NoiseStateV1;
use super::envelope::{envelope_step, spec_envelope_step};

verus! {

#[derive(Debug, Clone, Copy, PartialEq, Eq)]
pub struct NoiseChannel {
    pub nr41: u8,
    pub nr42: u8,
    pub nr43: u8,
    pub nr44: u8,
    pub enabled: bool,
    pub dac_enabled: bool,
    /// 15-bit LFSR state (bits 0..=14).
    pub lfsr: u16,
    pub timer: u32,
    pub volume: u8,
    pub envelope_timer: u8,
    pub length_counter: u8,
}

/// T-cycles between LFSR clocks for NR43, or `None` when the shift is 14/15 (frozen).
pub open spec fn spec_noise_period(nr43: u8) -> Option<u32> {
    let shift = (nr43 >> 4) & 0x0F;
    if shift >= 14 {
        None
    } else {
        let divider = nr43 & 0x07;
        let base: u32 = if divider == 0 { 8 } else { (16 * divider) as u32 };
        Some(base << shift)
    }
}

/// One LFSR step: XNOR of bits 0 and 1 goes into bit 15 (and bit 7 in
/// 7-bit mode), then the register shifts right, keeping 15 bits.
pub open spec fn spec_clock_lfsr(lfsr: u16, width7: bool) -> u16 {
    let bit: u16 = if (lfsr & 1) == ((lfsr >> 1) & 1) { 1 } else { 0 };
    let next: u16 = lfsr | (bit << 15u16);
    let next2: u16 = if width7 { (next & !(1u16 << 7u16)) | (bit << 7u16) } else { next };
    (next2 >> 1u16) & 0x7FFF
}

/// Timer and LFSR after running `left` cycles with reload period `period`
/// (at least 1): each time the timer runs out the LFSR clocks once.
pub open spec fn spec_noise_run(timer: u32, lfsr: u16, left: u32, period: u32, width7: bool) -> (u32, u16)
    decreases left,
{
    if left == 0 || period == 0 {
        (timer, lfsr)
    } else {
        let t0: u32 = if timer == 0 { period } else { timer };
        let step: u32 = if left < t0 { left } else { t0 };
        let t1: u32 = (t0 - step) as u32;
        let left1: u32 = (left - step) as u32;
        if t1 == 0 {
            spec_noise_run(period, spec_clock_lfsr(lfsr, width7), left1, period, width7)
        } else {
            spec_noise_run(t1, lfsr, left1, period, width7)
        }
    }
}

impl NoiseChannel {
    pub open spec fn spec_new() -> NoiseChannel {
        NoiseChannel {
            nr41: 0,
            nr42: 0,
            nr43: 0,
            nr44: 0,
            enabled: false,
            dac_enabled: false,
            lfsr: 0,
            timer: 0,
            volume: 0,
            envelope_timer: 0,
            length_counter: 0,
        }
    }

    /// Channel state the hardware can reach: the LFSR holds 15 bits, the
    /// volume 4, and only a channel with its DAC on can be enabled.
    pub open spec fn wf(self) -> bool {
        &&& self.lfsr <= 0x7FFF
        &&& self.volume <= 15
        &&& self.enabled ==> self.dac_enabled
    }

    pub open spec fn spec_trigger(self) -> NoiseChannel {
        let et = self.nr42 & 0x07;
        NoiseChannel {
            enabled: self.dac_enabled,
            length_counter: if self.length_counter == 0 { 64 } else { self.length_counter },
            timer: match spec_noise_period(self.nr43) { Some(p) => p, None => 0 },
            volume: self.nr42 >> 4,
            envelope_timer: if et == 0 { 8 } else { et },
            lfsr: 0,
            ..self
        }
    }

    pub open spec fn spec_ticked(self, t: u32) -> NoiseChannel {
        if !self.enabled {
            self
        } else {
            match spec_noise_period(self.nr43) {
                None => self,
                Some(p) => {
                    let period: u32 = if p == 0 { 1 } else { p };
                    let r = spec_noise_run(self.timer, self.lfsr, t, period, self.nr43 & 0x08 != 0);
                    NoiseChannel { timer: r.0, lfsr: r.1, ..self }
                },
            }
        }
    }

    pub open spec fn spec_clock_length(self) -> NoiseChannel {
        if self.nr44 & 0x40 == 0 || self.length_counter == 0 {
            self
        } else {
            let l = (self.length_counter - 1) as u8;
            NoiseChannel { length_counter: l, enabled: if l == 0 { false } else { self.enabled }, ..self }
        }
    }

    pub open spec fn spec_clock_envelope(self) -> NoiseChannel {
        if !self.enabled {
            self
        } else {
            let r = spec_envelope_step(self.nr42, self.envelope_timer, self.volume);
            NoiseChannel { envelope_timer: r.0, volume: r.1, ..self }
        }
    }

    pub open spec fn spec_digital_output(self) -> u8 {
        if !self.enabled || self.lfsr & 1 == 0 { 0 } else { self.volume & 0x0F }
    }

    pub open spec fn spec_write_nr41(self, v: u8) -> NoiseChannel {
        NoiseChannel { nr41: v & 0x3F, length_counter: (64 - (v & 0x3F)) as u8, ..self }
    }

    pub open spec fn spec_write_nr42(self, v: u8) -> NoiseChannel {
        NoiseChannel { nr42: v, dac_enabled: v & 0xF8 != 0, enabled: if v & 0xF8 != 0 { self.enabled } else { false },
            ..self }
    }

    pub open spec fn spec_write_nr43(self, v: u8) -> NoiseChannel {
        NoiseChannel { nr43: v, ..self }
    }

    pub open spec fn spec_write_nr44(self, v: u8) -> NoiseChannel {
        let c = NoiseChannel { nr44: v & 0xC0, ..self };
        if v & 0x80 != 0 { c.spec_trigger() } else { c }
    }

    pub fn new() -> (c: Self)
        ensures
            c == Self::spec_new(),
    {
        Self {
            nr41: 0,
            nr42: 0,
            nr43: 0,
            nr44: 0,
            enabled: false,
            dac_enabled: false,
            lfsr: 0,
            timer: 0,
            volume: 0,
            envelope_timer: 0,
            length_counter: 0,
        }
    }

    pub fn enabled(&self) -> (r: bool)
        ensures
            r == self.enabled,
    {
        self.enabled
    }

    pub fn dac_enabled(&self) -> (r: bool)
        ensures
            r == self.dac_enabled,
    {
        self.dac_enabled
    }

    pub fn volume(&self) -> (r: u8)
        ensures
            r == self.volume,
    {
        self.volume
    }

    pub fn lfsr(&self) -> (r: u16)
        ensures
            r == self.lfsr & 0x7FFF,
    {
        self.lfsr & 0x7FFF
    }

    pub fn power_off(&mut self)
        ensures
            *final(self) == Self::spec_new(),
    {
        *self = Self::new();
    }

    pub fn read_nr42(&self) -> (r: u8)
        ensures
            r == self.nr42,
    {
        self.nr42
    }

    pub fn read_nr43(&self) -> (r: u8)
        ensures
            r == self.nr43,
    {
        self.nr43
    }

    pub fn read_nr44(&self) -> (r: u8)
        ensures
            r == self.nr44 | 0xBF,
    {
        self.nr44 | 0xBF
    }

    pub fn write_nr41(&mut self, value: u8)
        ensures
            *final(self) == old(self).spec_write_nr41(value),
    {
        self.nr41 = value & 0x3F;
        assert(value & 0x3F <= 63) by (bit_vector);
        self.length_counter = 64 - (value & 0x3F);
    }

    pub fn write_nr42(&mut self, value: u8)
        ensures
            *final(self) == old(self).spec_write_nr42(value),
    {
        self.nr42 = value;
        self.dac_enabled = value & 0xF8 != 0;
        if !self.dac_enabled {
            self.enabled = false;
        }
    }

    pub fn write_nr43(&mut self, value: u8)
        ensures
            *final(self) == old(self).spec_write_nr43(value),
    {
        self.nr43 = value;
    }

    pub fn write_nr44(&mut self, value: u8, _next_frame_length: bool)
        ensures
            *final(self) == old(self).spec_write_nr44(value),
    {
        self.nr44 = value & 0xC0;
        if value & 0x80 != 0 {
            self.trigger();
        }
    }

    /// T-cycles between LFSR clocks, or `None` when shift is 14/15 (frozen).
    pub fn period_t(&self) -> (r: Option<u32>)
        ensures
            r == spec_noise_period(self.nr43),
    {
        let shift: u8 = (self.nr43 >> 4) & 0x0F;
        if shift >= 14 {
            return None;
        }
        let divider: u8 = self.nr43 & 0x07;
        // divider 0 is treated as 0.5 → half the usual 16× base.
        let base: u32 = if divider == 0 { 8 } else { 16 * divider as u32 };
        Some(base << shift)
    }

    fn width7(&self) -> (r: bool)
        ensures
            r == (self.nr43 & 0x08 != 0),
    {
        self.nr43 & 0x08 != 0
    }

    fn trigger(&mut self)
        ensures
            *final(self) == old(self).spec_trigger(),
    {
        self.enabled = self.dac_enabled;
        if self.length_counter == 0 {
            self.length_counter = 64;
        }
        self.timer = match self.period_t() {
            Some(p) => p,
            None => 0,
        };
        self.volume = self.nr42 >> 4;
        self.envelope_timer = self.nr42 & 0x07;
        if self.envelope_timer == 0 {
            self.envelope_timer = 8;
        }
        // LFSR cleared on (re)trigger; the XNOR step escapes the all-zero state.
        self.lfsr = 0;
    }

    /// One LFSR step (XNOR into bit 15, optional 7-bit tap, then shift).
    pub fn clock_lfsr(&mut self)
        ensures
            *final(self) == (NoiseChannel { lfsr: spec_clock_lfsr(old(self).lfsr, old(self).nr43 & 0x08 != 0),
                ..*old(self) }),
    {
        let b0: u16 = self.lfsr & 1;
        let b1: u16 = (self.lfsr >> 1) & 1;
        let bit: u16 = if b0 == b1 { 1 } else { 0 };
        // Write into bit 15 of a 16-bit view, mirror to bit 7 in short mode, then >> 1.
        let mut next: u16 = self.lfsr | (bit << 15u16);
        if self.width7() {
            next = (next & !(1u16 << 7u16)) | (bit << 7u16);
        }
        self.lfsr = (next >> 1u16) & 0x7FFF;
    }

    pub fn tick(&mut self, t_cycles: u32)
        ensures
            *final(self) == old(self).spec_ticked(t_cycles),
    {
        if !self.enabled {
            return;
        }
        let p: u32 = match self.period_t() {
            Some(p) => p,
            None => return,
        };
        let period: u32 = if p == 0 { 1 } else { p };
        let ghost w7: bool = self.nr43 & 0x08 != 0;
        let ghost target = spec_noise_run(self.timer, self.lfsr, t_cycles, period, w7);
        let mut left: u32 = t_cycles;
        while left > 0
            invariant
                period >= 1,
                w7 == (self.nr43 & 0x08 != 0),
                spec_noise_run(self.timer, self.lfsr, left, period, w7) == target,
                *self == (NoiseChannel { timer: self.timer, lfsr: self.lfsr, ..*old(self) }),
            decreases left,
        {
            if self.timer == 0 {
                self.timer = period;
            }
            let step: u32 = if left < self.timer { left } else { self.timer };
            self.timer = self.timer - step;
            left = left - step;
            if self.timer == 0 {
                self.clock_lfsr();
                self.timer = period;
            }
        }
    }

    pub fn clock_length(&mut self)
        ensures
            *final(self) == old(self).spec_clock_length(),
    {
        if self.nr44 & 0x40 == 0 {
            return;
        }
        if self.length_counter > 0 {
            self.length_counter = self.length_counter - 1;
            if self.length_counter == 0 {
                self.enabled = false;
            }
        }
    }

    pub fn clock_envelope(&mut self)
        ensures
            *final(self) == old(self).spec_clock_envelope(),
    {
        if !self.enabled {
            return;
        }
        let (t, v) = envelope_step(self.nr42, self.envelope_timer, self.volume);
        self.envelope_timer = t;
        self.volume = v;
    }

    /// Generator digital output `$0`–`$F` (disabled → 0; LFSR bit0 selects volume).
    pub fn digital_output(&self) -> (r: u8)
        ensures
            r == self.spec_digital_output(),
    {
        if !self.enabled {
            return 0;
        }
        if self.lfsr & 1 == 0 { 0 } else { self.volume & 0x0F }
    }

    pub open spec fn spec_snapshot(self) -> NoiseStateV1 {
        NoiseStateV1 {
            enabled: self.enabled,
            dac_on: self.dac_enabled,
            length: self.length_counter,
            length_enable: self.nr44 & 0x40 != 0,
            envelope_volume: self.volume,
            envelope_dir: self.nr42 & 0x08 != 0,
            envelope_period: self.nr42 & 0x07,
            envelope_timer: self.envelope_timer,
            clock_shift: (self.nr43 >> 4) & 0x0F,
            width_mode: self.nr43 & 0x08 != 0,
            divisor_code: self.nr43 & 0x07,
            lfsr: self.lfsr & 0x7FFF,
            timer: if self.timer > 0xFFFF { 0xFFFF } else { self.timer as u16 },
        }
    }

    pub fn snapshot(&self) -> (s: NoiseStateV1)
        ensures
            s == self.spec_snapshot(),
    {
        NoiseStateV1 {
            enabled: self.enabled,
            dac_on: self.dac_enabled,
            length: self.length_counter,
            length_enable: self.nr44 & 0x40 != 0,
            envelope_volume: self.volume,
            envelope_dir: self.nr42 & 0x08 != 0,
            envelope_period: self.nr42 & 0x07,
            envelope_timer: self.envelope_timer,
            clock_shift: (self.nr43 >> 4) & 0x0F,
            width_mode: self.nr43 & 0x08 != 0,
            divisor_code: self.nr43 & 0x07,
            lfsr: self.lfsr & 0x7FFF,
            timer: if self.timer > 0xFFFF { 0xFFFF } else { self.timer as u16 },
        }
    }

    pub open spec fn spec_apply_snapshot(self, s: NoiseStateV1) -> NoiseChannel {
        NoiseChannel {
            enabled: s.enabled,
            dac_enabled: s.dac_on,
            length_counter: s.length,
            volume: s.envelope_volume,
            envelope_timer: s.envelope_timer,
            lfsr: s.lfsr,
            timer: s.timer as u32,
            nr41: (64u8.wrapping_sub(s.length)) & 0x3F,
            nr42: (((s.envelope_volume as u32) << 4u32) as u8) | (if s.envelope_dir { 0x08u8 } else { 0u8 })
                | (s.envelope_period & 0x07) | (if s.dac_on { 0xF0u8 } else { 0u8 }),
            nr43: (((s.clock_shift as u32) << 4u32) as u8) | (if s.width_mode { 0x08u8 } else { 0u8 }) | (
            s.divisor_code & 0x07),
            nr44: if s.length_enable { 0x40 } else { 0 },
        }
    }

    pub fn apply_snapshot(&mut self, s: &NoiseStateV1)
        ensures
            *final(self) == old(self).spec_apply_snapshot(*s),
    {
        self.enabled = s.enabled;
        self.dac_enabled = s.dac_on;
        self.length_counter = s.length;
        self.volume = s.envelope_volume;
        self.envelope_timer = s.envelope_timer;
        self.lfsr = s.lfsr;
        self.timer = s.timer as u32;
        self.nr41 = 64u8.wrapping_sub(s.length) & 0x3F;
        self.nr42 = (((s.envelope_volume as u32) << 4u32) as u8) | (if s.envelope_dir { 0x08 } else { 0 })
            | (s.envelope_period & 0x07) | if s.dac_on { 0xF0 } else { 0 };
        self.nr43 = (((s.clock_shift as u32) << 4u32) as u8) | (if s.width_mode { 0x08 } else { 0 }) | (s.divisor_code
            & 0x07);
        self.nr44 = if s.length_enable { 0x40 } else { 0 };
    }
}

/// An LFSR step always leaves a 15-bit value.
pub proof fn lemma_lfsr_stays_15_bits(lfsr: u16, width7: bool)
    ensures
        spec_clock_lfsr(lfsr, width7) <= 0x7FFF,
{
    let bit: u16 = if (lfsr & 1) == ((lfsr >> 1) & 1) { 1 } else { 0 };
    let next: u16 = lfsr | (bit << 15u16);
    let next2: u16 = if width7 { (next & !(1u16 << 7u16)) | (bit << 7u16) } else { next };
    assert((next2 >> 1u16) & 0x7FFF <= 0x7FFF) by (bit_vector);
}

/// Register writes, trigger, length and envelope clocks and ticks keep a
/// well-formed noise channel well formed.
pub proof fn lemma_noise_ops_keep_wf(c: NoiseChannel, value: u8, t: u32)
    requires
        c.wf(),
    ensures
        c.spec_clock_length().wf(),
        c.spec_clock_envelope().wf(),
        (NoiseChannel { nr42: value, dac_enabled: value & 0xF8 != 0,
            enabled: if value & 0xF8 != 0 { c.enabled } else { false }, ..c }).wf(),
        c.spec_trigger().wf(),
        c.spec_ticked(t).wf(),
{
    let r42 = c.nr42;
    assert(r42 >> 4 <= 15) by (bit_vector);
    super::envelope::lemma_envelope_volume_bounded(c.nr42, c.envelope_timer, c.volume);
    if c.enabled {
        if let Some(p) = spec_noise_period(c.nr43) {
            let period: u32 = if p == 0 { 1 } else { p };
            lemma_noise_run_keeps_15_bits(c.timer, c.lfsr, t, period, c.nr43 & 0x08 != 0);
        }
    }
}

proof fn lemma_noise_run_keeps_15_bits(timer: u32, lfsr: u16, left: u32, period: u32, w7: bool)
    requires
        lfsr <= 0x7FFF,
    ensures
        spec_noise_run(timer, lfsr, left, period, w7).1 <= 0x7FFF,
    decreases left,
{
    if left == 0 || period == 0 {
    } else {
        let t0: u32 = if timer == 0 { period } else { timer };
        let step: u32 = if left < t0 { left } else { t0 };
        let t1: u32 = (t0 - step) as u32;
        let left1: u32 = (left - step) as u32;
        if t1 == 0 {
            lemma_lfsr_stays_15_bits(lfsr, w7);
            lemma_noise_run_keeps_15_bits(period, spec_clock_lfsr(lfsr, w7), left1, period, w7);
        } else {
            lemma_noise_run_keeps_15_bits(t1, lfsr, left1, period, w7);
        }
    }
}

/// Record fields within the ranges the registers can hold.
pub open spec fn noise_state_in_range(s: NoiseStateV1) -> bool {
    s.envelope_period < 8 && s.clock_shift < 16 && s.divisor_code < 8 && s.lfsr < 0x8000
}

/// Restoring a noise-channel record and saving again gives the same record.
pub proof fn lemma_noise_snapshot_reload(c: NoiseChannel, s: NoiseStateV1)
    requires
        noise_state_in_range(s),
    ensures
        c.spec_apply_snapshot(s).spec_snapshot() == s,
{
    let v = s.envelope_volume;
    let p = s.envelope_period;
    let cs = s.clock_shift;
    let dc = s.divisor_code;
    let lf = s.lfsr;
    let dir: u8 = if s.envelope_dir { 0x08u8 } else { 0u8 };
    let dac: u8 = if s.dac_on { 0xF0u8 } else { 0u8 };
    let w: u8 = if s.width_mode { 0x08u8 } else { 0u8 };
    let le: u8 = if s.length_enable { 0x40u8 } else { 0u8 };
    assert((dir == 0x08u8 || dir == 0u8) && (dac == 0xF0u8 || dac == 0u8) && p < 8 ==> {
        let x = (((v as u32) << 4u32) as u8) | dir | (p & 0x07) | dac;
        &&& (x & 0x08 != 0) == (dir == 0x08u8)
        &&& x & 0x07 == p
    }) by (bit_vector);
    assert((w == 0x08u8 || w == 0u8) && cs < 16 && dc < 8 ==> {
        let x = (((cs as u32) << 4u32) as u8) | w | (dc & 0x07);
        &&& (x >> 4) & 0x0F == cs
        &&& (x & 0x08 != 0) == (w == 0x08u8)
        &&& x & 0x07 == dc
    }) by (bit_vector);
    assert((le == 0x40u8 || le == 0u8) ==> (le & 0x40 != 0) == (le == 0x40u8)) by (bit_vector);
    assert(lf < 0x8000 ==> lf & 0x7FFF == lf) by (bit_vector);
}

} // verus!
