//! MBC3 real-time clock (Pan Docs, MBC3).
//!
//! Register select `$08`–`$0C` maps into `$A000`–`$BFFF`. Latch via `$6000` `$00`→`$01`.

use vstd::prelude::*;
use vstd::arithmetic::div_mod::{lemma_fundamental_div_mod, lemma_fundamental_div_mod_converse};
use crate::snapshot::RtcStateV1;

verus! {

/// CPU T-cycles per second (DMG, 4 194 304 Hz).
pub const T_CYCLES_PER_SECOND: u64 = 4_194_304;

/// BGB / VBA-M style 48-byte RTC trailer appended after SRAM in `.sav` files.
pub const RTC_SAVE_LEN: usize = 48;

/// Accumulator value after adding `t` cycles (saturating at `u64::MAX`).
pub open spec fn accumulated(c: u64, t: u32) -> int {
    if c + t > u64::MAX { u64::MAX as int } else { c + t }
}

/// Seconds in the 9-bit day counter's range (512 days).
pub open spec fn clock_period() -> int {
    512int * 86400
}

#[derive(Debug, Clone, Copy)]
pub struct Rtc {
    /// Running clock (ticks when not halted).
    pub s: u8,
    pub m: u8,
    pub h: u8,
    /// Day counter bits 0–7.
    pub dl: u8,
    /// Bit0 = day bit8, bit6 = halt, bit7 = day carry.
    pub dh: u8,
    /// Latched snapshot returned on RTC reads.
    pub latched: [u8; 5],
    /// Previous byte written to the latch port (`$6000–$7FFF`).
    pub latch_prev: u8,
    pub cycle_accum: u64,
    /// Unix seconds at last wall-clock sync (save / load).
    pub unix_secs: u64,
    pub dirty: bool,
}

impl Rtc {
    /// Day counter (9 bits: `DL` plus bit 0 of `DH`).
    pub open spec fn days(self) -> int {
        self.dl + 256 * (self.dh % 2)
    }

    /// Time held by the running registers, in seconds.
    pub open spec fn counter(self) -> int {
        self.s + 60 * self.m + 3600 * self.h + 86400 * self.days()
    }

    pub open spec fn spec_halted(self) -> bool {
        (self.dh / 64) % 2 == 1
    }

    /// Running registers hold a normalized time.
    pub open spec fn normalized(self) -> bool {
        self.s < 60 && self.m < 60 && self.h < 24
    }

    /// Running clock after `secs` seconds: the registers hold `counter + secs`
    /// normalized (modulo 512 days), the day carry latches on overflow, halt and
    /// the other `DH` bits stay.
    pub open spec fn advanced(self, secs: int) -> Rtc {
        let t = self.counter() + secs;
        let days = (t / 86400) % 512;
        let carry_bit: int = if self.dh >= 128 || t / 86400 > 511 { 128 } else { 0 };
        Rtc {
            s: (t % 60) as u8,
            m: ((t / 60) % 60) as u8,
            h: ((t / 3600) % 24) as u8,
            dl: (days % 256) as u8,
            dh: (carry_bit + ((self.dh % 128) / 2) * 2 + days / 256) as u8,
            dirty: true,
            ..self
        }
    }

    pub open spec fn spec_latched_reg(self, reg: u8) -> u8 {
        if 0x08 <= reg <= 0x0C { self.latched[reg - 0x08] } else { 0xFF }
    }

    pub open spec fn spec_write_reg(self, reg: u8, value: u8) -> Rtc {
        let r = Rtc { dirty: true, ..self };
        if reg == 0x08 { Rtc { s: value % 60, ..r } }
        else if reg == 0x09 { Rtc { m: value % 60, ..r } }
        else if reg == 0x0A { Rtc { h: value % 24, ..r } }
        else if reg == 0x0B { Rtc { dl: value, ..r } }
        else if reg == 0x0C { Rtc { dh: value & 0xC1, ..r } }
        else { r }
    }

    pub open spec fn spec_new() -> Rtc {
        Rtc {
            s: 0,
            m: 0,
            h: 0,
            dl: 0,
            dh: 0,
            latched: [0u8, 0u8, 0u8, 0u8, 0u8],
            latch_prev: 0xFF,
            cycle_accum: 0,
            unix_secs: 0,
            dirty: false,
        }
    }

    pub fn new() -> (r: Self)
        ensures
            r == Self::spec_new(),
    {
        let r = Self {
            s: 0,
            m: 0,
            h: 0,
            dl: 0,
            dh: 0,
            latched: [0; 5],
            latch_prev: 0xFF,
            cycle_accum: 0,
            unix_secs: 0,
            dirty: false,
        };
        assert(r.latched =~= Self::spec_new().latched);
        r
    }

    pub fn is_dirty(&self) -> (r: bool)
        ensures
            r == self.dirty,
    {
        self.dirty
    }

    pub fn clear_dirty(&mut self)
        ensures
            *final(self) == (Rtc { dirty: false, ..*old(self) }),
    {
        self.dirty = false;
    }

    pub fn mark_dirty(&mut self)
        ensures
            *final(self) == (Rtc { dirty: true, ..*old(self) }),
    {
        self.dirty = true;
    }

    pub fn halted(&self) -> (r: bool)
        ensures
            r == self.spec_halted(),
    {
        (self.dh / 64) % 2 == 1
    }

    /// Advance `secs` on the running clock (tests + save reload).
    #[verifier::rlimit(40)]
    pub fn advance_seconds(&mut self, secs: u64)
        ensures
            (old(self).spec_halted() || secs == 0) ==> *final(self) == *old(self),
            !(old(self).spec_halted() || secs == 0) ==> *final(self) == old(self).advanced(secs as int),
    {
        if self.halted() || secs == 0 {
            return;
        }
        self.mark_dirty();

        let old_days: u128 = self.dl as u128 + 256 * (self.dh % 2) as u128;
        let s1: u128 = self.s as u128 + secs as u128;
        let m1: u128 = self.m as u128 + s1 / 60;
        let h1: u128 = self.h as u128 + m1 / 60;
        let day_add: u128 = h1 / 24;
        let mut days: u128 = old_days + day_add;
        let ghost t: int = old(self).counter() + secs;
        proof {
            lemma_normalize(self.s as int, self.m as int, self.h as int, old_days as int, secs as int);
            assert(days == t / 86400);
        }
        let mut dh: u8 = self.dh;
        if days > 0x1FF {
            if dh < 128 {
                dh = dh + 128;
            }
            days = days % 512;
        }
        proof {
            assert(days == (t / 86400) % 512);
            assert(dh % 128 == old(self).dh % 128);
            assert((dh >= 128) == (old(self).dh >= 128 || t / 86400 > 511));
        }
        self.s = (s1 % 60) as u8;
        self.m = (m1 % 60) as u8;
        self.h = (h1 % 24) as u8;
        self.dl = (days % 256) as u8;
        self.dh = ((dh / 2) * 2) + (days / 256) as u8;
    }

    /// Clock after `t` CPU cycles: unless halted, the accumulator takes the
    /// cycles (saturating), each whole second in it advances the clock, and
    /// the remainder stays.
    pub open spec fn spec_ticked(self, t: u32) -> Rtc {
        if self.spec_halted() || t == 0 {
            self
        } else {
            let total = accumulated(self.cycle_accum, t);
            let secs = total / (T_CYCLES_PER_SECOND as int);
            let rest = Rtc { cycle_accum: (total % (T_CYCLES_PER_SECOND as int)) as u64, ..self };
            if secs == 0 { rest } else { rest.advanced(secs) }
        }
    }

    /// Advance from CPU T-cycles (ignored while halted). Each whole second
    /// accumulated advances the clock; the remainder stays in the accumulator.
    #[verifier::rlimit(40)]
    pub fn tick(&mut self, t_cycles: u32)
        ensures
            *final(self) == old(self).spec_ticked(t_cycles),
            !(old(self).spec_halted() || t_cycles == 0) ==> final(self).cycle_accum < T_CYCLES_PER_SECOND,
    {
        if self.halted() || t_cycles == 0 {
            return;
        }
        let ghost start = *self;
        self.cycle_accum = self.cycle_accum.saturating_add(t_cycles as u64);
        let ghost total: int = accumulated(start.cycle_accum, t_cycles);
        let mut n: u64 = 0;
        while self.cycle_accum >= T_CYCLES_PER_SECOND
            invariant
                self.cycle_accum + n * T_CYCLES_PER_SECOND == total,
                total <= u64::MAX,
                !start.spec_halted(),
                n == 0 ==> *self == (Rtc { cycle_accum: self.cycle_accum, ..start }),
                n > 0 ==> *self == (Rtc { cycle_accum: self.cycle_accum, ..start }).advanced(n as int),
            decreases self.cycle_accum,
        {
            self.cycle_accum -= T_CYCLES_PER_SECOND;
            proof {
                if n > 0 {
                    lemma_advanced_keeps_halt(Rtc { cycle_accum: self.cycle_accum, ..start }, n as int);
                }
            }
            self.advance_seconds(1);
            proof {
                if n > 0 {
                    lemma_advance_compose(Rtc { cycle_accum: self.cycle_accum, ..start }, n as int, 1);
                }
            }
            n = n + 1;
        }
        proof {
            lemma_fundamental_div_mod_converse(total, T_CYCLES_PER_SECOND as int, n as int, self.cycle_accum as int);
        }
    }

    /// Clock after a latch-port write: a `0` then `1` sequence copies the
    /// running registers into the latched ones.
    pub open spec fn spec_write_latch(self, value: u8) -> Rtc {
        Rtc {
            latch_prev: value % 2,
            latched: if self.latch_prev == 0 && value % 2 == 1 {
                [self.s, self.m, self.h, self.dl, self.dh]
            } else {
                self.latched
            },
            ..self
        }
    }

    /// Latch port write (`$6000–$7FFF`). Captures on `$00` → `$01`.
    pub fn write_latch(&mut self, value: u8)
        ensures
            *final(self) == old(self).spec_write_latch(value),
    {
        let v: u8 = value % 2;
        if self.latch_prev == 0x00 && v == 0x01 {
            self.latched = [self.s, self.m, self.h, self.dl, self.dh];
        }
        self.latch_prev = v;
    }

    /// `reg` is `$08`–`$0C`.
    pub fn read_latched(&self, reg: u8) -> (r: u8)
        ensures
            r == self.spec_latched_reg(reg),
    {
        match reg {
            0x08 => self.latched[0],
            0x09 => self.latched[1],
            0x0A => self.latched[2],
            0x0B => self.latched[3],
            0x0C => self.latched[4],
            _ => 0xFF,
        }
    }

    /// Write running register (`$08`–`$0C`). Games should halt first.
    pub fn write_reg(&mut self, reg: u8, value: u8)
        ensures
            *final(self) == old(self).spec_write_reg(reg, value),
    {
        self.mark_dirty();
        match reg {
            0x08 => self.s = value % 60,
            0x09 => self.m = value % 60,
            0x0A => self.h = value % 24,
            0x0B => self.dl = value,
            0x0C => self.dh = value & 0xC1,
            _ => {},
        }
    }

    /// Unix timestamp used for offline catch-up on save load.
    pub fn unix_secs(&self) -> (r: u64)
        ensures
            r == self.unix_secs,
    {
        self.unix_secs
    }

    pub fn set_unix_secs(&mut self, secs: u64)
        ensures
            *final(self) == (Rtc { unix_secs: secs, ..*old(self) }),
    {
        self.unix_secs = secs;
    }

    /// Clock after a wall-clock sync to `now`: the seconds elapsed since the
    /// stored stamp (if any) advance a running clock, and the stamp becomes `now`.
    pub open spec fn spec_synced(self, now: u64) -> Rtc {
        if now > self.unix_secs {
            (Rtc { unix_secs: now, ..self }).advanced_if_running(now - self.unix_secs)
        } else {
            Rtc { unix_secs: now, ..self }
        }
    }

    /// Apply wall-clock delta since `unix_secs`, then update the stamp.
    pub fn sync_to_unix(&mut self, now: u64)
        ensures
            *final(self) == old(self).spec_synced(now),
    {
        if now > self.unix_secs {
            self.advance_seconds(now - self.unix_secs);
        }
        self.unix_secs = now;
    }

    /// The 48-byte trailer for this clock: five running registers and five
    /// latched registers as little-endian 32-bit words, then the Unix stamp
    /// as a little-endian 64-bit word.
    pub open spec fn save_image(self) -> Seq<u8> {
        word32(self.s) + word32(self.m) + word32(self.h) + word32(self.dl) + word32(self.dh)
            + word32(self.latched[0]) + word32(self.latched[1]) + word32(self.latched[2])
            + word32(self.latched[3]) + word32(self.latched[4]) + le_u64_bytes(self.unix_secs)
    }

    /// Clock state read back from a trailer of at least 48 bytes. Each 32-bit
    /// word is truncated to its low byte; running registers are clamped to
    /// their ranges.
    pub open spec fn loaded(self, data: Seq<u8>) -> Rtc {
        Rtc {
            s: data[0] % 60,
            m: data[4] % 60,
            h: data[8] % 24,
            dl: data[12],
            dh: data[16] & 0xC1,
            latched: [data[20], data[24], data[28], data[32], data[36]],
            unix_secs: le_u64_value(data.subrange(40, 48)) as u64,
            dirty: false,
            ..self
        }
    }

    /// Serialize BGB-style 48-byte trailer (5×u32 LE regs + 5×u32 latched + u64 time).
    pub fn to_save_bytes(&self) -> (out: [u8; 48])
        ensures
            out@ == self.save_image(),
    {
        let mut out = [0u8; 48];
        let regs: [u8; 10] = [
            self.s, self.m, self.h, self.dl, self.dh,
            self.latched[0], self.latched[1], self.latched[2], self.latched[3], self.latched[4],
        ];
        let mut i: usize = 0;
        while i < 10
            invariant
                0 <= i <= 10,
                out@.len() == 48,
                forall|j: int| 0 <= j < i ==> out@.subrange(4 * j, 4 * j + 4) == #[trigger] word32(regs@[j]),
                forall|j: int| 4 * i <= j < 48 ==> out@[j] == 0,
            decreases 10 - i,
        {
            out[4 * i] = regs[i];
            proof {
                assert forall|j: int| 0 <= j < i + 1 implies out@.subrange(4 * j, 4 * j + 4)
                    == #[trigger] word32(regs@[j]) by {
                    if j == i {
                        assert(out@.subrange(4 * j, 4 * j + 4) =~= word32(regs@[j]));
                    } else {
                        assert(out@.subrange(4 * j, 4 * j + 4) =~= old_sub(out@, j));
                    }
                }
            }
            i = i + 1;
        }
        let x = self.unix_secs;
        out[40] = (x % 0x100) as u8;
        out[41] = ((x / 0x100) % 0x100) as u8;
        out[42] = ((x / 0x1_0000) % 0x100) as u8;
        out[43] = ((x / 0x100_0000) % 0x100) as u8;
        out[44] = ((x / 0x1_0000_0000) % 0x100) as u8;
        out[45] = ((x / 0x100_0000_0000) % 0x100) as u8;
        out[46] = ((x / 0x1_0000_0000_0000) % 0x100) as u8;
        out[47] = ((x / 0x100_0000_0000_0000) % 0x100) as u8;
        proof {
            let w = |j: int| out@.subrange(4 * j, 4 * j + 4);
            assert(out@ =~= w(0) + w(1) + w(2) + w(3) + w(4) + w(5) + w(6) + w(7) + w(8) + w(9)
                + out@.subrange(40, 48));
            assert(out@.subrange(40, 48) =~= le_u64_bytes(x));
        }
        out
    }

    /// Restore the clock from a trailer; shorter input leaves it unchanged.
    pub fn load_save_bytes(&mut self, data: &[u8])
        ensures
            data@.len() < 48 ==> *final(self) == *old(self),
            data@.len() >= 48 ==> *final(self) == old(self).loaded(data@),
    {
        if data.len() < 48 {
            return;
        }
        self.s = data[0] % 60;
        self.m = data[4] % 60;
        self.h = data[8] % 24;
        self.dl = data[12];
        self.dh = data[16] & 0xC1;
        self.latched = [data[20], data[24], data[28], data[32], data[36]];
        self.unix_secs = data[40] as u64 + data[41] as u64 * 0x100 + data[42] as u64 * 0x1_0000
            + data[43] as u64 * 0x100_0000 + data[44] as u64 * 0x1_0000_0000
            + data[45] as u64 * 0x100_0000_0000 + data[46] as u64 * 0x1_0000_0000_0000
            + data[47] as u64 * 0x100_0000_0000_0000;
        self.dirty = false;
    }

    /// Plain record of the clock registers.
    pub fn snapshot(&self) -> (st: RtcStateV1)
        ensures
            st == self.spec_snapshot(),
    {
        RtcStateV1 {
            s: self.s,
            m: self.m,
            h: self.h,
            dl: self.dl,
            dh: self.dh,
            latched: self.latched,
            latch_prev: self.latch_prev,
            cycle_accum: self.cycle_accum,
            unix_secs: self.unix_secs,
        }
    }

    pub open spec fn spec_snapshot(self) -> RtcStateV1 {
        RtcStateV1 {
            s: self.s,
            m: self.m,
            h: self.h,
            dl: self.dl,
            dh: self.dh,
            latched: self.latched,
            latch_prev: self.latch_prev,
            cycle_accum: self.cycle_accum,
            unix_secs: self.unix_secs,
        }
    }

    /// Restore every register from a record; the dirty flag is kept.
    pub fn apply(&mut self, state: &RtcStateV1)
        ensures
            *final(self) == old(self).spec_apply(*state),
    {
        self.s = state.s;
        self.m = state.m;
        self.h = state.h;
        self.dl = state.dl;
        self.dh = state.dh;
        self.latched = state.latched;
        self.latch_prev = state.latch_prev;
        self.cycle_accum = state.cycle_accum;
        self.unix_secs = state.unix_secs;
    }

    pub open spec fn spec_apply(self, st: RtcStateV1) -> Rtc {
        Rtc {
            s: st.s,
            m: st.m,
            h: st.h,
            dl: st.dl,
            dh: st.dh,
            latched: st.latched,
            latch_prev: st.latch_prev,
            cycle_accum: st.cycle_accum,
            unix_secs: st.unix_secs,
            dirty: self.dirty,
        }
    }

    /// Clock after `secs` seconds unless halted.
    pub open spec fn advanced_if_running(self, secs: int) -> Rtc {
        if self.spec_halted() || secs == 0 { self } else { self.advanced(secs) }
    }
}

/// A byte widened to a little-endian 32-bit word.
pub open spec fn word32(b: u8) -> Seq<u8> {
    seq![b, 0u8, 0u8, 0u8]
}

/// Little-endian bytes of a 64-bit word.
pub open spec fn le_u64_bytes(x: u64) -> Seq<u8> {
    seq![
        (x % 0x100) as u8,
        ((x / 0x100) % 0x100) as u8,
        ((x / 0x1_0000) % 0x100) as u8,
        ((x / 0x100_0000) % 0x100) as u8,
        ((x / 0x1_0000_0000) % 0x100) as u8,
        ((x / 0x100_0000_0000) % 0x100) as u8,
        ((x / 0x1_0000_0000_0000) % 0x100) as u8,
        ((x / 0x100_0000_0000_0000) % 0x100) as u8,
    ]
}

/// Value of eight little-endian bytes.
pub open spec fn le_u64_value(b: Seq<u8>) -> int {
    b[0] + b[1] * 0x100 + b[2] * 0x1_0000 + b[3] * 0x100_0000 + b[4] * 0x1_0000_0000
        + b[5] * 0x100_0000_0000 + b[6] * 0x1_0000_0000_0000 + b[7] * 0x100_0000_0000_0000
}

spec fn old_sub(s: Seq<u8>, j: int) -> Seq<u8> {
    s.subrange(4 * j, 4 * j + 4)
}

/// Reading back little-endian bytes gives the same 64-bit word.
pub proof fn lemma_le_u64_round_trip(x: u64)
    ensures
        le_u64_value(le_u64_bytes(x)) == x,
{
    assert(x == (x % 0x100) + ((x / 0x100) % 0x100) * 0x100 + ((x / 0x1_0000) % 0x100) * 0x1_0000
        + ((x / 0x100_0000) % 0x100) * 0x100_0000 + ((x / 0x1_0000_0000) % 0x100) * 0x1_0000_0000
        + ((x / 0x100_0000_0000) % 0x100) * 0x100_0000_0000
        + ((x / 0x1_0000_0000_0000) % 0x100) * 0x1_0000_0000_0000
        + ((x / 0x100_0000_0000_0000) % 0x100) * 0x100_0000_0000_0000) by (bit_vector);
}

/// Saving the clock and loading the trailer back restores every register
/// that the trailer holds; running registers come back reduced to their
/// ranges, so a normalized clock with no stray `DH` bits comes back unchanged.
#[verifier::spinoff_prover]
pub proof fn lemma_rtc_save_round_trip(saved: Rtc, target: Rtc)
    ensures
        ({
            let r = target.loaded(saved.save_image());
            &&& r.s == saved.s % 60
            &&& r.m == saved.m % 60
            &&& r.h == saved.h % 24
            &&& r.dl == saved.dl
            &&& r.dh == saved.dh & 0xC1
            &&& r.latched == saved.latched
            &&& r.unix_secs == saved.unix_secs
            &&& !r.dirty
        }),
{
    let img = saved.save_image();
    let regs = seq![
        saved.s, 0u8, 0u8, 0u8, saved.m, 0u8, 0u8, 0u8, saved.h, 0u8, 0u8, 0u8, saved.dl, 0u8, 0u8, 0u8,
        saved.dh, 0u8, 0u8, 0u8, saved.latched[0], 0u8, 0u8, 0u8, saved.latched[1], 0u8, 0u8, 0u8,
        saved.latched[2], 0u8, 0u8, 0u8, saved.latched[3], 0u8, 0u8, 0u8, saved.latched[4], 0u8, 0u8, 0u8,
    ];
    assert(img =~= regs + le_u64_bytes(saved.unix_secs));
    assert(img.subrange(40, 48) =~= le_u64_bytes(saved.unix_secs));
    assert(img[0] == saved.s && img[4] == saved.m && img[8] == saved.h && img[12] == saved.dl);
    assert(img[16] == saved.dh && img[20] == saved.latched[0] && img[24] == saved.latched[1]);
    assert(img[28] == saved.latched[2] && img[32] == saved.latched[3] && img[36] == saved.latched[4]);
    lemma_le_u64_round_trip(saved.unix_secs);
    let r = target.loaded(img);
    assert(r.latched@ =~= saved.latched@);
}

/// Advancing never changes the halt flag.
proof fn lemma_advanced_keeps_halt(r: Rtc, a: int)
    requires
        a >= 0,
    ensures
        r.advanced(a).spec_halted() == r.spec_halted(),
{
    let t = r.counter() + a;
    let days = (t / 86400) % 512;
    let carry_bit: int = if r.dh >= 128 || t / 86400 > 511 { 128 } else { 0 };
    let low = (r.dh % 128) / 2;
    let dh2 = carry_bit + low * 2 + days / 256;
    assert(0 <= days / 256 <= 1);
    assert(((carry_bit + low * 2 + days / 256) / 64) % 2 == ((r.dh as int) / 64) % 2) by (nonlinear_arith)
        requires
            0 <= r.dh < 256,
            low == (r.dh % 128) / 2,
            carry_bit == 0 || carry_bit == 128,
            0 <= days / 256 <= 1,
    ;
}

/// Carrying multiples of `n` through `/` and `%`.
proof fn lemma_carry(x: int, k: int, n: int)
    requires
        n > 0,
        x >= 0,
    ensures
        (x + k * n) / n == x / n + k,
        (x + k * n) % n == x % n,
{
    lemma_fundamental_div_mod(x, n);
    vstd::arithmetic::div_mod::lemma_mod_bound(x, n);
    let q = x / n;
    let r = x % n;
    assert(x + k * n == (q + k) * n + r) by (nonlinear_arith)
        requires
            x == n * q + r,
    ;
    lemma_fundamental_div_mod_converse(x + k * n, n, q + k, r);
}

/// The carry chain seconds → minutes → hours → days equals normalizing the
/// total number of seconds.
proof fn lemma_normalize(s: int, m: int, h: int, d: int, secs: int)
    requires
        s >= 0,
        m >= 0,
        h >= 0,
        d >= 0,
        secs >= 0,
    ensures
        ({
            let t = s + 60 * m + 3600 * h + 86400 * d + secs;
            let s1 = s + secs;
            let m1 = m + s1 / 60;
            let h1 = h + m1 / 60;
            &&& s1 % 60 == t % 60
            &&& m1 % 60 == (t / 60) % 60
            &&& h1 % 24 == (t / 3600) % 24
            &&& d + h1 / 24 == t / 86400
        }),
{
    let t = s + 60 * m + 3600 * h + 86400 * d + secs;
    let s1 = s + secs;
    let m1 = m + s1 / 60;
    let h1 = h + m1 / 60;
    lemma_carry(s1, m + 60 * h + 1440 * d, 60);
    assert(t / 60 == m1 + 60 * h + 1440 * d);
    lemma_carry(m1, h + 24 * d, 60);
    assert((t / 60) / 60 == h1 + 24 * d);
    vstd::arithmetic::div_mod::lemma_div_denominator(t, 60, 60);
    assert(t / 3600 == h1 + 24 * d);
    lemma_carry(h1, d, 24);
    vstd::arithmetic::div_mod::lemma_div_denominator(t, 3600, 24);
}

/// Advancing the clock by `a` then `b` seconds equals advancing by `a + b`.
pub proof fn lemma_advance_compose(r: Rtc, a: int, b: int)
    requires
        a >= 0,
        b >= 0,
    ensures
        r.advanced(a).advanced(b) == r.advanced(a + b),
{
    let t = r.counter() + a;
    let p = clock_period();
    let r1 = r.advanced(a);
    let r2 = r1.advanced(b);
    let r3 = r.advanced(a + b);
    lemma_counter_of_advanced(r, a);
    let q = t / p;
    let t2 = t % p + b;
    let t3 = t + b;
    lemma_fundamental_div_mod(t, p);
    vstd::arithmetic::div_mod::lemma_mod_bound(t, p);
    assert(t3 == t2 + q * p) by (nonlinear_arith)
        requires
            t == p * q + t % p,
            t2 == t % p + b,
            t3 == t + b,
    ;
    assert(q >= 0) by {
        vstd::arithmetic::div_mod::lemma_div_pos_is_pos(t, p);
    }
    lemma_carry_fields(t2, q);
    lemma_dh_parts(r, a);
    lemma_dh_parts(r1, b);
    lemma_dh_parts(r, a + b);
    assert((t / 86400 > 511) == (q > 0)) by {
        vstd::arithmetic::div_mod::lemma_div_denominator(t, 86400, 512);
        vstd::arithmetic::div_mod::lemma_div_pos_is_pos(t, 86400);
    }
    assert(r2.dh == r3.dh);
    assert(r2 == r3);
}

/// How `DH` is rebuilt when the clock advances: carry bit, untouched middle bits, day bit 8.
proof fn lemma_dh_parts(r: Rtc, a: int)
    requires
        a >= 0,
        r.counter() + a >= 0,
    ensures
        ({
            let t = r.counter() + a;
            let r1 = r.advanced(a);
            &&& (r1.dh >= 128) == (r.dh >= 128 || t / 86400 > 511)
            &&& r1.dh % 128 / 2 == r.dh % 128 / 2
            &&& r1.dh % 2 == ((t / 86400) % 512) / 256
        }),
{
    let t = r.counter() + a;
    let days = (t / 86400) % 512;
    let carry_bit: int = if r.dh >= 128 || t / 86400 > 511 { 128 } else { 0 };
    let low = (r.dh % 128) / 2;
    assert(0 <= days / 256 <= 1);
    assert(0 <= low < 64);
    let v = carry_bit + low * 2 + days / 256;
    assert(v >= 128 <==> carry_bit == 128);
    assert(v % 128 / 2 == low);
    assert(v % 2 == days / 256);
}

/// Field values of a time that differs by whole clock periods agree.
proof fn lemma_carry_fields(t2: int, k: int)
    requires
        t2 >= 0,
        k >= 0,
    ensures
        ({
            let t3 = t2 + k * (512 * 86400);
            &&& t3 % 60 == t2 % 60
            &&& (t3 / 60) % 60 == (t2 / 60) % 60
            &&& (t3 / 3600) % 24 == (t2 / 3600) % 24
            &&& (t3 / 86400) % 512 == (t2 / 86400) % 512
            &&& (t3 / 86400 > 511) == (k > 0 || t2 / 86400 > 511)
        }),
{
    let t3 = t2 + k * (512 * 86400);
    assert(k * (512 * 86400) == (k * 737280) * 60) by (nonlinear_arith);
    assert(k * 737280 == (k * 12288) * 60) by (nonlinear_arith);
    assert(k * 12288 == (k * 512) * 24) by (nonlinear_arith);
    lemma_carry(t2, k * 737280, 60);
    lemma_carry(t2 / 60, k * 12288, 60);
    vstd::arithmetic::div_mod::lemma_div_denominator(t2, 60, 60);
    vstd::arithmetic::div_mod::lemma_div_denominator(t3, 60, 60);
    lemma_carry(t2 / 3600, k * 512, 24);
    vstd::arithmetic::div_mod::lemma_div_denominator(t2, 3600, 24);
    vstd::arithmetic::div_mod::lemma_div_denominator(t3, 3600, 24);
    lemma_carry(t2 / 86400, k, 512);
}

/// After advancing, the running registers hold the advanced time modulo 512 days.
proof fn lemma_counter_of_advanced(r: Rtc, a: int)
    requires
        a >= 0,
    ensures
        r.advanced(a).counter() == (r.counter() + a) % clock_period(),
        r.advanced(a).normalized(),
{
    let t = r.counter() + a;
    let p = clock_period();
    let r1 = r.advanced(a);
    let days = (t / 86400) % 512;
    assert(r1.days() == days);
    lemma_fundamental_div_mod(t, 60);
    lemma_fundamental_div_mod(t / 60, 60);
    lemma_fundamental_div_mod(t / 3600, 24);
    lemma_fundamental_div_mod(t / 86400, 512);
    vstd::arithmetic::div_mod::lemma_div_denominator(t, 60, 60);
    vstd::arithmetic::div_mod::lemma_div_denominator(t, 3600, 24);
    vstd::arithmetic::div_mod::lemma_div_denominator(t, 86400, 512);
    lemma_fundamental_div_mod(t, p);
    lemma_fundamental_div_mod_converse(t, p, t / p, r1.counter());
}

} // verus!
