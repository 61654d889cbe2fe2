//! CPU registers and flags (Pan Docs, CPU Registers and Flags).
//!
//! | 16-bit | Hi | Lo |
//! |--------|----|----|
//! | AF     | A  | F  |
//! | BC     | B  | C  |
//! | DE     | D  | E  |
//! | HL     | H  | L  |
//! | SP     | —  | —  |
//! | PC     | —  | —  |
//!
//! Flag register `F` (low byte of AF): bit 7 Z, bit 6 N, bit 5 H, bit 4 C;
//! bits 3–0 are unused and always read as 0.

use vstd::prelude::*;
use super::instruction::{Reg8, Reg16};
use crate::snapshot::CpuStateV1;

verus! {

/// Flag bits in `F` (upper nibble only; bits 0–3 are always 0).
pub const FLAG_Z: u8 = 0b1000_0000;
pub const FLAG_N: u8 = 0b0100_0000;
pub const FLAG_H: u8 = 0b0010_0000;
pub const FLAG_C: u8 = 0b0001_0000;

/// Mask for the usable flag bits (ZNHC). Lower nibble of `F` is unused.
pub const FLAG_MASK: u8 = 0xF0;

/// LR35902 CPU register file + PC/SP.
#[derive(Debug, Clone, Copy, PartialEq, Eq)]
pub struct Cpu {
    pub a: u8,
    /// Flags; only bits 7–4 are meaningful.
    pub(crate) f: u8,
    pub b: u8,
    pub c: u8,
    pub d: u8,
    pub e: u8,
    pub h: u8,
    pub l: u8,
    pub sp: u16,
    pub pc: u16,
    /// Interrupt master enable.
    pub ime: bool,
    /// Set by `EI`; becomes `ime_enable_armed` after this instruction ends.
    pub ime_enable_pending: bool,
    /// When set, `IME` turns on after the *current* instruction finishes.
    pub ime_enable_armed: bool,
    /// Set by `HALT`; cleared when an interrupt wakes the CPU.
    pub halted: bool,
}

/// Architectural register state: `f` holds only the four flag bits.
#[derive(Debug, Clone, Copy, PartialEq, Eq)]
pub struct CpuView {
    pub a: u8,
    pub f: u8,
    pub b: u8,
    pub c: u8,
    pub d: u8,
    pub e: u8,
    pub h: u8,
    pub l: u8,
    pub sp: u16,
    pub pc: u16,
    pub ime: bool,
    pub ime_enable_pending: bool,
    pub ime_enable_armed: bool,
    pub halted: bool,
}

impl View for Cpu {
    type V = CpuView;

    closed spec fn view(&self) -> CpuView {
        CpuView {
            a: self.a,
            f: self.f & FLAG_MASK,
            b: self.b,
            c: self.c,
            d: self.d,
            e: self.e,
            h: self.h,
            l: self.l,
            sp: self.sp,
            pc: self.pc,
            ime: self.ime,
            ime_enable_pending: self.ime_enable_pending,
            ime_enable_armed: self.ime_enable_armed,
            halted: self.halted,
        }
    }
}

/// Register state with all registers zero and no interrupt state.
pub open spec fn zero_view() -> CpuView {
    CpuView {
        a: 0,
        f: 0,
        b: 0,
        c: 0,
        d: 0,
        e: 0,
        h: 0,
        l: 0,
        sp: 0,
        pc: 0,
        ime: false,
        ime_enable_pending: false,
        ime_enable_armed: false,
        halted: false,
    }
}

/// Post-boot register file at `$0100`, `SP = $FFFE`, interrupts off.
pub open spec fn boot_view(a: u8, f: u8, b: u8, c: u8, d: u8, e: u8, h: u8, l: u8) -> CpuView {
    CpuView {
        a,
        f,
        b,
        c,
        d,
        e,
        h,
        l,
        sp: 0xFFFE,
        pc: 0x0100,
        ime: false,
        ime_enable_pending: false,
        ime_enable_armed: false,
        halted: false,
    }
}

/// Save-state record holding exactly the architectural register state.
pub open spec fn cpu_state(v: CpuView) -> CpuStateV1 {
    CpuStateV1 {
        a: v.a,
        f: v.f,
        b: v.b,
        c: v.c,
        d: v.d,
        e: v.e,
        h: v.h,
        l: v.l,
        sp: v.sp,
        pc: v.pc,
        ime: v.ime,
        ime_enable_pending: v.ime_enable_pending,
        ime_enable_armed: v.ime_enable_armed,
        halted: v.halted,
    }
}

/// Register state restored from a save-state record (flag byte masked).
pub open spec fn state_view(s: CpuStateV1) -> CpuView {
    CpuView {
        a: s.a,
        f: s.f & FLAG_MASK,
        b: s.b,
        c: s.c,
        d: s.d,
        e: s.e,
        h: s.h,
        l: s.l,
        sp: s.sp,
        pc: s.pc,
        ime: s.ime,
        ime_enable_pending: s.ime_enable_pending,
        ime_enable_armed: s.ime_enable_armed,
        halted: s.halted,
    }
}

impl CpuView {
    pub open spec fn zf(self) -> bool {
        self.f & FLAG_Z != 0
    }

    pub open spec fn nf(self) -> bool {
        self.f & FLAG_N != 0
    }

    pub open spec fn hf(self) -> bool {
        self.f & FLAG_H != 0
    }

    pub open spec fn cf(self) -> bool {
        self.f & FLAG_C != 0
    }

    pub open spec fn reg8(self, r: Reg8) -> u8 {
        match r {
            Reg8::A => self.a,
            Reg8::B => self.b,
            Reg8::C => self.c,
            Reg8::D => self.d,
            Reg8::E => self.e,
            Reg8::H => self.h,
            Reg8::L => self.l,
        }
    }

    pub open spec fn with_reg8(self, r: Reg8, v: u8) -> CpuView {
        match r {
            Reg8::A => CpuView { a: v, ..self },
            Reg8::B => CpuView { b: v, ..self },
            Reg8::C => CpuView { c: v, ..self },
            Reg8::D => CpuView { d: v, ..self },
            Reg8::E => CpuView { e: v, ..self },
            Reg8::H => CpuView { h: v, ..self },
            Reg8::L => CpuView { l: v, ..self },
        }
    }

    /// Register pair value: high register in bits 15–8, low register in bits 7–0.
    pub open spec fn reg16(self, r: Reg16) -> u16 {
        match r {
            Reg16::Af => (self.a * 256 + self.f) as u16,
            Reg16::Bc => (self.b * 256 + self.c) as u16,
            Reg16::De => (self.d * 256 + self.e) as u16,
            Reg16::Hl => (self.h * 256 + self.l) as u16,
            Reg16::Sp => self.sp,
        }
    }

    pub open spec fn with_reg16(self, r: Reg16, v: u16) -> CpuView {
        let hi = (v / 256) as u8;
        let lo = (v % 256) as u8;
        match r {
            Reg16::Af => CpuView { a: hi, f: lo & FLAG_MASK, ..self },
            Reg16::Bc => CpuView { b: hi, c: lo, ..self },
            Reg16::De => CpuView { d: hi, e: lo, ..self },
            Reg16::Hl => CpuView { h: hi, l: lo, ..self },
            Reg16::Sp => CpuView { sp: v, ..self },
        }
    }

    /// Flag byte with `mask` set or cleared.
    pub open spec fn with_flag(self, mask: u8, on: bool) -> CpuView {
        CpuView { f: if on { self.f | mask } else { self.f & !mask }, ..self }
    }
}

/// Masking a byte to the flag nibble commutes with setting or clearing one flag bit.
proof fn lemma_flag_mask_bits(raw: u8, mask: u8)
    by (bit_vector)
    requires
        mask == 0x80u8 || mask == 0x40u8 || mask == 0x20u8 || mask == 0x10u8,
    ensures
        ((raw | mask) & 0xF0u8) == ((raw & 0xF0u8) | mask),
        ((raw & !mask) & 0xF0u8) == ((raw & 0xF0u8) & !mask),
{
}

/// Masking leaves the post-boot flag bytes unchanged.
proof fn lemma_flag_constants()
    by (bit_vector)
    ensures
        0u8 & 0xF0u8 == 0u8,
        0x80u8 & 0xF0u8 == 0x80u8,
        0xB0u8 & 0xF0u8 == 0xB0u8,
{
}

/// Masked flag byte is idempotent under masking; its low nibble is zero.
proof fn lemma_mask_idempotent(raw: u8)
    by (bit_vector)
    ensures
        (raw & 0xF0u8) & 0xF0u8 == raw & 0xF0u8,
        (raw & 0xF0u8) % 16 == 0,
{
}

impl Cpu {
    /// Zeroed registers (useful before explicit setup).
    pub fn new() -> (cpu: Self)
        ensures
            cpu@ == zero_view(),
    {
        let cpu = Self {
            a: 0,
            f: 0,
            b: 0,
            c: 0,
            d: 0,
            e: 0,
            h: 0,
            l: 0,
            sp: 0,
            pc: 0,
            ime: false,
            ime_enable_pending: false,
            ime_enable_armed: false,
            halted: false,
        };
        proof {
            lemma_flag_constants();
        }
        cpu
    }

    /// DMG register values after the boot ROM hands off (entry at `$0100`).
    pub fn after_boot() -> (cpu: Self)
        ensures
            cpu@ == boot_view(0x01, 0xB0, 0x00, 0x13, 0x00, 0xD8, 0x01, 0x4D),
    {
        let cpu = Self {
            a: 0x01,
            f: 0xB0,
            b: 0x00,
            c: 0x13,
            d: 0x00,
            e: 0xD8,
            h: 0x01,
            l: 0x4D,
            sp: 0xFFFE,
            pc: 0x0100,
            ime: false,
            ime_enable_pending: false,
            ime_enable_armed: false,
            halted: false,
        };
        proof {
            lemma_flag_constants();
        }
        cpu
    }

    /// Native CGB register values after Fast skip / boot handoff (entry at `$0100`).
    ///
    /// Pan Docs Power-Up Sequence, CGB column: A=`$11`, F=`$80`, DE=`$FF56`, HL=`$000D`.
    pub fn after_boot_cgb() -> (cpu: Self)
        ensures
            cpu@ == boot_view(0x11, 0x80, 0x00, 0x00, 0xFF, 0x56, 0x00, 0x0D),
    {
        let cpu = Self {
            a: 0x11,
            f: 0x80,
            b: 0x00,
            c: 0x00,
            d: 0xFF,
            e: 0x56,
            h: 0x00,
            l: 0x0D,
            sp: 0xFFFE,
            pc: 0x0100,
            ime: false,
            ime_enable_pending: false,
            ime_enable_armed: false,
            halted: false,
        };
        proof {
            lemma_flag_constants();
        }
        cpu
    }

    /// CGB running a DMG cart (compat mode) after Fast skip / boot handoff.
    ///
    /// Pan Docs: A=`$11`, F=`$80`, DE=`$0008`, HL=`$007C` (when B is not `$43`/`$58`).
    pub fn after_boot_cgb_compat() -> (cpu: Self)
        ensures
            cpu@ == boot_view(0x11, 0x80, 0x00, 0x00, 0x00, 0x08, 0x00, 0x7C),
    {
        let cpu = Self {
            a: 0x11,
            f: 0x80,
            b: 0x00,
            c: 0x00,
            d: 0x00,
            e: 0x08,
            h: 0x00,
            l: 0x7C,
            sp: 0xFFFE,
            pc: 0x0100,
            ime: false,
            ime_enable_pending: false,
            ime_enable_armed: false,
            halted: false,
        };
        proof {
            lemma_flag_constants();
        }
        cpu
    }

    pub fn f(&self) -> (r: u8)
        ensures
            r == self@.f,
    {
        self.f & FLAG_MASK
    }

    pub fn set_f(&mut self, value: u8)
        ensures
            final(self)@ == (CpuView { f: value & FLAG_MASK, ..old(self)@ }),
    {
        self.f = value & FLAG_MASK;
        proof {
            lemma_mask_idempotent(value);
        }
    }

    pub fn af(&self) -> (r: u16)
        ensures
            r == self@.reg16(Reg16::Af),
    {
        self.a as u16 * 256 + self.f() as u16
    }

    pub fn set_af(&mut self, value: u16)
        ensures
            final(self)@ == old(self)@.with_reg16(Reg16::Af, value),
    {
        self.a = (value / 256) as u8;
        self.set_f((value % 256) as u8);
    }

    pub fn bc(&self) -> (r: u16)
        ensures
            r == self@.reg16(Reg16::Bc),
    {
        self.b as u16 * 256 + self.c as u16
    }

    pub fn set_bc(&mut self, value: u16)
        ensures
            final(self)@ == old(self)@.with_reg16(Reg16::Bc, value),
    {
        self.b = (value / 256) as u8;
        self.c = (value % 256) as u8;
    }

    pub fn de(&self) -> (r: u16)
        ensures
            r == self@.reg16(Reg16::De),
    {
        self.d as u16 * 256 + self.e as u16
    }

    pub fn set_de(&mut self, value: u16)
        ensures
            final(self)@ == old(self)@.with_reg16(Reg16::De, value),
    {
        self.d = (value / 256) as u8;
        self.e = (value % 256) as u8;
    }

    pub fn hl(&self) -> (r: u16)
        ensures
            r == self@.reg16(Reg16::Hl),
    {
        self.h as u16 * 256 + self.l as u16
    }

    pub fn set_hl(&mut self, value: u16)
        ensures
            final(self)@ == old(self)@.with_reg16(Reg16::Hl, value),
    {
        self.h = (value / 256) as u8;
        self.l = (value % 256) as u8;
    }

    pub fn read_r8(&self, reg: Reg8) -> (r: u8)
        ensures
            r == self@.reg8(reg),
    {
        match reg {
            Reg8::A => self.a,
            Reg8::B => self.b,
            Reg8::C => self.c,
            Reg8::D => self.d,
            Reg8::E => self.e,
            Reg8::H => self.h,
            Reg8::L => self.l,
        }
    }

    pub fn write_r8(&mut self, reg: Reg8, value: u8)
        ensures
            final(self)@ == old(self)@.with_reg8(reg, value),
    {
        match reg {
            Reg8::A => self.a = value,
            Reg8::B => self.b = value,
            Reg8::C => self.c = value,
            Reg8::D => self.d = value,
            Reg8::E => self.e = value,
            Reg8::H => self.h = value,
            Reg8::L => self.l = value,
        }
    }

    pub fn read_r16(&self, reg: Reg16) -> (r: u16)
        ensures
            r == self@.reg16(reg),
    {
        match reg {
            Reg16::Af => self.af(),
            Reg16::Bc => self.bc(),
            Reg16::De => self.de(),
            Reg16::Hl => self.hl(),
            Reg16::Sp => self.sp,
        }
    }

    pub fn write_r16(&mut self, reg: Reg16, value: u16)
        ensures
            final(self)@ == old(self)@.with_reg16(reg, value),
    {
        match reg {
            Reg16::Af => self.set_af(value),
            Reg16::Bc => self.set_bc(value),
            Reg16::De => self.set_de(value),
            Reg16::Hl => self.set_hl(value),
            Reg16::Sp => self.sp = value,
        }
    }

    pub fn flag_z(&self) -> (r: bool)
        ensures
            r == self@.zf(),
    {
        self.f() & FLAG_Z != 0
    }

    pub fn flag_n(&self) -> (r: bool)
        ensures
            r == self@.nf(),
    {
        self.f() & FLAG_N != 0
    }

    pub fn flag_h(&self) -> (r: bool)
        ensures
            r == self@.hf(),
    {
        self.f() & FLAG_H != 0
    }

    pub fn flag_c(&self) -> (r: bool)
        ensures
            r == self@.cf(),
    {
        self.f() & FLAG_C != 0
    }

    pub fn set_flag_z(&mut self, on: bool)
        ensures
            final(self)@ == old(self)@.with_flag(FLAG_Z, on),
    {
        self.set_flag(FLAG_Z, on);
    }

    pub fn set_flag_n(&mut self, on: bool)
        ensures
            final(self)@ == old(self)@.with_flag(FLAG_N, on),
    {
        self.set_flag(FLAG_N, on);
    }

    pub fn set_flag_h(&mut self, on: bool)
        ensures
            final(self)@ == old(self)@.with_flag(FLAG_H, on),
    {
        self.set_flag(FLAG_H, on);
    }

    pub fn set_flag_c(&mut self, on: bool)
        ensures
            final(self)@ == old(self)@.with_flag(FLAG_C, on),
    {
        self.set_flag(FLAG_C, on);
    }

    fn set_flag(&mut self, mask: u8, on: bool)
        requires
            mask == FLAG_Z || mask == FLAG_N || mask == FLAG_H || mask == FLAG_C,
        ensures
            final(self)@ == old(self)@.with_flag(mask, on),
    {
        proof {
            lemma_flag_mask_bits(self.f, mask);
        }
        if on {
            self.f = self.f | mask;
        } else {
            self.f = self.f & !mask;
        }
        proof {
            lemma_mask_idempotent(self.f);
        }
        self.f = self.f & FLAG_MASK;
    }

    pub(crate) fn snapshot(&self) -> (s: CpuStateV1)
        ensures
            s == cpu_state(self@),
    {
        CpuStateV1 {
            a: self.a,
            f: self.f(),
            b: self.b,
            c: self.c,
            d: self.d,
            e: self.e,
            h: self.h,
            l: self.l,
            sp: self.sp,
            pc: self.pc,
            ime: self.ime,
            ime_enable_pending: self.ime_enable_pending,
            ime_enable_armed: self.ime_enable_armed,
            halted: self.halted,
        }
    }

    pub(crate) fn apply_snapshot(&mut self, state: &CpuStateV1)
        ensures
            final(self)@ == state_view(*state),
    {
        self.a = state.a;
        self.set_f(state.f);
        self.b = state.b;
        self.c = state.c;
        self.d = state.d;
        self.e = state.e;
        self.h = state.h;
        self.l = state.l;
        self.sp = state.sp;
        self.pc = state.pc;
        self.ime = state.ime;
        self.ime_enable_pending = state.ime_enable_pending;
        self.ime_enable_armed = state.ime_enable_armed;
        self.halted = state.halted;
    }
}

impl Default for Cpu {
    fn default() -> (cpu: Self)
        ensures
            cpu@ == zero_view(),
    {
        Self::new()
    }
}

/// The view, field by field.
pub(crate) proof fn lemma_view_fields(c: Cpu)
    ensures
        c@ == (CpuView {
            a: c.a,
            f: c.f & FLAG_MASK,
            b: c.b,
            c: c.c,
            d: c.d,
            e: c.e,
            h: c.h,
            l: c.l,
            sp: c.sp,
            pc: c.pc,
            ime: c.ime,
            ime_enable_pending: c.ime_enable_pending,
            ime_enable_armed: c.ime_enable_armed,
            halted: c.halted,
        }),
{
}

/// The control flags of the view are the CPU's own.
pub(crate) proof fn lemma_control_view(c: Cpu)
    ensures
        c@.ime == c.ime,
        c@.ime_enable_pending == c.ime_enable_pending,
        c@.ime_enable_armed == c.ime_enable_armed,
        c@.halted == c.halted,
        forall|d: Cpu| d == (Cpu { ime: d.ime, ime_enable_pending: d.ime_enable_pending,
            ime_enable_armed: d.ime_enable_armed, halted: d.halted, ..c }) ==> d@ == (CpuView {
            ime: d.ime, ime_enable_pending: d.ime_enable_pending, ime_enable_armed: d.ime_enable_armed,
            halted: d.halted, ..c@ }),
{
}

/// The flag byte of any CPU has its unused low nibble clear.
pub proof fn lemma_flags_low_nibble_clear(cpu: Cpu)
    ensures
        cpu@.f % 16 == 0,
        cpu@.f & FLAG_MASK == cpu@.f,
{
    lemma_mask_idempotent(cpu.f);
}

/// `y & $F0` clears the low nibble arithmetically.
proof fn lemma_high_nibble(y: u8)
    by (bit_vector)
    ensures
        y & 0xF0u8 == y - y % 16,
{
}

/// Writing a register pair and reading it back returns the written value,
/// except that `AF` drops the four unused flag bits.
pub proof fn lemma_reg16_read_after_write(v: CpuView, r: Reg16, x: u16)
    ensures
        v.with_reg16(r, x).reg16(r) == (if r == Reg16::Af { (x - x % 16) as u16 } else { x }),
{
    lemma_high_nibble((x % 256) as u8);
}

/// Writing one register pair leaves every other pair unchanged.
pub proof fn lemma_reg16_write_isolated(v: CpuView, r: Reg16, s: Reg16, x: u16)
    requires
        r != s,
    ensures
        v.with_reg16(r, x).reg16(s) == v.reg16(s),
{
}

/// Writing an 8-bit register and reading it back returns the written value;
/// the other registers are unchanged.
pub proof fn lemma_reg8_read_after_write(v: CpuView, r: Reg8, s: Reg8, x: u8)
    ensures
        v.with_reg8(r, x).reg8(r) == x,
        r != s ==> v.with_reg8(r, x).reg8(s) == v.reg8(s),
{
}

/// A register pair is its high register followed by its low register.
pub proof fn lemma_reg16_is_hi_lo(v: CpuView)
    ensures
        v.reg16(Reg16::Bc) == v.reg8(Reg8::B) * 256 + v.reg8(Reg8::C),
        v.reg16(Reg16::De) == v.reg8(Reg8::D) * 256 + v.reg8(Reg8::E),
        v.reg16(Reg16::Hl) == v.reg8(Reg8::H) * 256 + v.reg8(Reg8::L),
        v.reg16(Reg16::Af) == v.reg8(Reg8::A) * 256 + v.f,
{
}

/// Setting or clearing one flag changes that flag only.
pub proof fn lemma_flag_update(v: CpuView, on: bool)
    requires
        v.f % 16 == 0,
    ensures
        v.with_flag(FLAG_Z, on).zf() == on,
        v.with_flag(FLAG_Z, on).nf() == v.nf(),
        v.with_flag(FLAG_Z, on).hf() == v.hf(),
        v.with_flag(FLAG_Z, on).cf() == v.cf(),
        v.with_flag(FLAG_N, on).nf() == on,
        v.with_flag(FLAG_N, on).zf() == v.zf(),
        v.with_flag(FLAG_N, on).hf() == v.hf(),
        v.with_flag(FLAG_N, on).cf() == v.cf(),
        v.with_flag(FLAG_H, on).hf() == on,
        v.with_flag(FLAG_H, on).zf() == v.zf(),
        v.with_flag(FLAG_H, on).nf() == v.nf(),
        v.with_flag(FLAG_H, on).cf() == v.cf(),
        v.with_flag(FLAG_C, on).cf() == on,
        v.with_flag(FLAG_C, on).zf() == v.zf(),
        v.with_flag(FLAG_C, on).nf() == v.nf(),
        v.with_flag(FLAG_C, on).hf() == v.hf(),
{
    lemma_single_flag_bits(v.f);
}

/// Bit-level facts behind [`lemma_flag_update`].
proof fn lemma_single_flag_bits(f: u8)
    by (bit_vector)
    ensures
        (f | 0x80u8) & 0x80u8 != 0, (f & !0x80u8) & 0x80u8 == 0,
        (f | 0x40u8) & 0x40u8 != 0, (f & !0x40u8) & 0x40u8 == 0,
        (f | 0x20u8) & 0x20u8 != 0, (f & !0x20u8) & 0x20u8 == 0,
        (f | 0x10u8) & 0x10u8 != 0, (f & !0x10u8) & 0x10u8 == 0,
        (f | 0x80u8) & 0x40u8 == f & 0x40u8, (f & !0x80u8) & 0x40u8 == f & 0x40u8,
        (f | 0x80u8) & 0x20u8 == f & 0x20u8, (f & !0x80u8) & 0x20u8 == f & 0x20u8,
        (f | 0x80u8) & 0x10u8 == f & 0x10u8, (f & !0x80u8) & 0x10u8 == f & 0x10u8,
        (f | 0x40u8) & 0x80u8 == f & 0x80u8, (f & !0x40u8) & 0x80u8 == f & 0x80u8,
        (f | 0x40u8) & 0x20u8 == f & 0x20u8, (f & !0x40u8) & 0x20u8 == f & 0x20u8,
        (f | 0x40u8) & 0x10u8 == f & 0x10u8, (f & !0x40u8) & 0x10u8 == f & 0x10u8,
        (f | 0x20u8) & 0x80u8 == f & 0x80u8, (f & !0x20u8) & 0x80u8 == f & 0x80u8,
        (f | 0x20u8) & 0x40u8 == f & 0x40u8, (f & !0x20u8) & 0x40u8 == f & 0x40u8,
        (f | 0x20u8) & 0x10u8 == f & 0x10u8, (f & !0x20u8) & 0x10u8 == f & 0x10u8,
        (f | 0x10u8) & 0x80u8 == f & 0x80u8, (f & !0x10u8) & 0x80u8 == f & 0x80u8,
        (f | 0x10u8) & 0x40u8 == f & 0x40u8, (f & !0x10u8) & 0x40u8 == f & 0x40u8,
        (f | 0x10u8) & 0x20u8 == f & 0x20u8, (f & !0x10u8) & 0x20u8 == f & 0x20u8,
{
}

/// Saving and then restoring the CPU state yields the same register state.
pub proof fn lemma_cpu_state_round_trip(cpu: Cpu)
    ensures
        state_view(cpu_state(cpu@)) == cpu@,
{
    lemma_mask_idempotent(cpu.f);
}

} // verus!
