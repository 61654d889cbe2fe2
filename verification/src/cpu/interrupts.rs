//! CPU-side interrupt pending / wake / service decisions (Pan Docs, Interrupts).
//!
//! IE (`$FFFF`) and IF (`$FF0F`) storage live on the bus; the functions here
//! decide what the CPU does with the register values.

use vstd::prelude::*;
use super::registers::{Cpu, CpuView, lemma_control_view, lemma_view_fields};
use super::instruction::Instruction;
use super::semantics::{spec_execute, spec_reads, wrap16};

verus! {

pub const IF_ADDR: u16 = 0xFF0F;

pub const IE_ADDR: u16 = 0xFFFF;

const INTERRUPT_MASK: u8 = 0x1F;

/// Interrupt sources (priority = enum order / lowest bit first).
#[derive(Debug, Clone, Copy, PartialEq, Eq, Structural)]
pub enum Interrupt {
    VBlank,
    LcdStat,
    Timer,
    Serial,
    Joypad,
}

/// Source of IE/IF bit `bit` (0–4).
pub open spec fn spec_from_bit(bit: u8) -> Option<Interrupt> {
    if bit == 0 {
        Some(Interrupt::VBlank)
    } else if bit == 1 {
        Some(Interrupt::LcdStat)
    } else if bit == 2 {
        Some(Interrupt::Timer)
    } else if bit == 3 {
        Some(Interrupt::Serial)
    } else if bit == 4 {
        Some(Interrupt::Joypad)
    } else {
        None
    }
}

/// Whether bit `bit` of `v` is set.
pub open spec fn bit_set(v: u8, bit: int) -> bool {
    (v as int / pow2_u8(bit)) % 2 == 1
}

pub open spec fn pow2_u8(bit: int) -> int {
    if bit == 0 { 1 } else if bit == 1 { 2 } else if bit == 2 { 4 } else if bit == 3 { 8 } else if bit == 4 { 16 }
    else if bit == 5 { 32 } else if bit == 6 { 64 } else { 128 }
}

/// Highest-priority source among `pending` bits 0–4: the lowest set bit.
pub open spec fn spec_highest(pending: u8) -> Option<Interrupt> {
    if bit_set(pending, 0) {
        Some(Interrupt::VBlank)
    } else if bit_set(pending, 1) {
        Some(Interrupt::LcdStat)
    } else if bit_set(pending, 2) {
        Some(Interrupt::Timer)
    } else if bit_set(pending, 3) {
        Some(Interrupt::Serial)
    } else if bit_set(pending, 4) {
        Some(Interrupt::Joypad)
    } else {
        None
    }
}

impl Interrupt {
    pub open spec fn spec_bit(self) -> u8 {
        match self {
            Interrupt::VBlank => 0,
            Interrupt::LcdStat => 1,
            Interrupt::Timer => 2,
            Interrupt::Serial => 3,
            Interrupt::Joypad => 4,
        }
    }

    pub fn bit(self) -> (b: u8)
        ensures
            b == self.spec_bit(),
    {
        match self {
            Self::VBlank => 0,
            Self::LcdStat => 1,
            Self::Timer => 2,
            Self::Serial => 3,
            Self::Joypad => 4,
        }
    }

    /// IE/IF bit of this source.
    pub fn mask(self) -> (m: u8)
        ensures
            m == pow2_u8(self.spec_bit() as int),
    {
        match self {
            Self::VBlank => 0x01,
            Self::LcdStat => 0x02,
            Self::Timer => 0x04,
            Self::Serial => 0x08,
            Self::Joypad => 0x10,
        }
    }

    /// Handler address: `$0040` plus eight per priority step.
    pub fn vector(self) -> (v: u16)
        ensures
            v == 0x40 + 8 * self.spec_bit(),
    {
        match self {
            Self::VBlank => 0x0040,
            Self::LcdStat => 0x0048,
            Self::Timer => 0x0050,
            Self::Serial => 0x0058,
            Self::Joypad => 0x0060,
        }
    }

    pub fn from_bit(bit: u8) -> (r: Option<Self>)
        ensures
            r == spec_from_bit(bit),
    {
        match bit {
            0 => Some(Self::VBlank),
            1 => Some(Self::LcdStat),
            2 => Some(Self::Timer),
            3 => Some(Self::Serial),
            4 => Some(Self::Joypad),
            _ => None,
        }
    }
}

/// `IE & IF` bits that are both set (lower five only).
pub fn pending_bits(ie: u8, iflag: u8) -> (p: u8)
    ensures
        p == ie & iflag & 0x1F,
{
    ie & iflag & INTERRUPT_MASK
}

/// Highest-priority pending interrupt among `pending`, if any.
pub fn highest_pending_of(pending: u8) -> (r: Option<Interrupt>)
    ensures
        r == spec_highest(pending),
{
    let mut bit: u8 = 0;
    while bit < 5
        invariant
            bit <= 5,
            forall|k: int| 0 <= k < bit ==> !bit_set(pending, k),
        decreases 5 - bit,
    {
        let m: u8 = match bit {
            0 => 1,
            1 => 2,
            2 => 4,
            3 => 8,
            _ => 16,
        };
        if (pending / m) % 2 == 1 {
            return Interrupt::from_bit(bit);
        }
        bit = bit + 1;
    }
    None
}

/// Wake / service decision at the start of a CPU step, given the pending
/// bits (`IE & IF`, low five). A pending interrupt wakes a halted CPU; it is
/// serviced only while `IME` is set. Returns the interrupt to service.
pub fn poll_decision(cpu: &mut Cpu, pending: u8) -> (r: Option<Interrupt>)
    ensures
        r == (if cpu_wakes_to_service(old(cpu)@.ime, pending) { spec_highest(pending) } else { None }),
        final(cpu)@ == (CpuView { halted: old(cpu)@.halted && pending == 0, ..old(cpu)@ }),
{
    proof {
        lemma_control_view(*cpu);
    }
    if cpu.halted {
        if pending == 0 {
            return None;
        }
        // Wake on any pending interrupt; service only if IME is set.
        cpu.halted = false;
    }
    if cpu.ime {
        highest_pending_of(pending)
    } else {
        None
    }
}

/// Whether a poll with `pending` bits services an interrupt.
pub open spec fn cpu_wakes_to_service(ime: bool, pending: u8) -> bool {
    ime && pending != 0
}

/// Apply delayed `EI` after an instruction finishes.
///
/// `EI` sets `ime_enable_pending`. At the end of that same instruction it becomes
/// `ime_enable_armed`. At the end of the *following* instruction, `IME` turns on.
pub fn apply_delayed_ei(cpu: &mut Cpu)
    ensures
        final(cpu)@ == spec_delayed_ei(old(cpu)@),
{
    proof {
        lemma_control_view(*cpu);
    }
    if cpu.ime_enable_armed {
        cpu.ime = true;
        cpu.ime_enable_armed = false;
    }
    if cpu.ime_enable_pending {
        cpu.ime_enable_armed = true;
        cpu.ime_enable_pending = false;
    }
}

pub open spec fn spec_delayed_ei(c: CpuView) -> CpuView {
    CpuView {
        ime: c.ime || c.ime_enable_armed,
        ime_enable_armed: c.ime_enable_pending,
        ime_enable_pending: false,
        ..c
    }
}

/// Registers after the first half of interrupt dispatch: interrupts off
/// (and any pending `EI` dropped), CPU awake, SP one byte down.
pub open spec fn spec_service_high(c: CpuView) -> CpuView {
    CpuView {
        ime: false,
        ime_enable_pending: false,
        ime_enable_armed: false,
        halted: false,
        sp: wrap16(c.sp - 1),
        ..c
    }
}

/// Where dispatch jumps for the sources still pending after the first push
/// (`$0000` when that push cleared them all).
pub open spec fn spec_dispatch_target(pending: u8) -> u16 {
    match spec_highest(pending) {
        Some(i) => (0x40 + 8 * i.spec_bit()) as u16,
        None => 0,
    }
}

/// First half of interrupt dispatch. Returns the write the bus performs:
/// the high byte of PC at the new SP.
///
/// The bus then reads `IE & IF` again: that write may land on `IE` (`$FFFF`)
/// and change which source is dispatched.
pub fn service_push_high(cpu: &mut Cpu) -> (w: (u16, u8))
    ensures
        final(cpu)@ == spec_service_high(old(cpu)@),
        w == (wrap16(old(cpu)@.sp - 1), (old(cpu)@.pc / 256) as u8),
{
    proof {
        lemma_view_fields(*cpu);
    }
    cpu.ime = false;
    cpu.ime_enable_pending = false;
    cpu.ime_enable_armed = false;
    cpu.halted = false;
    cpu.sp = cpu.sp.wrapping_sub(1);
    proof {
        lemma_view_fields(*cpu);
    }
    (cpu.sp, (cpu.pc / 256) as u8)
}

/// Second half of interrupt dispatch, given the pending bits read after the
/// first write. Returns the write of PC's low byte at the new SP and the
/// source whose `IF` bit the bus clears; PC moves to that source's vector.
pub fn service_push_low(cpu: &mut Cpu, pending: u8) -> (r: ((u16, u8), Option<Interrupt>))
    ensures
        r.1 == spec_highest(pending),
        r.0 == (wrap16(old(cpu)@.sp - 1), (old(cpu)@.pc % 256) as u8),
        final(cpu)@ == (CpuView { sp: wrap16(old(cpu)@.sp - 1), pc: spec_dispatch_target(pending), ..old(cpu)@ }),
{
    proof {
        lemma_view_fields(*cpu);
    }
    let lo: u8 = (cpu.pc % 256) as u8;
    cpu.sp = cpu.sp.wrapping_sub(1);
    let w: (u16, u8) = (cpu.sp, lo);
    let selected: Option<Interrupt> = highest_pending_of(pending);
    cpu.pc = match selected {
        Some(irq) => irq.vector(),
        None => 0,
    };
    proof {
        lemma_view_fields(*cpu);
    }
    (w, selected)
}

/// Dispatch followed by `RETI` that reads back the two bytes dispatch wrote
/// resumes at the interrupted PC with the stack pointer restored and `IME`
/// on again.
pub proof fn lemma_service_reti_round_trip(c: CpuView, pending: u8)
    ensures
        ({
            let v1 = spec_service_high(c);
            let v2 = CpuView { sp: wrap16(v1.sp - 1), pc: spec_dispatch_target(pending), ..v1 };
            let hi = (c.pc / 256) as u8;
            let lo = (c.pc % 256) as u8;
            let (v3, w3) = spec_execute(Instruction::Reti, v2, seq![lo, hi])->Ok_0;
            &&& spec_reads(Instruction::Reti, v2) == seq![wrap16(v1.sp - 1), v1.sp]
            &&& v3.pc == c.pc
            &&& v3.sp == c.sp
            &&& v3.ime
            &&& !v3.halted
            &&& w3.len() == 0
        }),
{
    reveal(spec_execute);
}

/// `EI` takes effect exactly at the end of the instruction after it: one
/// step leaves `IME` as it was (armed), the second turns it on.
pub proof fn lemma_ei_delay(c: CpuView)
    requires
        c.ime_enable_pending,
        !c.ime_enable_armed,
        !c.ime,
    ensures
        !spec_delayed_ei(c).ime,
        spec_delayed_ei(c).ime_enable_armed,
        spec_delayed_ei(spec_delayed_ei(c)).ime,
        !spec_delayed_ei(spec_delayed_ei(c)).ime_enable_armed,
        !spec_delayed_ei(spec_delayed_ei(c)).ime_enable_pending,
{
}

/// The chosen interrupt is pending, no higher-priority (lower) bit is, and
/// some interrupt is chosen whenever one of the five bits is set.
pub proof fn lemma_priority(pending: u8)
    ensures
        spec_highest(pending) matches Some(i) ==> bit_set(pending, i.spec_bit() as int) && forall|k: int|
            0 <= k < i.spec_bit() ==> !bit_set(pending, k),
        spec_highest(pending) is None ==> forall|k: int| 0 <= k < 5 ==> !bit_set(pending, k),
{
}

/// Bit numbers and sources correspond one to one.
pub proof fn lemma_bit_round_trip(i: Interrupt, b: u8)
    ensures
        spec_from_bit(i.spec_bit()) == Some(i),
        spec_from_bit(b) matches Some(j) ==> j.spec_bit() == b,
        spec_from_bit(b) is None <==> b >= 5,
{
}

} // verus!
