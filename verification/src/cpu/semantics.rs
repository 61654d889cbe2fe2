//! Instruction semantics: the memory reads an instruction makes, and the
//! register file and memory writes that result.
//!
//! An instruction's reads depend only on the instruction and the registers
//! before it, and every read comes before every write, so execution splits
//! into [`read_addresses`] (what to fetch) and [`execute`] (what the fetched
//! bytes produce). The bus owner performs the reads and writes in the order
//! given.

use vstd::prelude::*;
use super::alu::{
    AluResult8, IncDecResult8, adc8, adc8_spec, add8, add_hl, add_hl_spec, add_sp_e8, add_sp_e8_spec, and8, bit,
    bit_set, cp8, daa, daa_spec, dec8, dec8_spec, inc8, inc8_spec, logic_spec, or8, rl, rl_spec, rlc, rlc_spec, rr,
    rr_spec, rrc, rrc_spec, sbc8, sbc8_spec, sla, sla_spec, sra, sra_spec, srl, srl_spec, sub8, xor8,
};
use super::instruction::{Cond, Instruction, Operand8, Reg16, Reg8};
use super::registers::{Cpu, CpuView, FLAG_C, FLAG_H, FLAG_N, FLAG_Z, lemma_view_fields};
use super::timing::{cond_met, spec_cond_met};

verus! {

/// `x` wrapped into 16 bits (for `x` within one wrap of the range, as all
/// address and register arithmetic here is).
pub open spec fn wrap16(x: int) -> u16 {
    if x < 0 { (x + 65536) as u16 } else if x > 0xFFFF { (x - 65536) as u16 } else { x as u16 }
}

pub open spec fn spec_hl(v: CpuView) -> u16 {
    v.reg16(Reg16::Hl)
}

/// Instructions whose fields are in range for execution (bit numbers 0–7).
pub open spec fn well_formed(ins: Instruction) -> bool {
    match ins {
        Instruction::Res { bit, .. } => bit < 8,
        Instruction::SetBit { bit, .. } => bit < 8,
        _ => true,
    }
}

/// Address an operand reads, if it is memory.
pub open spec fn operand_reads(v: CpuView, op: Operand8) -> Seq<u16> {
    if op is MemHl { seq![spec_hl(v)] } else { Seq::empty() }
}

/// Addresses `ins` reads, in order, when executed from registers `v`.
pub open spec fn spec_reads(ins: Instruction, v: CpuView) -> Seq<u16> {
    match ins {
        Instruction::Ret { cond } => if spec_cond_met(v, cond) { seq![v.sp, wrap16(v.sp + 1)] } else { Seq::empty() },
        Instruction::Reti | Instruction::Pop(_) => seq![v.sp, wrap16(v.sp + 1)],
        Instruction::Ld8 { src, .. } => operand_reads(v, src),
        Instruction::LdAAbs(a) => seq![a],
        Instruction::LdAMemBc => seq![v.reg16(Reg16::Bc)],
        Instruction::LdAMemDe => seq![v.reg16(Reg16::De)],
        Instruction::LdhAAbs(n) => seq![(0xFF00 + n) as u16],
        Instruction::LdAIoC => seq![(0xFF00 + v.c) as u16],
        Instruction::LdiAMemHl | Instruction::LddAMemHl => seq![spec_hl(v)],
        Instruction::Inc8(op) | Instruction::Dec8(op) | Instruction::Add(op) | Instruction::Adc(op)
        | Instruction::Sub(op) | Instruction::Sbc(op) | Instruction::Cp(op) | Instruction::And(op)
        | Instruction::Xor(op) | Instruction::Or(op) | Instruction::Swap(op) | Instruction::Rlc(op)
        | Instruction::Rrc(op) | Instruction::Rl(op) | Instruction::Rr(op) | Instruction::Sla(op)
        | Instruction::Sra(op) | Instruction::Srl(op) => operand_reads(v, op),
        Instruction::Bit { op, .. } | Instruction::Res { op, .. } | Instruction::SetBit { op, .. } => operand_reads(v, op),
        _ => Seq::empty(),
    }
}

/// Value of an operand, `vals[0]` standing for the byte read at `(HL)`.
pub open spec fn operand_value(v: CpuView, op: Operand8, vals: Seq<u8>) -> u8 {
    match op {
        Operand8::Reg(r) => v.reg8(r),
        Operand8::Imm(n) => n,
        Operand8::MemHl => vals[0],
    }
}

pub type Outcome = Result<(CpuView, Seq<(u16, u8)>), Instruction>;

/// Storing `x` into an operand: a register, `(HL)` in memory, or an error
/// for an immediate (not a place).
pub open spec fn store_operand(v: CpuView, op: Operand8, x: u8) -> Outcome {
    match op {
        Operand8::Reg(r) => Ok((v.with_reg8(r, x), Seq::empty())),
        Operand8::Imm(_) => Err(Instruction::Ld8 { dst: op, src: Operand8::Reg(Reg8::A) }),
        Operand8::MemHl => Ok((v, seq![(spec_hl(v), x)])),
    }
}

/// Flags after an 8-bit ALU result (Z, N, H, C).
pub open spec fn alu_flags(v: CpuView, r: AluResult8) -> CpuView {
    v.with_flag(FLAG_Z, r.z).with_flag(FLAG_N, r.n).with_flag(FLAG_H, r.h).with_flag(FLAG_C, r.c)
}

/// `A` and flags after an accumulator ALU op.
pub open spec fn acc_result(v: CpuView, r: AluResult8) -> CpuView {
    alu_flags(v.with_reg8(Reg8::A, r.value), r)
}

/// Non-CB accumulator rotates: Z always cleared.
pub open spec fn acc_rotate(v: CpuView, r: AluResult8) -> CpuView {
    v.with_reg8(Reg8::A, r.value).with_flag(FLAG_Z, false).with_flag(FLAG_N, false).with_flag(FLAG_H, false).with_flag(
        FLAG_C,
        r.c,
    )
}

/// Store a CB-shift result into its operand, then set Z/N/H/C.
pub open spec fn shift_result(v: CpuView, op: Operand8, r: AluResult8) -> Outcome {
    match store_operand(v, op, r.value) {
        Ok((v2, w)) => Ok((alu_flags(v2, r), w)),
        Err(e) => Err(e),
    }
}

/// Writes of a 16-bit push at `sp`: high byte at `sp - 1`, low at `sp - 2`.
pub open spec fn push_writes(sp: u16, value: u16) -> Seq<(u16, u8)> {
    seq![(wrap16(sp - 1), (value / 256) as u8), (wrap16(sp - 2), (value % 256) as u8)]
}

/// Little-endian word from two read bytes.
pub open spec fn word(vals: Seq<u8>) -> u16 {
    (vals[0] + 256 * vals[1]) as u16
}

pub open spec fn with_pc(v: CpuView, pc: u16) -> CpuView {
    CpuView { pc, ..v }
}

pub open spec fn with_sp(v: CpuView, sp: u16) -> CpuView {
    CpuView { sp, ..v }
}

/// Registers and memory writes after executing `ins` from registers `v`,
/// given the bytes read at [`spec_reads`]; `Err` for a form that stores into
/// an immediate.
#[verifier::opaque]
pub open spec fn spec_execute(ins: Instruction, v: CpuView, vals: Seq<u8>) -> Outcome {
    let a = v.a;
    let none = Seq::<(u16, u8)>::empty();
    match ins {
        Instruction::Nop | Instruction::Stop => Ok((v, none)),
        Instruction::Halt => Ok((CpuView { halted: true, ..v }, none)),
        Instruction::Jp { cond, target } => Ok((if spec_cond_met(v, cond) { with_pc(v, target) } else { v }, none)),
        Instruction::JpHl => Ok((with_pc(v, spec_hl(v)), none)),
        Instruction::Jr { cond, offset } => Ok((if spec_cond_met(v, cond) { with_pc(v, wrap16(v.pc + offset)) }
            else { v }, none)),
        Instruction::Call { cond, target } => if spec_cond_met(v, cond) {
            Ok((with_pc(with_sp(v, wrap16(v.sp - 2)), target), push_writes(v.sp, v.pc)))
        } else {
            Ok((v, none))
        },
        Instruction::Rst(vec) => Ok((with_pc(with_sp(v, wrap16(v.sp - 2)), vec as u16), push_writes(v.sp, v.pc))),
        Instruction::Ret { cond } => if spec_cond_met(v, cond) {
            Ok((with_pc(with_sp(v, wrap16(v.sp + 2)), word(vals)), none))
        } else {
            Ok((v, none))
        },
        Instruction::Reti => Ok((CpuView {
            ime: true,
            ime_enable_pending: false,
            ime_enable_armed: false,
            ..with_pc(with_sp(v, wrap16(v.sp + 2)), word(vals))
        }, none)),
        Instruction::Push(rr) => Ok((with_sp(v, wrap16(v.sp - 2)), push_writes(v.sp, v.reg16(rr)))),
        Instruction::Pop(rr) => Ok((with_sp(v, wrap16(v.sp + 2)).with_reg16(rr, word(vals)), none)),
        Instruction::Ld16Imm { dst, value } => Ok((v.with_reg16(dst, value), none)),
        Instruction::LdAbsSp(addr) => Ok((v, seq![(addr, (v.sp % 256) as u8), (wrap16(addr + 1), (v.sp / 256) as u8)])),
        Instruction::Inc16(rr) => Ok((v.with_reg16(rr, wrap16(v.reg16(rr) + 1)), none)),
        Instruction::Dec16(rr) => Ok((v.with_reg16(rr, wrap16(v.reg16(rr) - 1)), none)),
        Instruction::AddHl(rr) => {
            let r = add_hl_spec(spec_hl(v), v.reg16(rr));
            Ok((v.with_reg16(Reg16::Hl, r.value).with_flag(FLAG_N, false).with_flag(FLAG_H, r.h).with_flag(FLAG_C, r.c),
                none))
        },
        Instruction::LdHlSpE(e) => {
            let r = add_sp_e8_spec(v.sp, e);
            Ok((v.with_reg16(Reg16::Hl, r.value).with_flag(FLAG_Z, false).with_flag(FLAG_N, false).with_flag(
                FLAG_H,
                r.h,
            ).with_flag(FLAG_C, r.c), none))
        },
        Instruction::LdSpHl => Ok((with_sp(v, spec_hl(v)), none)),
        Instruction::AddSpE(e) => {
            let r = add_sp_e8_spec(v.sp, e);
            Ok((with_sp(v, r.value).with_flag(FLAG_Z, false).with_flag(FLAG_N, false).with_flag(FLAG_H, r.h).with_flag(
                FLAG_C,
                r.c,
            ), none))
        },
        Instruction::Ld8 { dst, src } => store_operand(v, dst, operand_value(v, src, vals)),
        Instruction::LdAbsA(addr) => Ok((v, seq![(addr, a)])),
        Instruction::LdAAbs(_) | Instruction::LdAMemBc | Instruction::LdAMemDe | Instruction::LdhAAbs(_)
        | Instruction::LdAIoC => Ok((v.with_reg8(Reg8::A, vals[0]), none)),
        Instruction::LdMemBcA => Ok((v, seq![(v.reg16(Reg16::Bc), a)])),
        Instruction::LdMemDeA => Ok((v, seq![(v.reg16(Reg16::De), a)])),
        Instruction::LdhAbsA(n) => Ok((v, seq![((0xFF00 + n) as u16, a)])),
        Instruction::LdIoCA => Ok((v, seq![((0xFF00 + v.c) as u16, a)])),
        Instruction::LdiMemHlA => Ok((v.with_reg16(Reg16::Hl, wrap16(spec_hl(v) + 1)), seq![(spec_hl(v), a)])),
        Instruction::LdiAMemHl => Ok((v.with_reg8(Reg8::A, vals[0]).with_reg16(Reg16::Hl, wrap16(spec_hl(v) + 1)), none)),
        Instruction::LddMemHlA => Ok((v.with_reg16(Reg16::Hl, wrap16(spec_hl(v) - 1)), seq![(spec_hl(v), a)])),
        Instruction::LddAMemHl => Ok((v.with_reg8(Reg8::A, vals[0]).with_reg16(Reg16::Hl, wrap16(spec_hl(v) - 1)), none)),
        Instruction::Inc8(op) => {
            let r = inc8_spec(operand_value(v, op, vals));
            match store_operand(v, op, r.value) {
                Ok((v2, w)) => Ok((v2.with_flag(FLAG_Z, r.z).with_flag(FLAG_N, r.n).with_flag(FLAG_H, r.h), w)),
                Err(e) => Err(e),
            }
        },
        Instruction::Dec8(op) => {
            let r = dec8_spec(operand_value(v, op, vals));
            match store_operand(v, op, r.value) {
                Ok((v2, w)) => Ok((v2.with_flag(FLAG_Z, r.z).with_flag(FLAG_N, r.n).with_flag(FLAG_H, r.h), w)),
                Err(e) => Err(e),
            }
        },
        Instruction::Add(op) => Ok((acc_result(v, adc8_spec(a, operand_value(v, op, vals), false)), none)),
        Instruction::Adc(op) => Ok((acc_result(v, adc8_spec(a, operand_value(v, op, vals), v.cf())), none)),
        Instruction::Sub(op) => Ok((acc_result(v, sbc8_spec(a, operand_value(v, op, vals), false)), none)),
        Instruction::Sbc(op) => Ok((acc_result(v, sbc8_spec(a, operand_value(v, op, vals), v.cf())), none)),
        Instruction::Cp(op) => Ok((alu_flags(v, sbc8_spec(a, operand_value(v, op, vals), false)), none)),
        Instruction::And(op) => Ok((acc_result(v, logic_spec(a & operand_value(v, op, vals), true)), none)),
        Instruction::Xor(op) => Ok((acc_result(v, logic_spec(a ^ operand_value(v, op, vals), false)), none)),
        Instruction::Or(op) => Ok((acc_result(v, logic_spec(a | operand_value(v, op, vals), false)), none)),
        Instruction::Di => Ok((CpuView { ime: false, ime_enable_pending: false, ime_enable_armed: false, ..v }, none)),
        Instruction::Ei => Ok((CpuView { ime_enable_pending: true, ..v }, none)),
        Instruction::Scf => Ok((v.with_flag(FLAG_N, false).with_flag(FLAG_H, false).with_flag(FLAG_C, true), none)),
        Instruction::Ccf => Ok((v.with_flag(FLAG_N, false).with_flag(FLAG_H, false).with_flag(FLAG_C, !v.cf()), none)),
        Instruction::Daa => Ok((acc_result(v, daa_spec(a, v.nf(), v.hf(), v.cf())), none)),
        Instruction::Cpl => Ok((v.with_reg8(Reg8::A, (255 - a) as u8).with_flag(FLAG_N, true).with_flag(FLAG_H, true),
            none)),
        Instruction::Swap(op) => {
            let x = operand_value(v, op, vals);
            let s = ((x % 16) * 16 + x / 16) as u8;
            match store_operand(v, op, s) {
                Ok((v2, w)) => Ok((v2.with_flag(FLAG_Z, s == 0).with_flag(FLAG_N, false).with_flag(FLAG_H, false).with_flag(
                    FLAG_C,
                    false,
                ), w)),
                Err(e) => Err(e),
            }
        },
        Instruction::Rlca => Ok((acc_rotate(v, rlc_spec(a)), none)),
        Instruction::Rrca => Ok((acc_rotate(v, rrc_spec(a)), none)),
        Instruction::Rla => Ok((acc_rotate(v, rl_spec(a, v.cf())), none)),
        Instruction::Rra => Ok((acc_rotate(v, rr_spec(a, v.cf())), none)),
        Instruction::Rlc(op) => shift_result(v, op, rlc_spec(operand_value(v, op, vals))),
        Instruction::Rrc(op) => shift_result(v, op, rrc_spec(operand_value(v, op, vals))),
        Instruction::Rl(op) => shift_result(v, op, rl_spec(operand_value(v, op, vals), v.cf())),
        Instruction::Rr(op) => shift_result(v, op, rr_spec(operand_value(v, op, vals), v.cf())),
        Instruction::Sla(op) => shift_result(v, op, sla_spec(operand_value(v, op, vals))),
        Instruction::Sra(op) => shift_result(v, op, sra_spec(operand_value(v, op, vals))),
        Instruction::Srl(op) => shift_result(v, op, srl_spec(operand_value(v, op, vals))),
        Instruction::Bit { bit, op } => Ok((v.with_flag(FLAG_Z, !bit_set(operand_value(v, op, vals), (bit % 8) as int))
            .with_flag(FLAG_N, false).with_flag(FLAG_H, true), none)),
        Instruction::Res { bit, op } => store_operand(v, op, operand_value(v, op, vals) & !(1u8 << bit)),
        Instruction::SetBit { bit, op } => store_operand(v, op, operand_value(v, op, vals) | (1u8 << bit)),
    }
}

/// Whether `ins`'s reads and writes are all on the stack or none at all
/// (control flow, 16-bit and flag instructions).
pub open spec fn is_control(ins: Instruction) -> bool {
    ins is Nop || ins is Stop || ins is Halt || ins is Jp || ins is JpHl || ins is Jr || ins is Call || ins is Rst
        || ins is Ret || ins is Reti || ins is Push || ins is Pop || ins is Ld16Imm || ins is LdAbsSp || ins is Inc16
        || ins is Dec16 || ins is AddHl || ins is LdHlSpE || ins is LdSpHl || ins is AddSpE || ins is Di || ins is Ei
        || ins is Scf || ins is Ccf
}

/// 8-bit loads.
pub open spec fn is_load(ins: Instruction) -> bool {
    ins is Ld8 || ins is LdAbsA || ins is LdAAbs || ins is LdMemBcA || ins is LdAMemBc || ins is LdMemDeA
        || ins is LdAMemDe || ins is LdhAbsA || ins is LdhAAbs || ins is LdIoCA || ins is LdAIoC || ins is LdiMemHlA
        || ins is LdiAMemHl || ins is LddMemHlA || ins is LddAMemHl
}

fn add_offset(pc: u16, offset: i8) -> (r: u16)
    ensures
        r == wrap16(pc + offset),
{
    let x: i32 = pc as i32 + offset as i32;
    if x < 0 {
        (x + 65536) as u16
    } else if x > 0xFFFF {
        (x - 65536) as u16
    } else {
        x as u16
    }
}

fn set_pc(cpu: &mut Cpu, pc: u16)
    ensures
        final(cpu)@ == with_pc(old(cpu)@, pc),
{
    proof {
        lemma_view_fields(*cpu);
    }
    cpu.pc = pc;
    proof {
        lemma_view_fields(*cpu);
    }
}

fn set_control(cpu: &mut Cpu, ime: bool, pending: bool, armed: bool, halted: bool)
    ensures
        final(cpu)@ == (CpuView { ime, ime_enable_pending: pending, ime_enable_armed: armed, halted, ..old(cpu)@ }),
{
    proof {
        lemma_view_fields(*cpu);
    }
    cpu.ime = ime;
    cpu.ime_enable_pending = pending;
    cpu.ime_enable_armed = armed;
    cpu.halted = halted;
    proof {
        lemma_view_fields(*cpu);
    }
}

fn control_flags(cpu: &Cpu) -> (r: (bool, bool, bool, bool))
    ensures
        r == (cpu@.ime, cpu@.ime_enable_pending, cpu@.ime_enable_armed, cpu@.halted),
{
    proof {
        lemma_view_fields(*cpu);
    }
    (cpu.ime, cpu.ime_enable_pending, cpu.ime_enable_armed, cpu.halted)
}

fn pc_of(cpu: &Cpu) -> (r: u16)
    ensures
        r == cpu@.pc,
{
    proof {
        lemma_view_fields(*cpu);
    }
    cpu.pc
}

fn apply_alu_flags(cpu: &mut Cpu, r: AluResult8)
    ensures
        final(cpu)@ == alu_flags(old(cpu)@, r),
{
    cpu.set_flag_z(r.z);
    cpu.set_flag_n(r.n);
    cpu.set_flag_h(r.h);
    cpu.set_flag_c(r.c);
}

/// Non-CB accumulator rotates: Z always 0 (unlike CB RLC/RL/…).
fn apply_acc_rotate(cpu: &mut Cpu, r: AluResult8)
    ensures
        final(cpu)@ == acc_rotate(old(cpu)@, r),
{
    cpu.write_r8(Reg8::A, r.value);
    cpu.set_flag_z(false);
    cpu.set_flag_n(false);
    cpu.set_flag_h(false);
    cpu.set_flag_c(r.c);
}

fn apply_acc(cpu: &mut Cpu, r: AluResult8)
    ensures
        final(cpu)@ == acc_result(old(cpu)@, r),
{
    cpu.write_r8(Reg8::A, r.value);
    apply_alu_flags(cpu, r);
}

fn read_operand(cpu: &Cpu, op: Operand8, vals: &[u8]) -> (x: u8)
    requires
        op is MemHl ==> vals@.len() >= 1,
    ensures
        x == operand_value(cpu@, op, vals@),
{
    match op {
        Operand8::Reg(r) => cpu.read_r8(r),
        Operand8::Imm(n) => n,
        Operand8::MemHl => vals[0],
    }
}

fn write_operand(cpu: &mut Cpu, op: Operand8, x: u8, writes: &mut Vec<(u16, u8)>) -> (r: Result<(), Instruction>)
    ensures
        match store_operand(old(cpu)@, op, x) {
            Ok((v, w)) => r is Ok && final(cpu)@ == v && final(writes)@ == old(writes)@ + w,
            Err(e) => r == Err::<(), Instruction>(e) && final(cpu)@ == old(cpu)@ && final(writes)@ == old(writes)@,
        },
{
    match op {
        Operand8::Reg(r) => {
            cpu.write_r8(r, x);
            assert(writes@ =~= old(writes)@ + Seq::<(u16, u8)>::empty());
            Ok(())
        },
        Operand8::Imm(_) => Err(Instruction::Ld8 { dst: op, src: Operand8::Reg(Reg8::A) }),
        Operand8::MemHl => {
            let hl: u16 = cpu.read_r16(Reg16::Hl);
            writes.push((hl, x));
            assert(writes@ =~= old(writes)@ + seq![(hl, x)]);
            Ok(())
        },
    }
}

fn push_bytes(sp: u16, value: u16, writes: &mut Vec<(u16, u8)>)
    ensures
        final(writes)@ == old(writes)@ + push_writes(sp, value),
{
    let s1: u16 = sp.wrapping_sub(1);
    let s2: u16 = s1.wrapping_sub(1);
    writes.push((s1, (value / 256) as u8));
    writes.push((s2, (value % 256) as u8));
    assert(writes@ =~= old(writes)@ + push_writes(sp, value));
}

/// Addresses `ins` reads, in order, from the current registers.
pub fn read_addresses(ins: Instruction, cpu: &Cpu) -> (r: Vec<u16>)
    ensures
        r@ == spec_reads(ins, cpu@),
{
    let mut r: Vec<u16> = Vec::new();
    let hl: u16 = cpu.read_r16(Reg16::Hl);
    let sp: u16 = cpu.read_r16(Reg16::Sp);
    match ins {
        Instruction::Ret { cond } => {
            if cond_met(cpu, cond) {
                r.push(sp);
                r.push(sp.wrapping_add(1));
            }
        },
        Instruction::Reti | Instruction::Pop(_) => {
            r.push(sp);
            r.push(sp.wrapping_add(1));
        },
        Instruction::Ld8 { src: Operand8::MemHl, .. } => r.push(hl),
        Instruction::LdAAbs(a) => r.push(a),
        Instruction::LdAMemBc => r.push(cpu.read_r16(Reg16::Bc)),
        Instruction::LdAMemDe => r.push(cpu.read_r16(Reg16::De)),
        Instruction::LdhAAbs(n) => r.push(0xFF00 + n as u16),
        Instruction::LdAIoC => r.push(0xFF00 + cpu.read_r8(Reg8::C) as u16),
        Instruction::LdiAMemHl | Instruction::LddAMemHl => r.push(hl),
        Instruction::Inc8(Operand8::MemHl)
        | Instruction::Dec8(Operand8::MemHl)
        | Instruction::Add(Operand8::MemHl)
        | Instruction::Adc(Operand8::MemHl)
        | Instruction::Sub(Operand8::MemHl)
        | Instruction::Sbc(Operand8::MemHl)
        | Instruction::Cp(Operand8::MemHl)
        | Instruction::And(Operand8::MemHl)
        | Instruction::Xor(Operand8::MemHl)
        | Instruction::Or(Operand8::MemHl)
        | Instruction::Swap(Operand8::MemHl)
        | Instruction::Rlc(Operand8::MemHl)
        | Instruction::Rrc(Operand8::MemHl)
        | Instruction::Rl(Operand8::MemHl)
        | Instruction::Rr(Operand8::MemHl)
        | Instruction::Sla(Operand8::MemHl)
        | Instruction::Sra(Operand8::MemHl)
        | Instruction::Srl(Operand8::MemHl)
        | Instruction::Bit { op: Operand8::MemHl, .. }
        | Instruction::Res { op: Operand8::MemHl, .. }
        | Instruction::SetBit { op: Operand8::MemHl, .. } => r.push(hl),
        _ => {},
    }
    proof {
        assert(r@ =~= spec_reads(ins, cpu@));
    }
    r
}

#[verifier::rlimit(100)]
fn execute_jumps(ins: Instruction, cpu: &mut Cpu, vals: &[u8]) -> (r: Vec<(u16, u8)>)
    requires
        ins is Nop || ins is Stop || ins is Halt || ins is Jp || ins is JpHl || ins is Jr,
        vals@.len() == spec_reads(ins, old(cpu)@).len(),
    ensures
        spec_execute(ins, old(cpu)@, vals@) == Ok::<(CpuView, Seq<(u16, u8)>), Instruction>((final(cpu)@, r@)),
{
    proof {
        reveal(spec_execute);
    }
    let mut w: Vec<(u16, u8)> = Vec::new();
    let sp: u16 = cpu.read_r16(Reg16::Sp);
    let pc: u16 = pc_of(cpu);
    match ins {
        Instruction::Nop | Instruction::Stop => {},
        Instruction::Halt => {
            let (ime, p, a, _h) = control_flags(cpu);
            set_control(cpu, ime, p, a, true);
        },
        Instruction::Jp { cond, target } => {
            if cond_met(cpu, cond) {
                set_pc(cpu, target);
            }
        },
        Instruction::JpHl => {
            let hl: u16 = cpu.read_r16(Reg16::Hl);
            set_pc(cpu, hl);
        },
        Instruction::Jr { cond, offset } => {
            if cond_met(cpu, cond) {
                // PC already points past the JR; apply the signed displacement.
                set_pc(cpu, add_offset(pc, offset));
            }
        },
        _ => {},
    }
    proof {
        assert(w@ =~= spec_execute(ins, old(cpu)@, vals@)->Ok_0.1);
    }
    w
}

#[verifier::rlimit(100)]
fn execute_calls(ins: Instruction, cpu: &mut Cpu, vals: &[u8]) -> (r: Vec<(u16, u8)>)
    requires
        ins is Call || ins is Rst || ins is Ret || ins is Reti,
        vals@.len() == spec_reads(ins, old(cpu)@).len(),
    ensures
        spec_execute(ins, old(cpu)@, vals@) == Ok::<(CpuView, Seq<(u16, u8)>), Instruction>((final(cpu)@, r@)),
{
    proof {
        reveal(spec_execute);
    }
    let mut w: Vec<(u16, u8)> = Vec::new();
    let sp: u16 = cpu.read_r16(Reg16::Sp);
    let pc: u16 = pc_of(cpu);
    match ins {
        Instruction::Call { cond, target } => {
            if cond_met(cpu, cond) {
                push_bytes(sp, pc, &mut w);
                cpu.write_r16(Reg16::Sp, sp.wrapping_sub(2));
                set_pc(cpu, target);
            }
        },
        Instruction::Rst(vec) => {
            push_bytes(sp, pc, &mut w);
            cpu.write_r16(Reg16::Sp, sp.wrapping_sub(2));
            set_pc(cpu, vec as u16);
        },
        Instruction::Ret { cond } => {
            if cond_met(cpu, cond) {
                cpu.write_r16(Reg16::Sp, sp.wrapping_add(2));
                set_pc(cpu, vals[0] as u16 + 256 * vals[1] as u16);
            }
        },
        Instruction::Reti => {
            cpu.write_r16(Reg16::Sp, sp.wrapping_add(2));
            set_pc(cpu, vals[0] as u16 + 256 * vals[1] as u16);
            let (_i, _p, _a, h) = control_flags(cpu);
            set_control(cpu, true, false, false, h);
        },
        _ => {},
    }
    proof {
        assert(w@ =~= spec_execute(ins, old(cpu)@, vals@)->Ok_0.1);
    }
    w
}

#[verifier::rlimit(100)]
fn execute_stack(ins: Instruction, cpu: &mut Cpu, vals: &[u8]) -> (r: Vec<(u16, u8)>)
    requires
        ins is Push || ins is Pop || ins is Ld16Imm || ins is LdAbsSp || ins is Inc16 || ins is Dec16,
        vals@.len() == spec_reads(ins, old(cpu)@).len(),
    ensures
        spec_execute(ins, old(cpu)@, vals@) == Ok::<(CpuView, Seq<(u16, u8)>), Instruction>((final(cpu)@, r@)),
{
    proof {
        reveal(spec_execute);
    }
    let mut w: Vec<(u16, u8)> = Vec::new();
    let sp: u16 = cpu.read_r16(Reg16::Sp);
    let pc: u16 = pc_of(cpu);
    match ins {
        Instruction::Push(rr) => {
            let value: u16 = cpu.read_r16(rr);
            push_bytes(sp, value, &mut w);
            cpu.write_r16(Reg16::Sp, sp.wrapping_sub(2));
        },
        Instruction::Pop(rr) => {
            cpu.write_r16(Reg16::Sp, sp.wrapping_add(2));
            cpu.write_r16(rr, vals[0] as u16 + 256 * vals[1] as u16);
        },
        Instruction::Ld16Imm { dst, value } => cpu.write_r16(dst, value),
        Instruction::LdAbsSp(addr) => {
            w.push((addr, (sp % 256) as u8));
            w.push((addr.wrapping_add(1), (sp / 256) as u8));
        },
        Instruction::Inc16(rr) => {
            let v: u16 = cpu.read_r16(rr).wrapping_add(1);
            cpu.write_r16(rr, v);
        },
        Instruction::Dec16(rr) => {
            let v: u16 = cpu.read_r16(rr).wrapping_sub(1);
            cpu.write_r16(rr, v);
        },
        _ => {},
    }
    proof {
        assert(w@ =~= spec_execute(ins, old(cpu)@, vals@)->Ok_0.1);
    }
    w
}

fn execute_wide(ins: Instruction, cpu: &mut Cpu, vals: &[u8]) -> (r: Vec<(u16, u8)>)
    requires
        ins is AddHl || ins is LdHlSpE || ins is LdSpHl || ins is AddSpE,
        vals@.len() == spec_reads(ins, old(cpu)@).len(),
    ensures
        spec_execute(ins, old(cpu)@, vals@) == Ok::<(CpuView, Seq<(u16, u8)>), Instruction>((final(cpu)@, r@)),
{
    proof {
        reveal(spec_execute);
    }
    let mut w: Vec<(u16, u8)> = Vec::new();
    let sp: u16 = cpu.read_r16(Reg16::Sp);
    let pc: u16 = pc_of(cpu);
    match ins {
        Instruction::AddHl(rr) => {
            let res = add_hl(cpu.read_r16(Reg16::Hl), cpu.read_r16(rr));
            cpu.write_r16(Reg16::Hl, res.value);
            cpu.set_flag_n(false);
            cpu.set_flag_h(res.h);
            cpu.set_flag_c(res.c);
        },
        Instruction::LdHlSpE(e) => {
            let res = add_sp_e8(sp, e);
            cpu.write_r16(Reg16::Hl, res.value);
            cpu.set_flag_z(false);
            cpu.set_flag_n(false);
            cpu.set_flag_h(res.h);
            cpu.set_flag_c(res.c);
        },
        Instruction::LdSpHl => {
            let hl: u16 = cpu.read_r16(Reg16::Hl);
            cpu.write_r16(Reg16::Sp, hl);
        },
        Instruction::AddSpE(e) => {
            let res = add_sp_e8(sp, e);
            cpu.write_r16(Reg16::Sp, res.value);
            cpu.set_flag_z(false);
            cpu.set_flag_n(false);
            cpu.set_flag_h(res.h);
            cpu.set_flag_c(res.c);
        },
        _ => {},
    }
    proof {
        assert(w@ =~= spec_execute(ins, old(cpu)@, vals@)->Ok_0.1);
    }
    w
}

fn execute_flags(ins: Instruction, cpu: &mut Cpu, vals: &[u8]) -> (r: Vec<(u16, u8)>)
    requires
        ins is Di || ins is Ei || ins is Scf || ins is Ccf,
        vals@.len() == spec_reads(ins, old(cpu)@).len(),
    ensures
        spec_execute(ins, old(cpu)@, vals@) == Ok::<(CpuView, Seq<(u16, u8)>), Instruction>((final(cpu)@, r@)),
{
    proof {
        reveal(spec_execute);
    }
    let mut w: Vec<(u16, u8)> = Vec::new();
    let sp: u16 = cpu.read_r16(Reg16::Sp);
    let pc: u16 = pc_of(cpu);
    match ins {
        Instruction::Di => {
            let (_i, _p, _a, h) = control_flags(cpu);
            set_control(cpu, false, false, false, h);
        },
        Instruction::Ei => {
            // IME becomes true at the end of the following instruction.
            let (i, _p, a, h) = control_flags(cpu);
            set_control(cpu, i, true, a, h);
        },
        Instruction::Scf => {
            cpu.set_flag_n(false);
            cpu.set_flag_h(false);
            cpu.set_flag_c(true);
        },
        Instruction::Ccf => {
            let c: bool = cpu.flag_c();
            cpu.set_flag_n(false);
            cpu.set_flag_h(false);
            cpu.set_flag_c(!c);
        },
        _ => {},
    }
    proof {
        assert(w@ =~= spec_execute(ins, old(cpu)@, vals@)->Ok_0.1);
    }
    w
}

/// Control flow, stack, 16-bit arithmetic and flag instructions.
fn execute_control(ins: Instruction, cpu: &mut Cpu, vals: &[u8]) -> (r: Vec<(u16, u8)>)
    requires
        is_control(ins),
        vals@.len() == spec_reads(ins, old(cpu)@).len(),
    ensures
        spec_execute(ins, old(cpu)@, vals@) == Ok::<(CpuView, Seq<(u16, u8)>), Instruction>((final(cpu)@, r@)),
{
    match ins {
        Instruction::Nop | Instruction::Stop | Instruction::Halt | Instruction::Jp { .. } | Instruction::JpHl | Instruction::Jr { .. } => execute_jumps(ins, cpu, vals),
        Instruction::Call { .. } | Instruction::Rst(..) | Instruction::Ret { .. } | Instruction::Reti => execute_calls(ins, cpu, vals),
        Instruction::Push(..) | Instruction::Pop(..) | Instruction::Ld16Imm { .. } | Instruction::LdAbsSp(..) | Instruction::Inc16(..) | Instruction::Dec16(..) => execute_stack(ins, cpu, vals),
        Instruction::AddHl(..) | Instruction::LdHlSpE(..) | Instruction::LdSpHl | Instruction::AddSpE(..) => execute_wide(ins, cpu, vals),
        Instruction::Di | Instruction::Ei | Instruction::Scf | Instruction::Ccf => execute_flags(ins, cpu, vals),
        _ => vstd::pervasive::unreached(),
    }
}

#[verifier::rlimit(100)]
fn execute_loads(ins: Instruction, cpu: &mut Cpu, vals: &[u8]) -> (r: Result<Vec<(u16, u8)>, Instruction>)
    requires
        is_load(ins),
        vals@.len() == spec_reads(ins, old(cpu)@).len(),
    ensures
        match spec_execute(ins, old(cpu)@, vals@) {
            Ok((v, w)) => r is Ok && final(cpu)@ == v && r->Ok_0@ == w,
            Err(e) => r == Err::<Vec<(u16, u8)>, Instruction>(e) && final(cpu)@ == old(cpu)@,
        },
{
    proof {
        reveal(spec_execute);
    }
    let mut w: Vec<(u16, u8)> = Vec::new();
    let a: u8 = cpu.read_r8(Reg8::A);
    let hl: u16 = cpu.read_r16(Reg16::Hl);
    match ins {
        Instruction::Ld8 { dst, src } => {
            let value: u8 = read_operand(cpu, src, vals);
            match write_operand(cpu, dst, value, &mut w) {
                Ok(()) => {},
                Err(e) => return Err(e),
            }
        },
        Instruction::LdAbsA(addr) => w.push((addr, a)),
        Instruction::LdAAbs(_) | Instruction::LdAMemBc | Instruction::LdAMemDe | Instruction::LdhAAbs(_)
        | Instruction::LdAIoC => cpu.write_r8(Reg8::A, vals[0]),
        Instruction::LdMemBcA => w.push((cpu.read_r16(Reg16::Bc), a)),
        Instruction::LdMemDeA => w.push((cpu.read_r16(Reg16::De), a)),
        Instruction::LdhAbsA(n) => w.push((0xFF00 + n as u16, a)),
        Instruction::LdIoCA => w.push((0xFF00 + cpu.read_r8(Reg8::C) as u16, a)),
        Instruction::LdiMemHlA => {
            w.push((hl, a));
            cpu.write_r16(Reg16::Hl, hl.wrapping_add(1));
        },
        Instruction::LdiAMemHl => {
            cpu.write_r8(Reg8::A, vals[0]);
            cpu.write_r16(Reg16::Hl, hl.wrapping_add(1));
        },
        Instruction::LddMemHlA => {
            w.push((hl, a));
            cpu.write_r16(Reg16::Hl, hl.wrapping_sub(1));
        },
        Instruction::LddAMemHl => {
            cpu.write_r8(Reg8::A, vals[0]);
            cpu.write_r16(Reg16::Hl, hl.wrapping_sub(1));
        },
        _ => {},
    }
    proof {
        if spec_execute(ins, old(cpu)@, vals@) is Ok {
            assert(w@ =~= spec_execute(ins, old(cpu)@, vals@)->Ok_0.1);
        }
    }
    Ok(w)
}

/// Whether `ins` is an accumulator / 8-bit ALU instruction.
pub open spec fn is_alu(ins: Instruction) -> bool {
    ins is Inc8 || ins is Dec8 || ins is Add || ins is Adc || ins is Sub || ins is Sbc || ins is Cp || ins is And
        || ins is Xor || ins is Or || ins is Daa || ins is Cpl || ins is Rlca || ins is Rrca || ins is Rla || ins is Rra
}

#[verifier::rlimit(100)]
fn execute_alu(ins: Instruction, cpu: &mut Cpu, vals: &[u8]) -> (r: Result<Vec<(u16, u8)>, Instruction>)
    requires
        is_alu(ins),
        vals@.len() == spec_reads(ins, old(cpu)@).len(),
    ensures
        match spec_execute(ins, old(cpu)@, vals@) {
            Ok((v, w)) => r is Ok && final(cpu)@ == v && r->Ok_0@ == w,
            Err(e) => r == Err::<Vec<(u16, u8)>, Instruction>(e) && final(cpu)@ == old(cpu)@,
        },
{
    proof {
        reveal(spec_execute);
    }
    let mut w: Vec<(u16, u8)> = Vec::new();
    let a: u8 = cpu.read_r8(Reg8::A);
    let c: bool = cpu.flag_c();
    match ins {
        Instruction::Inc8(op) | Instruction::Dec8(op) => {
            let v: u8 = read_operand(cpu, op, vals);
            let res: IncDecResult8 = if matches!(ins, Instruction::Inc8(_)) { inc8(v) } else { dec8(v) };
            match write_operand(cpu, op, res.value, &mut w) {
                Ok(()) => {},
                Err(e) => return Err(e),
            }
            cpu.set_flag_z(res.z);
            cpu.set_flag_n(res.n);
            cpu.set_flag_h(res.h);
        },
        Instruction::Add(op) => {
            let b: u8 = read_operand(cpu, op, vals);
            apply_acc(cpu, add8(a, b));
        },
        Instruction::Adc(op) => {
            let b: u8 = read_operand(cpu, op, vals);
            apply_acc(cpu, adc8(a, b, c));
        },
        Instruction::Sub(op) => {
            let b: u8 = read_operand(cpu, op, vals);
            apply_acc(cpu, sub8(a, b));
        },
        Instruction::Sbc(op) => {
            let b: u8 = read_operand(cpu, op, vals);
            apply_acc(cpu, sbc8(a, b, c));
        },
        Instruction::Cp(op) => {
            let b: u8 = read_operand(cpu, op, vals);
            apply_alu_flags(cpu, cp8(a, b));
        },
        Instruction::And(op) => {
            let b: u8 = read_operand(cpu, op, vals);
            apply_acc(cpu, and8(a, b));
        },
        Instruction::Xor(op) => {
            let b: u8 = read_operand(cpu, op, vals);
            apply_acc(cpu, xor8(a, b));
        },
        Instruction::Or(op) => {
            let b: u8 = read_operand(cpu, op, vals);
            apply_acc(cpu, or8(a, b));
        },
        Instruction::Daa => {
            let res: AluResult8 = daa(a, cpu.flag_n(), cpu.flag_h(), c);
            apply_acc(cpu, res);
        },
        Instruction::Cpl => {
            cpu.write_r8(Reg8::A, 255 - a);
            cpu.set_flag_n(true);
            cpu.set_flag_h(true);
        },
        Instruction::Rlca => apply_acc_rotate(cpu, rlc(a)),
        Instruction::Rrca => apply_acc_rotate(cpu, rrc(a)),
        Instruction::Rla => apply_acc_rotate(cpu, rl(a, c)),
        Instruction::Rra => apply_acc_rotate(cpu, rr(a, c)),
        _ => {},
    }
    proof {
        if spec_execute(ins, old(cpu)@, vals@) is Ok {
            assert(w@ =~= spec_execute(ins, old(cpu)@, vals@)->Ok_0.1);
        }
    }
    Ok(w)
}

/// Whether `ins` is a CB-prefixed instruction.
pub open spec fn is_cb(ins: Instruction) -> bool {
    ins is Swap || ins is Rlc || ins is Rrc || ins is Rl || ins is Rr || ins is Sla || ins is Sra || ins is Srl
        || ins is Bit || ins is Res || ins is SetBit
}

#[verifier::rlimit(100)]
fn execute_cb(ins: Instruction, cpu: &mut Cpu, vals: &[u8]) -> (r: Result<Vec<(u16, u8)>, Instruction>)
    requires
        is_cb(ins),
        well_formed(ins),
        vals@.len() == spec_reads(ins, old(cpu)@).len(),
    ensures
        match spec_execute(ins, old(cpu)@, vals@) {
            Ok((v, w)) => r is Ok && final(cpu)@ == v && r->Ok_0@ == w,
            Err(e) => r == Err::<Vec<(u16, u8)>, Instruction>(e) && final(cpu)@ == old(cpu)@,
        },
{
    proof {
        reveal(spec_execute);
    }
    let mut w: Vec<(u16, u8)> = Vec::new();
    let c: bool = cpu.flag_c();
    match ins {
        Instruction::Swap(op) => {
            let v: u8 = read_operand(cpu, op, vals);
            let swapped: u8 = (v % 16) * 16 + v / 16;
            match write_operand(cpu, op, swapped, &mut w) {
                Ok(()) => {},
                Err(e) => return Err(e),
            }
            cpu.set_flag_z(swapped == 0);
            cpu.set_flag_n(false);
            cpu.set_flag_h(false);
            cpu.set_flag_c(false);
        },
        Instruction::Rlc(op) | Instruction::Rrc(op) | Instruction::Rl(op) | Instruction::Rr(op) | Instruction::Sla(op)
        | Instruction::Sra(op) | Instruction::Srl(op) => {
            let v: u8 = read_operand(cpu, op, vals);
            let res: AluResult8 = match ins {
                Instruction::Rlc(_) => rlc(v),
                Instruction::Rrc(_) => rrc(v),
                Instruction::Rl(_) => rl(v, c),
                Instruction::Rr(_) => rr(v, c),
                Instruction::Sla(_) => sla(v),
                Instruction::Sra(_) => sra(v),
                _ => srl(v),
            };
            match write_operand(cpu, op, res.value, &mut w) {
                Ok(()) => {},
                Err(e) => return Err(e),
            }
            apply_alu_flags(cpu, res);
        },
        Instruction::Bit { bit: b, op } => {
            let v: u8 = read_operand(cpu, op, vals);
            let f = bit(v, b);
            cpu.set_flag_z(f.z);
            cpu.set_flag_n(f.n);
            cpu.set_flag_h(f.h);
        },
        Instruction::Res { bit: b, op } => {
            let v: u8 = read_operand(cpu, op, vals) & !(1u8 << b);
            match write_operand(cpu, op, v, &mut w) {
                Ok(()) => {},
                Err(e) => return Err(e),
            }
        },
        Instruction::SetBit { bit: b, op } => {
            let v: u8 = read_operand(cpu, op, vals) | (1u8 << b);
            match write_operand(cpu, op, v, &mut w) {
                Ok(()) => {},
                Err(e) => return Err(e),
            }
        },
        _ => {},
    }
    proof {
        if spec_execute(ins, old(cpu)@, vals@) is Ok {
            assert(w@ =~= spec_execute(ins, old(cpu)@, vals@)->Ok_0.1);
        }
    }
    Ok(w)
}

/// Execute a decoded instruction, given the bytes read at
/// [`read_addresses`] (in order). Returns the memory writes to perform, in
/// order, or the instruction back when it stores into an immediate; the
/// registers are then unchanged.
pub fn execute(ins: Instruction, cpu: &mut Cpu, vals: &[u8]) -> (r: Result<Vec<(u16, u8)>, Instruction>)
    requires
        well_formed(ins),
        vals@.len() == spec_reads(ins, old(cpu)@).len(),
    ensures
        match spec_execute(ins, old(cpu)@, vals@) {
            Ok((v, w)) => r is Ok && final(cpu)@ == v && r->Ok_0@ == w,
            Err(e) => r == Err::<Vec<(u16, u8)>, Instruction>(e) && final(cpu)@ == old(cpu)@,
        },
{
    match ins {
        Instruction::Ld8 { .. } | Instruction::LdAbsA(_) | Instruction::LdAAbs(_) | Instruction::LdMemBcA
        | Instruction::LdAMemBc | Instruction::LdMemDeA | Instruction::LdAMemDe | Instruction::LdhAbsA(_)
        | Instruction::LdhAAbs(_) | Instruction::LdIoCA | Instruction::LdAIoC | Instruction::LdiMemHlA
        | Instruction::LdiAMemHl | Instruction::LddMemHlA | Instruction::LddAMemHl => execute_loads(ins, cpu, vals),
        Instruction::Inc8(_) | Instruction::Dec8(_) | Instruction::Add(_) | Instruction::Adc(_) | Instruction::Sub(_)
        | Instruction::Sbc(_) | Instruction::Cp(_) | Instruction::And(_) | Instruction::Xor(_) | Instruction::Or(_)
        | Instruction::Daa | Instruction::Cpl | Instruction::Rlca | Instruction::Rrca | Instruction::Rla
        | Instruction::Rra => execute_alu(ins, cpu, vals),
        Instruction::Swap(_) | Instruction::Rlc(_) | Instruction::Rrc(_) | Instruction::Rl(_) | Instruction::Rr(_)
        | Instruction::Sla(_) | Instruction::Sra(_) | Instruction::Srl(_) | Instruction::Bit { .. }
        | Instruction::Res { .. } | Instruction::SetBit { .. } => execute_cb(ins, cpu, vals),
        _ => Ok(execute_control(ins, cpu, vals)),
    }
}

proof fn lemma_push_pop_arms(v: CpuView, rr: Reg16, vals: Seq<u8>)
    ensures
        spec_execute(Instruction::Push(rr), v, vals) == Ok::<(CpuView, Seq<(u16, u8)>), Instruction>(
            (with_sp(v, wrap16(v.sp - 2)), push_writes(v.sp, v.reg16(rr)))),
        spec_execute(Instruction::Pop(rr), v, vals) == Ok::<(CpuView, Seq<(u16, u8)>), Instruction>(
            (with_sp(v, wrap16(v.sp + 2)).with_reg16(rr, word(vals)), Seq::empty())),
        spec_reads(Instruction::Pop(rr), v) == seq![v.sp, wrap16(v.sp + 1)],
{
    reveal(spec_execute);
}

/// `PUSH rr` then `POP rr`, with the pop reading back the bytes the push
/// wrote, restores the register pair and the stack pointer (for `AF`, the
/// flag byte's unused low nibble stays clear, as it always is).
pub proof fn lemma_push_pop_round_trip(c: Cpu, rr: Reg16)
    requires
        rr != Reg16::Sp,
    ensures
        ({
            let v = c@;
            let (v1, w) = spec_execute(Instruction::Push(rr), v, Seq::empty())->Ok_0;
            let reads = spec_reads(Instruction::Pop(rr), v1);
            let (v2, w2) = spec_execute(Instruction::Pop(rr), v1, seq![w[1].1, w[0].1])->Ok_0;
            &&& reads == seq![w[1].0, w[0].0]
            &&& w2.len() == 0
            &&& v2.reg16(rr) == v.reg16(rr)
            &&& v2.sp == v.sp
        }),
{
    let v = c@;
    super::registers::lemma_flags_low_nibble_clear(c);
    let x = v.reg16(rr);
    let v1 = with_sp(v, wrap16(v.sp - 2));
    let w = push_writes(v.sp, x);
    lemma_push_pop_arms(v, rr, Seq::empty());
    let vals = seq![w[1].1, w[0].1];
    assert(vals[0] == x % 256 && vals[1] == x / 256);
    assert(word(vals) == x);
    let v1b = with_sp(v1, wrap16(v1.sp + 2));
    assert(v1b.sp == v.sp);
    lemma_push_pop_arms(v1, rr, vals);
    super::registers::lemma_reg16_read_after_write(v1b, rr, x);
    assert(v1b.reg16(rr) == x);
    if rr == Reg16::Af {
        assert(x % 16 == 0);
    }
}

/// `CALL` then `RET`, with the return reading back the bytes the call
/// pushed, resumes after the call with the stack pointer restored.
pub proof fn lemma_call_ret_round_trip(v: CpuView, target: u16)
    ensures
        ({
            let (v1, w) = spec_execute(Instruction::Call { cond: None, target }, v, Seq::empty())->Ok_0;
            let ret = Instruction::Ret { cond: None };
            let (v2, w2) = spec_execute(ret, v1, seq![w[1].1, w[0].1])->Ok_0;
            &&& v1.pc == target
            &&& spec_reads(ret, v1) == seq![w[1].0, w[0].0]
            &&& v2.pc == v.pc
            &&& v2.sp == v.sp
            &&& w2.len() == 0
        }),
{
    reveal(spec_execute);
}

/// Setting Z, N, H and C in turn leaves each flag as last set.
proof fn lemma_four_flags(f: u8, z: bool, n: bool, h: bool, c: bool, f1: u8, f2: u8, f3: u8, f4: u8)
    by (bit_vector)
    requires
        f1 == (if z { f | 0x80u8 } else { f & !0x80u8 }),
        f2 == (if n { f1 | 0x40u8 } else { f1 & !0x40u8 }),
        f3 == (if h { f2 | 0x20u8 } else { f2 & !0x20u8 }),
        f4 == (if c { f3 | 0x10u8 } else { f3 & !0x10u8 }),
    ensures
        (f4 & 0x80u8 != 0) == z,
        (f4 & 0x40u8 != 0) == n,
        (f4 & 0x20u8 != 0) == h,
        (f4 & 0x10u8 != 0) == c,
{
}

/// Flags read back as an ALU result set them.
proof fn lemma_alu_flags_read(v: CpuView, r: AluResult8)
    ensures
        alu_flags(v, r).zf() == r.z,
        alu_flags(v, r).nf() == r.n,
        alu_flags(v, r).hf() == r.h,
        alu_flags(v, r).cf() == r.c,
{
    let f1 = v.with_flag(FLAG_Z, r.z).f;
    let f2 = v.with_flag(FLAG_Z, r.z).with_flag(FLAG_N, r.n).f;
    let f3 = v.with_flag(FLAG_Z, r.z).with_flag(FLAG_N, r.n).with_flag(FLAG_H, r.h).f;
    let f4 = alu_flags(v, r).f;
    lemma_four_flags(v.f, r.z, r.n, r.h, r.c, f1, f2, f3, f4);
}

/// The `SUB` and `SBC` arms of [`spec_execute`].
proof fn lemma_sub_sbc_arms(v: CpuView, op: Operand8, vals: Seq<u8>)
    ensures
        spec_execute(Instruction::Sbc(op), v, vals) == Outcome::Ok(
            (acc_result(v, sbc8_spec(v.a, operand_value(v, op, vals), v.cf())), Seq::empty()),
        ),
        spec_execute(Instruction::Sub(op), v, vals) == Outcome::Ok(
            (acc_result(v, sbc8_spec(v.a, operand_value(v, op, vals), false)), Seq::empty()),
        ),
{
    reveal(spec_execute);
}

/// `SBC A, x` subtracts the operand and the carry flag from `A` modulo 256,
/// with N set, Z from the result, H on a borrow from bit 4 and C on a borrow
/// out of bit 8 (each counting the carry-in); nothing is written to memory.
/// With the carry flag set it leaves `A` one below what `SUB A, x` leaves.
pub proof fn lemma_sbc_subtracts_carry(v: CpuView, op: Operand8, vals: Seq<u8>)
    ensures
        ({
            let x: int = match op {
                Operand8::Reg(r) => v.reg8(r) as int,
                Operand8::Imm(n) => n as int,
                Operand8::MemHl => vals[0] as int,
            };
            let cin: int = if v.cf() { 1 } else { 0 };
            let out = spec_execute(Instruction::Sbc(op), v, vals);
            let sub = spec_execute(Instruction::Sub(op), v, vals);
            &&& out is Ok
            &&& out->Ok_0.1.len() == 0
            &&& out->Ok_0.0.a == (v.a - x - cin) % 256
            &&& out->Ok_0.0.zf() == ((v.a - x - cin) % 256 == 0)
            &&& out->Ok_0.0.nf()
            &&& out->Ok_0.0.hf() == (v.a % 16 < x % 16 + cin)
            &&& out->Ok_0.0.cf() == (v.a < x + cin)
            &&& v.cf() ==> out->Ok_0.0.a == (sub->Ok_0.0.a + 255) % 256
            &&& v.cf() ==> out->Ok_0.0.a != sub->Ok_0.0.a
        }),
{
    lemma_sub_sbc_arms(v, op, vals);
    let x = operand_value(v, op, vals);
    let r = sbc8_spec(v.a, x, v.cf());
    let r0 = sbc8_spec(v.a, x, false);
    lemma_alu_flags_read(v.with_reg8(Reg8::A, r.value), r);
    let d: int = v.a - x;
    if v.cf() {
        assert(((d - 1) % 256) == ((d % 256) + 255) % 256);
    }
}

/// Instructions that touch no memory operand read and write nothing.
#[verifier::rlimit(60)]
pub proof fn lemma_register_only_instructions(ins: Instruction, v: CpuView, vals: Seq<u8>)
    requires
        ins is Nop || ins is Halt || ins is Jp || ins is JpHl || ins is Jr || ins is Ld16Imm || ins is Inc16
            || ins is Dec16 || ins is AddHl || ins is LdHlSpE || ins is LdSpHl || ins is AddSpE || ins is Di
            || ins is Ei || ins is Scf || ins is Ccf || ins is Daa || ins is Cpl || ins is Rlca || ins is Rrca
            || ins is Rla || ins is Rra,
    ensures
        spec_reads(ins, v).len() == 0,
        spec_execute(ins, v, vals) is Ok,
        spec_execute(ins, v, vals)->Ok_0.1.len() == 0,
{
    reveal(spec_execute);
}

} // verus!
