//! Branch conditions and per-instruction cycle costs used by the step loop.

use vstd::prelude::*;
use super::instruction::{Cond, Instruction, Operand8};
use super::registers::{Cpu, CpuView};

verus! {

/// Whether `cond` holds for the flags in `v` (`None` always holds).
pub open spec fn spec_cond_met(v: CpuView, cond: Option<Cond>) -> bool {
    match cond {
        None => true,
        Some(Cond::Z) => v.zf(),
        Some(Cond::Nz) => !v.zf(),
        Some(Cond::C) => v.cf(),
        Some(Cond::Nc) => !v.cf(),
    }
}

pub fn cond_met(cpu: &Cpu, cond: Option<Cond>) -> (r: bool)
    ensures
        r == spec_cond_met(cpu@, cond),
{
    match cond {
        None => true,
        Some(Cond::Z) => cpu.flag_z(),
        Some(Cond::Nz) => !cpu.flag_z(),
        Some(Cond::C) => cpu.flag_c(),
        Some(Cond::Nc) => !cpu.flag_c(),
    }
}

pub open spec fn is_mem_hl(op: Operand8) -> bool {
    op is MemHl
}

pub open spec fn is_imm(op: Operand8) -> bool {
    op is Imm
}

/// T-cycles before the instruction's memory operand access (the bus
/// advances this far before the access).
pub open spec fn spec_mem_operand_pre_t(ins: Instruction) -> u32 {
    match ins {
        Instruction::Ld8 { dst, src } => if is_mem_hl(dst) && is_imm(src) { 8 } else if is_mem_hl(src)
            || is_mem_hl(dst) { 4 } else { 0 },
        Instruction::Inc8(op) | Instruction::Dec8(op) | Instruction::Add(op) | Instruction::Adc(op)
        | Instruction::Sub(op) | Instruction::Sbc(op) | Instruction::And(op) | Instruction::Xor(op)
        | Instruction::Or(op) | Instruction::Cp(op) => if is_mem_hl(op) { 4 } else { 0 },
        Instruction::LdiMemHlA | Instruction::LdiAMemHl | Instruction::LddMemHlA | Instruction::LddAMemHl
        | Instruction::LdMemBcA | Instruction::LdAMemBc | Instruction::LdMemDeA | Instruction::LdAMemDe => 4,
        Instruction::LdhAbsA(_) | Instruction::LdhAAbs(_) => 8,
        Instruction::LdIoCA | Instruction::LdAIoC => 4,
        _ => 0,
    }
}

pub fn mem_operand_pre_t(ins: Instruction) -> (t: u32)
    ensures
        t == spec_mem_operand_pre_t(ins),
{
    match ins {
        // 2 M-cycles: opcode fetch, then (HL) access.
        Instruction::Ld8 { dst: Operand8::MemHl, src: Operand8::Imm(_) } => 8,
        Instruction::Ld8 { src: Operand8::MemHl, .. }
        | Instruction::Ld8 { dst: Operand8::MemHl, .. }
        | Instruction::Inc8(Operand8::MemHl)
        | Instruction::Dec8(Operand8::MemHl)
        | Instruction::Add(Operand8::MemHl)
        | Instruction::Adc(Operand8::MemHl)
        | Instruction::Sub(Operand8::MemHl)
        | Instruction::Sbc(Operand8::MemHl)
        | Instruction::And(Operand8::MemHl)
        | Instruction::Xor(Operand8::MemHl)
        | Instruction::Or(Operand8::MemHl)
        | Instruction::Cp(Operand8::MemHl)
        | Instruction::LdiMemHlA
        | Instruction::LdiAMemHl
        | Instruction::LddMemHlA
        | Instruction::LddAMemHl
        | Instruction::LdMemBcA
        | Instruction::LdAMemBc
        | Instruction::LdMemDeA
        | Instruction::LdAMemDe => 4,
        // 3 M-cycles: opcode, immediate, then $FF00+n access.
        Instruction::LdhAbsA(_) | Instruction::LdhAAbs(_) => 8,
        Instruction::LdIoCA | Instruction::LdAIoC => 4,
        _ => 0,
    }
}

/// Base cost in T-cycles (4 T = 1 M) of an instruction; conditional control
/// flow is counted not taken (the taken extra is added by the caller).
pub open spec fn spec_t_cycles(ins: Instruction) -> u32 {
    match ins {
        Instruction::Nop | Instruction::Di | Instruction::Ei | Instruction::Scf | Instruction::Ccf
        | Instruction::Cpl | Instruction::JpHl | Instruction::Halt | Instruction::Stop | Instruction::Rlca
        | Instruction::Rrca | Instruction::Rla | Instruction::Rra | Instruction::Daa => 4,
        Instruction::Inc16(_) | Instruction::Dec16(_) | Instruction::AddHl(_) | Instruction::LdSpHl => 8,
        Instruction::Jr { .. } => 8,
        Instruction::LdHlSpE(_) => 12,
        Instruction::Jp { .. } => 12,
        Instruction::Call { .. } => 12,
        Instruction::Ret { cond } => if cond is None { 16 } else { 8 },
        Instruction::Reti => 16,
        Instruction::Rst(_) => 16,
        Instruction::Push(_) | Instruction::AddSpE(_) => 16,
        Instruction::Pop(_) => 12,
        Instruction::Ld16Imm { .. } => 12,
        Instruction::LdAbsSp(_) => 20,
        Instruction::LdAbsA(_) | Instruction::LdAAbs(_) => 16,
        Instruction::LdhAbsA(_) | Instruction::LdhAAbs(_) | Instruction::LdIoCA | Instruction::LdAIoC => 12,
        Instruction::LdiMemHlA | Instruction::LdiAMemHl | Instruction::LddMemHlA | Instruction::LddAMemHl
        | Instruction::LdMemBcA | Instruction::LdAMemBc | Instruction::LdMemDeA | Instruction::LdAMemDe => 8,
        Instruction::Inc8(op) | Instruction::Dec8(op) => if is_mem_hl(op) { 12 } else { 4 },
        Instruction::Ld8 { dst, src } => if is_mem_hl(dst) && is_imm(src) { 12 } else if is_imm(src) || is_mem_hl(
            src) || is_mem_hl(dst) { 8 } else { 4 },
        Instruction::Add(op) | Instruction::Adc(op) | Instruction::Sub(op) | Instruction::Sbc(op)
        | Instruction::And(op) | Instruction::Xor(op) | Instruction::Or(op) | Instruction::Cp(op) => if is_imm(op)
            || is_mem_hl(op) { 8 } else { 4 },
        Instruction::Bit { op, .. } => if is_mem_hl(op) { 12 } else { 8 },
        Instruction::Rlc(op) | Instruction::Rrc(op) | Instruction::Rl(op) | Instruction::Rr(op)
        | Instruction::Sla(op) | Instruction::Sra(op) | Instruction::Srl(op) | Instruction::Swap(op)
        | Instruction::Res { op, .. } | Instruction::SetBit { op, .. } => if is_mem_hl(op) { 16 } else { 8 },
    }
}

/// Staged cycle estimate in T-cycles (4 T = 1 M). Good enough for timer
/// progress; not a substitute for a full timing table.
pub fn approx_t_cycles(ins: Instruction) -> (t: u32)
    ensures
        t == spec_t_cycles(ins),
{
    match ins {
        Instruction::Nop | Instruction::Di | Instruction::Ei | Instruction::Scf | Instruction::Ccf
        | Instruction::Cpl | Instruction::JpHl | Instruction::Halt | Instruction::Stop | Instruction::Rlca
        | Instruction::Rrca | Instruction::Rla | Instruction::Rra | Instruction::Daa => 4,
        Instruction::Inc16(_) | Instruction::Dec16(_) | Instruction::AddHl(_) | Instruction::LdSpHl => 8,
        Instruction::Jr { .. } => 8, // not-taken; +4 T when taken
        Instruction::LdHlSpE(_) => 12,
        Instruction::Jp { .. } => 12, // uncond / taken +4 → 16; cc not-taken 12
        Instruction::Call { .. } => 12, // uncond / taken +12 → 24; cc not-taken 12
        Instruction::Ret { cond: None } | Instruction::Reti => 16,
        Instruction::Ret { .. } => 8, // cc not-taken; +12 T when taken → 20
        Instruction::Rst(_) => 16,
        Instruction::Push(_) | Instruction::AddSpE(_) => 16,
        Instruction::Pop(_) => 12,
        Instruction::Ld16Imm { .. } => 12,
        Instruction::LdAbsSp(_) => 20,
        Instruction::LdAbsA(_) | Instruction::LdAAbs(_) => 16,
        Instruction::LdhAbsA(_) | Instruction::LdhAAbs(_) | Instruction::LdIoCA | Instruction::LdAIoC => 12,
        Instruction::LdiMemHlA | Instruction::LdiAMemHl | Instruction::LddMemHlA | Instruction::LddAMemHl
        | Instruction::LdMemBcA | Instruction::LdAMemBc | Instruction::LdMemDeA | Instruction::LdAMemDe => 8,
        Instruction::Inc8(Operand8::MemHl) | Instruction::Dec8(Operand8::MemHl) => 12,
        Instruction::Inc8(_) | Instruction::Dec8(_) => 4,
        Instruction::Ld8 { dst: Operand8::MemHl, src: Operand8::Imm(_) } => 12,
        Instruction::Ld8 { src: Operand8::Imm(_), .. } => 8,
        Instruction::Ld8 { dst: Operand8::MemHl, .. } | Instruction::Ld8 { src: Operand8::MemHl, .. } => 8,
        Instruction::Ld8 { .. } => 4,
        Instruction::Add(Operand8::Imm(_))
        | Instruction::Adc(Operand8::Imm(_))
        | Instruction::Sub(Operand8::Imm(_))
        | Instruction::Sbc(Operand8::Imm(_))
        | Instruction::And(Operand8::Imm(_))
        | Instruction::Xor(Operand8::Imm(_))
        | Instruction::Or(Operand8::Imm(_))
        | Instruction::Cp(Operand8::Imm(_)) => 8,
        Instruction::Add(Operand8::MemHl)
        | Instruction::Adc(Operand8::MemHl)
        | Instruction::Sub(Operand8::MemHl)
        | Instruction::Sbc(Operand8::MemHl)
        | Instruction::And(Operand8::MemHl)
        | Instruction::Xor(Operand8::MemHl)
        | Instruction::Or(Operand8::MemHl)
        | Instruction::Cp(Operand8::MemHl) => 8,
        Instruction::Add(_) | Instruction::Adc(_) | Instruction::Sub(_) | Instruction::Sbc(_) | Instruction::And(_)
        | Instruction::Xor(_) | Instruction::Or(_) | Instruction::Cp(_) => 4,
        Instruction::Bit { op: Operand8::MemHl, .. } => 12,
        Instruction::Rlc(Operand8::MemHl)
        | Instruction::Rrc(Operand8::MemHl)
        | Instruction::Rl(Operand8::MemHl)
        | Instruction::Rr(Operand8::MemHl)
        | Instruction::Sla(Operand8::MemHl)
        | Instruction::Sra(Operand8::MemHl)
        | Instruction::Srl(Operand8::MemHl)
        | Instruction::Swap(Operand8::MemHl)
        | Instruction::Res { op: Operand8::MemHl, .. }
        | Instruction::SetBit { op: Operand8::MemHl, .. } => 16,
        Instruction::Rlc(_)
        | Instruction::Rrc(_)
        | Instruction::Rl(_)
        | Instruction::Rr(_)
        | Instruction::Sla(_)
        | Instruction::Sra(_)
        | Instruction::Srl(_)
        | Instruction::Swap(_)
        | Instruction::Bit { .. }
        | Instruction::Res { .. }
        | Instruction::SetBit { .. } => 8,
    }
}

/// Every instruction costs a whole number of M-cycles, at least one, and the
/// memory access happens inside the instruction's cost.
pub proof fn lemma_timing_whole_m_cycles(ins: Instruction)
    ensures
        spec_t_cycles(ins) % 4 == 0,
        4 <= spec_t_cycles(ins) <= 20,
        spec_mem_operand_pre_t(ins) % 4 == 0,
        spec_mem_operand_pre_t(ins) < spec_t_cycles(ins),
{
}

} // verus!
