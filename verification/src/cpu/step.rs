//! Decisions of one CPU step, between the bus accesses the host performs.
//!
//! A step first polls interrupts: it dispatches one (20 T-cycles, 24 from
//! HALT), idles one M-cycle while halted with nothing pending, or goes on to
//! fetch. A fetched instruction then splits its cost around its memory
//! operand access; taken branches add their extra cycles after it.

use vstd::prelude::*;
use super::decode::{Decoded, decode, decode_spec};
use super::execute::StepError;
use super::instruction::Instruction;
use super::interrupts::{apply_delayed_ei, spec_delayed_ei};
use super::semantics::{execute, read_addresses, spec_execute, spec_reads, well_formed, wrap16};
use super::interrupts::{Interrupt, bit_set, lemma_priority, poll_decision, spec_highest};
use super::registers::{Cpu, CpuView, lemma_control_view, lemma_view_fields};
use super::timing::{
    approx_t_cycles, cond_met, lemma_timing_whole_m_cycles, mem_operand_pre_t, spec_cond_met,
    spec_mem_operand_pre_t, spec_t_cycles,
};

verus! {

/// How a CPU step begins.
#[derive(Debug, Clone, Copy, PartialEq, Eq, Structural)]
pub enum StepStart {
    /// Dispatch `irq`; the bus advances `t_cycles` for the dispatch.
    Dispatch { irq: Interrupt, t_cycles: u32 },
    /// Halted with nothing pending: the clock runs for `t_cycles`.
    Idle { t_cycles: u32 },
    /// Fetch and execute the instruction at PC.
    Fetch,
}

pub open spec fn spec_step_start(c: CpuView, pending: u8) -> StepStart {
    if c.ime && spec_highest(pending) is Some {
        StepStart::Dispatch { irq: spec_highest(pending)->Some_0, t_cycles: if c.halted { 24 } else { 20 } }
    } else if c.halted && pending == 0 {
        StepStart::Idle { t_cycles: 4 }
    } else {
        StepStart::Fetch
    }
}

/// Start of a CPU step given the pending interrupt bits (`IE & IF`, low five
/// bits). A pending interrupt wakes a halted CPU whether or not it is then
/// dispatched.
pub fn step_start(cpu: &mut Cpu, pending: u8) -> (r: StepStart)
    requires
        pending < 32,
    ensures
        r == spec_step_start(old(cpu)@, pending),
        final(cpu)@ == (CpuView { halted: old(cpu)@.halted && pending == 0, ..old(cpu)@ }),
{
    proof {
        lemma_control_view(*cpu);
    }
    let from_halt: bool = cpu.halted;
    let selected: Option<Interrupt> = poll_decision(cpu, pending);
    proof {
        if pending != 0 && spec_highest(pending) is None {
            lemma_priority(pending);
            assert(!bit_set(pending, 0) && !bit_set(pending, 1) && !bit_set(pending, 2));
            assert(!bit_set(pending, 3) && !bit_set(pending, 4));
        }
    }
    match selected {
        Some(irq) => StepStart::Dispatch { irq, t_cycles: if from_halt { 24 } else { 20 } },
        None => {
            if from_halt && pending == 0 {
                StepStart::Idle { t_cycles: 4 }
            } else {
                StepStart::Fetch
            }
        },
    }
}

/// Extra T-cycles of a taken branch (conditional `RET` only; unconditional
/// `RET` is fully in its base cost).
pub open spec fn spec_taken_extra_t(ins: Instruction, v: CpuView) -> u32 {
    match ins {
        Instruction::Jr { cond, .. } => if spec_cond_met(v, cond) { 4 } else { 0 },
        Instruction::Jp { cond, .. } => if spec_cond_met(v, cond) { 4 } else { 0 },
        Instruction::Call { cond, .. } => if spec_cond_met(v, cond) { 12 } else { 0 },
        Instruction::Ret { cond: Some(c) } => if spec_cond_met(v, Some(c)) { 12 } else { 0 },
        _ => 0,
    }
}

/// T-cycles the bus advances before and after executing `ins` from registers
/// `cpu` (branch conditions are judged before execution).
pub fn instruction_t_split(ins: Instruction, cpu: &Cpu) -> (r: (u32, u32))
    ensures
        r.0 == spec_mem_operand_pre_t(ins),
        r.1 == spec_t_cycles(ins) - spec_mem_operand_pre_t(ins) + spec_taken_extra_t(ins, cpu@),
{
    proof {
        lemma_timing_whole_m_cycles(ins);
    }
    let t: u32 = approx_t_cycles(ins);
    let pre: u32 = mem_operand_pre_t(ins);
    let extra: u32 = match ins {
        Instruction::Jr { cond, .. } => if cond_met(cpu, cond) { 4 } else { 0 },
        Instruction::Jp { cond, .. } => if cond_met(cpu, cond) { 4 } else { 0 },
        Instruction::Call { cond, .. } => if cond_met(cpu, cond) { 12 } else { 0 },
        Instruction::Ret { cond: Some(c) } => if cond_met(cpu, Some(c)) { 12 } else { 0 },
        _ => 0,
    };
    (pre, t - pre + extra)
}

/// A fetched instruction costs its base cycles plus the taken extra, in
/// whole M-cycles; unconditional jumps, calls and returns always cost their
/// taken time.
pub proof fn lemma_step_cost(ins: Instruction, v: CpuView)
    ensures
        ({
            let total = spec_mem_operand_pre_t(ins) + (spec_t_cycles(ins) - spec_mem_operand_pre_t(ins)
                + spec_taken_extra_t(ins, v));
            &&& total == spec_t_cycles(ins) + spec_taken_extra_t(ins, v)
            &&& total % 4 == 0
            &&& 4 <= total <= 24
        }),
        ins matches Instruction::Jp { cond: None, .. } ==> spec_t_cycles(ins) + spec_taken_extra_t(ins, v) == 16,
        ins matches Instruction::Jr { cond: None, .. } ==> spec_t_cycles(ins) + spec_taken_extra_t(ins, v) == 12,
        ins matches Instruction::Call { cond: None, .. } ==> spec_t_cycles(ins) + spec_taken_extra_t(ins, v) == 24,
        ins matches Instruction::Ret { cond: None } ==> spec_t_cycles(ins) + spec_taken_extra_t(ins, v) == 16,
        ins matches Instruction::Ret { cond: Some(c) } && spec_cond_met(v, Some(c)) ==> spec_t_cycles(ins)
            + spec_taken_extra_t(ins, v) == 20,
{
    lemma_timing_whole_m_cycles(ins);
}

/// A fetched instruction, ready to execute once the bus has read its operands.
#[derive(Debug, Clone, PartialEq, Eq)]
pub struct Fetched {
    /// Address of the instruction.
    pub pc: u16,
    pub decoded: Decoded,
    /// Addresses the instruction reads, in order.
    pub reads: Vec<u16>,
    /// T-cycles the bus advances before the operand access.
    pub pre_t: u32,
    /// T-cycles the bus advances after executing.
    pub post_t: u32,
}

/// Fetch stage of a step (after [`step_start`] chose to fetch), given the
/// eight bytes at PC. A failed decode reports them and leaves PC unchanged;
/// otherwise PC moves past the instruction and the result names the
/// addresses to read and the cycle split.
pub fn fetch(cpu: &mut Cpu, preview: [u8; 8]) -> (r: Result<Fetched, StepError>)
    ensures
        match decode_spec(preview@.take(3)) {
            None => r == Err::<Fetched, StepError>(StepError::Decode { pc: old(cpu)@.pc, bytes: preview })
                && final(cpu)@ == old(cpu)@,
            Some(d) => {
                let v = CpuView { pc: wrap16(old(cpu)@.pc + d.len), ..old(cpu)@ };
                &&& r matches Ok(f)
                &&& f.pc == old(cpu)@.pc
                &&& f.decoded == d
                &&& f.reads@ == spec_reads(d.instruction, v)
                &&& f.pre_t == spec_mem_operand_pre_t(d.instruction)
                &&& f.post_t == spec_t_cycles(d.instruction) - spec_mem_operand_pre_t(d.instruction)
                    + spec_taken_extra_t(d.instruction, v)
                &&& well_formed(d.instruction)
                &&& final(cpu)@ == v
            },
        },
{
    proof {
        lemma_view_fields(*cpu);
    }
    let pc: u16 = cpu.pc;
    let head: [u8; 3] = [preview[0], preview[1], preview[2]];
    assert(head@ =~= preview@.take(3));
    let decoded: Decoded = match decode(&head) {
        Some(d) => d,
        None => {
            return Err(StepError::Decode { pc, bytes: preview });
        },
    };
    proof {
        lemma_decoded_well_formed(preview@.take(3));
    }
    cpu.pc = pc.wrapping_add(decoded.len as u16);
    proof {
        lemma_view_fields(*cpu);
    }
    let (pre_t, post_t) = instruction_t_split(decoded.instruction, cpu);
    let reads: Vec<u16> = read_addresses(decoded.instruction, cpu);
    Ok(Fetched { pc, decoded, reads, pre_t, post_t })
}

/// Execute stage of a step, given the bytes the bus read at `f.reads`.
/// Returns the writes for the bus, and settles a pending `EI`; an
/// instruction the CPU cannot execute is reported with its address and
/// leaves the registers as they were.
pub fn complete(cpu: &mut Cpu, f: &Fetched, vals: &[u8]) -> (r: Result<Vec<(u16, u8)>, StepError>)
    requires
        well_formed(f.decoded.instruction),
        vals@.len() == spec_reads(f.decoded.instruction, old(cpu)@).len(),
    ensures
        match spec_execute(f.decoded.instruction, old(cpu)@, vals@) {
            Ok((v, w)) => r matches Ok(out) && out@ == w && final(cpu)@ == spec_delayed_ei(v),
            Err(e) => r == Err::<Vec<(u16, u8)>, StepError>(StepError::Unimplemented { pc: f.pc, instruction: e })
                && final(cpu)@ == old(cpu)@,
        },
{
    match execute(f.decoded.instruction, cpu, vals) {
        Ok(writes) => {
            apply_delayed_ei(cpu);
            Ok(writes)
        },
        Err(instruction) => Err(StepError::Unimplemented { pc: f.pc, instruction }),
    }
}

/// Decoded instructions are in range for execution.
proof fn lemma_decoded_well_formed(bytes: Seq<u8>)
    ensures
        decode_spec(bytes) matches Some(d) ==> well_formed(d.instruction),
{
}

} // verus!
