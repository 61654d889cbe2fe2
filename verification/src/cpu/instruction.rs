//! Decoded LR35902 instruction set.

use vstd::prelude::*;

verus! {

/// Condition codes for conditional jumps/calls/returns.
#[derive(Debug, Clone, Copy, PartialEq, Eq, Structural)]
pub enum Cond {
    Nz,
    Z,
    Nc,
    C,
}

/// 8-bit CPU register.
#[derive(Debug, Clone, Copy, PartialEq, Eq, Structural)]
pub enum Reg8 {
    A,
    B,
    C,
    D,
    E,
    H,
    L,
}

/// 8-bit operand (register, immediate, or `(HL)`).
#[derive(Debug, Clone, Copy, PartialEq, Eq, Structural)]
pub enum Operand8 {
    Reg(Reg8),
    Imm(u8),
    MemHl,
}

/// 16-bit register / register pair.
#[derive(Debug, Clone, Copy, PartialEq, Eq, Structural)]
pub enum Reg16 {
    Af,
    Bc,
    De,
    Hl,
    Sp,
}

/// A decoded LR35902 instruction.
#[allow(inconsistent_fields)]
#[derive(Debug, Clone, Copy, PartialEq, Eq, Structural)]
pub enum Instruction {
    Nop,
    /// Stop instruction fetch until an interrupt wakes the CPU.
    Halt,
    /// `STOP` — low-power stop (2 bytes).
    Stop,
    /// Absolute jump. `cond == None` means unconditional.
    Jp { cond: Option<Cond>, target: u16 },
    /// `JP (HL)` — jump to the address in HL (not memory at [HL]).
    JpHl,
    /// Relative jump (signed offset from instruction end). `cond == None` = unconditional.
    Jr { cond: Option<Cond>, offset: i8 },
    /// Call. `cond == None` means unconditional.
    Call { cond: Option<Cond>, target: u16 },
    /// `RST n` — push PC and jump to page-0 vector (`$00`, `$08`, … `$38`).
    Rst(u8),
    /// Return. `cond == None` means unconditional.
    Ret { cond: Option<Cond> },
    /// Return from interrupt: pop PC and enable IME immediately.
    Reti,
    /// Disable interrupts (`IME = 0`).
    Di,
    /// Enable interrupts (`IME = 1` after the following instruction).
    Ei,
    /// `SCF` — set carry; Z unchanged, N=0, H=0.
    Scf,
    /// `CCF` — complement carry; Z unchanged, N=0, H=0.
    Ccf,
    /// `DAA` — decimal adjust A after BCD add/sub.
    Daa,
    Push(Reg16),
    Pop(Reg16),
    /// `LD rr, d16`
    Ld16Imm { dst: Reg16, value: u16 },
    /// `LD (a16), SP`
    LdAbsSp(u16),
    /// `INC rr` (16-bit; does not affect flags)
    Inc16(Reg16),
    /// `DEC rr` (16-bit; does not affect flags)
    Dec16(Reg16),
    /// `ADD HL, rr`
    AddHl(Reg16),
    /// `ADD SP, e8`
    AddSpE(i8),
    /// `LD HL, SP+e8`
    LdHlSpE(i8),
    /// `LD SP, HL`
    LdSpHl,
    Ld8 { dst: Operand8, src: Operand8 },
    /// `LD (a16), A`
    LdAbsA(u16),
    /// `LD A, (a16)`
    LdAAbs(u16),
    /// `LD (BC), A`
    LdMemBcA,
    /// `LD A, (BC)`
    LdAMemBc,
    /// `LD (DE), A`
    LdMemDeA,
    /// `LD A, (DE)`
    LdAMemDe,
    /// `LDH (a8), A`
    LdhAbsA(u8),
    /// `LDH A, (a8)`
    LdhAAbs(u8),
    /// `LD (C), A` — write A to `$FF00+C`
    LdIoCA,
    /// `LD A, (C)` — read A from `$FF00+C`
    LdAIoC,
    /// `LD (HL+), A`
    LdiMemHlA,
    /// `LD A, (HL+)`
    LdiAMemHl,
    /// `LD (HL-), A`
    LddMemHlA,
    /// `LD A, (HL-)`
    LddAMemHl,
    /// `INC r` / `INC (HL)`
    Inc8(Operand8),
    /// `DEC r` / `DEC (HL)`
    Dec8(Operand8),
    /// `ADD A, n`
    Add(Operand8),
    /// `ADC A, n`
    Adc(Operand8),
    /// `SUB n`
    Sub(Operand8),
    /// `SBC A, n`
    Sbc(Operand8),
    Cp(Operand8),
    And(Operand8),
    Xor(Operand8),
    Or(Operand8),
    Cpl,
    /// Accumulator rotates (non-CB): Z always cleared.
    Rlca,
    Rrca,
    Rla,
    Rra,
    /// `CB`-prefixed RLC r / (HL)
    Rlc(Operand8),
    /// `CB`-prefixed RRC r / (HL)
    Rrc(Operand8),
    /// `CB`-prefixed RL r / (HL)
    Rl(Operand8),
    /// `CB`-prefixed RR r / (HL)
    Rr(Operand8),
    /// `CB`-prefixed SLA r / (HL)
    Sla(Operand8),
    /// `CB`-prefixed SRA r / (HL)
    Sra(Operand8),
    /// `CB`-prefixed SRL r / (HL)
    Srl(Operand8),
    /// `CB`-prefixed SWAP r / (HL)
    Swap(Operand8),
    /// `CB`-prefixed BIT b,r / BIT b,(HL)
    Bit { bit: u8, op: Operand8 },
    /// `CB`-prefixed RES b,r / RES b,(HL)
    Res { bit: u8, op: Operand8 },
    /// `CB`-prefixed SET b,r / SET b,(HL)
    SetBit { bit: u8, op: Operand8 },
}

/// Absolute target of a relative jump at `pc` with signed `offset`.
///
/// JR is 2 bytes, so the base is `pc + 2`, then the signed displacement is added.
pub fn jr_target(pc: u16, offset: i8) -> (t: u16)
    ensures
        t == (pc + 2 + offset) % 65536,
{
    ((pc as i32 + 2 + offset as i32 + 65536) % 65536) as u16
}

} // verus!
