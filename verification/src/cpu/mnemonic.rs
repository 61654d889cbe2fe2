//! Disassembly text for decoded instructions.

use vstd::prelude::*;
use super::instruction::{Cond, Instruction, Operand8, Reg16, Reg8, jr_target};
use crate::text::{dec_chars, hex_chars, push_dec, push_hex};

verus! {

pub open spec fn cond_name(c: Cond) -> Seq<char> {
    match c {
        Cond::Nz => "NZ"@,
        Cond::Z => "Z"@,
        Cond::Nc => "NC"@,
        Cond::C => "C"@,
    }
}

pub open spec fn reg8_name(r: Reg8) -> Seq<char> {
    match r {
        Reg8::A => "A"@,
        Reg8::B => "B"@,
        Reg8::C => "C"@,
        Reg8::D => "D"@,
        Reg8::E => "E"@,
        Reg8::H => "H"@,
        Reg8::L => "L"@,
    }
}

pub open spec fn reg16_name(r: Reg16) -> Seq<char> {
    match r {
        Reg16::Af => "AF"@,
        Reg16::Bc => "BC"@,
        Reg16::De => "DE"@,
        Reg16::Hl => "HL"@,
        Reg16::Sp => "SP"@,
    }
}

pub open spec fn hex2(v: u8) -> Seq<char> {
    hex_chars(v as nat, 2)
}

pub open spec fn hex4(v: u16) -> Seq<char> {
    hex_chars(v as nat, 4)
}

/// An 8-bit operand: register name, `$nn` immediate, or `(HL)`.
pub open spec fn op_text(op: Operand8) -> Seq<char> {
    match op {
        Operand8::Reg(r) => reg8_name(r),
        Operand8::Imm(n) => "$"@ + hex2(n),
        Operand8::MemHl => "(HL)"@,
    }
}

/// A signed displacement with an explicit sign (`+5`, `-3`, `+0`).
pub open spec fn signed_text(e: i8) -> Seq<char> {
    if e < 0 { "-"@ + dec_chars((0 - e) as nat) } else { "+"@ + dec_chars(e as nat) }
}

/// `op operand`, or `op cc, operand` for a conditional form.
pub open spec fn control(op: Seq<char>, cond: Option<Cond>, operand: Seq<char>) -> Seq<char> {
    match cond {
        None => op + " "@ + operand,
        Some(c) => op + " "@ + cond_name(c) + ", "@ + operand,
    }
}

pub open spec fn spec_jr_target(pc: u16, offset: i8) -> u16 {
    ((pc + 2 + offset) % 65536) as u16
}

/// Disassembly of `ins` at address `pc` (relative jumps shown as absolute targets).
pub open spec fn spec_mnemonic(ins: Instruction, pc: u16) -> Seq<char> {
    match ins {
            Instruction::Nop => "NOP"@,
            Instruction::Halt => "HALT"@,
            Instruction::Stop => "STOP"@,
            Instruction::JpHl => "JP (HL)"@,
            Instruction::Reti => "RETI"@,
            Instruction::Di => "DI"@,
            Instruction::Ei => "EI"@,
            Instruction::Scf => "SCF"@,
            Instruction::Ccf => "CCF"@,
            Instruction::Daa => "DAA"@,
            Instruction::LdSpHl => "LD SP, HL"@,
            Instruction::LdMemBcA => "LD (BC), A"@,
            Instruction::LdAMemBc => "LD A, (BC)"@,
            Instruction::LdMemDeA => "LD (DE), A"@,
            Instruction::LdAMemDe => "LD A, (DE)"@,
            Instruction::LdIoCA => "LD (C), A"@,
            Instruction::LdAIoC => "LD A, (C)"@,
            Instruction::LdiMemHlA => "LD (HL+), A"@,
            Instruction::LdiAMemHl => "LD A, (HL+)"@,
            Instruction::LddMemHlA => "LD (HL-), A"@,
            Instruction::LddAMemHl => "LD A, (HL-)"@,
            Instruction::Cpl => "CPL"@,
            Instruction::Rlca => "RLCA"@,
            Instruction::Rrca => "RRCA"@,
            Instruction::Rla => "RLA"@,
            Instruction::Rra => "RRA"@,
            Instruction::Jp { cond, target } => control("JP"@, cond, "$"@ + hex4(target)),
            Instruction::Jr { cond, offset } => control("JR"@, cond, "$"@ + hex4(spec_jr_target(pc, offset))),
            Instruction::Call { cond, target } => control("CALL"@, cond, "$"@ + hex4(target)),
            Instruction::Ret { cond } => match cond { None => "RET"@, Some(c) => "RET "@ + cond_name(c) },
            Instruction::Ld16Imm { dst, value } => "LD "@ + reg16_name(dst) + ", $"@ + hex4(value),
            Instruction::Ld8 { dst, src } => "LD "@ + op_text(dst) + ", "@ + op_text(src),
            Instruction::Inc8(op) => "INC "@ + op_text(op),
            Instruction::Dec8(op) => "DEC "@ + op_text(op),
            Instruction::Add(op) => "ADD A, "@ + op_text(op),
            Instruction::Adc(op) => "ADC A, "@ + op_text(op),
            Instruction::Sub(op) => "SUB "@ + op_text(op),
            Instruction::Sbc(op) => "SBC A, "@ + op_text(op),
            Instruction::Cp(op) => "CP "@ + op_text(op),
            Instruction::And(op) => "AND "@ + op_text(op),
            Instruction::Xor(op) => "XOR "@ + op_text(op),
            Instruction::Or(op) => "OR "@ + op_text(op),
            Instruction::Rlc(op) => "RLC "@ + op_text(op),
            Instruction::Rrc(op) => "RRC "@ + op_text(op),
            Instruction::Rl(op) => "RL "@ + op_text(op),
            Instruction::Rr(op) => "RR "@ + op_text(op),
            Instruction::Sla(op) => "SLA "@ + op_text(op),
            Instruction::Sra(op) => "SRA "@ + op_text(op),
            Instruction::Srl(op) => "SRL "@ + op_text(op),
            Instruction::Swap(op) => "SWAP "@ + op_text(op),
            Instruction::Push(rr) => "PUSH "@ + reg16_name(rr),
            Instruction::Pop(rr) => "POP "@ + reg16_name(rr),
            Instruction::Inc16(rr) => "INC "@ + reg16_name(rr),
            Instruction::Dec16(rr) => "DEC "@ + reg16_name(rr),
            Instruction::AddHl(rr) => "ADD HL, "@ + reg16_name(rr),
            Instruction::LdAbsSp(n) => "LD ($"@ + hex4(n) + "), SP"@,
            Instruction::LdAbsA(n) => "LD ($"@ + hex4(n) + "), A"@,
            Instruction::LdAAbs(n) => "LD A, ($"@ + hex4(n) + ")"@,
            Instruction::Rst(n) => "RST $"@ + hex2(n),
            Instruction::LdhAbsA(n) => "LDH ($"@ + hex2(n) + "), A"@,
            Instruction::LdhAAbs(n) => "LDH A, ($"@ + hex2(n) + ")"@,
            Instruction::AddSpE(e) => "ADD SP, "@ + signed_text(e),
            Instruction::LdHlSpE(e) => "LD HL, SP"@ + signed_text(e),
            Instruction::Bit { bit, op } => "BIT "@ + dec_chars(bit as nat) + ", "@ + op_text(op),
            Instruction::Res { bit, op } => "RES "@ + dec_chars(bit as nat) + ", "@ + op_text(op),
            Instruction::SetBit { bit, op } => "SET "@ + dec_chars(bit as nat) + ", "@ + op_text(op),
    }
}

impl Cond {
    pub fn mnemonic(self) -> (r: &'static str)
        ensures
            r@ == cond_name(self),
    {
        match self {
            Self::Nz => "NZ",
            Self::Z => "Z",
            Self::Nc => "NC",
            Self::C => "C",
        }
    }
}

impl Reg8 {
    pub fn mnemonic(self) -> (r: &'static str)
        ensures
            r@ == reg8_name(self),
    {
        match self {
            Self::A => "A",
            Self::B => "B",
            Self::C => "C",
            Self::D => "D",
            Self::E => "E",
            Self::H => "H",
            Self::L => "L",
        }
    }
}

impl Reg16 {
    pub fn mnemonic(self) -> (r: &'static str)
        ensures
            r@ == reg16_name(self),
    {
        match self {
            Self::Af => "AF",
            Self::Bc => "BC",
            Self::De => "DE",
            Self::Hl => "HL",
            Self::Sp => "SP",
        }
    }
}

impl Operand8 {
    pub fn mnemonic(self) -> (r: String)
        ensures
            r@ == op_text(self),
    {
        match self {
            Self::Reg(r) => lit(r.mnemonic()),
            Self::Imm(n) => dollar_hex2(n),
            Self::MemHl => lit("(HL)"),
        }
    }
}

fn lit(t: &str) -> (r: String)
    ensures
        r@ == t@,
{
    String::from_str(t)
}

fn with_str(prefix: &str, t: &str) -> (r: String)
    ensures
        r@ == prefix@ + t@,
{
    let mut s = String::from_str(prefix);
    s.append(t);
    s
}

fn with_op(prefix: &str, op: Operand8) -> (r: String)
    ensures
        r@ == prefix@ + op_text(op),
{
    let mut s = String::from_str(prefix);
    let o = op.mnemonic();
    s.append(o.as_str());
    s
}

fn with_hex4(prefix: &str, v: u16, suffix: &str) -> (r: String)
    ensures
        r@ == prefix@ + hex4(v) + suffix@,
{
    let mut s = String::from_str(prefix);
    push_hex(&mut s, v as u64, 4);
    s.append(suffix);
    s
}

fn with_hex2(prefix: &str, v: u8, suffix: &str) -> (r: String)
    ensures
        r@ == prefix@ + hex2(v) + suffix@,
{
    let mut s = String::from_str(prefix);
    push_hex(&mut s, v as u64, 2);
    s.append(suffix);
    s
}

fn with_signed(prefix: &str, e: i8) -> (r: String)
    ensures
        r@ == prefix@ + signed_text(e),
{
    let mut s = String::from_str(prefix);
    if e < 0 {
        s.append("-");
        push_dec(&mut s, (0 - e as i16) as u64);
        assert(s@ =~= prefix@ + signed_text(e));
    } else {
        s.append("+");
        push_dec(&mut s, e as u64);
        assert(s@ =~= prefix@ + signed_text(e));
    }
    s
}

fn dollar_hex4(v: u16) -> (r: String)
    ensures
        r@ == "$"@ + hex4(v),
{
    let mut s = String::from_str("$");
    push_hex(&mut s, v as u64, 4);
    s
}

fn dollar_hex2(v: u8) -> (r: String)
    ensures
        r@ == "$"@ + hex2(v),
{
    let mut s = String::from_str("$");
    push_hex(&mut s, v as u64, 2);
    s
}

fn with_str_hex2(prefix: &str, v: u8) -> (r: String)
    ensures
        r@ == prefix@ + hex2(v),
{
    let mut s = String::from_str(prefix);
    push_hex(&mut s, v as u64, 2);
    s
}

fn ld16(dst: Reg16, v: u16) -> (r: String)
    ensures
        r@ == "LD "@ + reg16_name(dst) + ", $"@ + hex4(v),
{
    let mut s = String::from_str("LD ");
    s.append(dst.mnemonic());
    s.append(", $");
    push_hex(&mut s, v as u64, 4);
    s
}

fn ld8(dst: Operand8, src: Operand8) -> (r: String)
    ensures
        r@ == "LD "@ + op_text(dst) + ", "@ + op_text(src),
{
    let mut s = String::from_str("LD ");
    let d = dst.mnemonic();
    s.append(d.as_str());
    s.append(", ");
    let o = src.mnemonic();
    s.append(o.as_str());
    s
}

fn bit_op(name: &str, bit: u8, op: Operand8) -> (r: String)
    ensures
        r@ == name@ + dec_chars(bit as nat) + ", "@ + op_text(op),
{
    let mut s = String::from_str(name);
    push_dec(&mut s, bit as u64);
    s.append(", ");
    let o = op.mnemonic();
    s.append(o.as_str());
    s
}

fn fmt_control(op: &str, cond: Option<Cond>, operand: String) -> (r: String)
    ensures
        r@ == control(op@, cond, operand@),
{
    let mut s = String::from_str(op);
    s.append(" ");
    match cond {
        None => {},
        Some(c) => {
            s.append(c.mnemonic());
            s.append(", ");
        },
    }
    s.append(operand.as_str());
    assert(s@ =~= control(op@, cond, operand@));
    s
}

impl Instruction {
    /// Mnemonic string for disassembly. `pc` resolves relative branch targets.
    #[verifier::rlimit(50)]
    pub fn mnemonic(self, pc: u16) -> (r: String)
        ensures
            r@ == spec_mnemonic(self, pc),
    {
        match self {
            Instruction::Nop => lit("NOP"),
            Instruction::Halt => lit("HALT"),
            Instruction::Stop => lit("STOP"),
            Instruction::JpHl => lit("JP (HL)"),
            Instruction::Reti => lit("RETI"),
            Instruction::Di => lit("DI"),
            Instruction::Ei => lit("EI"),
            Instruction::Scf => lit("SCF"),
            Instruction::Ccf => lit("CCF"),
            Instruction::Daa => lit("DAA"),
            Instruction::LdSpHl => lit("LD SP, HL"),
            Instruction::LdMemBcA => lit("LD (BC), A"),
            Instruction::LdAMemBc => lit("LD A, (BC)"),
            Instruction::LdMemDeA => lit("LD (DE), A"),
            Instruction::LdAMemDe => lit("LD A, (DE)"),
            Instruction::LdIoCA => lit("LD (C), A"),
            Instruction::LdAIoC => lit("LD A, (C)"),
            Instruction::LdiMemHlA => lit("LD (HL+), A"),
            Instruction::LdiAMemHl => lit("LD A, (HL+)"),
            Instruction::LddMemHlA => lit("LD (HL-), A"),
            Instruction::LddAMemHl => lit("LD A, (HL-)"),
            Instruction::Cpl => lit("CPL"),
            Instruction::Rlca => lit("RLCA"),
            Instruction::Rrca => lit("RRCA"),
            Instruction::Rla => lit("RLA"),
            Instruction::Rra => lit("RRA"),
            Instruction::Jp { cond, target } => fmt_control("JP", cond, dollar_hex4(target)),
            Instruction::Jr { cond, offset } => fmt_control("JR", cond, dollar_hex4(jr_target(pc, offset))),
            Instruction::Call { cond, target } => fmt_control("CALL", cond, dollar_hex4(target)),
            Instruction::Ret { cond } => match cond { None => lit("RET"), Some(c) => with_str("RET ", c.mnemonic()) },
            Instruction::Ld16Imm { dst, value } => ld16(dst, value),
            Instruction::Ld8 { dst, src } => ld8(dst, src),
            Instruction::Inc8(op) => with_op("INC ", op),
            Instruction::Dec8(op) => with_op("DEC ", op),
            Instruction::Add(op) => with_op("ADD A, ", op),
            Instruction::Adc(op) => with_op("ADC A, ", op),
            Instruction::Sub(op) => with_op("SUB ", op),
            Instruction::Sbc(op) => with_op("SBC A, ", op),
            Instruction::Cp(op) => with_op("CP ", op),
            Instruction::And(op) => with_op("AND ", op),
            Instruction::Xor(op) => with_op("XOR ", op),
            Instruction::Or(op) => with_op("OR ", op),
            Instruction::Rlc(op) => with_op("RLC ", op),
            Instruction::Rrc(op) => with_op("RRC ", op),
            Instruction::Rl(op) => with_op("RL ", op),
            Instruction::Rr(op) => with_op("RR ", op),
            Instruction::Sla(op) => with_op("SLA ", op),
            Instruction::Sra(op) => with_op("SRA ", op),
            Instruction::Srl(op) => with_op("SRL ", op),
            Instruction::Swap(op) => with_op("SWAP ", op),
            Instruction::Push(rr) => with_str("PUSH ", rr.mnemonic()),
            Instruction::Pop(rr) => with_str("POP ", rr.mnemonic()),
            Instruction::Inc16(rr) => with_str("INC ", rr.mnemonic()),
            Instruction::Dec16(rr) => with_str("DEC ", rr.mnemonic()),
            Instruction::AddHl(rr) => with_str("ADD HL, ", rr.mnemonic()),
            Instruction::LdAbsSp(n) => with_hex4("LD ($", n, "), SP"),
            Instruction::LdAbsA(n) => with_hex4("LD ($", n, "), A"),
            Instruction::LdAAbs(n) => with_hex4("LD A, ($", n, ")"),
            Instruction::Rst(n) => with_str_hex2("RST $", n),
            Instruction::LdhAbsA(n) => with_hex2("LDH ($", n, "), A"),
            Instruction::LdhAAbs(n) => with_hex2("LDH A, ($", n, ")"),
            Instruction::AddSpE(e) => with_signed("ADD SP, ", e),
            Instruction::LdHlSpE(e) => with_signed("LD HL, SP", e),
            Instruction::Bit { bit, op } => bit_op("BIT ", bit, op),
            Instruction::Res { bit, op } => bit_op("RES ", bit, op),
            Instruction::SetBit { bit, op } => bit_op("SET ", bit, op),
        }
    }
}

} // verus!
