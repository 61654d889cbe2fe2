//! Opcode decoder.
//!
//! The contract is the documented field structure of an LR35902 opcode byte:
//! `x = op[7:6]`, `y = op[5:3]`, `z = op[2:0]`, `p = y[2:1]`, `q = y[0]`.
//! The executable decoder is a flat opcode table; Verus checks that the two agree
//! on every byte sequence.

use vstd::prelude::*;
use super::instruction::{Cond, Instruction, Operand8, Reg8, Reg16};

verus! {

/// One successfully decoded instruction and its length in bytes.
#[derive(Debug, Clone, Copy, PartialEq, Eq, Structural)]
pub struct Decoded {
    pub instruction: Instruction,
    pub len: u8,
}

/// Register encoded by a 3-bit field (`6` encodes `(HL)`, not a register).
pub open spec fn r8_spec(i: int) -> Reg8 {
    if i == 0 { Reg8::B }
    else if i == 1 { Reg8::C }
    else if i == 2 { Reg8::D }
    else if i == 3 { Reg8::E }
    else if i == 4 { Reg8::H }
    else if i == 5 { Reg8::L }
    else { Reg8::A }
}

/// 8-bit operand encoded by a 3-bit field.
pub open spec fn operand_spec(i: int) -> Operand8 {
    if i == 6 { Operand8::MemHl } else { Operand8::Reg(r8_spec(i)) }
}

/// Register pair encoded by `p` (`SP` table).
pub open spec fn rp_spec(p: int) -> Reg16 {
    if p == 0 { Reg16::Bc } else if p == 1 { Reg16::De } else if p == 2 { Reg16::Hl } else { Reg16::Sp }
}

/// Register pair encoded by `p` for `PUSH`/`POP` (`AF` table).
pub open spec fn rp2_spec(p: int) -> Reg16 {
    if p == 0 { Reg16::Bc } else if p == 1 { Reg16::De } else if p == 2 { Reg16::Hl } else { Reg16::Af }
}

/// Condition encoded by a 2-bit field.
pub open spec fn cc_spec(i: int) -> Cond {
    if i == 0 { Cond::Nz } else if i == 1 { Cond::Z } else if i == 2 { Cond::Nc } else { Cond::C }
}

/// Accumulator ALU operation selected by `y`.
pub open spec fn alu_spec(y: int, op: Operand8) -> Instruction {
    if y == 0 { Instruction::Add(op) }
    else if y == 1 { Instruction::Adc(op) }
    else if y == 2 { Instruction::Sub(op) }
    else if y == 3 { Instruction::Sbc(op) }
    else if y == 4 { Instruction::And(op) }
    else if y == 5 { Instruction::Xor(op) }
    else if y == 6 { Instruction::Or(op) }
    else { Instruction::Cp(op) }
}

/// `CB`-prefixed rotate/shift selected by `y`.
pub open spec fn rot_spec(y: int, op: Operand8) -> Instruction {
    if y == 0 { Instruction::Rlc(op) }
    else if y == 1 { Instruction::Rrc(op) }
    else if y == 2 { Instruction::Rl(op) }
    else if y == 3 { Instruction::Rr(op) }
    else if y == 4 { Instruction::Sla(op) }
    else if y == 5 { Instruction::Sra(op) }
    else if y == 6 { Instruction::Swap(op) }
    else { Instruction::Srl(op) }
}

/// Signed displacement encoded by a byte (two's complement).
pub open spec fn signed_spec(b: u8) -> i8 {
    (if b >= 128 { b - 256 } else { b as int }) as i8
}

/// Little-endian 16-bit immediate.
pub open spec fn imm16_spec(lo: u8, hi: u8) -> u16 {
    (lo + 256 * hi) as u16
}

pub open spec fn decoded(instruction: Instruction, len: int) -> Option<Decoded> {
    Some(Decoded { instruction, len: len as u8 })
}

/// `CB`-prefixed instruction encoded by the second byte.
pub open spec fn cb_spec(cb: u8) -> Instruction {
    let x = cb / 64;
    let y = (cb / 8) % 8;
    let op = operand_spec((cb % 8) as int);
    if x == 0 {
        rot_spec(y as int, op)
    } else if x == 1 {
        Instruction::Bit { bit: y as u8, op }
    } else if x == 2 {
        Instruction::Res { bit: y as u8, op }
    } else {
        Instruction::SetBit { bit: y as u8, op }
    }
}

/// Opcodes with `x = 0`.
pub open spec fn decode_x0(y: int, z: int, b1: u8, b2: u8) -> Option<Decoded> {
    let p = y / 2;
    let q = y % 2;
    if z == 0 {
        if y == 0 { decoded(Instruction::Nop, 1) }
        else if y == 1 { decoded(Instruction::LdAbsSp(imm16_spec(b1, b2)), 3) }
        else if y == 2 { decoded(Instruction::Stop, 2) }
        else if y == 3 { decoded(Instruction::Jr { cond: None, offset: signed_spec(b1) }, 2) }
        else { decoded(Instruction::Jr { cond: Some(cc_spec(y - 4)), offset: signed_spec(b1) }, 2) }
    } else if z == 1 {
        if q == 0 {
            decoded(Instruction::Ld16Imm { dst: rp_spec(p), value: imm16_spec(b1, b2) }, 3)
        } else {
            decoded(Instruction::AddHl(rp_spec(p)), 1)
        }
    } else if z == 2 {
        let ins = if p == 0 {
            if q == 0 { Instruction::LdMemBcA } else { Instruction::LdAMemBc }
        } else if p == 1 {
            if q == 0 { Instruction::LdMemDeA } else { Instruction::LdAMemDe }
        } else if p == 2 {
            if q == 0 { Instruction::LdiMemHlA } else { Instruction::LdiAMemHl }
        } else {
            if q == 0 { Instruction::LddMemHlA } else { Instruction::LddAMemHl }
        };
        decoded(ins, 1)
    } else if z == 3 {
        if q == 0 { decoded(Instruction::Inc16(rp_spec(p)), 1) }
        else { decoded(Instruction::Dec16(rp_spec(p)), 1) }
    } else if z == 4 {
        decoded(Instruction::Inc8(operand_spec(y)), 1)
    } else if z == 5 {
        decoded(Instruction::Dec8(operand_spec(y)), 1)
    } else if z == 6 {
        decoded(Instruction::Ld8 { dst: operand_spec(y), src: Operand8::Imm(b1) }, 2)
    } else {
        let ins = if y == 0 { Instruction::Rlca }
            else if y == 1 { Instruction::Rrca }
            else if y == 2 { Instruction::Rla }
            else if y == 3 { Instruction::Rra }
            else if y == 4 { Instruction::Daa }
            else if y == 5 { Instruction::Cpl }
            else if y == 6 { Instruction::Scf }
            else { Instruction::Ccf };
        decoded(ins, 1)
    }
}

/// Opcodes with `x = 3`.
pub open spec fn decode_x3(y: int, z: int, b1: u8, b2: u8) -> Option<Decoded> {
    let p = y / 2;
    let q = y % 2;
    if z == 0 {
        if y < 4 { decoded(Instruction::Ret { cond: Some(cc_spec(y)) }, 1) }
        else if y == 4 { decoded(Instruction::LdhAbsA(b1), 2) }
        else if y == 5 { decoded(Instruction::AddSpE(signed_spec(b1)), 2) }
        else if y == 6 { decoded(Instruction::LdhAAbs(b1), 2) }
        else { decoded(Instruction::LdHlSpE(signed_spec(b1)), 2) }
    } else if z == 1 {
        if q == 0 { decoded(Instruction::Pop(rp2_spec(p)), 1) }
        else if p == 0 { decoded(Instruction::Ret { cond: None }, 1) }
        else if p == 1 { decoded(Instruction::Reti, 1) }
        else if p == 2 { decoded(Instruction::JpHl, 1) }
        else { decoded(Instruction::LdSpHl, 1) }
    } else if z == 2 {
        if y < 4 { decoded(Instruction::Jp { cond: Some(cc_spec(y)), target: imm16_spec(b1, b2) }, 3) }
        else if y == 4 { decoded(Instruction::LdIoCA, 1) }
        else if y == 5 { decoded(Instruction::LdAbsA(imm16_spec(b1, b2)), 3) }
        else if y == 6 { decoded(Instruction::LdAIoC, 1) }
        else { decoded(Instruction::LdAAbs(imm16_spec(b1, b2)), 3) }
    } else if z == 3 {
        if y == 0 { decoded(Instruction::Jp { cond: None, target: imm16_spec(b1, b2) }, 3) }
        else if y == 1 { decoded(cb_spec(b1), 2) }
        else if y == 6 { decoded(Instruction::Di, 1) }
        else if y == 7 { decoded(Instruction::Ei, 1) }
        else { None }
    } else if z == 4 {
        if y < 4 { decoded(Instruction::Call { cond: Some(cc_spec(y)), target: imm16_spec(b1, b2) }, 3) }
        else { None }
    } else if z == 5 {
        if q == 0 { decoded(Instruction::Push(rp2_spec(p)), 1) }
        else if p == 0 { decoded(Instruction::Call { cond: None, target: imm16_spec(b1, b2) }, 3) }
        else { None }
    } else if z == 6 {
        decoded(alu_spec(y, Operand8::Imm(b1)), 2)
    } else {
        decoded(Instruction::Rst((y * 8) as u8), 1)
    }
}

/// Instruction encoded by an opcode and the two bytes after it, ignoring truncation.
pub open spec fn decode_op(op: u8, b1: u8, b2: u8) -> Option<Decoded> {
    let x = op / 64;
    let y = ((op / 8) % 8) as int;
    let z = (op % 8) as int;
    if x == 0 {
        decode_x0(y, z, b1, b2)
    } else if x == 1 {
        if op == 0x76 {
            decoded(Instruction::Halt, 1)
        } else {
            decoded(Instruction::Ld8 { dst: operand_spec(y), src: operand_spec(z) }, 1)
        }
    } else if x == 2 {
        decoded(alu_spec(y, operand_spec(z)), 1)
    } else {
        decode_x3(y, z, b1, b2)
    }
}

/// Byte `i` of `bytes`, or `0` past the end.
pub open spec fn byte_at(bytes: Seq<u8>, i: int) -> u8 {
    if 0 <= i < bytes.len() { bytes[i] } else { 0 }
}

/// Decoding a byte sequence: the opcode's instruction, provided every byte of it is present.
pub open spec fn decode_spec(bytes: Seq<u8>) -> Option<Decoded> {
    if bytes.len() == 0 {
        None
    } else {
        match decode_op(bytes[0], byte_at(bytes, 1), byte_at(bytes, 2)) {
            Some(d) => if d.len <= bytes.len() { Some(d) } else { None },
            None => None,
        }
    }
}


/// Decode one instruction from `bytes`.
///
/// Returns `None` for unknown opcodes or when the slice is truncated mid-instruction.
#[verifier::rlimit(100)]
pub fn decode(bytes: &[u8]) -> (r: Option<Decoded>)
    ensures
        r == decode_spec(bytes@),
{
    if bytes.len() == 0 {
        return None;
    }
    let opcode: u8 = bytes[0];
    match opcode {
        // --- 1-byte ---
        0x00 => ok(Instruction::Nop, 1),
        0x07 => ok(Instruction::Rlca, 1),
        0x0F => ok(Instruction::Rrca, 1),
        0x17 => ok(Instruction::Rla, 1),
        0x1F => ok(Instruction::Rra, 1),
        0x2F => ok(Instruction::Cpl, 1),
        0x37 => ok(Instruction::Scf, 1),
        0x3F => ok(Instruction::Ccf, 1),
        0x27 => ok(Instruction::Daa, 1),
        0x08 => {
            let addr: u16 = read_u16(bytes)?;
            ok(Instruction::LdAbsSp(addr), 3)
        },
        0x10 => {
            // STOP is 2 bytes; the second byte is ignored.
            if bytes.len() < 2 {
                return None;
            }
            ok(Instruction::Stop, 2)
        },
        // HALT sits in the LD r,r block between $75 and $77
        0x76 => ok(Instruction::Halt, 1),
        // ALU A,r / A,(HL)
        0x80..=0xBF => alu_r(opcode),
        0xE2 => ok(Instruction::LdIoCA, 1),
        0xE9 => ok(Instruction::JpHl, 1),
        0xF2 => ok(Instruction::LdAIoC, 1),
        0xF3 => ok(Instruction::Di, 1),
        0xFB => ok(Instruction::Ei, 1),
        // LD (rr),A / LD A,(rr)
        0x02 => ok(Instruction::LdMemBcA, 1),
        0x0A => ok(Instruction::LdAMemBc, 1),
        0x12 => ok(Instruction::LdMemDeA, 1),
        0x1A => ok(Instruction::LdAMemDe, 1),
        // ADD HL,rr
        0x09 => ok(Instruction::AddHl(Reg16::Bc), 1),
        0x19 => ok(Instruction::AddHl(Reg16::De), 1),
        0x29 => ok(Instruction::AddHl(Reg16::Hl), 1),
        0x39 => ok(Instruction::AddHl(Reg16::Sp), 1),
        // INC/DEC rr
        0x03 => ok(Instruction::Inc16(Reg16::Bc), 1),
        0x13 => ok(Instruction::Inc16(Reg16::De), 1),
        0x23 => ok(Instruction::Inc16(Reg16::Hl), 1),
        0x33 => ok(Instruction::Inc16(Reg16::Sp), 1),
        0x0B => ok(Instruction::Dec16(Reg16::Bc), 1),
        0x1B => ok(Instruction::Dec16(Reg16::De), 1),
        0x2B => ok(Instruction::Dec16(Reg16::Hl), 1),
        0x3B => ok(Instruction::Dec16(Reg16::Sp), 1),
        // INC/DEC r8 (and (HL))
        0x04 => ok(Instruction::Inc8(Operand8::Reg(Reg8::B)), 1),
        0x0C => ok(Instruction::Inc8(Operand8::Reg(Reg8::C)), 1),
        0x14 => ok(Instruction::Inc8(Operand8::Reg(Reg8::D)), 1),
        0x1C => ok(Instruction::Inc8(Operand8::Reg(Reg8::E)), 1),
        0x24 => ok(Instruction::Inc8(Operand8::Reg(Reg8::H)), 1),
        0x2C => ok(Instruction::Inc8(Operand8::Reg(Reg8::L)), 1),
        0x34 => ok(Instruction::Inc8(Operand8::MemHl), 1),
        0x3C => ok(Instruction::Inc8(Operand8::Reg(Reg8::A)), 1),
        0x05 => ok(Instruction::Dec8(Operand8::Reg(Reg8::B)), 1),
        0x0D => ok(Instruction::Dec8(Operand8::Reg(Reg8::C)), 1),
        0x15 => ok(Instruction::Dec8(Operand8::Reg(Reg8::D)), 1),
        0x1D => ok(Instruction::Dec8(Operand8::Reg(Reg8::E)), 1),
        0x25 => ok(Instruction::Dec8(Operand8::Reg(Reg8::H)), 1),
        0x2D => ok(Instruction::Dec8(Operand8::Reg(Reg8::L)), 1),
        0x35 => ok(Instruction::Dec8(Operand8::MemHl), 1),
        0x3D => ok(Instruction::Dec8(Operand8::Reg(Reg8::A)), 1),
        // LD (HL±),A / LD A,(HL±)
        0x22 => ok(Instruction::LdiMemHlA, 1),
        0x2A => ok(Instruction::LdiAMemHl, 1),
        0x32 => ok(Instruction::LddMemHlA, 1),
        0x3A => ok(Instruction::LddAMemHl, 1),
        // LD r,r / LD r,(HL) / LD (HL),r (excludes HALT at $76)
        0x40..=0x75 | 0x77..=0x7F => ld_r_r(opcode),
        // RET / conditional RET
        0xC0 => ok(Instruction::Ret { cond: Some(Cond::Nz) }, 1),
        0xC8 => ok(Instruction::Ret { cond: Some(Cond::Z) }, 1),
        0xC9 => ok(Instruction::Ret { cond: None }, 1),
        0xD0 => ok(Instruction::Ret { cond: Some(Cond::Nc) }, 1),
        0xD8 => ok(Instruction::Ret { cond: Some(Cond::C) }, 1),
        0xD9 => ok(Instruction::Reti, 1),
        // PUSH / POP
        0xC1 => ok(Instruction::Pop(Reg16::Bc), 1),
        0xC5 => ok(Instruction::Push(Reg16::Bc), 1),
        0xD1 => ok(Instruction::Pop(Reg16::De), 1),
        0xD5 => ok(Instruction::Push(Reg16::De), 1),
        0xE1 => ok(Instruction::Pop(Reg16::Hl), 1),
        0xE5 => ok(Instruction::Push(Reg16::Hl), 1),
        0xF1 => ok(Instruction::Pop(Reg16::Af), 1),
        0xF5 => ok(Instruction::Push(Reg16::Af), 1),
        // --- d8 ---
        0x06 => ld_r8_d8(bytes, Reg8::B),
        0x0E => ld_r8_d8(bytes, Reg8::C),
        0x16 => ld_r8_d8(bytes, Reg8::D),
        0x1E => ld_r8_d8(bytes, Reg8::E),
        0x26 => ld_r8_d8(bytes, Reg8::H),
        0x2E => ld_r8_d8(bytes, Reg8::L),
        0x36 => ld_mem_hl_d8(bytes),
        0x3E => ld_r8_d8(bytes, Reg8::A),
        0xE0 => {
            let n: u8 = imm8(bytes)?;
            ok(Instruction::LdhAbsA(n), 2)
        },
        0xC6 | 0xCE | 0xD6 | 0xDE | 0xE6 | 0xEE | 0xF6 | 0xFE => alu_imm(bytes, opcode),
        0xF0 => {
            let n: u8 = imm8(bytes)?;
            ok(Instruction::LdhAAbs(n), 2)
        },
        // --- d16 (LD rr,d16) ---
        0x01 => ld16_imm(bytes, Reg16::Bc),
        0x11 => ld16_imm(bytes, Reg16::De),
        0x21 => ld16_imm(bytes, Reg16::Hl),
        0x31 => ld16_imm(bytes, Reg16::Sp),
        // --- JR ---
        0x18 => jr(bytes, None),
        0x20 => jr(bytes, Some(Cond::Nz)),
        0x28 => jr(bytes, Some(Cond::Z)),
        0x30 => jr(bytes, Some(Cond::Nc)),
        0x38 => jr(bytes, Some(Cond::C)),
        // --- JP / CALL a16 ---
        0xC2 => jp(bytes, Some(Cond::Nz)),
        0xC3 => jp(bytes, None),
        0xC4 => call(bytes, Some(Cond::Nz)),
        0xCA => jp(bytes, Some(Cond::Z)),
        0xCC => call(bytes, Some(Cond::Z)),
        0xCD => call(bytes, None),
        0xD2 => jp(bytes, Some(Cond::Nc)),
        0xD4 => call(bytes, Some(Cond::Nc)),
        0xDA => jp(bytes, Some(Cond::C)),
        0xDC => call(bytes, Some(Cond::C)),
        // --- RST n ---
        0xC7 => ok(Instruction::Rst(0x00), 1),
        0xCF => ok(Instruction::Rst(0x08), 1),
        0xD7 => ok(Instruction::Rst(0x10), 1),
        0xDF => ok(Instruction::Rst(0x18), 1),
        0xE7 => ok(Instruction::Rst(0x20), 1),
        0xEF => ok(Instruction::Rst(0x28), 1),
        0xF7 => ok(Instruction::Rst(0x30), 1),
        0xFF => ok(Instruction::Rst(0x38), 1),
        0xEA => {
            let addr: u16 = read_u16(bytes)?;
            ok(Instruction::LdAbsA(addr), 3)
        },
        0xFA => {
            let addr: u16 = read_u16(bytes)?;
            ok(Instruction::LdAAbs(addr), 3)
        },
        0xE8 => {
            let e: i8 = signed(imm8(bytes)?);
            ok(Instruction::AddSpE(e), 2)
        },
        0xF8 => {
            let e: i8 = signed(imm8(bytes)?);
            ok(Instruction::LdHlSpE(e), 2)
        },
        0xF9 => ok(Instruction::LdSpHl, 1),
        // --- CB ---
        0xCB => decode_cb(bytes),
        _ => None,
    }
}

fn ok(instruction: Instruction, len: u8) -> (r: Option<Decoded>)
    ensures
        r == Some(Decoded { instruction, len }),
{
    Some(Decoded { instruction, len })
}

/// Two's-complement reading of a byte.
fn signed(b: u8) -> (e: i8)
    ensures
        e == signed_spec(b),
{
    if b >= 128 { (b as i16 - 256) as i8 } else { b as i8 }
}

fn ld_r_r(opcode: u8) -> (r: Option<Decoded>)
    requires
        0x40 <= opcode <= 0x7F,
        opcode != 0x76,
    ensures
        r == decoded(Instruction::Ld8 {
            dst: operand_spec(((opcode / 8) % 8) as int),
            src: operand_spec((opcode % 8) as int),
        }, 1),
{
    let dst_bits: u8 = (opcode / 8) % 8;
    let src_bits: u8 = opcode % 8;
    let dst: Operand8 = operand8_from_bits(dst_bits)?;
    let src: Operand8 = operand8_from_bits(src_bits)?;
    // HALT is $76 (LD (HL),(HL)); already excluded by the match arms.
    ok(Instruction::Ld8 { dst, src }, 1)
}

/// ALU operation selected by `y`.
fn alu_instruction(y: u8, op: Operand8) -> (ins: Instruction)
    requires
        y < 8,
    ensures
        ins == alu_spec(y as int, op),
{
    match y {
        0 => Instruction::Add(op),
        1 => Instruction::Adc(op),
        2 => Instruction::Sub(op),
        3 => Instruction::Sbc(op),
        4 => Instruction::And(op),
        5 => Instruction::Xor(op),
        6 => Instruction::Or(op),
        _ => Instruction::Cp(op),
    }
}

fn alu_r(opcode: u8) -> (r: Option<Decoded>)
    requires
        0x80 <= opcode <= 0xBF,
    ensures
        r == decoded(alu_spec(((opcode / 8) % 8) as int, operand_spec((opcode % 8) as int)), 1),
{
    let op: Operand8 = operand8_from_bits(opcode)?;
    ok(alu_instruction((opcode / 8) % 8, op), 1)
}

fn operand8_from_bits(bits: u8) -> (r: Option<Operand8>)
    ensures
        r == Some(operand_spec((bits % 8) as int)),
{
    match bits % 8 {
        6 => Some(Operand8::MemHl),
        n => Some(Operand8::Reg(r8_from_bits(n)?)),
    }
}

fn r8_from_bits(bits: u8) -> (r: Option<Reg8>)
    ensures
        bits % 8 != 6 ==> r == Some(r8_spec((bits % 8) as int)),
        bits % 8 == 6 ==> r.is_none(),
{
    match bits % 8 {
        0 => Some(Reg8::B),
        1 => Some(Reg8::C),
        2 => Some(Reg8::D),
        3 => Some(Reg8::E),
        4 => Some(Reg8::H),
        5 => Some(Reg8::L),
        6 => None, // (HL)
        _ => Some(Reg8::A),
    }
}

/// The byte after the opcode, if present.
fn imm8(bytes: &[u8]) -> (r: Option<u8>)
    ensures
        r == (if bytes@.len() >= 2 { Some(bytes@[1]) } else { None::<u8> }),
{
    if bytes.len() < 2 {
        return None;
    }
    Some(bytes[1])
}

fn ld_r8_d8(bytes: &[u8], dst: Reg8) -> (r: Option<Decoded>)
    ensures
        r == (if bytes@.len() >= 2 {
            decoded(Instruction::Ld8 { dst: Operand8::Reg(dst), src: Operand8::Imm(bytes@[1]) }, 2)
        } else {
            None
        }),
{
    let n: u8 = imm8(bytes)?;
    ok(Instruction::Ld8 { dst: Operand8::Reg(dst), src: Operand8::Imm(n) }, 2)
}

fn ld_mem_hl_d8(bytes: &[u8]) -> (r: Option<Decoded>)
    ensures
        r == (if bytes@.len() >= 2 {
            decoded(Instruction::Ld8 { dst: Operand8::MemHl, src: Operand8::Imm(bytes@[1]) }, 2)
        } else {
            None
        }),
{
    let n: u8 = imm8(bytes)?;
    ok(Instruction::Ld8 { dst: Operand8::MemHl, src: Operand8::Imm(n) }, 2)
}

fn alu_imm(bytes: &[u8], opcode: u8) -> (r: Option<Decoded>)
    requires
        opcode / 64 == 3,
        opcode % 8 == 6,
    ensures
        r == (if bytes@.len() >= 2 {
            decoded(alu_spec(((opcode / 8) % 8) as int, Operand8::Imm(bytes@[1])), 2)
        } else {
            None
        }),
{
    let n: u8 = imm8(bytes)?;
    ok(alu_instruction((opcode / 8) % 8, Operand8::Imm(n)), 2)
}

fn read_u16(bytes: &[u8]) -> (r: Option<u16>)
    ensures
        r == (if bytes@.len() >= 3 { Some(imm16_spec(bytes@[1], bytes@[2])) } else { None::<u16> }),
{
    if bytes.len() < 3 {
        return None;
    }
    let lo: u8 = bytes[1];
    let hi: u8 = bytes[2];
    Some(lo as u16 + 256 * hi as u16)
}

fn jr(bytes: &[u8], cond: Option<Cond>) -> (r: Option<Decoded>)
    ensures
        r == (if bytes@.len() >= 2 {
            decoded(Instruction::Jr { cond, offset: signed_spec(bytes@[1]) }, 2)
        } else {
            None
        }),
{
    let offset: i8 = signed(imm8(bytes)?);
    ok(Instruction::Jr { cond, offset }, 2)
}

fn jp(bytes: &[u8], cond: Option<Cond>) -> (r: Option<Decoded>)
    ensures
        r == (if bytes@.len() >= 3 {
            decoded(Instruction::Jp { cond, target: imm16_spec(bytes@[1], bytes@[2]) }, 3)
        } else {
            None
        }),
{
    let target: u16 = read_u16(bytes)?;
    ok(Instruction::Jp { cond, target }, 3)
}

fn call(bytes: &[u8], cond: Option<Cond>) -> (r: Option<Decoded>)
    ensures
        r == (if bytes@.len() >= 3 {
            decoded(Instruction::Call { cond, target: imm16_spec(bytes@[1], bytes@[2]) }, 3)
        } else {
            None
        }),
{
    let target: u16 = read_u16(bytes)?;
    ok(Instruction::Call { cond, target }, 3)
}

fn ld16_imm(bytes: &[u8], dst: Reg16) -> (r: Option<Decoded>)
    ensures
        r == (if bytes@.len() >= 3 {
            decoded(Instruction::Ld16Imm { dst, value: imm16_spec(bytes@[1], bytes@[2]) }, 3)
        } else {
            None
        }),
{
    let value: u16 = read_u16(bytes)?;
    ok(Instruction::Ld16Imm { dst, value }, 3)
}

/// Rotate/shift selected by `y`.
fn rot_instruction(y: u8, op: Operand8) -> (ins: Instruction)
    requires
        y < 8,
    ensures
        ins == rot_spec(y as int, op),
{
    match y {
        0 => Instruction::Rlc(op),
        1 => Instruction::Rrc(op),
        2 => Instruction::Rl(op),
        3 => Instruction::Rr(op),
        4 => Instruction::Sla(op),
        5 => Instruction::Sra(op),
        6 => Instruction::Swap(op),
        _ => Instruction::Srl(op),
    }
}

fn decode_cb(bytes: &[u8]) -> (r: Option<Decoded>)
    ensures
        r == (if bytes@.len() >= 2 { decoded(cb_spec(bytes@[1]), 2) } else { None }),
{
    let cb: u8 = imm8(bytes)?;
    let op: Operand8 = operand8_from_bits(cb)?;
    let bit: u8 = (cb / 8) % 8;
    match cb {
        0x00..=0x3F => ok(rot_instruction(bit, op), 2),
        0x40..=0x7F => ok(Instruction::Bit { bit, op }, 2),
        0x80..=0xBF => ok(Instruction::Res { bit, op }, 2),
        _ => ok(Instruction::SetBit { bit, op }, 2),
    }
}


/// The instruction an opcode encodes depends only on the bytes it spans:
/// a 1-byte instruction ignores the next two bytes, a 2-byte one ignores the third.
pub proof fn lemma_decode_op_uses_only_its_bytes(op: u8, b1: u8, b2: u8, c1: u8, c2: u8)
    ensures
        decode_op(op, b1, b2) is None <==> decode_op(op, c1, c2) is None,
        decode_op(op, b1, b2) matches Some(d) ==> 1 <= d.len <= 3,
        decode_op(op, b1, b2) matches Some(d) ==> (d.len == 1 ==> decode_op(op, c1, c2) == Some(d)),
        decode_op(op, b1, b2) matches Some(d) ==> (d.len == 2 ==> decode_op(op, b1, c2) == Some(d)),
{
}

/// Decoding reads only the bytes of the instruction: appending bytes does not change
/// a successful decode, the decoded length never exceeds the input, and dropping the
/// last byte of the instruction makes decoding fail.
pub proof fn lemma_decode_prefix(bytes: Seq<u8>, ext: Seq<u8>)
    ensures
        decode_spec(bytes) matches Some(d) ==> {
            &&& 1 <= d.len <= 3
            &&& d.len <= bytes.len()
            &&& decode_spec(bytes + ext) == Some(d)
            &&& decode_spec(bytes.take(d.len as int)) == Some(d)
            &&& decode_spec(bytes.take(d.len - 1)) is None
        },
{
    if bytes.len() > 0 {
        let op = bytes[0];
        let b1 = byte_at(bytes, 1);
        let b2 = byte_at(bytes, 2);
        let longer = bytes + ext;
        assert(longer[0] == op);
        lemma_decode_op_uses_only_its_bytes(op, b1, b2, byte_at(longer, 1), byte_at(longer, 2));
        if let Some(d) = decode_op(op, b1, b2) {
            if d.len <= bytes.len() {
                let t = bytes.take(d.len as int);
                assert(t[0] == op);
                lemma_decode_op_uses_only_its_bytes(op, b1, b2, byte_at(t, 1), byte_at(t, 2));
                if d.len >= 2 {
                    assert(byte_at(longer, 1) == b1);
                    assert(byte_at(t, 1) == b1);
                }
                if d.len == 3 {
                    assert(byte_at(longer, 2) == b2);
                    assert(byte_at(t, 2) == b2);
                }
                if d.len > 1 {
                    let u = bytes.take(d.len - 1);
                    assert(u[0] == op);
                    lemma_decode_op_uses_only_its_bytes(op, b1, b2, byte_at(u, 1), byte_at(u, 2));
                    if d.len == 3 {
                        assert(byte_at(u, 1) == b1);
                    }
                }
            }
        }
    }
}

/// Opcodes with no instruction.
pub open spec fn illegal_opcode(op: u8) -> bool {
    op == 0xD3 || op == 0xDB || op == 0xDD || op == 0xE3 || op == 0xE4 || op == 0xEB || op == 0xEC
        || op == 0xED || op == 0xF4 || op == 0xFC || op == 0xFD
}

/// Instruction length in bytes of a legal opcode.
pub open spec fn opcode_len(op: u8) -> int {
    if op == 0x01 || op == 0x08 || op == 0x11 || op == 0x21 || op == 0x31 || op == 0xC2 || op == 0xC3
        || op == 0xC4 || op == 0xCA || op == 0xCC || op == 0xCD || op == 0xD2 || op == 0xD4 || op == 0xDA
        || op == 0xDC || op == 0xEA || op == 0xFA {
        3
    } else if op == 0x06 || op == 0x0E || op == 0x10 || op == 0x16 || op == 0x18 || op == 0x1E || op == 0x20
        || op == 0x26 || op == 0x28 || op == 0x2E || op == 0x30 || op == 0x36 || op == 0x38 || op == 0x3E
        || op == 0xC6 || op == 0xCB || op == 0xCE || op == 0xD6 || op == 0xDE || op == 0xE0 || op == 0xE6
        || op == 0xE8 || op == 0xEE || op == 0xF0 || op == 0xF6 || op == 0xF8 || op == 0xFE {
        2
    } else {
        1
    }
}

/// Every opcode but the eleven illegal ones encodes an instruction, of the
/// length the opcode table gives, whatever its operand bytes.
pub proof fn lemma_opcode_table(op: u8, b1: u8, b2: u8)
    ensures
        decode_op(op, b1, b2) is None <==> illegal_opcode(op),
        decode_op(op, b1, b2) matches Some(d) ==> d.len == opcode_len(op),
{
}

/// Decoding fails exactly on an empty input, an illegal opcode, or an input
/// shorter than the opcode's instruction; a successful decode has the
/// opcode's length and decodes the same from just its own bytes.
pub proof fn lemma_decode_length_law(bytes: Seq<u8>)
    ensures
        decode_spec(bytes) is None <==> (bytes.len() == 0 || illegal_opcode(bytes[0]) || bytes.len()
            < opcode_len(bytes[0])),
        decode_spec(bytes) matches Some(d) ==> d.len == opcode_len(bytes[0]) && decode_spec(
            bytes.take(d.len as int),
        ) == Some(d),
{
    if bytes.len() > 0 {
        lemma_opcode_table(bytes[0], byte_at(bytes, 1), byte_at(bytes, 2));
        lemma_decode_prefix(bytes, Seq::empty());
    }
}

} // verus!
