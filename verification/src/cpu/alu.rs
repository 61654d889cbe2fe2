//! Pure 8/16-bit ALU helpers (value + flags). No CPU mutation.

use vstd::prelude::*;

verus! {

/// Result of an 8-bit arithmetic/logic operation.
#[derive(Debug, Clone, Copy, PartialEq, Eq)]
pub struct AluResult8 {
    pub value: u8,
    pub z: bool,
    pub n: bool,
    pub h: bool,
    pub c: bool,
}

/// Result of `INC` / `DEC` (carry flag is unchanged by those ops).
#[derive(Debug, Clone, Copy, PartialEq, Eq)]
pub struct IncDecResult8 {
    pub value: u8,
    pub z: bool,
    pub n: bool,
    pub h: bool,
}

/// Result of `ADD HL, rr` (Z unchanged on hardware).
#[derive(Debug, Clone, Copy, PartialEq, Eq)]
pub struct AddHlResult {
    pub value: u16,
    pub h: bool,
    pub c: bool,
}

/// Result of `ADD SP, e8` / `LD HL, SP+e8` (Z and N are cleared by the instruction).
#[derive(Debug, Clone, Copy, PartialEq, Eq)]
pub struct SpOffsetResult {
    pub value: u16,
    pub h: bool,
    pub c: bool,
}

/// `BIT b,r` flag result. Carry is unchanged by the instruction.
#[derive(Debug, Clone, Copy, PartialEq, Eq)]
pub struct BitFlags {
    pub z: bool,
    pub n: bool,
    pub h: bool,
}

/// Numeric value of a flag (carry-in).
pub open spec fn bit_of(b: bool) -> int {
    if b { 1 } else { 0 }
}

/// `2^i` for bit positions 0–7.
pub open spec fn pow2_8(i: int) -> int {
    if i == 0 { 1 }
    else if i == 1 { 2 }
    else if i == 2 { 4 }
    else if i == 3 { 8 }
    else if i == 4 { 16 }
    else if i == 5 { 32 }
    else if i == 6 { 64 }
    else { 128 }
}

/// Whether bit `i` (0–7) of `v` is set.
pub open spec fn bit_set(v: u8, i: int) -> bool {
    (v as int / pow2_8(i)) % 2 == 1
}

/// 8-bit result with Z from the value and N, H cleared (rotates and shifts).
pub open spec fn shifted(value: int, carry: bool) -> AluResult8 {
    AluResult8 { value: value as u8, z: value == 0, n: false, h: false, c: carry }
}

/// `ADC A, b`: sum with carry-in, H from bit 3, C from bit 7.
pub open spec fn adc8_spec(a: u8, b: u8, carry: bool) -> AluResult8 {
    let sum = a + b + bit_of(carry);
    AluResult8 {
        value: (sum % 256) as u8,
        z: sum % 256 == 0,
        n: false,
        h: a % 16 + b % 16 + bit_of(carry) > 15,
        c: sum > 255,
    }
}

/// `SBC A, b`: difference with borrow-in, H from bit 4 borrow, C from full borrow.
pub open spec fn sbc8_spec(a: u8, b: u8, carry: bool) -> AluResult8 {
    let diff = a - b - bit_of(carry);
    AluResult8 {
        value: (diff % 256) as u8,
        z: diff % 256 == 0,
        n: true,
        h: a % 16 < b % 16 + bit_of(carry),
        c: a < b + bit_of(carry),
    }
}

/// Result of a logic operation: Z from the value, N and C cleared, H as given.
pub open spec fn logic_spec(value: u8, h: bool) -> AluResult8 {
    AluResult8 { value, z: value == 0, n: false, h, c: false }
}

/// Correction added (after addition) or subtracted (after subtraction) by `DAA`.
pub open spec fn daa_adjust(a: u8, n: bool, h: bool, c_in: bool) -> int {
    if !n {
        (if h || a % 16 > 9 { 0x06int } else { 0 }) + (if c_in || a > 0x99 { 0x60int } else { 0 })
    } else {
        (if h { 0x06int } else { 0 }) + (if c_in { 0x60int } else { 0 })
    }
}

/// `DAA`: apply the BCD correction; carry becomes sticky after addition.
pub open spec fn daa_spec(a: u8, n: bool, h: bool, c_in: bool) -> AluResult8 {
    let raw = if !n { a + daa_adjust(a, n, h, c_in) } else { a - daa_adjust(a, n, h, c_in) };
    AluResult8 {
        value: (raw % 256) as u8,
        z: raw % 256 == 0,
        n,
        h: false,
        c: if !n { c_in || a > 0x99 } else { c_in },
    }
}

pub open spec fn inc8_spec(a: u8) -> IncDecResult8 {
    IncDecResult8 { value: ((a + 1) % 256) as u8, z: (a + 1) % 256 == 0, n: false, h: a % 16 == 15 }
}

pub open spec fn dec8_spec(a: u8) -> IncDecResult8 {
    IncDecResult8 { value: ((a - 1) % 256) as u8, z: (a - 1) % 256 == 0, n: true, h: a % 16 == 0 }
}

pub open spec fn add_hl_spec(hl: u16, rr: u16) -> AddHlResult {
    AddHlResult {
        value: ((hl + rr) % 65536) as u16,
        h: hl % 4096 + rr % 4096 > 4095,
        c: hl + rr > 65535,
    }
}

/// Two's-complement byte of a signed offset.
pub open spec fn i8_bits(e: i8) -> int {
    if e < 0 { e + 256 } else { e as int }
}

pub open spec fn add_sp_e8_spec(sp: u16, e: i8) -> SpOffsetResult {
    SpOffsetResult {
        value: ((sp + e) % 65536) as u16,
        h: sp % 16 + i8_bits(e) % 16 > 15,
        c: sp % 256 + i8_bits(e) > 255,
    }
}

pub open spec fn rlc_spec(v: u8) -> AluResult8 {
    shifted((v * 2) % 256 + v / 128, v >= 128)
}

pub open spec fn rrc_spec(v: u8) -> AluResult8 {
    shifted(v / 2 + (v % 2) * 128, v % 2 == 1)
}

pub open spec fn rl_spec(v: u8, carry_in: bool) -> AluResult8 {
    shifted((v * 2) % 256 + bit_of(carry_in), v >= 128)
}

pub open spec fn rr_spec(v: u8, carry_in: bool) -> AluResult8 {
    shifted(v / 2 + 128 * bit_of(carry_in), v % 2 == 1)
}

pub open spec fn sla_spec(v: u8) -> AluResult8 {
    shifted((v * 2) % 256, v >= 128)
}

pub open spec fn sra_spec(v: u8) -> AluResult8 {
    shifted(v / 2 + (v / 128) * 128, v % 2 == 1)
}

pub open spec fn srl_spec(v: u8) -> AluResult8 {
    shifted((v / 2) as int, v % 2 == 1)
}

pub fn add8(a: u8, b: u8) -> (r: AluResult8)
    ensures
        r == adc8_spec(a, b, false),
{
    adc8(a, b, false)
}

pub fn adc8(a: u8, b: u8, carry: bool) -> (r: AluResult8)
    ensures
        r == adc8_spec(a, b, carry),
{
    let c_in: u8 = if carry { 1 } else { 0 };
    let sum: u16 = a as u16 + b as u16 + c_in as u16;
    let value: u8 = (sum % 256) as u8;
    AluResult8 {
        value,
        z: value == 0,
        n: false,
        h: a % 16 + b % 16 + c_in > 0x0F,
        c: sum > 0xFF,
    }
}

pub fn sub8(a: u8, b: u8) -> (r: AluResult8)
    ensures
        r == sbc8_spec(a, b, false),
{
    sbc8(a, b, false)
}

pub fn sbc8(a: u8, b: u8, carry: bool) -> (r: AluResult8)
    ensures
        r == sbc8_spec(a, b, carry),
{
    let c_in: u16 = if carry { 1 } else { 0 };
    let diff: u16 = 256 + a as u16 - b as u16 - c_in;
    let value: u8 = (diff % 256) as u8;
    AluResult8 {
        value,
        z: value == 0,
        n: true,
        h: ((a % 16) as u16) < (b % 16) as u16 + c_in,
        c: (a as u16) < b as u16 + c_in,
    }
}

pub fn and8(a: u8, b: u8) -> (r: AluResult8)
    ensures
        r == logic_spec(a & b, true),
{
    let value: u8 = a & b;
    AluResult8 { value, z: value == 0, n: false, h: true, c: false }
}

pub fn xor8(a: u8, b: u8) -> (r: AluResult8)
    ensures
        r == logic_spec(a ^ b, false),
{
    let value: u8 = a ^ b;
    AluResult8 { value, z: value == 0, n: false, h: false, c: false }
}

pub fn or8(a: u8, b: u8) -> (r: AluResult8)
    ensures
        r == logic_spec(a | b, false),
{
    let value: u8 = a | b;
    AluResult8 { value, z: value == 0, n: false, h: false, c: false }
}

/// `CP` is `SUB` without writing the result.
pub fn cp8(a: u8, b: u8) -> (r: AluResult8)
    ensures
        r == sbc8_spec(a, b, false),
        r.z == (a == b),
{
    sub8(a, b)
}

/// Decimal adjust accumulator after BCD add/sub (gbz80(7)).
pub fn daa(a: u8, n: bool, h: bool, c_in: bool) -> (r: AluResult8)
    ensures
        r == daa_spec(a, n, h, c_in),
{
    let mut adjust: u8 = 0;
    let mut c = c_in;
    if !n {
        if h || (a % 16) > 0x09 {
            adjust += 0x06;
        }
        if c_in || a > 0x99 {
            adjust += 0x60;
            c = true;
        }
        let value: u8 = a.wrapping_add(adjust);
        AluResult8 { value, z: value == 0, n: false, h: false, c }
    } else {
        if h {
            adjust += 0x06;
        }
        if c_in {
            adjust += 0x60;
        }
        let value: u8 = a.wrapping_sub(adjust);
        AluResult8 { value, z: value == 0, n: true, h: false, c: c_in }
    }
}

pub fn inc8(a: u8) -> (r: IncDecResult8)
    ensures
        r == inc8_spec(a),
{
    let value: u8 = a.wrapping_add(1);
    IncDecResult8 { value, z: value == 0, n: false, h: (a % 16) == 0x0F }
}

pub fn dec8(a: u8) -> (r: IncDecResult8)
    ensures
        r == dec8_spec(a),
{
    let value: u8 = a.wrapping_sub(1);
    IncDecResult8 { value, z: value == 0, n: true, h: (a % 16) == 0x00 }
}

pub fn add_hl(hl: u16, rr: u16) -> (r: AddHlResult)
    ensures
        r == add_hl_spec(hl, rr),
{
    let sum: u32 = hl as u32 + rr as u32;
    AddHlResult {
        value: (sum % 65536) as u16,
        h: ((hl % 4096) + (rr % 4096)) > 0x0FFF,
        c: sum > 0xFFFF,
    }
}

/// `SP + signed e8` with H/C from the low-byte unsigned add (Pan Docs).
pub fn add_sp_e8(sp: u16, e: i8) -> (r: SpOffsetResult)
    ensures
        r == add_sp_e8_spec(sp, e),
{
    let e_u: u16 = if e < 0 { (e as i16 + 256) as u16 } else { e as u16 };
    let value: u16 = ((sp as i32 + e as i32 + 65536) % 65536) as u16;
    SpOffsetResult {
        value,
        h: (sp % 16) + (e_u % 16) > 0x0F,
        c: (sp % 256) + e_u > 0xFF,
    }
}

/// Mask `2^i` for bit positions 0–7.
pub(crate) fn bit_mask(i: u8) -> (m: u8)
    requires
        i < 8,
    ensures
        m == pow2_8(i as int),
{
    match i {
        0 => 1,
        1 => 2,
        2 => 4,
        3 => 8,
        4 => 16,
        5 => 32,
        6 => 64,
        _ => 128,
    }
}

/// Test whether bit `index` (0–7) is clear in `value` → Z; always N=0, H=1.
pub fn bit(value: u8, index: u8) -> (r: BitFlags)
    ensures
        r == (BitFlags { z: !bit_set(value, (index % 8) as int), n: false, h: true }),
{
    let mask: u8 = bit_mask(index % 8);
    let bit_is_set: bool = (value / mask) % 2 == 1;
    BitFlags { z: !bit_is_set, n: false, h: true }
}

fn rotate_flags(value: u8, carry: bool) -> (r: AluResult8)
    ensures
        r == shifted(value as int, carry),
{
    AluResult8 { value, z: value == 0, n: false, h: false, c: carry }
}

/// Rotate left circular: bit7 → bit0 and into carry.
pub fn rlc(value: u8) -> (r: AluResult8)
    ensures
        r == rlc_spec(value),
{
    let carry: bool = value >= 0x80;
    let result: u8 = (value % 128) * 2 + value / 128;
    rotate_flags(result, carry)
}

/// Rotate right circular: bit0 → bit7 and into carry.
pub fn rrc(value: u8) -> (r: AluResult8)
    ensures
        r == rrc_spec(value),
{
    let carry: bool = value % 2 == 1;
    let result: u8 = value / 2 + (value % 2) * 128;
    rotate_flags(result, carry)
}

/// Rotate left through carry.
pub fn rl(value: u8, carry_in: bool) -> (r: AluResult8)
    ensures
        r == rl_spec(value, carry_in),
{
    let carry_out: bool = value >= 0x80;
    let c: u8 = if carry_in { 1 } else { 0 };
    let result: u8 = (value % 128) * 2 + c;
    rotate_flags(result, carry_out)
}

/// Rotate right through carry.
pub fn rr(value: u8, carry_in: bool) -> (r: AluResult8)
    ensures
        r == rr_spec(value, carry_in),
{
    let carry_out: bool = value % 2 == 1;
    let c: u8 = if carry_in { 1 } else { 0 };
    let result: u8 = value / 2 + c * 128;
    rotate_flags(result, carry_out)
}

/// Shift left arithmetic: bit0 ← 0, C ← old bit7.
pub fn sla(value: u8) -> (r: AluResult8)
    ensures
        r == sla_spec(value),
{
    let carry: bool = value >= 0x80;
    rotate_flags((value % 128) * 2, carry)
}

/// Shift right arithmetic: bit7 preserved, C ← old bit0.
pub fn sra(value: u8) -> (r: AluResult8)
    ensures
        r == sra_spec(value),
{
    let carry: bool = value % 2 == 1;
    rotate_flags(value / 2 + (value / 128) * 128, carry)
}

/// Shift right logical: bit7 ← 0, C ← old bit0.
pub fn srl(value: u8) -> (r: AluResult8)
    ensures
        r == srl_spec(value),
{
    let carry: bool = value % 2 == 1;
    rotate_flags(value / 2, carry)
}

/// Valid packed BCD byte: both nibbles are decimal digits.
pub open spec fn is_bcd(v: u8) -> bool {
    v / 16 <= 9 && v % 16 <= 9
}

/// Decimal value of a packed BCD byte.
pub open spec fn bcd_value(v: u8) -> int {
    (v / 16) * 10 + v % 16
}

/// Packed BCD encoding of `0..=99`.
pub open spec fn to_bcd(x: int) -> int {
    (x / 10) * 16 + x % 10
}

/// `SUB b` undoes `ADD b`: adding then subtracting the same byte restores `A`.
pub proof fn lemma_sub_undoes_add(a: u8, b: u8)
    ensures
        sbc8_spec(adc8_spec(a, b, false).value, b, false).value == a,
        adc8_spec(sbc8_spec(a, b, false).value, b, false).value == a,
{
    let s: int = a + b;
    if s > 255 {
        assert(s % 256 == s - 256);
    } else {
        assert(s % 256 == s);
    }
    let d: int = a - b;
    if d < 0 {
        assert(d % 256 == d + 256);
    } else {
        assert(d % 256 == d);
    }
}

/// `RRC` undoes `RLC` and `RLC` undoes `RRC`.
pub proof fn lemma_rotate_circular_inverse(v: u8)
    ensures
        rrc_spec(rlc_spec(v).value).value == v,
        rlc_spec(rrc_spec(v).value).value == v,
{
}

/// Rotating through carry is a 9-bit rotation: `RR` with the carry `RL` produced
/// restores both the value and the carry flag.
pub proof fn lemma_rotate_through_carry_inverse(v: u8, c: bool)
    ensures
        rr_spec(rl_spec(v, c).value, rl_spec(v, c).c).value == v,
        rr_spec(rl_spec(v, c).value, rl_spec(v, c).c).c == c,
        rl_spec(rr_spec(v, c).value, rr_spec(v, c).c).value == v,
        rl_spec(rr_spec(v, c).value, rr_spec(v, c).c).c == c,
{
}

/// BCD addition correction, digit by digit.
#[verifier::rlimit(40)]
proof fn lemma_daa_add_digits(ah: int, al: int, bh: int, bl: int)
    requires
        0 <= ah <= 9, 0 <= al <= 9, 0 <= bh <= 9, 0 <= bl <= 9,
    ensures ({
        let sum = 16 * (ah + bh) + al + bl;
        let v = sum % 256;
        let adj = (if al + bl > 15 || v % 16 > 9 { 6int } else { 0 }) + (if sum > 255 || v > 0x99 { 0x60int } else { 0 });
        let dec = 10 * (ah + bh) + al + bl;
        &&& (v + adj) % 256 == ((dec % 100) / 10) * 16 + (dec % 100) % 10
        &&& (sum > 255 || v > 0x99) == (dec >= 100)
    }),
{
    let sum = 16 * (ah + bh) + al + bl;
    let dec = 10 * (ah + bh) + al + bl;
    if al + bl <= 9 {
        if ah + bh <= 9 {
            assert(sum % 256 == sum);
            assert(sum % 16 == al + bl);
            assert(dec % 100 == dec);
            assert(dec / 10 == ah + bh);
            assert(dec % 10 == al + bl);
        } else {
            assert(dec % 100 == dec - 100);
            assert((dec - 100) / 10 == ah + bh - 10);
            assert((dec - 100) % 10 == al + bl);
            if sum > 255 {
                assert(sum % 256 == sum - 256);
            } else {
                assert(sum % 256 == sum);
            }
        }
    } else {
        if ah + bh + 1 <= 9 {
            assert(sum % 256 == sum);
            assert(dec % 100 == dec);
            assert(dec / 10 == ah + bh + 1);
            assert(dec % 10 == al + bl - 10);
            if al + bl > 15 {
                assert(sum % 16 == al + bl - 16);
            } else {
                assert(sum % 16 == al + bl);
            }
        } else {
            assert(dec % 100 == dec - 100);
            assert((dec - 100) / 10 == ah + bh - 9);
            assert((dec - 100) % 10 == al + bl - 10);
            if sum > 255 {
                assert(sum % 256 == sum - 256);
            } else {
                assert(sum % 256 == sum);
            }
            if al + bl > 15 {
                assert(sum % 16 == al + bl - 16);
            } else {
                assert(sum % 16 == al + bl);
            }
        }
    }
}

/// BCD subtraction correction, digit by digit.
proof fn lemma_daa_sub_digits(ah: int, al: int, bh: int, bl: int)
    requires
        0 <= ah <= 9, 0 <= al <= 9, 0 <= bh <= 9, 0 <= bl <= 9,
    ensures ({
        let diff = 16 * (ah - bh) + al - bl;
        let v = diff % 256;
        let adj = (if al < bl { 6int } else { 0 }) + (if diff < 0 { 0x60int } else { 0 });
        let dec = 10 * (ah - bh) + al - bl;
        &&& (v - adj) % 256 == ((dec % 100) / 10) * 16 + (dec % 100) % 10
        &&& (diff < 0) == (dec < 0)
    }),
{
    let diff = 16 * (ah - bh) + al - bl;
    let dec = 10 * (ah - bh) + al - bl;
    if al >= bl {
        if ah >= bh {
            assert(diff % 256 == diff);
            assert(dec % 100 == dec);
            assert(dec / 10 == ah - bh);
            assert(dec % 10 == al - bl);
        } else {
            assert(diff % 256 == diff + 256);
            assert(dec % 100 == dec + 100);
            assert((dec + 100) / 10 == ah - bh + 10);
            assert((dec + 100) % 10 == al - bl);
            assert((diff + 256 - 0x60) % 256 == diff + 256 - 0x60);
        }
    } else {
        if ah > bh {
            assert(diff % 256 == diff);
            assert(dec % 100 == dec);
            assert(dec / 10 == ah - bh - 1);
            assert(dec % 10 == al - bl + 10);
        } else {
            assert(diff % 256 == diff + 256);
            assert(dec % 100 == dec + 100);
            assert((dec + 100) / 10 == ah - bh + 9);
            assert((dec + 100) % 10 == al - bl + 10);
            assert((diff + 256 - 0x66) % 256 == diff + 256 - 0x66);
        }
    }
}

/// Lifts the digit-level addition fact to the byte-level `ADD`/`DAA` results.
proof fn lemma_daa_add_bytes(a: u8, b: u8, ah: int, al: int, bh: int, bl: int)
    requires
        is_bcd(a),
        is_bcd(b),
        ah == a / 16,
        al == a % 16,
        bh == b / 16,
        bl == b % 16,
        ({
            let sum = 16 * (ah + bh) + al + bl;
            let v = sum % 256;
            let adj = (if al + bl > 15 || v % 16 > 9 { 6int } else { 0 }) + (if sum > 255 || v > 0x99 { 0x60int } else { 0 });
            let dec = 10 * (ah + bh) + al + bl;
            &&& (v + adj) % 256 == ((dec % 100) / 10) * 16 + (dec % 100) % 10
            &&& (sum > 255 || v > 0x99) == (dec >= 100)
        }),
    ensures
        ({
            let s = adc8_spec(a, b, false);
            let d = daa_spec(s.value, false, s.h, s.c);
            &&& d.value == to_bcd((bcd_value(a) + bcd_value(b)) % 100)
            &&& d.c == (bcd_value(a) + bcd_value(b) >= 100)
            &&& !d.h
            &&& !d.n
        }),
{
    assert(a == 16 * ah + al);
    assert(b == 16 * bh + bl);
    let sum: int = a + b;
    let v: int = sum % 256;
    let s = adc8_spec(a, b, false);
    assert(s.value as int == v);
    assert(s.h == (al + bl > 15));
    assert(s.c == (sum > 255));
    assert(bcd_value(a) + bcd_value(b) == 10 * (ah + bh) + al + bl);
    assert(daa_adjust(s.value, false, s.h, s.c) == (if al + bl > 15 || v % 16 > 9 { 6int } else { 0 })
        + (if sum > 255 || v > 0x99 { 0x60int } else { 0 }));
}

/// Lifts the digit-level subtraction fact to the byte-level `SUB`/`DAA` results.
proof fn lemma_daa_sub_bytes(a: u8, b: u8, ah: int, al: int, bh: int, bl: int)
    requires
        is_bcd(a),
        is_bcd(b),
        ah == a / 16,
        al == a % 16,
        bh == b / 16,
        bl == b % 16,
        ({
            let diff = 16 * (ah - bh) + al - bl;
            let v = diff % 256;
            let adj = (if al < bl { 6int } else { 0 }) + (if diff < 0 { 0x60int } else { 0 });
            let dec = 10 * (ah - bh) + al - bl;
            &&& (v - adj) % 256 == ((dec % 100) / 10) * 16 + (dec % 100) % 10
            &&& (diff < 0) == (dec < 0)
        }),
    ensures
        ({
            let s = sbc8_spec(a, b, false);
            let d = daa_spec(s.value, true, s.h, s.c);
            &&& d.value == to_bcd((bcd_value(a) - bcd_value(b)) % 100)
            &&& d.c == (bcd_value(a) < bcd_value(b))
        }),
{
    assert(a == 16 * ah + al);
    assert(b == 16 * bh + bl);
    let diff: int = a - b;
    let v: int = diff % 256;
    let s = sbc8_spec(a, b, false);
    assert(s.value as int == v);
    assert(s.h == (al < bl));
    assert(s.c == (diff < 0));
    assert(bcd_value(a) - bcd_value(b) == 10 * (ah - bh) + al - bl);
    assert(daa_adjust(s.value, true, s.h, s.c) == (if al < bl { 6int } else { 0 })
        + (if diff < 0 { 0x60int } else { 0 }));
}

/// `ADD` (as `add8` computes it) of two BCD bytes followed by `DAA` yields
/// the BCD sum modulo 100, with carry set exactly when the decimal sum
/// reaches 100, and H and N clear.
pub proof fn lemma_daa_after_bcd_add(a: u8, b: u8)
    requires
        is_bcd(a),
        is_bcd(b),
    ensures
        ({
            let s = adc8_spec(a, b, false);
            let d = daa_spec(s.value, false, s.h, s.c);
            &&& d.value == to_bcd((bcd_value(a) + bcd_value(b)) % 100)
            &&& d.c == (bcd_value(a) + bcd_value(b) >= 100)
            &&& !d.h
            &&& !d.n
        }),
{
    let ah: int = (a / 16) as int;
    let al: int = (a % 16) as int;
    let bh: int = (b / 16) as int;
    let bl: int = (b % 16) as int;
    lemma_daa_add_digits(ah, al, bh, bl);
    lemma_daa_add_bytes(a, b, ah, al, bh, bl);
}

/// `SUB` (as `sub8` computes it) of two BCD bytes followed by `DAA` yields
/// the BCD difference modulo 100, with carry (borrow) set exactly when the
/// subtrahend is larger, H clear and N set.
#[verifier::spinoff_prover]
pub proof fn lemma_daa_after_bcd_sub(a: u8, b: u8)
    requires
        is_bcd(a),
        is_bcd(b),
    ensures
        ({
            let s = sbc8_spec(a, b, false);
            let d = daa_spec(s.value, true, s.h, s.c);
            &&& d.value == to_bcd((bcd_value(a) - bcd_value(b)) % 100)
            &&& d.value == to_bcd((bcd_value(a) + 100 - bcd_value(b)) % 100)
            &&& d.c == (bcd_value(a) < bcd_value(b))
            &&& !d.h
            &&& d.n
        }),
{
    let ah: int = (a / 16) as int;
    let al: int = (a % 16) as int;
    let bh: int = (b / 16) as int;
    let bl: int = (b % 16) as int;
    lemma_daa_sub_digits(ah, al, bh, bl);
    lemma_daa_sub_bytes(a, b, ah, al, bh, bl);
    let k: int = bcd_value(a) - bcd_value(b);
    assert(k % 100 == (k + 100) % 100) by (nonlinear_arith)
        requires
            -99 <= k <= 99,
    ;
    assert(bcd_value(a) + 100 - bcd_value(b) == k + 100);
}

} // verus!
