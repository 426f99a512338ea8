//! Bit-level packing and unpacking of the fields of a 32-bit instruction word.
use vstd::prelude::*;

verus! {

/// The opcode field, bits [6:0].
pub open spec fn opcode_bits(n: u32) -> u32 {
    n & 0x7f
}

/// The rd field, bits [11:7].
pub open spec fn rd_bits(n: u32) -> u32 {
    (n & 0x1f) << 7u32
}

/// The funct3 field, bits [14:12].
pub open spec fn funct3_bits(n: u32) -> u32 {
    (n & 0x7) << 12u32
}

/// The rs1 field, bits [19:15].
pub open spec fn rs1_bits(n: u32) -> u32 {
    (n & 0x1f) << 15u32
}

/// The rs2 field, bits [24:20].
pub open spec fn rs2_bits(n: u32) -> u32 {
    (n & 0x1f) << 20u32
}

/// The funct7 field, bits [31:25].
pub open spec fn funct7_bits(n: u32) -> u32 {
    (n & 0x7f) << 25u32
}

/// I-type immediate: bits [11:0] of `n` in bits [31:20]; the encoded sign bit is bit 11 of `n`.
pub open spec fn i_imm_bits(n: u32) -> u32 {
    (n & 0xfff) << 20u32
}

/// S-type immediate: bits [11:5] in bits [31:25], bits [4:0] in bits [11:7].
pub open spec fn s_imm_bits(n: u32) -> u32 {
    (((n >> 5u32) & 0x7f) << 25u32) | ((n & 0x1f) << 7u32)
}

/// B-type immediate: bit 12 in bit 31, bits [10:5] in bits [30:25],
/// bits [4:1] in bits [11:8], bit 11 in bit 7.
pub open spec fn b_imm_bits(n: u32) -> u32 {
    (((n >> 12u32) & 1) << 31u32) | (((n >> 5u32) & 0x3f) << 25u32) | (((n >> 1u32) & 0xf)
        << 8u32) | (((n >> 11u32) & 1) << 7u32)
}

/// U-type immediate: the value already positioned in bits [31:12].
pub open spec fn u_imm_bits(n: u32) -> u32 {
    n & 0xffff_f000
}

/// J-type immediate: bit 20 in bit 31, bits [10:1] in bits [30:21],
/// bit 11 in bit 20, bits [19:12] in bits [19:12].
pub open spec fn j_imm_bits(n: u32) -> u32 {
    (((n >> 20u32) & 1) << 31u32) | (((n >> 1u32) & 0x3ff) << 21u32) | (((n >> 11u32) & 1)
        << 20u32) | (n & 0x000f_f000)
}

/// The opcode of a word.
pub open spec fn opcode_of(w: u32) -> u32 {
    w & 0x7f
}

/// The rd field of a word.
pub open spec fn rd_of(w: u32) -> u32 {
    (w >> 7u32) & 0x1f
}

/// The funct3 field of a word.
pub open spec fn funct3_of(w: u32) -> u32 {
    (w >> 12u32) & 0x7
}

/// The rs1 field of a word.
pub open spec fn rs1_of(w: u32) -> u32 {
    (w >> 15u32) & 0x1f
}

/// The rs2 field of a word.
pub open spec fn rs2_of(w: u32) -> u32 {
    (w >> 20u32) & 0x1f
}

/// The funct7 field of a word.
pub open spec fn funct7_of(w: u32) -> u32 {
    w >> 25u32
}

/// The 12 raw bits of an I-type immediate.
pub open spec fn i_field(w: u32) -> u32 {
    w >> 20u32
}

/// The 12 raw bits of an S-type immediate.
pub open spec fn s_field(w: u32) -> u32 {
    ((w >> 25u32) << 5u32) | ((w >> 7u32) & 0x1f)
}

/// The 13 raw bits of a B-type immediate (bit 0 is zero).
pub open spec fn b_field(w: u32) -> u32 {
    ((w >> 31u32) << 12u32) | (((w >> 7u32) & 1) << 11u32) | (((w >> 25u32) & 0x3f) << 5u32) | (((
    w >> 8u32) & 0xf) << 1u32)
}

/// The upper 20 bits of a U-type word, left in place.
pub open spec fn u_field(w: u32) -> u32 {
    w & 0xffff_f000
}

/// The 21 raw bits of a J-type immediate (bit 0 is zero).
pub open spec fn j_field(w: u32) -> u32 {
    ((w >> 31u32) << 20u32) | (w & 0x000f_f000) | (((w >> 20u32) & 1) << 11u32) | (((w >> 21u32)
        & 0x3ff) << 1u32)
}

/// `v` read as a two's-complement number whose sign bit is worth `half`.
pub open spec fn sext(v: int, half: int) -> int {
    if v >= half {
        v - 2 * half
    } else {
        v
    }
}

/// The 32-bit pattern of a signed value.
pub open spec fn bits_of(n: i32) -> u32 {
    (if n >= 0 {
        n as int
    } else {
        n + 0x1_0000_0000
    }) as u32
}

pub fn encode_opcode(n: u32) -> (r: u32)
    ensures
        r == opcode_bits(n),
{
    n & 0x7f
}

pub fn encode_rd(n: u32) -> (r: u32)
    ensures
        r == rd_bits(n),
{
    (n & 0x1f) << 7u32
}

pub fn encode_funct3(n: u32) -> (r: u32)
    ensures
        r == funct3_bits(n),
{
    (n & 0x7) << 12u32
}

pub fn encode_rs1(n: u32) -> (r: u32)
    ensures
        r == rs1_bits(n),
{
    (n & 0x1f) << 15u32
}

pub fn encode_rs2(n: u32) -> (r: u32)
    ensures
        r == rs2_bits(n),
{
    (n & 0x1f) << 20u32
}

pub fn encode_funct7(n: u32) -> (r: u32)
    ensures
        r == funct7_bits(n),
{
    (n & 0x7f) << 25u32
}

pub fn encode_i_imm(n: u32) -> (r: u32)
    ensures
        r == i_imm_bits(n),
{
    (n & 0xfff) << 20u32
}

pub fn encode_s_imm(n: u32) -> (r: u32)
    ensures
        r == s_imm_bits(n),
{
    (((n >> 5u32) & 0x7f) << 25u32) | ((n & 0x1f) << 7u32)
}

pub fn encode_b_imm(n: u32) -> (r: u32)
    ensures
        r == b_imm_bits(n),
{
    (((n >> 12u32) & 1) << 31u32) | (((n >> 5u32) & 0x3f) << 25u32) | (((n >> 1u32) & 0xf) << 8u32)
        | (((n >> 11u32) & 1) << 7u32)
}

pub fn encode_u_imm(n: u32) -> (r: u32)
    ensures
        r == u_imm_bits(n),
{
    n & 0xffff_f000
}

pub fn encode_j_imm(n: u32) -> (r: u32)
    ensures
        r == j_imm_bits(n),
{
    (((n >> 20u32) & 1) << 31u32) | (((n >> 1u32) & 0x3ff) << 21u32) | (((n >> 11u32) & 1)
        << 20u32) | (n & 0x000f_f000)
}

/// The two's-complement bit pattern of `n`.
pub fn to_bits(n: i32) -> (r: u32)
    ensures
        r == bits_of(n),
{
    if n >= 0 {
        n as u32
    } else {
        (n as i64 + 0x1_0000_0000i64) as u32
    }
}

/// Reads the low bits `v < 2 * half` as a signed value whose sign bit is worth `half`.
pub fn sign_extend(v: u32, half: u32) -> (r: i32)
    requires
        half == 0x800 || half == 0x1000 || half == 0x10_0000,
        v < 2 * half,
    ensures
        r as int == sext(v as int, half as int),
{
    if v >= half {
        (v as i32) - (2 * half) as i32
    } else {
        v as i32
    }
}

/// Reads a whole word as a signed value.
pub fn word_to_signed(v: u32) -> (r: i32)
    ensures
        r as int == sext(v as int, 0x8000_0000),
{
    if v >= 0x8000_0000 {
        (v as i64 - 0x1_0000_0000i64) as i32
    } else {
        v as i32
    }
}

pub fn decode_opcode(w: u32) -> (r: u32)
    ensures
        r == opcode_of(w),
{
    w & 0x7f
}

pub fn decode_rd(w: u32) -> (r: u32)
    ensures
        r == rd_of(w),
{
    (w >> 7u32) & 0x1f
}

pub fn decode_funct3(w: u32) -> (r: u32)
    ensures
        r == funct3_of(w),
{
    (w >> 12u32) & 0x7
}

pub fn decode_rs1(w: u32) -> (r: u32)
    ensures
        r == rs1_of(w),
{
    (w >> 15u32) & 0x1f
}

pub fn decode_rs2(w: u32) -> (r: u32)
    ensures
        r == rs2_of(w),
{
    (w >> 20u32) & 0x1f
}

pub fn decode_funct7(w: u32) -> (r: u32)
    ensures
        r == funct7_of(w),
{
    w >> 25u32
}

/// The sign-extended I-type immediate of a word.
pub fn decode_i_imm(w: u32) -> (r: i32)
    ensures
        r as int == sext(i_field(w) as int, 0x800),
{
    let v = w >> 20u32;
    assert(w >> 20u32 < 0x1000) by (bit_vector);
    sign_extend(v, 0x800)
}

/// The sign-extended S-type immediate of a word.
pub fn decode_s_imm(w: u32) -> (r: i32)
    ensures
        r as int == sext(s_field(w) as int, 0x800),
{
    let v = ((w >> 25u32) << 5u32) | ((w >> 7u32) & 0x1f);
    assert((((w >> 25u32) << 5u32) | ((w >> 7u32) & 0x1f)) < 0x1000) by (bit_vector);
    sign_extend(v, 0x800)
}

/// The sign-extended B-type immediate of a word.
pub fn decode_b_imm(w: u32) -> (r: i32)
    ensures
        r as int == sext(b_field(w) as int, 0x1000),
{
    let v = ((w >> 31u32) << 12u32) | (((w >> 7u32) & 1) << 11u32) | (((w >> 25u32) & 0x3f) << 5u32)
        | (((w >> 8u32) & 0xf) << 1u32);
    assert(b_field(w) < 0x2000) by (bit_vector);
    sign_extend(v, 0x1000)
}

/// The U-type immediate of a word, in place, as a signed value.
pub fn decode_u_imm(w: u32) -> (r: i32)
    ensures
        r as int == sext(u_field(w) as int, 0x8000_0000),
{
    word_to_signed(w & 0xffff_f000)
}

/// The sign-extended J-type immediate of a word.
pub fn decode_j_imm(w: u32) -> (r: i32)
    ensures
        r as int == sext(j_field(w) as int, 0x10_0000),
{
    let v = ((w >> 31u32) << 20u32) | (w & 0x000f_f000) | (((w >> 20u32) & 1) << 11u32) | (((w
        >> 21u32) & 0x3ff) << 1u32);
    assert(j_field(w) < 0x20_0000) by (bit_vector);
    sign_extend(v, 0x10_0000)
}

} // verus!
