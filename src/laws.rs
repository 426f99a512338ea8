//! Properties that relate packing and unpacking.
use vstd::prelude::*;

use crate::codec::{
    b_field, b_imm_bits, bits_of, funct3_bits, funct3_of, funct7_bits, funct7_of, i_field,
    i_imm_bits, j_field, j_imm_bits, opcode_bits, opcode_of, rd_bits, rd_of, rs1_bits, rs1_of,
    rs2_bits, rs2_of, s_field, s_imm_bits, sext, u_field, u_imm_bits,
};
use crate::decode::{classify, decode_spec, format_of, DecodedInstruction, Op};
use crate::error::RiscvError;
use crate::format::{fits, keep, pack, unpack, Fields, InstructionFormat};
use crate::resources::{reg_update, reg_value};

verus! {

proof fn lemma_r_word(op: u32, rd: u32, f3: u32, rs1: u32, rs2: u32, f7: u32, w: u32)
    by (bit_vector)
    requires
        op < 128 && rd < 32 && f3 < 8 && rs1 < 32 && rs2 < 32 && f7 < 128,
        w == opcode_bits(op) | rd_bits(rd) | funct3_bits(f3) | rs1_bits(rs1) | rs2_bits(rs2)
            | funct7_bits(f7),
    ensures
        opcode_of(w) == op && rd_of(w) == rd && funct3_of(w) == f3 && rs1_of(w) == rs1 && rs2_of(w)
            == rs2 && funct7_of(w) == f7,
{
}

proof fn lemma_i_word(op: u32, rd: u32, f3: u32, rs1: u32, u: u32, w: u32)
    by (bit_vector)
    requires
        op < 128 && rd < 32 && f3 < 8 && rs1 < 32,
        u < 0x800 || u >= 0xffff_f800,
        w == opcode_bits(op) | rd_bits(rd) | funct3_bits(f3) | rs1_bits(rs1) | i_imm_bits(u),
    ensures
        opcode_of(w) == op && rd_of(w) == rd && funct3_of(w) == f3 && rs1_of(w) == rs1,
        u < 0x800 ==> i_field(w) == u,
        u >= 0xffff_f800 ==> i_field(w) == u - 0xffff_f000,
{
}

proof fn lemma_s_word(op: u32, f3: u32, rs1: u32, rs2: u32, u: u32, w: u32)
    by (bit_vector)
    requires
        op < 128 && f3 < 8 && rs1 < 32 && rs2 < 32,
        u < 0x800 || u >= 0xffff_f800,
        w == opcode_bits(op) | funct3_bits(f3) | rs1_bits(rs1) | rs2_bits(rs2) | s_imm_bits(u),
    ensures
        opcode_of(w) == op && funct3_of(w) == f3 && rs1_of(w) == rs1 && rs2_of(w) == rs2,
        u < 0x800 ==> s_field(w) == u,
        u >= 0xffff_f800 ==> s_field(w) == u - 0xffff_f000,
{
}

proof fn lemma_b_word(op: u32, f3: u32, rs1: u32, rs2: u32, u: u32, w: u32)
    by (bit_vector)
    requires
        op < 128 && f3 < 8 && rs1 < 32 && rs2 < 32,
        u < 0x1000 || u >= 0xffff_f000,
        u % 2 == 0,
        w == opcode_bits(op) | funct3_bits(f3) | rs1_bits(rs1) | rs2_bits(rs2) | b_imm_bits(u),
    ensures
        opcode_of(w) == op && funct3_of(w) == f3 && rs1_of(w) == rs1 && rs2_of(w) == rs2,
        u < 0x1000 ==> b_field(w) == u,
        u >= 0xffff_f000 ==> b_field(w) == u - 0xffff_e000,
{
}

proof fn lemma_u_word(op: u32, rd: u32, u: u32, w: u32)
    by (bit_vector)
    requires
        op < 128 && rd < 32,
        u % 4096 == 0,
        w == opcode_bits(op) | rd_bits(rd) | u_imm_bits(u),
    ensures
        opcode_of(w) == op && rd_of(w) == rd && u_field(w) == u,
{
}

proof fn lemma_j_word(op: u32, rd: u32, u: u32, w: u32)
    by (bit_vector)
    requires
        op < 128 && rd < 32,
        u < 0x10_0000 || u >= 0xfff0_0000,
        u % 2 == 0,
        w == opcode_bits(op) | rd_bits(rd) | j_imm_bits(u),
    ensures
        opcode_of(w) == op && rd_of(w) == rd,
        u < 0x10_0000 ==> j_field(w) == u,
        u >= 0xfff0_0000 ==> j_field(w) == u - 0xffe0_0000,
{
}

proof fn lemma_csr_word(op: u32, rd: u32, f3: u32, rs1: u32, u: u32, w: u32)
    by (bit_vector)
    requires
        op < 128 && rd < 32 && f3 < 8 && rs1 < 32 && u < 4096,
        w == opcode_bits(op) | rd_bits(rd) | funct3_bits(f3) | (rs1 << 15u32) | (u << 20u32)
            || w == opcode_bits(op) | rd_bits(rd) | funct3_bits(f3) | rs1_bits(rs1) | (u
            << 20u32),
    ensures
        opcode_of(w) == op && rd_of(w) == rd && funct3_of(w) == f3 && rs1_of(w) == rs1 && i_field(
            w,
        ) == u,
{
}

/// Packing fields that fit a format and unpacking the word in the same format gives back
/// every field that the format uses, the immediate with its sign.
pub proof fn lemma_round_trip(fmt: InstructionFormat, f: Fields)
    requires
        fits(fmt, f),
    ensures
        unpack(fmt, pack(fmt, f)) == keep(fmt, f),
{
    let w = pack(fmt, f);
    let u = bits_of(f.imm);
    match fmt {
        InstructionFormat::R => {
            lemma_r_word(f.opcode, f.rd, f.funct3, f.rs1, f.rs2, f.funct7, w);
        },
        InstructionFormat::I => {
            lemma_i_word(f.opcode, f.rd, f.funct3, f.rs1, u, w);
        },
        InstructionFormat::S => {
            lemma_s_word(f.opcode, f.funct3, f.rs1, f.rs2, u, w);
        },
        InstructionFormat::B => {
            lemma_b_word(f.opcode, f.funct3, f.rs1, f.rs2, u, w);
        },
        InstructionFormat::U => {
            lemma_u_word(f.opcode, f.rd, u, w);
        },
        InstructionFormat::J => {
            lemma_j_word(f.opcode, f.rd, u, w);
        },
        InstructionFormat::CsrUimm | InstructionFormat::CsrIndex => {
            lemma_csr_word(f.opcode, f.rd, f.funct3, f.rs1, u, w);
        },
    }
    assert(unpack(fmt, w) == keep(fmt, f));
}

/// For every I-type immediate in [-2048, 2047], reading back the packed word gives exactly
/// that signed value.
pub proof fn lemma_i_sign_extension(f: Fields)
    requires
        fits(InstructionFormat::I, f),
    ensures
        unpack(InstructionFormat::I, pack(InstructionFormat::I, f)).imm == f.imm,
        sext(i_field(pack(InstructionFormat::I, f)) as int, 0x800) == f.imm as int,
{
    lemma_round_trip(InstructionFormat::I, f);
    let w = pack(InstructionFormat::I, f);
    lemma_i_word(f.opcode, f.rd, f.funct3, f.rs1, bits_of(f.imm), w);
}

proof fn lemma_r_isolation(op: u32, rd: u32, f3: u32, rs1: u32, a: u32, b: u32, f7: u32)
    by (bit_vector)
    requires
        op < 128 && rd < 32 && f3 < 8 && rs1 < 32 && a < 32 && b < 32 && f7 < 128,
    ensures
        (opcode_bits(op) | rd_bits(rd) | funct3_bits(f3) | rs1_bits(rs1) | rs2_bits(a)
            | funct7_bits(f7)) & !0x01f0_0000u32 == (opcode_bits(op) | rd_bits(rd) | funct3_bits(
            f3,
        ) | rs1_bits(rs1) | rs2_bits(b) | funct7_bits(f7)) & !0x01f0_0000u32,
{
}

/// In an R-type word, changing rs2 alone changes no bit outside bits [24:20]: the opcode,
/// rd, funct3, rs1 and funct7 bits stay as they were.
pub proof fn lemma_r_field_isolation(f: Fields, rs2: u32)
    requires
        fits(InstructionFormat::R, f),
        rs2 < 32,
    ensures
        pack(InstructionFormat::R, f) & !0x01f0_0000u32 == pack(
            InstructionFormat::R,
            Fields { rs2, ..f },
        ) & !0x01f0_0000u32,
{
    lemma_r_isolation(f.opcode, f.rd, f.funct3, f.rs1, f.rs2, rs2, f.funct7);
}

/// Decoding a word packed from fields that fit the format of the operation its opcode,
/// funct3 and funct7 select gives that operation, that format, and the fields back.
pub proof fn lemma_decode_after_encode(op: Op, f: Fields)
    requires
        fits(format_of(op), f),
        classify(
            opcode_of(pack(format_of(op), f)),
            funct3_of(pack(format_of(op), f)),
            funct7_of(pack(format_of(op), f)),
        ) == Some(op),
    ensures
        decode_spec(pack(format_of(op), f)) == Ok::<DecodedInstruction, RiscvError>(
            DecodedInstruction { op, format: format_of(op), fields: keep(format_of(op), f) },
        ),
{
    lemma_round_trip(format_of(op), f);
}

/// Whatever is written to register 0, it reads back as 0.
pub proof fn lemma_register_zero(regs: Seq<u32>, v: u32)
    ensures
        reg_value(reg_update(regs, 0, v), 0) == 0,
{
}

proof fn lemma_high_bits(v: u32)
    by (bit_vector)
    ensures
        v < 0x1000 ==> (v | 0xffff_f000) == v + 0xffff_f000,
        v < 0x2000 ==> (v | 0xffff_e000) == v + 0xffff_e000,
        v < 0x20_0000 ==> (v | 0xffe0_0000) == v + 0xffe0_0000,
{
}

proof fn lemma_word_fields(w: u32)
    by (bit_vector)
    ensures
        opcode_of(w) < 128 && rd_of(w) < 32 && funct3_of(w) < 8 && rs1_of(w) < 32 && rs2_of(w)
            < 32 && funct7_of(w) < 128,
        i_field(w) < 0x1000 && s_field(w) < 0x1000,
        b_field(w) < 0x2000 && b_field(w) % 2 == 0,
        u_field(w) % 4096 == 0,
        j_field(w) < 0x20_0000 && j_field(w) % 2 == 0,
        opcode_bits(opcode_of(w)) | rd_bits(rd_of(w)) | funct3_bits(funct3_of(w)) | rs1_bits(
            rs1_of(w),
        ) | rs2_bits(rs2_of(w)) | funct7_bits(funct7_of(w)) == w,
        opcode_bits(opcode_of(w)) | rd_bits(rd_of(w)) | funct3_bits(funct3_of(w)) | rs1_bits(
            rs1_of(w),
        ) | i_imm_bits(i_field(w)) == w,
        opcode_bits(opcode_of(w)) | rd_bits(rd_of(w)) | funct3_bits(funct3_of(w)) | rs1_bits(
            rs1_of(w),
        ) | i_imm_bits(i_field(w) | 0xffff_f000) == w,
        opcode_bits(opcode_of(w)) | rd_bits(rd_of(w)) | funct3_bits(funct3_of(w)) | (rs1_of(w)
            << 15u32) | (i_field(w) << 20u32) == w,
        opcode_bits(opcode_of(w)) | rd_bits(rd_of(w)) | funct3_bits(funct3_of(w)) | rs1_bits(
            rs1_of(w),
        ) | (i_field(w) << 20u32) == w,
        opcode_bits(opcode_of(w)) | funct3_bits(funct3_of(w)) | rs1_bits(rs1_of(w)) | rs2_bits(
            rs2_of(w),
        ) | s_imm_bits(s_field(w)) == w,
        opcode_bits(opcode_of(w)) | funct3_bits(funct3_of(w)) | rs1_bits(rs1_of(w)) | rs2_bits(
            rs2_of(w),
        ) | s_imm_bits(s_field(w) | 0xffff_f000) == w,
        opcode_bits(opcode_of(w)) | funct3_bits(funct3_of(w)) | rs1_bits(rs1_of(w)) | rs2_bits(
            rs2_of(w),
        ) | b_imm_bits(b_field(w)) == w,
        opcode_bits(opcode_of(w)) | funct3_bits(funct3_of(w)) | rs1_bits(rs1_of(w)) | rs2_bits(
            rs2_of(w),
        ) | b_imm_bits(b_field(w) | 0xffff_e000) == w,
        opcode_bits(opcode_of(w)) | rd_bits(rd_of(w)) | u_imm_bits(u_field(w)) == w,
        opcode_bits(opcode_of(w)) | rd_bits(rd_of(w)) | j_imm_bits(j_field(w)) == w,
        opcode_bits(opcode_of(w)) | rd_bits(rd_of(w)) | j_imm_bits(j_field(w) | 0xffe0_0000)
            == w,
{
}

/// Every word is the packing of the fields it holds, in every format: those fields fit the
/// format, and packing them gives back the word bit for bit.
pub proof fn lemma_unpack_pack(fmt: InstructionFormat, w: u32)
    ensures
        fits(fmt, unpack(fmt, w)),
        pack(fmt, unpack(fmt, w)) == w,
{
    lemma_word_fields(w);
    lemma_high_bits(i_field(w));
    lemma_high_bits(s_field(w));
    lemma_high_bits(b_field(w));
    lemma_high_bits(j_field(w));
    let f = unpack(fmt, w);
    assert(fits(fmt, f));
    assert(pack(fmt, f) == w);
}

/// Encoding the fields of a decoded word in its format gives back the word.
pub proof fn lemma_encode_after_decode(w: u32)
    requires
        decode_spec(w) is Ok,
    ensures
        fits(decode_spec(w)->Ok_0.format, decode_spec(w)->Ok_0.fields),
        pack(decode_spec(w)->Ok_0.format, decode_spec(w)->Ok_0.fields) == w,
{
    let op = decode_spec(w)->Ok_0.op;
    lemma_unpack_pack(format_of(op), w);
}

} // verus!
