//! The instruction formats, their operand fields, and how a word is read back into them.
use vstd::prelude::*;

use crate::codec::{
    b_field, b_imm_bits, bits_of, decode_b_imm, decode_funct3, decode_funct7, decode_i_imm,
    decode_j_imm, decode_opcode, decode_rd, decode_rs1, decode_rs2, decode_s_imm, decode_u_imm,
    funct3_bits, funct3_of, funct7_bits, funct7_of, i_field, i_imm_bits, j_field, j_imm_bits,
    opcode_bits, opcode_of, rd_bits, rd_of, rs1_bits, rs1_of, rs2_bits, rs2_of, s_field, s_imm_bits,
    sext, u_field, u_imm_bits,
};

verus! {

/// The closed set of instruction layouts.
#[derive(Clone, Copy, Debug, PartialEq, Eq, Structural)]
pub enum InstructionFormat {
    R,
    I,
    S,
    B,
    U,
    J,
    /// I layout whose rs1 slot holds a 5-bit unsigned immediate and whose
    /// immediate is a 12-bit CSR index.
    CsrUimm,
    /// I layout whose immediate is a 12-bit unsigned CSR index.
    CsrIndex,
}

/// The operand fields of an instruction. A format uses some of them; the others are zero
/// when read back from a word.
#[derive(Clone, Copy, Debug, PartialEq, Eq, Structural)]
pub struct Fields {
    pub opcode: u32,
    pub rd: u32,
    pub funct3: u32,
    pub rs1: u32,
    pub rs2: u32,
    pub funct7: u32,
    /// The signed immediate; for the CSR formats, the unsigned CSR index.
    pub imm: i32,
}

pub open spec fn uses_rd(fmt: InstructionFormat) -> bool {
    !(fmt is S || fmt is B)
}

pub open spec fn uses_funct3(fmt: InstructionFormat) -> bool {
    !(fmt is U || fmt is J)
}

pub open spec fn uses_rs1(fmt: InstructionFormat) -> bool {
    !(fmt is U || fmt is J)
}

pub open spec fn uses_rs2(fmt: InstructionFormat) -> bool {
    fmt is R || fmt is S || fmt is B
}

pub open spec fn uses_funct7(fmt: InstructionFormat) -> bool {
    fmt is R
}

/// Whether the immediate is representable in the format.
pub open spec fn imm_fits(fmt: InstructionFormat, imm: int) -> bool {
    match fmt {
        InstructionFormat::R => true,
        InstructionFormat::I | InstructionFormat::S => -2048 <= imm <= 2047,
        InstructionFormat::B => -4096 <= imm <= 4094 && imm % 2 == 0,
        InstructionFormat::U => imm % 4096 == 0,
        InstructionFormat::J => -0x10_0000 <= imm <= 0x0f_fffe && imm % 2 == 0,
        InstructionFormat::CsrUimm | InstructionFormat::CsrIndex => 0 <= imm < 4096,
    }
}

/// Every field that the format uses fits its width.
pub open spec fn fits(fmt: InstructionFormat, f: Fields) -> bool {
    &&& f.opcode < 128
    &&& uses_rd(fmt) ==> f.rd < 32
    &&& uses_funct3(fmt) ==> f.funct3 < 8
    &&& uses_rs1(fmt) ==> f.rs1 < 32
    &&& uses_rs2(fmt) ==> f.rs2 < 32
    &&& uses_funct7(fmt) ==> f.funct7 < 128
    &&& imm_fits(fmt, f.imm as int)
}

/// The fields that the format uses, the others set to zero.
pub open spec fn keep(fmt: InstructionFormat, f: Fields) -> Fields {
    Fields {
        opcode: f.opcode,
        rd: if uses_rd(fmt) { f.rd } else { 0 },
        funct3: if uses_funct3(fmt) { f.funct3 } else { 0 },
        rs1: if uses_rs1(fmt) { f.rs1 } else { 0 },
        rs2: if uses_rs2(fmt) { f.rs2 } else { 0 },
        funct7: if uses_funct7(fmt) { f.funct7 } else { 0 },
        imm: if fmt is R { 0 } else { f.imm },
    }
}

/// The word that holds the fields in the format's layout.
pub open spec fn pack(fmt: InstructionFormat, f: Fields) -> u32 {
    let u = bits_of(f.imm);
    match fmt {
        InstructionFormat::R => opcode_bits(f.opcode) | rd_bits(f.rd) | funct3_bits(f.funct3)
            | rs1_bits(f.rs1) | rs2_bits(f.rs2) | funct7_bits(f.funct7),
        InstructionFormat::I => opcode_bits(f.opcode) | rd_bits(f.rd) | funct3_bits(f.funct3)
            | rs1_bits(f.rs1) | i_imm_bits(u),
        InstructionFormat::S => opcode_bits(f.opcode) | funct3_bits(f.funct3) | rs1_bits(f.rs1)
            | rs2_bits(f.rs2) | s_imm_bits(u),
        InstructionFormat::B => opcode_bits(f.opcode) | funct3_bits(f.funct3) | rs1_bits(f.rs1)
            | rs2_bits(f.rs2) | b_imm_bits(u),
        InstructionFormat::U => opcode_bits(f.opcode) | rd_bits(f.rd) | u_imm_bits(u),
        InstructionFormat::J => opcode_bits(f.opcode) | rd_bits(f.rd) | j_imm_bits(u),
        InstructionFormat::CsrUimm => opcode_bits(f.opcode) | rd_bits(f.rd) | funct3_bits(f.funct3)
            | (f.rs1 << 15u32) | (u << 20u32),
        InstructionFormat::CsrIndex => opcode_bits(f.opcode) | rd_bits(f.rd) | funct3_bits(
            f.funct3,
        ) | rs1_bits(f.rs1) | (u << 20u32),
    }
}

/// The immediate that a word holds in the format.
pub open spec fn imm_of(fmt: InstructionFormat, w: u32) -> int {
    match fmt {
        InstructionFormat::R => 0,
        InstructionFormat::I => sext(i_field(w) as int, 0x800),
        InstructionFormat::S => sext(s_field(w) as int, 0x800),
        InstructionFormat::B => sext(b_field(w) as int, 0x1000),
        InstructionFormat::U => sext(u_field(w) as int, 0x8000_0000),
        InstructionFormat::J => sext(j_field(w) as int, 0x10_0000),
        InstructionFormat::CsrUimm | InstructionFormat::CsrIndex => i_field(w) as int,
    }
}

/// The fields that a word holds in the format; those it does not use are zero.
pub open spec fn unpack(fmt: InstructionFormat, w: u32) -> Fields {
    Fields {
        opcode: opcode_of(w),
        rd: if uses_rd(fmt) { rd_of(w) } else { 0 },
        funct3: if uses_funct3(fmt) { funct3_of(w) } else { 0 },
        rs1: if uses_rs1(fmt) { rs1_of(w) } else { 0 },
        rs2: if uses_rs2(fmt) { rs2_of(w) } else { 0 },
        funct7: if uses_funct7(fmt) { funct7_of(w) } else { 0 },
        imm: imm_of(fmt, w) as i32,
    }
}

/// Reads the fields of a word in the given format, sign-extending the immediate.
pub fn extract(fmt: InstructionFormat, w: u32) -> (r: Fields)
    ensures
        r == unpack(fmt, w),
        r.imm as int == imm_of(fmt, w),
{
    let uses_rd = !matches!(fmt, InstructionFormat::S | InstructionFormat::B);
    let uses_f3_rs1 = !matches!(fmt, InstructionFormat::U | InstructionFormat::J);
    let uses_rs2 = matches!(fmt, InstructionFormat::R | InstructionFormat::S | InstructionFormat::B);
    let imm: i32 = match fmt {
        InstructionFormat::R => 0,
        InstructionFormat::I => decode_i_imm(w),
        InstructionFormat::S => decode_s_imm(w),
        InstructionFormat::B => decode_b_imm(w),
        InstructionFormat::U => decode_u_imm(w),
        InstructionFormat::J => decode_j_imm(w),
        InstructionFormat::CsrUimm | InstructionFormat::CsrIndex => {
            assert(w >> 20u32 < 0x1000) by (bit_vector);
            (w >> 20u32) as i32
        },
    };
    Fields {
        opcode: decode_opcode(w),
        rd: if uses_rd { decode_rd(w) } else { 0 },
        funct3: if uses_f3_rs1 { decode_funct3(w) } else { 0 },
        rs1: if uses_f3_rs1 { decode_rs1(w) } else { 0 },
        rs2: if uses_rs2 { decode_rs2(w) } else { 0 },
        funct7: if matches!(fmt, InstructionFormat::R) { decode_funct7(w) } else { 0 },
        imm,
    }
}

} // verus!
