//! Packing operand fields into an instruction word, with range checks.
use vstd::prelude::*;

use crate::codec::{
    bits_of, encode_b_imm, encode_funct3, encode_funct7, encode_i_imm, encode_j_imm,
    encode_opcode, encode_rd, encode_rs1, encode_rs2, encode_s_imm, encode_u_imm, to_bits,
};
use crate::error::AssemblerError;
use crate::format::{fits, imm_fits, pack, Fields, InstructionFormat};

verus! {

/// Places a 5-bit unsigned immediate in bits [19:15] of `ir`; fails when it is 32 or more.
pub fn encode_csr_uimm(ir: u32, uimm: u32) -> (r: Result<u32, AssemblerError>)
    ensures
        uimm < 32 ==> r == Ok::<u32, AssemblerError>(ir | (uimm << 15u32)),
        uimm >= 32 ==> r == Err::<u32, AssemblerError>(AssemblerError::ImmediateTooLargeError),
{
    assert(1u32 << 5u32 == 32) by (bit_vector);
    if uimm >= (1u32 << 5u32) {
        Err(AssemblerError::ImmediateTooLargeError)
    } else {
        Ok(ir | uimm << 15u32)
    }
}

/// Places a 12-bit CSR index in bits [31:20] of `ir`; fails when it is 4096 or more.
pub fn encode_csr_index(ir: u32, csr: u32) -> (r: Result<u32, AssemblerError>)
    ensures
        csr < 4096 ==> r == Ok::<u32, AssemblerError>(ir | (csr << 20u32)),
        csr >= 4096 ==> r == Err::<u32, AssemblerError>(AssemblerError::ImmediateTooLargeError),
{
    assert(1u32 << 12u32 == 4096) by (bit_vector);
    if csr >= (1u32 << 12u32) {
        Err(AssemblerError::ImmediateTooLargeError)
    } else {
        Ok(ir | csr << 20u32)
    }
}

/// Whether the immediate is representable in the format.
pub fn imm_fits_in(fmt: InstructionFormat, imm: i32) -> (r: bool)
    ensures
        r == imm_fits(fmt, imm as int),
{
    let u = to_bits(imm);
    let even = u & 1 == 0;
    let low_clear = u & 0xfff == 0;
    assert(even == (u % 2 == 0)) by (bit_vector)
        requires
            even == (u & 1 == 0),
    ;
    assert(low_clear == (u % 4096 == 0)) by (bit_vector)
        requires
            low_clear == (u & 0xfff == 0),
    ;
    assert(u % 2 == imm % 2 && u % 4096 == imm % 4096);
    match fmt {
        InstructionFormat::R => true,
        InstructionFormat::I | InstructionFormat::S => -2048 <= imm && imm <= 2047,
        InstructionFormat::B => -4096 <= imm && imm <= 4094 && even,
        InstructionFormat::U => low_clear,
        InstructionFormat::J => -0x10_0000 <= imm && imm <= 0x0f_fffe && even,
        InstructionFormat::CsrUimm | InstructionFormat::CsrIndex => 0 <= imm && imm < 4096,
    }
}

/// Whether every field that the format uses fits its width.
pub fn fields_fit(fmt: InstructionFormat, f: &Fields) -> (r: bool)
    ensures
        r == fits(fmt, *f),
{
    let rd_ok = matches!(fmt, InstructionFormat::S | InstructionFormat::B) || f.rd < 32;
    let f3_rs1_ok = matches!(fmt, InstructionFormat::U | InstructionFormat::J) || (f.funct3 < 8
        && f.rs1 < 32);
    let rs2_ok = !matches!(fmt, InstructionFormat::R | InstructionFormat::S | InstructionFormat::B)
        || f.rs2 < 32;
    let f7_ok = !matches!(fmt, InstructionFormat::R) || f.funct7 < 128;
    f.opcode < 128 && rd_ok && f3_rs1_ok && rs2_ok && f7_ok && imm_fits_in(fmt, f.imm)
}

/// Packs the fields into a word of the given format. Fails, producing no word, when a field
/// that the format uses does not fit its width.
pub fn encode(fmt: InstructionFormat, f: &Fields) -> (r: Result<u32, AssemblerError>)
    ensures
        fits(fmt, *f) ==> r == Ok::<u32, AssemblerError>(pack(fmt, *f)),
        !fits(fmt, *f) ==> r == Err::<u32, AssemblerError>(AssemblerError::ImmediateTooLargeError),
{
    if !fields_fit(fmt, f) {
        return Err(AssemblerError::ImmediateTooLargeError);
    }
    let u = to_bits(f.imm);
    let op = encode_opcode(f.opcode);
    match fmt {
        InstructionFormat::R => Ok(op | encode_rd(f.rd) | encode_funct3(f.funct3) | encode_rs1(
            f.rs1,
        ) | encode_rs2(f.rs2) | encode_funct7(f.funct7)),
        InstructionFormat::I => Ok(op | encode_rd(f.rd) | encode_funct3(f.funct3) | encode_rs1(
            f.rs1,
        ) | encode_i_imm(u)),
        InstructionFormat::S => Ok(op | encode_funct3(f.funct3) | encode_rs1(f.rs1) | encode_rs2(
            f.rs2,
        ) | encode_s_imm(u)),
        InstructionFormat::B => Ok(op | encode_funct3(f.funct3) | encode_rs1(f.rs1) | encode_rs2(
            f.rs2,
        ) | encode_b_imm(u)),
        InstructionFormat::U => Ok(op | encode_rd(f.rd) | encode_u_imm(u)),
        InstructionFormat::J => Ok(op | encode_rd(f.rd) | encode_j_imm(u)),
        InstructionFormat::CsrUimm => {
            let ir = op | encode_rd(f.rd) | encode_funct3(f.funct3);
            match encode_csr_uimm(ir, f.rs1) {
                Ok(ir) => encode_csr_index(ir, u),
                Err(e) => Err(e),
            }
        },
        InstructionFormat::CsrIndex => {
            let ir = op | encode_rd(f.rd) | encode_funct3(f.funct3) | encode_rs1(f.rs1);
            encode_csr_index(ir, u)
        },
    }
}

} // verus!
