//! Classifying an instruction word and reading its operands.
use vstd::prelude::*;

use crate::codec::{decode_funct3, decode_funct7, decode_opcode, funct3_of, funct7_of, opcode_of};
use crate::error::RiscvError;
use crate::format::{extract, unpack, Fields, InstructionFormat};

verus! {

pub const OPCODE_LUI: u32 = 0x37;
pub const OPCODE_AUIPC: u32 = 0x17;
pub const OPCODE_JAL: u32 = 0x6f;
pub const OPCODE_JALR: u32 = 0x67;
pub const OPCODE_BRANCH: u32 = 0x63;
pub const OPCODE_LOAD: u32 = 0x03;
pub const OPCODE_STORE: u32 = 0x23;
pub const OPCODE_OP_IMM: u32 = 0x13;
pub const OPCODE_OP: u32 = 0x33;
pub const OPCODE_SYSTEM: u32 = 0x73;

/// The instructions of the RV32I base set and the CSR instructions.
#[derive(Clone, Copy, Debug, PartialEq, Eq, Structural)]
pub enum Op {
    Lui,
    Auipc,
    Jal,
    Jalr,
    Beq,
    Bne,
    Blt,
    Bge,
    Bltu,
    Bgeu,
    Lb,
    Lh,
    Lw,
    Lbu,
    Lhu,
    Sb,
    Sh,
    Sw,
    Addi,
    Slti,
    Sltiu,
    Xori,
    Ori,
    Andi,
    Slli,
    Srli,
    Srai,
    Add,
    Sub,
    Sll,
    Slt,
    Sltu,
    Xor,
    Srl,
    Sra,
    Or,
    And,
    Csrrw,
    Csrrs,
    Csrrc,
    Csrrwi,
    Csrrsi,
    Csrrci,
}

/// An instruction word read into its operation, format and operand fields.
#[derive(Clone, Copy, Debug, PartialEq, Eq, Structural)]
pub struct DecodedInstruction {
    pub op: Op,
    pub format: InstructionFormat,
    pub fields: Fields,
}

/// The layout in which an operation holds its operands.
pub open spec fn format_of(op: Op) -> InstructionFormat {
    match op {
        Op::Lui | Op::Auipc => InstructionFormat::U,
        Op::Jal => InstructionFormat::J,
        Op::Beq | Op::Bne | Op::Blt | Op::Bge | Op::Bltu | Op::Bgeu => InstructionFormat::B,
        Op::Sb | Op::Sh | Op::Sw => InstructionFormat::S,
        Op::Add | Op::Sub | Op::Sll | Op::Slt | Op::Sltu | Op::Xor | Op::Srl | Op::Sra | Op::Or
        | Op::And => InstructionFormat::R,
        Op::Csrrw | Op::Csrrs | Op::Csrrc => InstructionFormat::CsrIndex,
        Op::Csrrwi | Op::Csrrsi | Op::Csrrci => InstructionFormat::CsrUimm,
        _ => InstructionFormat::I,
    }
}

/// The operation that opcode, funct3 and funct7 select, if any.
pub open spec fn classify(opcode: u32, funct3: u32, funct7: u32) -> Option<Op> {
    if opcode == OPCODE_LUI {
        Some(Op::Lui)
    } else if opcode == OPCODE_AUIPC {
        Some(Op::Auipc)
    } else if opcode == OPCODE_JAL {
        Some(Op::Jal)
    } else if opcode == OPCODE_JALR {
        if funct3 == 0 { Some(Op::Jalr) } else { None }
    } else if opcode == OPCODE_BRANCH {
        if funct3 == 0 {
            Some(Op::Beq)
        } else if funct3 == 1 {
            Some(Op::Bne)
        } else if funct3 == 4 {
            Some(Op::Blt)
        } else if funct3 == 5 {
            Some(Op::Bge)
        } else if funct3 == 6 {
            Some(Op::Bltu)
        } else if funct3 == 7 {
            Some(Op::Bgeu)
        } else {
            None
        }
    } else if opcode == OPCODE_LOAD {
        if funct3 == 0 {
            Some(Op::Lb)
        } else if funct3 == 1 {
            Some(Op::Lh)
        } else if funct3 == 2 {
            Some(Op::Lw)
        } else if funct3 == 4 {
            Some(Op::Lbu)
        } else if funct3 == 5 {
            Some(Op::Lhu)
        } else {
            None
        }
    } else if opcode == OPCODE_STORE {
        if funct3 == 0 {
            Some(Op::Sb)
        } else if funct3 == 1 {
            Some(Op::Sh)
        } else if funct3 == 2 {
            Some(Op::Sw)
        } else {
            None
        }
    } else if opcode == OPCODE_OP_IMM {
        if funct3 == 0 {
            Some(Op::Addi)
        } else if funct3 == 2 {
            Some(Op::Slti)
        } else if funct3 == 3 {
            Some(Op::Sltiu)
        } else if funct3 == 4 {
            Some(Op::Xori)
        } else if funct3 == 6 {
            Some(Op::Ori)
        } else if funct3 == 7 {
            Some(Op::Andi)
        } else if funct3 == 1 && funct7 == 0 {
            Some(Op::Slli)
        } else if funct3 == 5 && funct7 == 0 {
            Some(Op::Srli)
        } else if funct3 == 5 && funct7 == 0x20 {
            Some(Op::Srai)
        } else {
            None
        }
    } else if opcode == OPCODE_OP {
        if funct7 == 0 {
            if funct3 == 0 {
                Some(Op::Add)
            } else if funct3 == 1 {
                Some(Op::Sll)
            } else if funct3 == 2 {
                Some(Op::Slt)
            } else if funct3 == 3 {
                Some(Op::Sltu)
            } else if funct3 == 4 {
                Some(Op::Xor)
            } else if funct3 == 5 {
                Some(Op::Srl)
            } else if funct3 == 6 {
                Some(Op::Or)
            } else {
                Some(Op::And)
            }
        } else if funct7 == 0x20 && funct3 == 0 {
            Some(Op::Sub)
        } else if funct7 == 0x20 && funct3 == 5 {
            Some(Op::Sra)
        } else {
            None
        }
    } else if opcode == OPCODE_SYSTEM {
        if funct3 == 1 {
            Some(Op::Csrrw)
        } else if funct3 == 2 {
            Some(Op::Csrrs)
        } else if funct3 == 3 {
            Some(Op::Csrrc)
        } else if funct3 == 5 {
            Some(Op::Csrrwi)
        } else if funct3 == 6 {
            Some(Op::Csrrsi)
        } else if funct3 == 7 {
            Some(Op::Csrrci)
        } else {
            None
        }
    } else {
        None
    }
}

/// What decoding a word gives: its operation, that operation's format, and the fields the
/// word holds in that format.
pub open spec fn decode_spec(w: u32) -> Result<DecodedInstruction, RiscvError> {
    match classify(opcode_of(w), funct3_of(w), funct7_of(w)) {
        Some(op) => Ok(
            DecodedInstruction { op, format: format_of(op), fields: unpack(format_of(op), w) },
        ),
        None => Err(RiscvError::IllegalInstruction),
    }
}

/// Register indices and, for the CSR instructions, the CSR index are within their ranges.
pub open spec fn well_formed(i: DecodedInstruction) -> bool {
    &&& i.fields.rd < 32
    &&& i.fields.rs1 < 32
    &&& i.fields.rs2 < 32
    &&& (i.format is CsrUimm || i.format is CsrIndex) ==> 0 <= i.fields.imm < 4096
    &&& i.format == format_of(i.op)
}

pub fn format_of_op(op: Op) -> (r: InstructionFormat)
    ensures
        r == format_of(op),
{
    match op {
        Op::Lui | Op::Auipc => InstructionFormat::U,
        Op::Jal => InstructionFormat::J,
        Op::Beq | Op::Bne | Op::Blt | Op::Bge | Op::Bltu | Op::Bgeu => InstructionFormat::B,
        Op::Sb | Op::Sh | Op::Sw => InstructionFormat::S,
        Op::Add | Op::Sub | Op::Sll | Op::Slt | Op::Sltu | Op::Xor | Op::Srl | Op::Sra | Op::Or
        | Op::And => InstructionFormat::R,
        Op::Csrrw | Op::Csrrs | Op::Csrrc => InstructionFormat::CsrIndex,
        Op::Csrrwi | Op::Csrrsi | Op::Csrrci => InstructionFormat::CsrUimm,
        _ => InstructionFormat::I,
    }
}

/// Selects the operation from opcode, funct3 and funct7.
pub fn classify_fields(opcode: u32, funct3: u32, funct7: u32) -> (r: Option<Op>)
    ensures
        r == classify(opcode, funct3, funct7),
{
    match opcode {
        OPCODE_LUI => Some(Op::Lui),
        OPCODE_AUIPC => Some(Op::Auipc),
        OPCODE_JAL => Some(Op::Jal),
        OPCODE_JALR => if funct3 == 0 { Some(Op::Jalr) } else { None },
        OPCODE_BRANCH => match funct3 {
            0 => Some(Op::Beq),
            1 => Some(Op::Bne),
            4 => Some(Op::Blt),
            5 => Some(Op::Bge),
            6 => Some(Op::Bltu),
            7 => Some(Op::Bgeu),
            _ => None,
        },
        OPCODE_LOAD => match funct3 {
            0 => Some(Op::Lb),
            1 => Some(Op::Lh),
            2 => Some(Op::Lw),
            4 => Some(Op::Lbu),
            5 => Some(Op::Lhu),
            _ => None,
        },
        OPCODE_STORE => match funct3 {
            0 => Some(Op::Sb),
            1 => Some(Op::Sh),
            2 => Some(Op::Sw),
            _ => None,
        },
        OPCODE_OP_IMM => match (funct3, funct7) {
            (0, _) => Some(Op::Addi),
            (2, _) => Some(Op::Slti),
            (3, _) => Some(Op::Sltiu),
            (4, _) => Some(Op::Xori),
            (6, _) => Some(Op::Ori),
            (7, _) => Some(Op::Andi),
            (1, 0) => Some(Op::Slli),
            (5, 0) => Some(Op::Srli),
            (5, 0x20) => Some(Op::Srai),
            _ => None,
        },
        OPCODE_OP => match (funct7, funct3) {
            (0, 0) => Some(Op::Add),
            (0, 1) => Some(Op::Sll),
            (0, 2) => Some(Op::Slt),
            (0, 3) => Some(Op::Sltu),
            (0, 4) => Some(Op::Xor),
            (0, 5) => Some(Op::Srl),
            (0, 6) => Some(Op::Or),
            (0, _) => Some(Op::And),
            (0x20, 0) => Some(Op::Sub),
            (0x20, 5) => Some(Op::Sra),
            _ => None,
        },
        OPCODE_SYSTEM => match funct3 {
            1 => Some(Op::Csrrw),
            2 => Some(Op::Csrrs),
            3 => Some(Op::Csrrc),
            5 => Some(Op::Csrrwi),
            6 => Some(Op::Csrrsi),
            7 => Some(Op::Csrrci),
            _ => None,
        },
        _ => None,
    }
}

/// Decodes a word. Fails with `IllegalInstruction` exactly when its opcode, funct3 and funct7
/// select no defined instruction.
pub fn decode(w: u32) -> (r: Result<DecodedInstruction, RiscvError>)
    ensures
        r == decode_spec(w),
        r matches Ok(i) ==> well_formed(i),
{
    match classify_fields(decode_opcode(w), decode_funct3(w), decode_funct7(w)) {
        Some(op) => {
            let format = format_of_op(op);
            let fields = extract(format, w);
            assert((w >> 7u32) & 0x1f < 32 && (w >> 15u32) & 0x1f < 32 && (w >> 20u32) & 0x1f < 32
                && w >> 20u32 < 4096) by (bit_vector);
            Ok(DecodedInstruction { op, format, fields })
        },
        None => Err(RiscvError::IllegalInstruction),
    }
}

} // verus!
