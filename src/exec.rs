//! Executing a decoded instruction against a register file, a memory and a CSR file.
use vstd::prelude::*;

use crate::codec::{bits_of, sext};
use crate::decode::{decode, decode_spec, well_formed, DecodedInstruction, Op};
use crate::error::RiscvError;
use crate::resources::{
    access_check, load_value, reg_update, reg_value, store_value, CsrFile, Memory, RegisterFile,
    Width,
};

verus! {

/// `x` reduced to 32 bits.
pub open spec fn wrap(x: int) -> u32 {
    (x % 0x1_0000_0000) as u32
}

/// A word read as a two's-complement number.
pub open spec fn signed(a: u32) -> int {
    sext(a as int, 0x8000_0000)
}

/// Arithmetic shift right: the vacated bits copy the sign bit.
pub open spec fn sra(a: u32, s: u32) -> u32 {
    if a < 0x8000_0000 {
        a >> s
    } else {
        !((!a) >> s)
    }
}

/// The result of an arithmetic or logic operation on two operands.
pub open spec fn alu(op: Op, a: u32, b: u32) -> u32 {
    match op {
        Op::Add | Op::Addi => wrap(a + b),
        Op::Sub => wrap(a - b),
        Op::Sll | Op::Slli => a << (b & 31),
        Op::Slt | Op::Slti => if signed(a) < signed(b) {
            1
        } else {
            0
        },
        Op::Sltu | Op::Sltiu => if a < b {
            1
        } else {
            0
        },
        Op::Xor | Op::Xori => a ^ b,
        Op::Srl | Op::Srli => a >> (b & 31),
        Op::Sra | Op::Srai => sra(a, b & 31),
        Op::Or | Op::Ori => a | b,
        _ => a & b,
    }
}

/// Whether a branch is taken on its two register operands.
pub open spec fn taken(op: Op, a: u32, b: u32) -> bool {
    match op {
        Op::Beq => a == b,
        Op::Bne => a != b,
        Op::Blt => signed(a) < signed(b),
        Op::Bge => signed(a) >= signed(b),
        Op::Bltu => a < b,
        _ => a >= b,
    }
}

pub open spec fn width_of(op: Op) -> Width {
    match op {
        Op::Lb | Op::Lbu | Op::Sb => Width::Byte,
        Op::Lh | Op::Lhu | Op::Sh => Width::Half,
        _ => Width::Word,
    }
}

/// The register value of a loaded quantity: sign-extended for `lb` and `lh`.
pub open spec fn extend_load(op: Op, raw: u32) -> u32 {
    match op {
        Op::Lb => if raw >= 0x80 {
            (raw + 0xffff_ff00) as u32
        } else {
            raw
        },
        Op::Lh => if raw >= 0x8000 {
            (raw + 0xffff_0000) as u32
        } else {
            raw
        },
        _ => raw,
    }
}

/// The new CSR value of a CSR instruction from the old value and the source operand.
pub open spec fn csr_new(op: Op, old: u32, src: u32) -> u32 {
    match op {
        Op::Csrrw | Op::Csrrwi => src,
        Op::Csrrs | Op::Csrrsi => old | src,
        _ => old & !src,
    }
}

/// Registers, memory bytes, CSRs and program counter.
pub type MachineState = (Seq<u32>, Seq<u8>, Seq<u32>, u32);

/// The state after one instruction at `pc`, or the fault it raises.
pub open spec fn execute_spec(
    i: DecodedInstruction,
    regs: Seq<u32>,
    mem: Seq<u8>,
    csrs: Seq<u32>,
    pc: u32,
) -> Result<MachineState, RiscvError> {
    let f = i.fields;
    let a = reg_value(regs, f.rs1 as int);
    let b = reg_value(regs, f.rs2 as int);
    let imm = bits_of(f.imm);
    let next = wrap(pc + 4);
    let addr = wrap(a + f.imm);
    match i.op {
        Op::Lui => Ok((reg_update(regs, f.rd as int, imm), mem, csrs, next)),
        Op::Auipc => Ok((reg_update(regs, f.rd as int, wrap(pc + f.imm)), mem, csrs, next)),
        Op::Jal => Ok((reg_update(regs, f.rd as int, next), mem, csrs, wrap(pc + f.imm))),
        Op::Jalr => Ok(
            (reg_update(regs, f.rd as int, next), mem, csrs, wrap(a + f.imm) & 0xffff_fffe),
        ),
        Op::Beq | Op::Bne | Op::Blt | Op::Bge | Op::Bltu | Op::Bgeu => Ok(
            (
                regs,
                mem,
                csrs,
                if taken(i.op, a, b) {
                    wrap(pc + f.imm)
                } else {
                    next
                },
            ),
        ),
        Op::Lb | Op::Lh | Op::Lw | Op::Lbu | Op::Lhu => match access_check(
            mem.len() as int,
            addr,
            width_of(i.op),
        ) {
            Ok(_) => Ok(
                (
                    reg_update(
                        regs,
                        f.rd as int,
                        extend_load(i.op, load_value(mem, addr as int, width_of(i.op))),
                    ),
                    mem,
                    csrs,
                    next,
                ),
            ),
            Err(e) => Err(e),
        },
        Op::Sb | Op::Sh | Op::Sw => match access_check(mem.len() as int, addr, width_of(i.op)) {
            Ok(_) => Ok((regs, store_value(mem, addr as int, width_of(i.op), b), csrs, next)),
            Err(e) => Err(e),
        },
        Op::Addi | Op::Slti | Op::Sltiu | Op::Xori | Op::Ori | Op::Andi | Op::Slli | Op::Srli
        | Op::Srai => Ok((reg_update(regs, f.rd as int, alu(i.op, a, imm)), mem, csrs, next)),
        Op::Add | Op::Sub | Op::Sll | Op::Slt | Op::Sltu | Op::Xor | Op::Srl | Op::Sra | Op::Or
        | Op::And => Ok((reg_update(regs, f.rd as int, alu(i.op, a, b)), mem, csrs, next)),
        Op::Csrrw | Op::Csrrs | Op::Csrrc | Op::Csrrwi | Op::Csrrsi | Op::Csrrci => {
            let old = csrs[f.imm as int];
            let src = if i.op is Csrrw || i.op is Csrrs || i.op is Csrrc {
                a
            } else {
                f.rs1
            };
            Ok(
                (
                    reg_update(regs, f.rd as int, old),
                    mem,
                    csrs.update(f.imm as int, csr_new(i.op, old, src)),
                    next,
                ),
            )
        },
    }
}

/// `a + b` reduced to 32 bits.
pub fn add_wrapping(a: u32, b: i32) -> (r: u32)
    ensures
        r == wrap(a + b),
{
    let s: i64 = a as i64 + b as i64 + 0x1_0000_0000i64;
    (s % 0x1_0000_0000i64) as u32
}

/// `a - b` reduced to 32 bits.
pub fn sub_wrapping(a: u32, b: u32) -> (r: u32)
    ensures
        r == wrap(a - b),
{
    ((a as u64 + 0x1_0000_0000u64 - b as u64) % 0x1_0000_0000u64) as u32
}

/// Whether `a < b` as two's-complement numbers.
pub fn less_signed(a: u32, b: u32) -> (r: bool)
    ensures
        r == (signed(a) < signed(b)),
{
    let a_neg = a >= 0x8000_0000;
    let b_neg = b >= 0x8000_0000;
    if a_neg == b_neg {
        a < b
    } else {
        a_neg
    }
}

/// Computes an arithmetic or logic operation.
pub fn alu_exec(op: Op, a: u32, b: u32) -> (r: u32)
    ensures
        r == alu(op, a, b),
{
    let s = b & 31;
    assert(b & 31 < 32) by (bit_vector);
    match op {
        Op::Add | Op::Addi => ((a as u64 + b as u64) % 0x1_0000_0000u64) as u32,
        Op::Sub => sub_wrapping(a, b),
        Op::Sll | Op::Slli => a << s,
        Op::Slt | Op::Slti => if less_signed(a, b) {
            1
        } else {
            0
        },
        Op::Sltu | Op::Sltiu => if a < b {
            1
        } else {
            0
        },
        Op::Xor | Op::Xori => a ^ b,
        Op::Srl | Op::Srli => a >> s,
        Op::Sra | Op::Srai => if a < 0x8000_0000 {
            a >> s
        } else {
            !((!a) >> s)
        },
        Op::Or | Op::Ori => a | b,
        _ => a & b,
    }
}

/// Decides whether a branch is taken.
pub fn branch_taken(op: Op, a: u32, b: u32) -> (r: bool)
    ensures
        r == taken(op, a, b),
{
    match op {
        Op::Beq => a == b,
        Op::Bne => a != b,
        Op::Blt => less_signed(a, b),
        Op::Bge => !less_signed(a, b),
        Op::Bltu => a < b,
        _ => a >= b,
    }
}

fn width_of_op(op: Op) -> (r: Width)
    ensures
        r == width_of(op),
{
    match op {
        Op::Lb | Op::Lbu | Op::Sb => Width::Byte,
        Op::Lh | Op::Lhu | Op::Sh => Width::Half,
        _ => Width::Word,
    }
}

/// Executes one decoded instruction at `pc` and returns the next program counter.
/// On a fault nothing has been changed.
pub fn execute<R: RegisterFile, M: Memory, C: CsrFile>(
    i: &DecodedInstruction,
    regs: &mut R,
    mem: &mut M,
    csrs: &mut C,
    pc: u32,
) -> (r: Result<u32, RiscvError>)
    requires
        well_formed(*i),
        old(regs).regs().len() == 32,
        old(csrs).csrs().len() == 4096,
    ensures
        match execute_spec(*i, old(regs).regs(), old(mem).bytes(), old(csrs).csrs(), pc) {
            Ok(s) => {
                &&& r == Ok::<u32, RiscvError>(s.3)
                &&& final(regs).regs() == s.0
                &&& final(mem).bytes() == s.1
                &&& final(csrs).csrs() == s.2
            },
            Err(e) => {
                &&& r == Err::<u32, RiscvError>(e)
                &&& final(regs).regs() == old(regs).regs()
                &&& final(mem).bytes() == old(mem).bytes()
                &&& final(csrs).csrs() == old(csrs).csrs()
            },
        },
{
    let f = i.fields;
    let a = regs.read(f.rs1);
    let b = regs.read(f.rs2);
    let imm = crate::codec::to_bits(f.imm);
    let next = ((pc as u64 + 4) % 0x1_0000_0000u64) as u32;
    match i.op {
        Op::Lui => {
            regs.write(f.rd, imm);
            Ok(next)
        },
        Op::Auipc => {
            regs.write(f.rd, add_wrapping(pc, f.imm));
            Ok(next)
        },
        Op::Jal => {
            regs.write(f.rd, next);
            Ok(add_wrapping(pc, f.imm))
        },
        Op::Jalr => {
            let target = add_wrapping(a, f.imm) & 0xffff_fffe;
            regs.write(f.rd, next);
            Ok(target)
        },
        Op::Beq | Op::Bne | Op::Blt | Op::Bge | Op::Bltu | Op::Bgeu => {
            if branch_taken(i.op, a, b) {
                Ok(add_wrapping(pc, f.imm))
            } else {
                Ok(next)
            }
        },
        Op::Lb | Op::Lh | Op::Lw | Op::Lbu | Op::Lhu => {
            let addr = add_wrapping(a, f.imm);
            match mem.load(addr, width_of_op(i.op)) {
                Ok(raw) => {
                    let v = match i.op {
                        Op::Lb => if raw >= 0x80 {
                            raw + 0xffff_ff00
                        } else {
                            raw
                        },
                        Op::Lh => if raw >= 0x8000 {
                            raw + 0xffff_0000
                        } else {
                            raw
                        },
                        _ => raw,
                    };
                    regs.write(f.rd, v);
                    Ok(next)
                },
                Err(e) => Err(e),
            }
        },
        Op::Sb | Op::Sh | Op::Sw => {
            let addr = add_wrapping(a, f.imm);
            match mem.store(addr, width_of_op(i.op), b) {
                Ok(()) => Ok(next),
                Err(e) => Err(e),
            }
        },
        Op::Addi | Op::Slti | Op::Sltiu | Op::Xori | Op::Ori | Op::Andi | Op::Slli | Op::Srli
        | Op::Srai => {
            regs.write(f.rd, alu_exec(i.op, a, imm));
            Ok(next)
        },
        Op::Add | Op::Sub | Op::Sll | Op::Slt | Op::Sltu | Op::Xor | Op::Srl | Op::Sra | Op::Or
        | Op::And => {
            regs.write(f.rd, alu_exec(i.op, a, b));
            Ok(next)
        },
        Op::Csrrw | Op::Csrrs | Op::Csrrc | Op::Csrrwi | Op::Csrrsi | Op::Csrrci => {
            let index = f.imm as u32;
            let old = csrs.read_csr(index);
            let src = if matches!(i.op, Op::Csrrw | Op::Csrrs | Op::Csrrc) {
                a
            } else {
                f.rs1
            };
            let new = match i.op {
                Op::Csrrw | Op::Csrrwi => src,
                Op::Csrrs | Op::Csrrsi => old | src,
                _ => old & !src,
            };
            csrs.write_csr(index, new);
            regs.write(f.rd, old);
            Ok(next)
        },
    }
}

/// One cycle at `pc`: fetch the aligned word there, decode it, execute it.
pub open spec fn cycle_spec(regs: Seq<u32>, mem: Seq<u8>, csrs: Seq<u32>, pc: u32) -> Result<
    MachineState,
    RiscvError,
> {
    match access_check(mem.len() as int, pc, Width::Word) {
        Err(e) => Err(e),
        Ok(_) => match decode_spec(load_value(mem, pc as int, Width::Word)) {
            Err(e) => Err(e),
            Ok(i) => execute_spec(i, regs, mem, csrs, pc),
        },
    }
}

/// Fetches, decodes and executes the instruction at `pc` and returns the next program
/// counter. On a fault nothing has been changed.
pub fn cycle<R: RegisterFile, M: Memory, C: CsrFile>(
    regs: &mut R,
    mem: &mut M,
    csrs: &mut C,
    pc: u32,
) -> (r: Result<u32, RiscvError>)
    requires
        old(regs).regs().len() == 32,
        old(csrs).csrs().len() == 4096,
    ensures
        match cycle_spec(old(regs).regs(), old(mem).bytes(), old(csrs).csrs(), pc) {
            Ok(s) => {
                &&& r == Ok::<u32, RiscvError>(s.3)
                &&& final(regs).regs() == s.0
                &&& final(mem).bytes() == s.1
                &&& final(csrs).csrs() == s.2
            },
            Err(e) => {
                &&& r == Err::<u32, RiscvError>(e)
                &&& final(regs).regs() == old(regs).regs()
                &&& final(mem).bytes() == old(mem).bytes()
                &&& final(csrs).csrs() == old(csrs).csrs()
            },
        },
{
    let word = match mem.load(pc, Width::Word) {
        Ok(w) => w,
        Err(e) => return Err(e),
    };
    let i = match decode(word) {
        Ok(i) => i,
        Err(e) => return Err(e),
    };
    execute(&i, regs, mem, csrs, pc)
}

} // verus!
