use rv32_core::{
    cycle, decode, encode, execute, CsrBank, CsrFile, Fields, FlatMemory, InstructionFormat,
    Memory, Op, RegisterFile, Registers, RiscvError, Width,
};

fn fields(opcode: u32, rd: u32, funct3: u32, rs1: u32, rs2: u32, funct7: u32, imm: i32) -> Fields {
    Fields { opcode, rd, funct3, rs1, rs2, funct7, imm }
}

fn program(words: &[u32], size: usize) -> FlatMemory {
    let mut mem = FlatMemory::new(size);
    for (k, w) in words.iter().enumerate() {
        mem.store(4 * k as u32, Width::Word, *w).unwrap();
    }
    mem
}

#[test]
fn register_zero_reads_zero() {
    let mut regs = Registers::new();
    for v in [0, 1, 0xdead_beef, u32::MAX] {
        regs.write(0, v);
        assert_eq!(regs.read(0), 0);
    }
    regs.write(5, 9);
    assert_eq!(regs.read(5), 9);
}

#[test]
fn end_to_end_add() {
    let w = encode(InstructionFormat::R, &fields(0x33, 1, 0, 3, 2, 0, 0)).unwrap();
    assert_eq!(w, 0x0021_80b3);
    let i = decode(w).unwrap();
    assert_eq!(i.op, Op::Add);
    let mut regs = Registers::new();
    regs.write(2, 5);
    regs.write(3, 7);
    let mut mem = FlatMemory::new(0);
    let mut csrs = CsrBank::new();
    assert_eq!(execute(&i, &mut regs, &mut mem, &mut csrs, 0x100), Ok(0x104));
    assert_eq!(regs.read(1), 12);
}

#[test]
fn end_to_end_branch_back() {
    let w = encode(InstructionFormat::B, &fields(0x63, 0, 0, 1, 1, 0, -4)).unwrap();
    assert_eq!(w, 0xfe10_8ee3);
    let i = decode(w).unwrap();
    assert_eq!(i.op, Op::Beq);
    assert_eq!(i.fields.imm, -4);
    let mut regs = Registers::new();
    let mut mem = FlatMemory::new(0);
    let mut csrs = CsrBank::new();
    assert_eq!(execute(&i, &mut regs, &mut mem, &mut csrs, 0x200), Ok(0x1fc));
}

#[test]
fn branch_not_taken_falls_through() {
    // bne x1, x1, -4
    let i = decode(0xfe10_9ee3).unwrap();
    assert_eq!(i.op, Op::Bne);
    let mut regs = Registers::new();
    let mut mem = FlatMemory::new(0);
    let mut csrs = CsrBank::new();
    assert_eq!(execute(&i, &mut regs, &mut mem, &mut csrs, 0x200), Ok(0x204));
}

#[test]
fn illegal_instruction() {
    assert_eq!(decode(0), Err(RiscvError::IllegalInstruction));
    assert_eq!(decode(0xffff_ffff), Err(RiscvError::IllegalInstruction));
    // opcode OP with funct7 0x01 (the M extension) is not defined here
    assert_eq!(decode(0x0221_80b3), Err(RiscvError::IllegalInstruction));
}

#[test]
fn cycle_runs_a_program() {
    // addi x1, x0, -5 ; sw x1, 24(x0) ; lb x2, 24(x0) ; lbu x3, 24(x0) ; jal x4, -12
    let mut mem = program(&[0xffb0_0093, 0x0010_2c23, 0x0180_0103, 0x0180_4183, 0xff5f_f26f], 32);
    let mut regs = Registers::new();
    let mut csrs = CsrBank::new();
    let mut pc = 0;
    for _ in 0..5 {
        pc = cycle(&mut regs, &mut mem, &mut csrs, pc).unwrap();
    }
    assert_eq!(regs.read(1), (-5i32) as u32);
    assert_eq!(mem.load(24, Width::Word), Ok(0xffff_fffb));
    assert_eq!(regs.read(2), 0xffff_fffb);
    assert_eq!(regs.read(3), 0xfb);
    assert_eq!(regs.read(4), 20);
    assert_eq!(pc, 4);
}

#[test]
fn misaligned_load_changes_nothing() {
    // lw x1, 2(x0)
    let mut mem = program(&[0x0020_2083], 8);
    let mut regs = Registers::new();
    let mut csrs = CsrBank::new();
    assert_eq!(cycle(&mut regs, &mut mem, &mut csrs, 0), Err(RiscvError::MisalignedAccess));
    assert_eq!(regs.read(1), 0);
}

#[test]
fn store_outside_memory_faults() {
    // sw x1, 8(x0) on 8 bytes
    let mut mem = program(&[0x0010_2423], 8);
    let mut regs = Registers::new();
    regs.write(1, 77);
    let mut csrs = CsrBank::new();
    assert_eq!(cycle(&mut regs, &mut mem, &mut csrs, 0), Err(RiscvError::MemoryFault));
    assert_eq!(mem.load(4, Width::Word), Ok(0));
}

#[test]
fn fetch_outside_memory_faults() {
    let mut mem = FlatMemory::new(4);
    let mut regs = Registers::new();
    let mut csrs = CsrBank::new();
    assert_eq!(cycle(&mut regs, &mut mem, &mut csrs, 4), Err(RiscvError::MemoryFault));
    assert_eq!(cycle(&mut regs, &mut mem, &mut csrs, 2), Err(RiscvError::MisalignedAccess));
}

#[test]
fn arithmetic_wraps_and_compares() {
    // x1 = 0xffff_ffff, x2 = 1
    let run = |word: u32, a: u32, b: u32| {
        let mut regs = Registers::new();
        regs.write(1, a);
        regs.write(2, b);
        let mut mem = FlatMemory::new(0);
        let mut csrs = CsrBank::new();
        let i = decode(word).unwrap();
        execute(&i, &mut regs, &mut mem, &mut csrs, 0).unwrap();
        regs.read(3)
    };
    assert_eq!(run(0x0020_81b3, u32::MAX, 1), 0); // add x3, x1, x2
    assert_eq!(run(0x4020_81b3, 0, 1), u32::MAX); // sub x3, x1, x2
    assert_eq!(run(0x0020_a1b3, u32::MAX, 1), 1); // slt x3, x1, x2
    assert_eq!(run(0x0020_b1b3, u32::MAX, 1), 0); // sltu x3, x1, x2
    assert_eq!(run(0x4020_d1b3, 0x8000_0000, 4), 0xf800_0000); // sra x3, x1, x2
    assert_eq!(run(0x0020_d1b3, 0x8000_0000, 4), 0x0800_0000); // srl x3, x1, x2
    assert_eq!(run(0x0020_91b3, 1, 33), 2); // sll x3, x1, x2
}

#[test]
fn csr_read_modify_write() {
    let mut regs = Registers::new();
    regs.write(2, 0b1010);
    let mut mem = FlatMemory::new(0);
    let mut csrs = CsrBank::new();
    csrs.write_csr(0x300, 0b0110);
    // csrrs x1, 0x300, x2
    let i = decode(0x3001_20f3).unwrap();
    assert_eq!(i.op, Op::Csrrs);
    assert_eq!(execute(&i, &mut regs, &mut mem, &mut csrs, 8), Ok(12));
    assert_eq!(regs.read(1), 0b0110);
    assert_eq!(csrs.read_csr(0x300), 0b1110);
    // csrrci x1, 0x300, 4
    let i = decode(0x3002_70f3).unwrap();
    assert_eq!(i.op, Op::Csrrci);
    assert_eq!(execute(&i, &mut regs, &mut mem, &mut csrs, 12), Ok(16));
    assert_eq!(regs.read(1), 0b1110);
    assert_eq!(csrs.read_csr(0x300), 0b1010);
}

#[test]
fn jalr_clears_low_bit() {
    // jalr x1, 3(x2)
    let i = decode(0x0031_00e7).unwrap();
    assert_eq!(i.op, Op::Jalr);
    let mut regs = Registers::new();
    regs.write(2, 0x100);
    let mut mem = FlatMemory::new(0);
    let mut csrs = CsrBank::new();
    assert_eq!(execute(&i, &mut regs, &mut mem, &mut csrs, 0x40), Ok(0x102));
    assert_eq!(regs.read(1), 0x44);
}
