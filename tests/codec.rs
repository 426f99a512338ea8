use rv32_core::codec::{
    decode_b_imm, decode_i_imm, decode_j_imm, encode_b_imm, encode_i_imm, encode_j_imm,
    encode_s_imm, encode_u_imm, decode_s_imm, decode_u_imm, to_bits,
};
use rv32_core::{encode, extract, AssemblerError, Fields, InstructionFormat};

fn fields(opcode: u32, rd: u32, funct3: u32, rs1: u32, rs2: u32, funct7: u32, imm: i32) -> Fields {
    Fields { opcode, rd, funct3, rs1, rs2, funct7, imm }
}

fn round_trip(fmt: InstructionFormat, f: Fields) {
    let w = encode(fmt, &f).unwrap();
    assert_eq!(extract(fmt, w), f);
}

#[test]
fn round_trip_r() {
    round_trip(InstructionFormat::R, fields(0x33, 31, 7, 0, 31, 0x7f, 0));
    round_trip(InstructionFormat::R, fields(0x7f, 0, 0, 31, 0, 0, 0));
}

#[test]
fn round_trip_i() {
    for imm in [-2048, -1, 0, 1, 2047] {
        round_trip(InstructionFormat::I, fields(0x13, 5, 3, 17, 0, 0, imm));
    }
}

#[test]
fn round_trip_s() {
    for imm in [-2048, -33, -1, 0, 31, 32, 2047] {
        round_trip(InstructionFormat::S, fields(0x23, 0, 2, 9, 30, 0, imm));
    }
}

#[test]
fn round_trip_b() {
    for imm in [-4096, -4, -2, 0, 2, 2048, 4094] {
        round_trip(InstructionFormat::B, fields(0x63, 0, 1, 4, 5, 0, imm));
    }
}

#[test]
fn round_trip_u() {
    for imm in [i32::MIN, -4096, 0, 4096, 0x7fff_f000] {
        round_trip(InstructionFormat::U, fields(0x37, 12, 0, 0, 0, 0, imm));
    }
}

#[test]
fn round_trip_j() {
    for imm in [-0x10_0000, -2, 0, 2, 0x800, 0x0f_fffe] {
        round_trip(InstructionFormat::J, fields(0x6f, 1, 0, 0, 0, 0, imm));
    }
}

#[test]
fn round_trip_csr() {
    round_trip(InstructionFormat::CsrUimm, fields(0x73, 3, 5, 31, 0, 0, 4095));
    round_trip(InstructionFormat::CsrIndex, fields(0x73, 3, 1, 8, 0, 0, 0x300));
}

#[test]
fn i_sign_extension_whole_range() {
    for n in -2048..=2047 {
        let w = encode(InstructionFormat::I, &fields(0x13, 1, 0, 2, 0, 0, n)).unwrap();
        assert_eq!(decode_i_imm(w), n);
        assert_eq!(extract(InstructionFormat::I, w).imm, n);
    }
}

#[test]
fn i_sign_bit_comes_from_bit_eleven() {
    // 0x800 has bit 11 set and bit 31 clear: the encoded sign bit follows bit 11,
    // so the field reads back as -2048.
    let w = encode_i_imm(0x800);
    assert_eq!(w, 0x8000_0000);
    assert_eq!(decode_i_imm(w), -2048);
    // The encoder refuses 2048 rather than let it come back as -2048.
    let r = encode(InstructionFormat::I, &fields(0x13, 1, 0, 2, 0, 0, 2048));
    assert_eq!(r, Err(AssemblerError::ImmediateTooLargeError));
}

#[test]
fn b_and_j_sign_bits_come_from_the_field() {
    // The B sign bit is bit 12 of the value and the J sign bit is bit 20, not bit 31.
    assert_eq!(encode_b_imm(0x1000), 0x8000_0000);
    assert_eq!(encode_b_imm(0x8000_0000), 0);
    assert_eq!(decode_b_imm(0x8000_0000), -4096);
    assert_eq!(encode_j_imm(0x10_0000), 0x8000_0000);
    assert_eq!(encode_j_imm(0x8000_0000), 0);
    assert_eq!(decode_j_imm(0x8000_0000), -0x10_0000);
}

#[test]
fn immediate_layouts() {
    assert_eq!(encode_i_imm(to_bits(-1)), 0xfff0_0000);
    assert_eq!(encode_s_imm(to_bits(-1)), 0xfe00_0f80);
    assert_eq!(encode_b_imm(to_bits(-4)), 0xfe00_0e80);
    assert_eq!(encode_u_imm(0x1234_5678), 0x1234_5000);
    assert_eq!(encode_j_imm(to_bits(-4)), 0xffdf_f000);
    assert_eq!(decode_s_imm(0xfe00_0f80), -1);
    assert_eq!(decode_b_imm(0xfe00_0e80), -4);
    assert_eq!(decode_u_imm(0x1234_5000), 0x1234_5000);
    assert_eq!(decode_j_imm(0xffdf_f000), -4);
}

#[test]
fn r_field_isolation() {
    let base = encode(InstructionFormat::R, &fields(0x33, 13, 5, 22, 0, 0x20, 0)).unwrap();
    for rs2 in 0..32 {
        let w = encode(InstructionFormat::R, &fields(0x33, 13, 5, 22, rs2, 0x20, 0)).unwrap();
        assert_eq!(w & !0x01f0_0000, base & !0x01f0_0000);
        assert_eq!((w >> 20) & 0x1f, rs2);
    }
}

#[test]
fn out_of_range_operands_rejected() {
    let too_large = Err(AssemblerError::ImmediateTooLargeError);
    assert_eq!(encode(InstructionFormat::I, &fields(0x13, 1, 0, 2, 0, 0, -2049)), too_large);
    assert_eq!(encode(InstructionFormat::S, &fields(0x23, 0, 0, 2, 3, 0, 2048)), too_large);
    assert_eq!(encode(InstructionFormat::B, &fields(0x63, 0, 0, 2, 3, 0, 3)), too_large);
    assert_eq!(encode(InstructionFormat::B, &fields(0x63, 0, 0, 2, 3, 0, 4096)), too_large);
    assert_eq!(encode(InstructionFormat::U, &fields(0x37, 1, 0, 0, 0, 0, 0x1001)), too_large);
    assert_eq!(encode(InstructionFormat::J, &fields(0x6f, 1, 0, 0, 0, 0, 0x10_0000)), too_large);
    assert_eq!(encode(InstructionFormat::R, &fields(0x33, 32, 0, 0, 0, 0, 0)), too_large);
    assert_eq!(encode(InstructionFormat::R, &fields(0x80, 1, 0, 0, 0, 0, 0)), too_large);
    assert_eq!(encode(InstructionFormat::CsrUimm, &fields(0x73, 1, 5, 32, 0, 0, 0)), too_large);
    assert_eq!(encode(InstructionFormat::CsrIndex, &fields(0x73, 1, 1, 2, 0, 0, 4096)), too_large);
    assert_eq!(encode(InstructionFormat::CsrIndex, &fields(0x73, 1, 1, 2, 0, 0, -1)), too_large);
}

#[test]
fn unused_fields_are_ignored() {
    let w = encode(InstructionFormat::U, &fields(0x37, 1, 7, 31, 31, 0x7f, 0x1000)).unwrap();
    assert_eq!(w, 0x0000_10b7);
}
