use rv32_core::encode::encode_csr_index;
use rv32_core::encode::encode_csr_uimm;
use rv32_core::AssemblerError;

#[test]
fn csr_uimm_largest_fits() {
    assert_eq!(encode_csr_uimm(0, 31), Ok(31 << 15));
}

#[test]
fn csr_uimm_too_large() {
    assert_eq!(encode_csr_uimm(0, 32), Err(AssemblerError::ImmediateTooLargeError));
    assert_eq!(encode_csr_uimm(0x73, u32::MAX), Err(AssemblerError::ImmediateTooLargeError));
}

#[test]
fn csr_uimm_keeps_other_bits() {
    assert_eq!(encode_csr_uimm(0x0000_5073, 7), Ok(0x0003_d073));
}

#[test]
fn csr_index_largest_fits() {
    assert_eq!(encode_csr_index(0, 4095), Ok(0xfff0_0000));
}

#[test]
fn csr_index_too_large() {
    assert_eq!(encode_csr_index(0, 4096), Err(AssemblerError::ImmediateTooLargeError));
}

#[test]
fn csr_index_keeps_other_bits() {
    // csrrw x1, mstatus (0x300), x2
    assert_eq!(encode_csr_index(0x0001_10f3, 0x300), Ok(0x3001_10f3));
}
