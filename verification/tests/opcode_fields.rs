use psx::opcode::Opcode;

#[test]
fn fields_of_lui() {
    // LUI R1, 0x1234
    let op = Opcode(0x3C01_1234);
    assert_eq!(op.instr(), 0b001111);
    assert_eq!(op.rs(), 0);
    assert_eq!(op.rt(), 1);
    assert_eq!(op.imm(), 0x1234);
    assert_eq!(op.imm_se(), 0x1234);
}

#[test]
fn fields_of_register_form() {
    // ADDU R3, R1, R2
    let op = Opcode(0x0022_1821);
    assert_eq!(op.instr(), 0);
    assert_eq!(op.rs(), 1);
    assert_eq!(op.rt(), 2);
    assert_eq!(op.rd(), 3);
    assert_eq!(op.imm5(), 0);
    assert_eq!(op.sub(), 0b100001);
}

#[test]
fn immediate_is_sign_extended() {
    assert_eq!(Opcode(0x0000_8000).imm_se(), 0xFFFF_8000);
    assert_eq!(Opcode(0x0000_FFFF).imm_se(), 0xFFFF_FFFF);
    assert_eq!(Opcode(0x0000_7FFF).imm_se(), 0x0000_7FFF);
    assert_eq!(Opcode(0xFFFF_FFFF).imm26(), 0x03FF_FFFF);
}
