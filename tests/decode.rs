use nes_cpu::opcode::{
    build_opcode, get_left_nibble, get_opcode_code, get_opcode_description, get_opcode_length,
    get_opcode_mnemonic, get_opcode_mode, get_right_nibble, set_opcode, AddressingMode, Mnemonic,
};

#[test]
fn every_opcode_decodes_to_a_valid_descriptor() {
    for code in 0..=255u8 {
        let op = build_opcode(code);
        assert_eq!(op.code, code);
        assert!(op.length >= 1 && op.length <= 3, "length of {:#04X}", code);
        if get_opcode_mnemonic(&op) == Mnemonic::Unused {
            assert_eq!(op.length, 1);
            assert_eq!(op.cycles, 2);
            assert_eq!(op.description, "Not used.");
        } else {
            assert!(op.cycles >= 2, "cycles of {:#04X}", code);
        }
    }
}

#[test]
fn documented_instruction_count() {
    let used = (0..=255u8)
        .filter(|c| get_opcode_mnemonic(&build_opcode(*c)) != Mnemonic::Unused)
        .count();
    assert_eq!(used, 151);
}

#[test]
fn length_matches_addressing_mode() {
    for code in 0..=255u8 {
        let op = build_opcode(code);
        let operand_bytes = match get_opcode_mode(&op) {
            AddressingMode::Implied | AddressingMode::Accumulator => 0,
            AddressingMode::Absolute
            | AddressingMode::AbsoluteX
            | AddressingMode::AbsoluteY
            | AddressingMode::Indirect => 2,
            _ => 1,
        };
        assert_eq!(op.length, 1 + operand_bytes);
    }
}

#[test]
fn known_descriptors() {
    let lda = build_opcode(0xA9);
    assert_eq!(get_opcode_description(lda.clone()), "LDA Immediate");
    assert_eq!(get_opcode_length(lda.clone()), 2);
    assert_eq!(lda.cycles, 2);
    let sta = build_opcode(0x8D);
    assert_eq!(sta.description, "STA Absolute");
    assert_eq!((sta.length, sta.cycles), (3, 4));
    let ora_zp = build_opcode(0x05);
    assert_eq!((ora_zp.length, ora_zp.cycles), (2, 3));
    let php = build_opcode(0x08);
    assert_eq!((php.length, php.cycles), (1, 3));
    assert_eq!(php.description, "PHP");
    assert_eq!(build_opcode(0x00).cycles, 7);
    assert_eq!(build_opcode(0x6C).description, "JMP Indirect");
    assert_eq!(build_opcode(0x6C).cycles, 5);
    assert_eq!(build_opcode(0xB1).description, "LDA Indirect, Y");
    assert_eq!(build_opcode(0xB1).cycles, 5);
    assert_eq!(build_opcode(0x9D).cycles, 5);
    assert_eq!(build_opcode(0x1E).cycles, 7);
    assert_eq!(build_opcode(0x0A).description, "ASL Accumulator");
    assert_eq!(build_opcode(0x96).description, "STX Zero Page, Y");
    assert_eq!(build_opcode(0xD0).description, "BNE");
    assert_eq!(build_opcode(0x02).description, "Not used.");
}

#[test]
fn mnemonic_and_mode_of_descriptors() {
    let op = build_opcode(0xBE);
    assert_eq!(get_opcode_mnemonic(&op), Mnemonic::Ldx);
    assert_eq!(get_opcode_mode(&op), AddressingMode::AbsoluteY);
    let op = build_opcode(0x81);
    assert_eq!(get_opcode_mnemonic(&op), Mnemonic::Sta);
    assert_eq!(get_opcode_mode(&op), AddressingMode::IndexedIndirect);
}

#[test]
fn set_opcode_keeps_fields() {
    let op = set_opcode(0xEA, 1, 2, String::from("NOP"));
    assert_eq!(get_opcode_code(op.clone()), 0xEA);
    assert_eq!(get_opcode_length(op.clone()), 1);
    assert_eq!(op.cycles, 2);
    assert_eq!(get_opcode_description(op), "NOP");
}

#[test]
fn nibbles() {
    assert_eq!(get_left_nibble(0xA9), 0x0A);
    assert_eq!(get_right_nibble(0xA9), 0x09);
    assert_eq!(get_left_nibble(0x0F), 0x00);
    assert_eq!(get_right_nibble(0xF0), 0x00);
    assert_eq!(get_left_nibble(0xFF), 0x0F);
}
