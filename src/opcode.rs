use vstd::prelude::*;

verus! {

/// The operation an opcode performs, one variant per documented 6502 mnemonic.
#[derive(Clone, Copy, Debug, PartialEq, Eq, Structural)]
pub enum Mnemonic {
    Adc,
    And,
    Asl,
    Bcc,
    Bcs,
    Beq,
    Bit,
    Bmi,
    Bne,
    Bpl,
    Brk,
    Bvc,
    Bvs,
    Clc,
    Cld,
    Cli,
    Clv,
    Cmp,
    Cpx,
    Cpy,
    Dec,
    Dex,
    Dey,
    Eor,
    Inc,
    Inx,
    Iny,
    Jmp,
    Jsr,
    Lda,
    Ldx,
    Ldy,
    Lsr,
    Nop,
    Ora,
    Pha,
    Php,
    Pla,
    Plp,
    Rol,
    Ror,
    Rti,
    Rts,
    Sbc,
    Sec,
    Sed,
    Sei,
    Sta,
    Stx,
    Sty,
    Tax,
    Tay,
    Tsx,
    Txa,
    Txs,
    Tya,
    /// An opcode that the documented instruction set leaves unassigned.
    Unused,
}

/// How an instruction finds its operand from the bytes that follow the opcode.
#[derive(Clone, Copy, Debug, PartialEq, Eq, Structural)]
pub enum AddressingMode {
    /// No operand.
    Implied,
    /// The operand is the accumulator.
    Accumulator,
    /// The operand is the byte after the opcode.
    Immediate,
    /// An 8-bit address in the zero page.
    ZeroPage,
    /// A zero-page address plus X, wrapping within the zero page.
    ZeroPageX,
    /// A zero-page address plus Y, wrapping within the zero page.
    ZeroPageY,
    /// A 16-bit little-endian address.
    Absolute,
    /// A 16-bit address plus X.
    AbsoluteX,
    /// A 16-bit address plus Y.
    AbsoluteY,
    /// A 16-bit pointer to the target address (JMP only).
    Indirect,
    /// `(zp,X)`: a zero-page pointer chosen by adding X, then dereferenced.
    IndexedIndirect,
    /// `(zp),Y`: a zero-page pointer dereferenced, then Y added.
    IndirectIndexed,
    /// A signed 8-bit branch displacement from the branch instruction's own address.
    Relative,
}

/// The documented 6502 instruction table: mnemonic and addressing mode of each opcode.
pub open spec fn spec_decode(code: u8) -> (Mnemonic, AddressingMode) {
    match code {
        0x00 => (Mnemonic::Brk, AddressingMode::Implied),
        0x01 => (Mnemonic::Ora, AddressingMode::IndexedIndirect),
        0x05 => (Mnemonic::Ora, AddressingMode::ZeroPage),
        0x06 => (Mnemonic::Asl, AddressingMode::ZeroPage),
        0x08 => (Mnemonic::Php, AddressingMode::Implied),
        0x09 => (Mnemonic::Ora, AddressingMode::Immediate),
        0x0A => (Mnemonic::Asl, AddressingMode::Accumulator),
        0x0D => (Mnemonic::Ora, AddressingMode::Absolute),
        0x0E => (Mnemonic::Asl, AddressingMode::Absolute),
        0x10 => (Mnemonic::Bpl, AddressingMode::Relative),
        0x11 => (Mnemonic::Ora, AddressingMode::IndirectIndexed),
        0x15 => (Mnemonic::Ora, AddressingMode::ZeroPageX),
        0x16 => (Mnemonic::Asl, AddressingMode::ZeroPageX),
        0x18 => (Mnemonic::Clc, AddressingMode::Implied),
        0x19 => (Mnemonic::Ora, AddressingMode::AbsoluteY),
        0x1D => (Mnemonic::Ora, AddressingMode::AbsoluteX),
        0x1E => (Mnemonic::Asl, AddressingMode::AbsoluteX),
        0x20 => (Mnemonic::Jsr, AddressingMode::Absolute),
        0x21 => (Mnemonic::And, AddressingMode::IndexedIndirect),
        0x24 => (Mnemonic::Bit, AddressingMode::ZeroPage),
        0x25 => (Mnemonic::And, AddressingMode::ZeroPage),
        0x26 => (Mnemonic::Rol, AddressingMode::ZeroPage),
        0x28 => (Mnemonic::Plp, AddressingMode::Implied),
        0x29 => (Mnemonic::And, AddressingMode::Immediate),
        0x2A => (Mnemonic::Rol, AddressingMode::Accumulator),
        0x2C => (Mnemonic::Bit, AddressingMode::Absolute),
        0x2D => (Mnemonic::And, AddressingMode::Absolute),
        0x2E => (Mnemonic::Rol, AddressingMode::Absolute),
        0x30 => (Mnemonic::Bmi, AddressingMode::Relative),
        0x31 => (Mnemonic::And, AddressingMode::IndirectIndexed),
        0x35 => (Mnemonic::And, AddressingMode::ZeroPageX),
        0x36 => (Mnemonic::Rol, AddressingMode::ZeroPageX),
        0x38 => (Mnemonic::Sec, AddressingMode::Implied),
        0x39 => (Mnemonic::And, AddressingMode::AbsoluteY),
        0x3D => (Mnemonic::And, AddressingMode::AbsoluteX),
        0x3E => (Mnemonic::Rol, AddressingMode::AbsoluteX),
        0x40 => (Mnemonic::Rti, AddressingMode::Implied),
        0x41 => (Mnemonic::Eor, AddressingMode::IndexedIndirect),
        0x45 => (Mnemonic::Eor, AddressingMode::ZeroPage),
        0x46 => (Mnemonic::Lsr, AddressingMode::ZeroPage),
        0x48 => (Mnemonic::Pha, AddressingMode::Implied),
        0x49 => (Mnemonic::Eor, AddressingMode::Immediate),
        0x4A => (Mnemonic::Lsr, AddressingMode::Accumulator),
        0x4C => (Mnemonic::Jmp, AddressingMode::Absolute),
        0x4D => (Mnemonic::Eor, AddressingMode::Absolute),
        0x4E => (Mnemonic::Lsr, AddressingMode::Absolute),
        0x50 => (Mnemonic::Bvc, AddressingMode::Relative),
        0x51 => (Mnemonic::Eor, AddressingMode::IndirectIndexed),
        0x55 => (Mnemonic::Eor, AddressingMode::ZeroPageX),
        0x56 => (Mnemonic::Lsr, AddressingMode::ZeroPageX),
        0x58 => (Mnemonic::Cli, AddressingMode::Implied),
        0x59 => (Mnemonic::Eor, AddressingMode::AbsoluteY),
        0x5D => (Mnemonic::Eor, AddressingMode::AbsoluteX),
        0x5E => (Mnemonic::Lsr, AddressingMode::AbsoluteX),
        0x60 => (Mnemonic::Rts, AddressingMode::Implied),
        0x61 => (Mnemonic::Adc, AddressingMode::IndexedIndirect),
        0x65 => (Mnemonic::Adc, AddressingMode::ZeroPage),
        0x66 => (Mnemonic::Ror, AddressingMode::ZeroPage),
        0x68 => (Mnemonic::Pla, AddressingMode::Implied),
        0x69 => (Mnemonic::Adc, AddressingMode::Immediate),
        0x6A => (Mnemonic::Ror, AddressingMode::Accumulator),
        0x6C => (Mnemonic::Jmp, AddressingMode::Indirect),
        0x6D => (Mnemonic::Adc, AddressingMode::Absolute),
        0x6E => (Mnemonic::Ror, AddressingMode::Absolute),
        0x70 => (Mnemonic::Bvs, AddressingMode::Relative),
        0x71 => (Mnemonic::Adc, AddressingMode::IndirectIndexed),
        0x75 => (Mnemonic::Adc, AddressingMode::ZeroPageX),
        0x76 => (Mnemonic::Ror, AddressingMode::ZeroPageX),
        0x78 => (Mnemonic::Sei, AddressingMode::Implied),
        0x79 => (Mnemonic::Adc, AddressingMode::AbsoluteY),
        0x7D => (Mnemonic::Adc, AddressingMode::AbsoluteX),
        0x7E => (Mnemonic::Ror, AddressingMode::AbsoluteX),
        0x81 => (Mnemonic::Sta, AddressingMode::IndexedIndirect),
        0x84 => (Mnemonic::Sty, AddressingMode::ZeroPage),
        0x85 => (Mnemonic::Sta, AddressingMode::ZeroPage),
        0x86 => (Mnemonic::Stx, AddressingMode::ZeroPage),
        0x88 => (Mnemonic::Dey, AddressingMode::Implied),
        0x8A => (Mnemonic::Txa, AddressingMode::Implied),
        0x8C => (Mnemonic::Sty, AddressingMode::Absolute),
        0x8D => (Mnemonic::Sta, AddressingMode::Absolute),
        0x8E => (Mnemonic::Stx, AddressingMode::Absolute),
        0x90 => (Mnemonic::Bcc, AddressingMode::Relative),
        0x91 => (Mnemonic::Sta, AddressingMode::IndirectIndexed),
        0x94 => (Mnemonic::Sty, AddressingMode::ZeroPageX),
        0x95 => (Mnemonic::Sta, AddressingMode::ZeroPageX),
        0x96 => (Mnemonic::Stx, AddressingMode::ZeroPageY),
        0x98 => (Mnemonic::Tya, AddressingMode::Implied),
        0x99 => (Mnemonic::Sta, AddressingMode::AbsoluteY),
        0x9A => (Mnemonic::Txs, AddressingMode::Implied),
        0x9D => (Mnemonic::Sta, AddressingMode::AbsoluteX),
        0xA0 => (Mnemonic::Ldy, AddressingMode::Immediate),
        0xA1 => (Mnemonic::Lda, AddressingMode::IndexedIndirect),
        0xA2 => (Mnemonic::Ldx, AddressingMode::Immediate),
        0xA4 => (Mnemonic::Ldy, AddressingMode::ZeroPage),
        0xA5 => (Mnemonic::Lda, AddressingMode::ZeroPage),
        0xA6 => (Mnemonic::Ldx, AddressingMode::ZeroPage),
        0xA8 => (Mnemonic::Tay, AddressingMode::Implied),
        0xA9 => (Mnemonic::Lda, AddressingMode::Immediate),
        0xAA => (Mnemonic::Tax, AddressingMode::Implied),
        0xAC => (Mnemonic::Ldy, AddressingMode::Absolute),
        0xAD => (Mnemonic::Lda, AddressingMode::Absolute),
        0xAE => (Mnemonic::Ldx, AddressingMode::Absolute),
        0xB0 => (Mnemonic::Bcs, AddressingMode::Relative),
        0xB1 => (Mnemonic::Lda, AddressingMode::IndirectIndexed),
        0xB4 => (Mnemonic::Ldy, AddressingMode::ZeroPageX),
        0xB5 => (Mnemonic::Lda, AddressingMode::ZeroPageX),
        0xB6 => (Mnemonic::Ldx, AddressingMode::ZeroPageY),
        0xB8 => (Mnemonic::Clv, AddressingMode::Implied),
        0xB9 => (Mnemonic::Lda, AddressingMode::AbsoluteY),
        0xBA => (Mnemonic::Tsx, AddressingMode::Implied),
        0xBC => (Mnemonic::Ldy, AddressingMode::AbsoluteX),
        0xBD => (Mnemonic::Lda, AddressingMode::AbsoluteX),
        0xBE => (Mnemonic::Ldx, AddressingMode::AbsoluteY),
        0xC0 => (Mnemonic::Cpy, AddressingMode::Immediate),
        0xC1 => (Mnemonic::Cmp, AddressingMode::IndexedIndirect),
        0xC4 => (Mnemonic::Cpy, AddressingMode::ZeroPage),
        0xC5 => (Mnemonic::Cmp, AddressingMode::ZeroPage),
        0xC6 => (Mnemonic::Dec, AddressingMode::ZeroPage),
        0xC8 => (Mnemonic::Iny, AddressingMode::Implied),
        0xC9 => (Mnemonic::Cmp, AddressingMode::Immediate),
        0xCA => (Mnemonic::Dex, AddressingMode::Implied),
        0xCC => (Mnemonic::Cpy, AddressingMode::Absolute),
        0xCD => (Mnemonic::Cmp, AddressingMode::Absolute),
        0xCE => (Mnemonic::Dec, AddressingMode::Absolute),
        0xD0 => (Mnemonic::Bne, AddressingMode::Relative),
        0xD1 => (Mnemonic::Cmp, AddressingMode::IndirectIndexed),
        0xD5 => (Mnemonic::Cmp, AddressingMode::ZeroPageX),
        0xD6 => (Mnemonic::Dec, AddressingMode::ZeroPageX),
        0xD8 => (Mnemonic::Cld, AddressingMode::Implied),
        0xD9 => (Mnemonic::Cmp, AddressingMode::AbsoluteY),
        0xDD => (Mnemonic::Cmp, AddressingMode::AbsoluteX),
        0xDE => (Mnemonic::Dec, AddressingMode::AbsoluteX),
        0xE0 => (Mnemonic::Cpx, AddressingMode::Immediate),
        0xE1 => (Mnemonic::Sbc, AddressingMode::IndexedIndirect),
        0xE4 => (Mnemonic::Cpx, AddressingMode::ZeroPage),
        0xE5 => (Mnemonic::Sbc, AddressingMode::ZeroPage),
        0xE6 => (Mnemonic::Inc, AddressingMode::ZeroPage),
        0xE8 => (Mnemonic::Inx, AddressingMode::Implied),
        0xE9 => (Mnemonic::Sbc, AddressingMode::Immediate),
        0xEA => (Mnemonic::Nop, AddressingMode::Implied),
        0xEC => (Mnemonic::Cpx, AddressingMode::Absolute),
        0xED => (Mnemonic::Sbc, AddressingMode::Absolute),
        0xEE => (Mnemonic::Inc, AddressingMode::Absolute),
        0xF0 => (Mnemonic::Beq, AddressingMode::Relative),
        0xF1 => (Mnemonic::Sbc, AddressingMode::IndirectIndexed),
        0xF5 => (Mnemonic::Sbc, AddressingMode::ZeroPageX),
        0xF6 => (Mnemonic::Inc, AddressingMode::ZeroPageX),
        0xF8 => (Mnemonic::Sed, AddressingMode::Implied),
        0xF9 => (Mnemonic::Sbc, AddressingMode::AbsoluteY),
        0xFD => (Mnemonic::Sbc, AddressingMode::AbsoluteX),
        0xFE => (Mnemonic::Inc, AddressingMode::AbsoluteX),
        _ => (Mnemonic::Unused, AddressingMode::Implied),
    }
}

/// Looks an opcode up in the instruction table.
pub fn decode_entry(code: u8) -> (r: (Mnemonic, AddressingMode))
    ensures
        r == spec_decode(code),
{
    match code {
        0x00 => (Mnemonic::Brk, AddressingMode::Implied),
        0x01 => (Mnemonic::Ora, AddressingMode::IndexedIndirect),
        0x05 => (Mnemonic::Ora, AddressingMode::ZeroPage),
        0x06 => (Mnemonic::Asl, AddressingMode::ZeroPage),
        0x08 => (Mnemonic::Php, AddressingMode::Implied),
        0x09 => (Mnemonic::Ora, AddressingMode::Immediate),
        0x0A => (Mnemonic::Asl, AddressingMode::Accumulator),
        0x0D => (Mnemonic::Ora, AddressingMode::Absolute),
        0x0E => (Mnemonic::Asl, AddressingMode::Absolute),
        0x10 => (Mnemonic::Bpl, AddressingMode::Relative),
        0x11 => (Mnemonic::Ora, AddressingMode::IndirectIndexed),
        0x15 => (Mnemonic::Ora, AddressingMode::ZeroPageX),
        0x16 => (Mnemonic::Asl, AddressingMode::ZeroPageX),
        0x18 => (Mnemonic::Clc, AddressingMode::Implied),
        0x19 => (Mnemonic::Ora, AddressingMode::AbsoluteY),
        0x1D => (Mnemonic::Ora, AddressingMode::AbsoluteX),
        0x1E => (Mnemonic::Asl, AddressingMode::AbsoluteX),
        0x20 => (Mnemonic::Jsr, AddressingMode::Absolute),
        0x21 => (Mnemonic::And, AddressingMode::IndexedIndirect),
        0x24 => (Mnemonic::Bit, AddressingMode::ZeroPage),
        0x25 => (Mnemonic::And, AddressingMode::ZeroPage),
        0x26 => (Mnemonic::Rol, AddressingMode::ZeroPage),
        0x28 => (Mnemonic::Plp, AddressingMode::Implied),
        0x29 => (Mnemonic::And, AddressingMode::Immediate),
        0x2A => (Mnemonic::Rol, AddressingMode::Accumulator),
        0x2C => (Mnemonic::Bit, AddressingMode::Absolute),
        0x2D => (Mnemonic::And, AddressingMode::Absolute),
        0x2E => (Mnemonic::Rol, AddressingMode::Absolute),
        0x30 => (Mnemonic::Bmi, AddressingMode::Relative),
        0x31 => (Mnemonic::And, AddressingMode::IndirectIndexed),
        0x35 => (Mnemonic::And, AddressingMode::ZeroPageX),
        0x36 => (Mnemonic::Rol, AddressingMode::ZeroPageX),
        0x38 => (Mnemonic::Sec, AddressingMode::Implied),
        0x39 => (Mnemonic::And, AddressingMode::AbsoluteY),
        0x3D => (Mnemonic::And, AddressingMode::AbsoluteX),
        0x3E => (Mnemonic::Rol, AddressingMode::AbsoluteX),
        0x40 => (Mnemonic::Rti, AddressingMode::Implied),
        0x41 => (Mnemonic::Eor, AddressingMode::IndexedIndirect),
        0x45 => (Mnemonic::Eor, AddressingMode::ZeroPage),
        0x46 => (Mnemonic::Lsr, AddressingMode::ZeroPage),
        0x48 => (Mnemonic::Pha, AddressingMode::Implied),
        0x49 => (Mnemonic::Eor, AddressingMode::Immediate),
        0x4A => (Mnemonic::Lsr, AddressingMode::Accumulator),
        0x4C => (Mnemonic::Jmp, AddressingMode::Absolute),
        0x4D => (Mnemonic::Eor, AddressingMode::Absolute),
        0x4E => (Mnemonic::Lsr, AddressingMode::Absolute),
        0x50 => (Mnemonic::Bvc, AddressingMode::Relative),
        0x51 => (Mnemonic::Eor, AddressingMode::IndirectIndexed),
        0x55 => (Mnemonic::Eor, AddressingMode::ZeroPageX),
        0x56 => (Mnemonic::Lsr, AddressingMode::ZeroPageX),
        0x58 => (Mnemonic::Cli, AddressingMode::Implied),
        0x59 => (Mnemonic::Eor, AddressingMode::AbsoluteY),
        0x5D => (Mnemonic::Eor, AddressingMode::AbsoluteX),
        0x5E => (Mnemonic::Lsr, AddressingMode::AbsoluteX),
        0x60 => (Mnemonic::Rts, AddressingMode::Implied),
        0x61 => (Mnemonic::Adc, AddressingMode::IndexedIndirect),
        0x65 => (Mnemonic::Adc, AddressingMode::ZeroPage),
        0x66 => (Mnemonic::Ror, AddressingMode::ZeroPage),
        0x68 => (Mnemonic::Pla, AddressingMode::Implied),
        0x69 => (Mnemonic::Adc, AddressingMode::Immediate),
        0x6A => (Mnemonic::Ror, AddressingMode::Accumulator),
        0x6C => (Mnemonic::Jmp, AddressingMode::Indirect),
        0x6D => (Mnemonic::Adc, AddressingMode::Absolute),
        0x6E => (Mnemonic::Ror, AddressingMode::Absolute),
        0x70 => (Mnemonic::Bvs, AddressingMode::Relative),
        0x71 => (Mnemonic::Adc, AddressingMode::IndirectIndexed),
        0x75 => (Mnemonic::Adc, AddressingMode::ZeroPageX),
        0x76 => (Mnemonic::Ror, AddressingMode::ZeroPageX),
        0x78 => (Mnemonic::Sei, AddressingMode::Implied),
        0x79 => (Mnemonic::Adc, AddressingMode::AbsoluteY),
        0x7D => (Mnemonic::Adc, AddressingMode::AbsoluteX),
        0x7E => (Mnemonic::Ror, AddressingMode::AbsoluteX),
        0x81 => (Mnemonic::Sta, AddressingMode::IndexedIndirect),
        0x84 => (Mnemonic::Sty, AddressingMode::ZeroPage),
        0x85 => (Mnemonic::Sta, AddressingMode::ZeroPage),
        0x86 => (Mnemonic::Stx, AddressingMode::ZeroPage),
        0x88 => (Mnemonic::Dey, AddressingMode::Implied),
        0x8A => (Mnemonic::Txa, AddressingMode::Implied),
        0x8C => (Mnemonic::Sty, AddressingMode::Absolute),
        0x8D => (Mnemonic::Sta, AddressingMode::Absolute),
        0x8E => (Mnemonic::Stx, AddressingMode::Absolute),
        0x90 => (Mnemonic::Bcc, AddressingMode::Relative),
        0x91 => (Mnemonic::Sta, AddressingMode::IndirectIndexed),
        0x94 => (Mnemonic::Sty, AddressingMode::ZeroPageX),
        0x95 => (Mnemonic::Sta, AddressingMode::ZeroPageX),
        0x96 => (Mnemonic::Stx, AddressingMode::ZeroPageY),
        0x98 => (Mnemonic::Tya, AddressingMode::Implied),
        0x99 => (Mnemonic::Sta, AddressingMode::AbsoluteY),
        0x9A => (Mnemonic::Txs, AddressingMode::Implied),
        0x9D => (Mnemonic::Sta, AddressingMode::AbsoluteX),
        0xA0 => (Mnemonic::Ldy, AddressingMode::Immediate),
        0xA1 => (Mnemonic::Lda, AddressingMode::IndexedIndirect),
        0xA2 => (Mnemonic::Ldx, AddressingMode::Immediate),
        0xA4 => (Mnemonic::Ldy, AddressingMode::ZeroPage),
        0xA5 => (Mnemonic::Lda, AddressingMode::ZeroPage),
        0xA6 => (Mnemonic::Ldx, AddressingMode::ZeroPage),
        0xA8 => (Mnemonic::Tay, AddressingMode::Implied),
        0xA9 => (Mnemonic::Lda, AddressingMode::Immediate),
        0xAA => (Mnemonic::Tax, AddressingMode::Implied),
        0xAC => (Mnemonic::Ldy, AddressingMode::Absolute),
        0xAD => (Mnemonic::Lda, AddressingMode::Absolute),
        0xAE => (Mnemonic::Ldx, AddressingMode::Absolute),
        0xB0 => (Mnemonic::Bcs, AddressingMode::Relative),
        0xB1 => (Mnemonic::Lda, AddressingMode::IndirectIndexed),
        0xB4 => (Mnemonic::Ldy, AddressingMode::ZeroPageX),
        0xB5 => (Mnemonic::Lda, AddressingMode::ZeroPageX),
        0xB6 => (Mnemonic::Ldx, AddressingMode::ZeroPageY),
        0xB8 => (Mnemonic::Clv, AddressingMode::Implied),
        0xB9 => (Mnemonic::Lda, AddressingMode::AbsoluteY),
        0xBA => (Mnemonic::Tsx, AddressingMode::Implied),
        0xBC => (Mnemonic::Ldy, AddressingMode::AbsoluteX),
        0xBD => (Mnemonic::Lda, AddressingMode::AbsoluteX),
        0xBE => (Mnemonic::Ldx, AddressingMode::AbsoluteY),
        0xC0 => (Mnemonic::Cpy, AddressingMode::Immediate),
        0xC1 => (Mnemonic::Cmp, AddressingMode::IndexedIndirect),
        0xC4 => (Mnemonic::Cpy, AddressingMode::ZeroPage),
        0xC5 => (Mnemonic::Cmp, AddressingMode::ZeroPage),
        0xC6 => (Mnemonic::Dec, AddressingMode::ZeroPage),
        0xC8 => (Mnemonic::Iny, AddressingMode::Implied),
        0xC9 => (Mnemonic::Cmp, AddressingMode::Immediate),
        0xCA => (Mnemonic::Dex, AddressingMode::Implied),
        0xCC => (Mnemonic::Cpy, AddressingMode::Absolute),
        0xCD => (Mnemonic::Cmp, AddressingMode::Absolute),
        0xCE => (Mnemonic::Dec, AddressingMode::Absolute),
        0xD0 => (Mnemonic::Bne, AddressingMode::Relative),
        0xD1 => (Mnemonic::Cmp, AddressingMode::IndirectIndexed),
        0xD5 => (Mnemonic::Cmp, AddressingMode::ZeroPageX),
        0xD6 => (Mnemonic::Dec, AddressingMode::ZeroPageX),
        0xD8 => (Mnemonic::Cld, AddressingMode::Implied),
        0xD9 => (Mnemonic::Cmp, AddressingMode::AbsoluteY),
        0xDD => (Mnemonic::Cmp, AddressingMode::AbsoluteX),
        0xDE => (Mnemonic::Dec, AddressingMode::AbsoluteX),
        0xE0 => (Mnemonic::Cpx, AddressingMode::Immediate),
        0xE1 => (Mnemonic::Sbc, AddressingMode::IndexedIndirect),
        0xE4 => (Mnemonic::Cpx, AddressingMode::ZeroPage),
        0xE5 => (Mnemonic::Sbc, AddressingMode::ZeroPage),
        0xE6 => (Mnemonic::Inc, AddressingMode::ZeroPage),
        0xE8 => (Mnemonic::Inx, AddressingMode::Implied),
        0xE9 => (Mnemonic::Sbc, AddressingMode::Immediate),
        0xEA => (Mnemonic::Nop, AddressingMode::Implied),
        0xEC => (Mnemonic::Cpx, AddressingMode::Absolute),
        0xED => (Mnemonic::Sbc, AddressingMode::Absolute),
        0xEE => (Mnemonic::Inc, AddressingMode::Absolute),
        0xF0 => (Mnemonic::Beq, AddressingMode::Relative),
        0xF1 => (Mnemonic::Sbc, AddressingMode::IndirectIndexed),
        0xF5 => (Mnemonic::Sbc, AddressingMode::ZeroPageX),
        0xF6 => (Mnemonic::Inc, AddressingMode::ZeroPageX),
        0xF8 => (Mnemonic::Sed, AddressingMode::Implied),
        0xF9 => (Mnemonic::Sbc, AddressingMode::AbsoluteY),
        0xFD => (Mnemonic::Sbc, AddressingMode::AbsoluteX),
        0xFE => (Mnemonic::Inc, AddressingMode::AbsoluteX),
        _ => (Mnemonic::Unused, AddressingMode::Implied),
    }
}

/// The number of bytes that follow the opcode in each addressing mode.
pub open spec fn operand_bytes(mode: AddressingMode) -> nat {
    match mode {
        AddressingMode::Implied | AddressingMode::Accumulator => 0,
        AddressingMode::Absolute | AddressingMode::AbsoluteX | AddressingMode::AbsoluteY
        | AddressingMode::Indirect => 2,
        _ => 1,
    }
}

/// The total length in bytes of the instruction that opcode `code` starts.
pub open spec fn spec_length(code: u8) -> nat {
    1 + operand_bytes(spec_decode(code).1)
}

/// Whether `code` is one of the opcodes that the documented instruction set leaves unassigned.
pub open spec fn is_unused(code: u8) -> bool {
    spec_decode(code).0 == Mnemonic::Unused
}

/// Base cycles of an instruction that reads its operand.
pub open spec fn read_cycles(mode: AddressingMode) -> u8 {
    match mode {
        AddressingMode::ZeroPage => 3,
        AddressingMode::ZeroPageX | AddressingMode::ZeroPageY | AddressingMode::Absolute
        | AddressingMode::AbsoluteX | AddressingMode::AbsoluteY => 4,
        AddressingMode::IndirectIndexed | AddressingMode::Indirect => 5,
        AddressingMode::IndexedIndirect => 6,
        _ => 2,
    }
}

/// Base cycles of a store.
pub open spec fn store_cycles(mode: AddressingMode) -> u8 {
    match mode {
        AddressingMode::ZeroPage => 3,
        AddressingMode::ZeroPageX | AddressingMode::ZeroPageY | AddressingMode::Absolute => 4,
        AddressingMode::AbsoluteX | AddressingMode::AbsoluteY => 5,
        AddressingMode::IndexedIndirect | AddressingMode::IndirectIndexed => 6,
        _ => 2,
    }
}

/// Base cycles of a read-modify-write instruction (shifts, rotates, INC, DEC).
pub open spec fn modify_cycles(mode: AddressingMode) -> u8 {
    match mode {
        AddressingMode::ZeroPage => 5,
        AddressingMode::ZeroPageX | AddressingMode::Absolute => 6,
        AddressingMode::AbsoluteX => 7,
        _ => 2,
    }
}

/// The base cycle cost of a mnemonic in an addressing mode, before any
/// page-crossing or taken-branch penalty.
pub open spec fn spec_cycles(mn: Mnemonic, mode: AddressingMode) -> u8 {
    match mn {
        Mnemonic::Brk => 7,
        Mnemonic::Rti | Mnemonic::Rts | Mnemonic::Jsr => 6,
        Mnemonic::Pha | Mnemonic::Php => 3,
        Mnemonic::Pla | Mnemonic::Plp => 4,
        Mnemonic::Jmp => if mode == AddressingMode::Indirect {
            5
        } else {
            3
        },
        Mnemonic::Sta | Mnemonic::Stx | Mnemonic::Sty => store_cycles(mode),
        Mnemonic::Asl | Mnemonic::Lsr | Mnemonic::Rol | Mnemonic::Ror | Mnemonic::Inc
        | Mnemonic::Dec => modify_cycles(mode),
        _ => read_cycles(mode),
    }
}

/// The base cycle cost of opcode `code`.
pub open spec fn spec_opcode_cycles(code: u8) -> u8 {
    spec_cycles(spec_decode(code).0, spec_decode(code).1)
}

pub(crate) fn cycles_for(mn: Mnemonic, mode: AddressingMode) -> (r: u8)
    ensures
        r == spec_cycles(mn, mode),
{
    match mn {
        Mnemonic::Brk => 7,
        Mnemonic::Rti | Mnemonic::Rts | Mnemonic::Jsr => 6,
        Mnemonic::Pha | Mnemonic::Php => 3,
        Mnemonic::Pla | Mnemonic::Plp => 4,
        Mnemonic::Jmp => if mode == AddressingMode::Indirect {
            5
        } else {
            3
        },
        Mnemonic::Sta | Mnemonic::Stx | Mnemonic::Sty => match mode {
            AddressingMode::ZeroPage => 3,
            AddressingMode::ZeroPageX | AddressingMode::ZeroPageY | AddressingMode::Absolute => 4,
            AddressingMode::AbsoluteX | AddressingMode::AbsoluteY => 5,
            AddressingMode::IndexedIndirect | AddressingMode::IndirectIndexed => 6,
            _ => 2,
        },
        Mnemonic::Asl | Mnemonic::Lsr | Mnemonic::Rol | Mnemonic::Ror | Mnemonic::Inc
        | Mnemonic::Dec => match mode {
            AddressingMode::ZeroPage => 5,
            AddressingMode::ZeroPageX | AddressingMode::Absolute => 6,
            AddressingMode::AbsoluteX => 7,
            _ => 2,
        },
        _ => match mode {
            AddressingMode::ZeroPage => 3,
            AddressingMode::ZeroPageX | AddressingMode::ZeroPageY | AddressingMode::Absolute
            | AddressingMode::AbsoluteX | AddressingMode::AbsoluteY => 4,
            AddressingMode::IndirectIndexed | AddressingMode::Indirect => 5,
            AddressingMode::IndexedIndirect => 6,
            _ => 2,
        },
    }
}

pub(crate) fn length_for(mode: AddressingMode) -> (r: usize)
    ensures
        r == 1 + operand_bytes(mode),
{
    match mode {
        AddressingMode::Implied | AddressingMode::Accumulator => 1,
        AddressingMode::Absolute | AddressingMode::AbsoluteX | AddressingMode::AbsoluteY
        | AddressingMode::Indirect => 3,
        _ => 2,
    }
}

/// The assembler name of a mnemonic.
pub open spec fn mnemonic_text(mn: Mnemonic) -> Seq<char> {
    match mn {
        Mnemonic::Adc => "ADC"@,
        Mnemonic::And => "AND"@,
        Mnemonic::Asl => "ASL"@,
        Mnemonic::Bcc => "BCC"@,
        Mnemonic::Bcs => "BCS"@,
        Mnemonic::Beq => "BEQ"@,
        Mnemonic::Bit => "BIT"@,
        Mnemonic::Bmi => "BMI"@,
        Mnemonic::Bne => "BNE"@,
        Mnemonic::Bpl => "BPL"@,
        Mnemonic::Brk => "BRK"@,
        Mnemonic::Bvc => "BVC"@,
        Mnemonic::Bvs => "BVS"@,
        Mnemonic::Clc => "CLC"@,
        Mnemonic::Cld => "CLD"@,
        Mnemonic::Cli => "CLI"@,
        Mnemonic::Clv => "CLV"@,
        Mnemonic::Cmp => "CMP"@,
        Mnemonic::Cpx => "CPX"@,
        Mnemonic::Cpy => "CPY"@,
        Mnemonic::Dec => "DEC"@,
        Mnemonic::Dex => "DEX"@,
        Mnemonic::Dey => "DEY"@,
        Mnemonic::Eor => "EOR"@,
        Mnemonic::Inc => "INC"@,
        Mnemonic::Inx => "INX"@,
        Mnemonic::Iny => "INY"@,
        Mnemonic::Jmp => "JMP"@,
        Mnemonic::Jsr => "JSR"@,
        Mnemonic::Lda => "LDA"@,
        Mnemonic::Ldx => "LDX"@,
        Mnemonic::Ldy => "LDY"@,
        Mnemonic::Lsr => "LSR"@,
        Mnemonic::Nop => "NOP"@,
        Mnemonic::Ora => "ORA"@,
        Mnemonic::Pha => "PHA"@,
        Mnemonic::Php => "PHP"@,
        Mnemonic::Pla => "PLA"@,
        Mnemonic::Plp => "PLP"@,
        Mnemonic::Rol => "ROL"@,
        Mnemonic::Ror => "ROR"@,
        Mnemonic::Rti => "RTI"@,
        Mnemonic::Rts => "RTS"@,
        Mnemonic::Sbc => "SBC"@,
        Mnemonic::Sec => "SEC"@,
        Mnemonic::Sed => "SED"@,
        Mnemonic::Sei => "SEI"@,
        Mnemonic::Sta => "STA"@,
        Mnemonic::Stx => "STX"@,
        Mnemonic::Sty => "STY"@,
        Mnemonic::Tax => "TAX"@,
        Mnemonic::Tay => "TAY"@,
        Mnemonic::Tsx => "TSX"@,
        Mnemonic::Txa => "TXA"@,
        Mnemonic::Txs => "TXS"@,
        Mnemonic::Tya => "TYA"@,
        Mnemonic::Unused => "Not used."@,
    }
}

fn mnemonic_name(mn: Mnemonic) -> (r: &'static str)
    ensures
        r@ == mnemonic_text(mn),
{
    match mn {
        Mnemonic::Adc => "ADC",
        Mnemonic::And => "AND",
        Mnemonic::Asl => "ASL",
        Mnemonic::Bcc => "BCC",
        Mnemonic::Bcs => "BCS",
        Mnemonic::Beq => "BEQ",
        Mnemonic::Bit => "BIT",
        Mnemonic::Bmi => "BMI",
        Mnemonic::Bne => "BNE",
        Mnemonic::Bpl => "BPL",
        Mnemonic::Brk => "BRK",
        Mnemonic::Bvc => "BVC",
        Mnemonic::Bvs => "BVS",
        Mnemonic::Clc => "CLC",
        Mnemonic::Cld => "CLD",
        Mnemonic::Cli => "CLI",
        Mnemonic::Clv => "CLV",
        Mnemonic::Cmp => "CMP",
        Mnemonic::Cpx => "CPX",
        Mnemonic::Cpy => "CPY",
        Mnemonic::Dec => "DEC",
        Mnemonic::Dex => "DEX",
        Mnemonic::Dey => "DEY",
        Mnemonic::Eor => "EOR",
        Mnemonic::Inc => "INC",
        Mnemonic::Inx => "INX",
        Mnemonic::Iny => "INY",
        Mnemonic::Jmp => "JMP",
        Mnemonic::Jsr => "JSR",
        Mnemonic::Lda => "LDA",
        Mnemonic::Ldx => "LDX",
        Mnemonic::Ldy => "LDY",
        Mnemonic::Lsr => "LSR",
        Mnemonic::Nop => "NOP",
        Mnemonic::Ora => "ORA",
        Mnemonic::Pha => "PHA",
        Mnemonic::Php => "PHP",
        Mnemonic::Pla => "PLA",
        Mnemonic::Plp => "PLP",
        Mnemonic::Rol => "ROL",
        Mnemonic::Ror => "ROR",
        Mnemonic::Rti => "RTI",
        Mnemonic::Rts => "RTS",
        Mnemonic::Sbc => "SBC",
        Mnemonic::Sec => "SEC",
        Mnemonic::Sed => "SED",
        Mnemonic::Sei => "SEI",
        Mnemonic::Sta => "STA",
        Mnemonic::Stx => "STX",
        Mnemonic::Sty => "STY",
        Mnemonic::Tax => "TAX",
        Mnemonic::Tay => "TAY",
        Mnemonic::Tsx => "TSX",
        Mnemonic::Txa => "TXA",
        Mnemonic::Txs => "TXS",
        Mnemonic::Tya => "TYA",
        Mnemonic::Unused => "Not used.",
    }
}

/// The text that names an addressing mode after the mnemonic.
pub open spec fn mode_text(mode: AddressingMode) -> Seq<char> {
    match mode {
        AddressingMode::Implied => ""@,
        AddressingMode::Accumulator => " Accumulator"@,
        AddressingMode::Immediate => " Immediate"@,
        AddressingMode::ZeroPage => " Zero Page"@,
        AddressingMode::ZeroPageX => " Zero Page, X"@,
        AddressingMode::ZeroPageY => " Zero Page, Y"@,
        AddressingMode::Absolute => " Absolute"@,
        AddressingMode::AbsoluteX => " Absolute, X"@,
        AddressingMode::AbsoluteY => " Absolute, Y"@,
        AddressingMode::Indirect => " Indirect"@,
        AddressingMode::IndexedIndirect => " Indirect, X"@,
        AddressingMode::IndirectIndexed => " Indirect, Y"@,
        AddressingMode::Relative => ""@,
    }
}

fn mode_suffix(mode: AddressingMode) -> (r: &'static str)
    ensures
        r@ == mode_text(mode),
{
    match mode {
        AddressingMode::Implied => "",
        AddressingMode::Accumulator => " Accumulator",
        AddressingMode::Immediate => " Immediate",
        AddressingMode::ZeroPage => " Zero Page",
        AddressingMode::ZeroPageX => " Zero Page, X",
        AddressingMode::ZeroPageY => " Zero Page, Y",
        AddressingMode::Absolute => " Absolute",
        AddressingMode::AbsoluteX => " Absolute, X",
        AddressingMode::AbsoluteY => " Absolute, Y",
        AddressingMode::Indirect => " Indirect",
        AddressingMode::IndexedIndirect => " Indirect, X",
        AddressingMode::IndirectIndexed => " Indirect, Y",
        AddressingMode::Relative => "",
    }
}

/// The human-readable description of opcode `code`, such as `LDA Immediate`.
pub open spec fn description_of(code: u8) -> Seq<char> {
    mnemonic_text(spec_decode(code).0) + mode_text(spec_decode(code).1)
}

/// The descriptor of one opcode.
#[derive(Debug, Clone)]
pub struct Opcode {
    pub code: u8,
    /// Length of the whole instruction in bytes, the opcode byte included.
    pub length: usize,
    /// Base cycle cost.
    pub cycles: u8,
    pub description: String,
}

pub fn set_opcode(code: u8, length: usize, cycles: u8, description: String) -> (r: Opcode)
    ensures
        r.code == code,
        r.length == length,
        r.cycles == cycles,
        r.description@ == description@,
{
    Opcode { code, length, cycles, description }
}

pub fn get_opcode_length(opcode: Opcode) -> (r: usize)
    ensures
        r == opcode.length,
{
    opcode.length
}

pub fn get_opcode_description(opcode: Opcode) -> (r: String)
    ensures
        r@ == opcode.description@,
{
    opcode.description
}

pub fn get_opcode_code(opcode: Opcode) -> (r: u8)
    ensures
        r == opcode.code,
{
    opcode.code
}

/// The mnemonic of a descriptor's opcode.
pub fn get_opcode_mnemonic(opcode: &Opcode) -> (r: Mnemonic)
    ensures
        r == spec_decode(opcode.code).0,
{
    decode_entry(opcode.code).0
}

/// The addressing mode of a descriptor's opcode.
pub fn get_opcode_mode(opcode: &Opcode) -> (r: AddressingMode)
    ensures
        r == spec_decode(opcode.code).1,
{
    decode_entry(opcode.code).1
}

/// The high four bits of a byte.
pub fn get_left_nibble(byte: u8) -> (r: u8)
    ensures
        r == byte / 16,
{
    assert((byte & 0xF0) >> 4 == byte / 16) by (bit_vector);
    (byte & 0xF0) >> 4
}

/// The low four bits of a byte.
pub fn get_right_nibble(byte: u8) -> (r: u8)
    ensures
        r == byte % 16,
{
    assert(byte & 0x0F == byte % 16) by (bit_vector);
    byte & 0x0F
}

/// `op` is the descriptor of opcode `code` that the instruction table gives.
pub open spec fn describes(op: Opcode, code: u8) -> bool {
    &&& op.code == code
    &&& op.length == spec_length(code)
    &&& op.cycles == spec_opcode_cycles(code)
    &&& op.description@ == description_of(code)
}

/// Decodes an opcode byte into its descriptor. Total: every byte has one.
pub fn build_opcode(byte: u8) -> (r: Opcode)
    ensures
        describes(r, byte),
{
    let (mn, mode) = decode_entry(byte);
    let description = String::from_str(mnemonic_name(mn)).concat(mode_suffix(mode));
    set_opcode(byte, length_for(mode), cycles_for(mn, mode), description)
}

/// Every opcode decodes to an instruction of one to three bytes, the
/// length its addressing mode consumes; a documented instruction costs at
/// least two cycles, and an unassigned opcode is marked as such, one byte
/// long and described as not used.
pub proof fn lemma_decode_total(code: u8)
    ensures
        1 <= spec_length(code) <= 3,
        spec_length(code) == 1 + operand_bytes(spec_decode(code).1),
        spec_opcode_cycles(code) >= 2,
        is_unused(code) ==> spec_length(code) == 1 && spec_opcode_cycles(code) == 2
            && description_of(code) == "Not used."@,
{
    let (mn, mode) = spec_decode(code);
    if is_unused(code) {
        assert(mode == AddressingMode::Implied);
        reveal_strlit("");
        assert(mode_text(mode) == ""@);
        assert(description_of(code) =~= "Not used."@);
    }
}

} // verus!
