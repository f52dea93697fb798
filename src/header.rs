use vstd::prelude::*;
use crate::opcode::Opcode;

verus! {

/// Number of header bytes read from the start of a cartridge image.
pub const HEADER_LEN: usize = 11;

/// The leading bytes of a cartridge image, already split into fields.
#[derive(Debug, Clone)]
pub struct Header {
    pub byte_0: u8,
    pub byte_1: u8,
    pub byte_2: u8,
    pub byte_3: u8,
    /// Number of program ROM banks.
    pub prg_rom_size: u8,
    /// Number of character ROM banks.
    pub chr_rom_size: u8,
    pub flags_6: u8,
    pub flags_7: u8,
    pub flags_8: u8,
    pub flags_9: u8,
    pub flags_10: u8,
}

/// Builds the header from the first eleven entries of an image decoded
/// byte by byte: field `i` is the byte of entry `i`.
pub fn set_header(rom: Vec<Opcode>) -> (h: Header)
    requires
        rom@.len() >= HEADER_LEN,
    ensures
        h.byte_0 == rom@[0].code,
        h.byte_1 == rom@[1].code,
        h.byte_2 == rom@[2].code,
        h.byte_3 == rom@[3].code,
        h.prg_rom_size == rom@[4].code,
        h.chr_rom_size == rom@[5].code,
        h.flags_6 == rom@[6].code,
        h.flags_7 == rom@[7].code,
        h.flags_8 == rom@[8].code,
        h.flags_9 == rom@[9].code,
        h.flags_10 == rom@[10].code,
{
    Header {
        byte_0: rom[0x0].code,
        byte_1: rom[0x1].code,
        byte_2: rom[0x2].code,
        byte_3: rom[0x3].code,
        prg_rom_size: rom[0x4].code,
        chr_rom_size: rom[0x5].code,
        flags_6: rom[0x6].code,
        flags_7: rom[0x7].code,
        flags_8: rom[0x8].code,
        flags_9: rom[0x9].code,
        flags_10: rom[0xA].code,
    }
}

} // verus!
