use nes_cpu::header::set_header;
use nes_cpu::opcode::build_opcode;

#[test]
fn header_fields_from_image() {
    let bytes: [u8; 12] = [0x4E, 0x45, 0x53, 0x1A, 0x02, 0x01, 0x01, 0x00, 0x00, 0x00, 0x00, 0xFF];
    let rom: Vec<_> = bytes.iter().map(|b| build_opcode(*b)).collect();
    let h = set_header(rom);
    assert_eq!([h.byte_0, h.byte_1, h.byte_2, h.byte_3], [b'N', b'E', b'S', 0x1A]);
    assert_eq!(h.prg_rom_size, 2);
    assert_eq!(h.chr_rom_size, 1);
    assert_eq!(h.flags_6, 1);
    assert_eq!((h.flags_7, h.flags_8, h.flags_9, h.flags_10), (0, 0, 0, 0));
}
