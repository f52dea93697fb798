use nes_cpu::bus::{mapped_register, IoRegister, PPU_STATUS};
use nes_cpu::cpu::{init_cpu, CPU};
use nes_cpu::execute::{Interrupt, LoadError, StreamError};
use nes_cpu::flags::Flag;
use nes_cpu::opcode::{build_opcode, AddressingMode};
use nes_cpu::state::Operand;

/// Executes one instruction given by its bytes, as the fetch step would hand them over.
fn run(cpu: &mut CPU, code: u8, b1: u8, b2: u8) {
    cpu.set_instruction(code);
    cpu.set_first_byte_of_interest(b1);
    cpu.set_second_byte_of_interest(b2);
    cpu.execute_opcode(build_opcode(code));
}

#[test]
fn start_up_state() {
    let cpu = init_cpu();
    assert_eq!(cpu.get_pc(), 0x10);
    assert_eq!((cpu.get_a(), cpu.get_x(), cpu.get_y()), (0, 0, 0));
    assert_eq!(cpu.get_s(), 0x01FD);
    assert_eq!(cpu.get_status(), 0x34);
    assert!(cpu.get_flag(Flag::InterruptDisable));
    assert_eq!(cpu.read(PPU_STATUS), 0b1010_0000);
    assert_eq!(cpu.read(0x0000), 0);
}

#[test]
fn zero_page_indexed_wraps() {
    let mut cpu = init_cpu();
    cpu.set_x(0x02);
    assert_eq!(cpu.resolve(AddressingMode::ZeroPageX, 0xFF, 0), (Operand::Address(0x01), false));
    cpu.set_y(0x81);
    assert_eq!(cpu.resolve(AddressingMode::ZeroPageY, 0x80, 0), (Operand::Address(0x01), false));
}

#[test]
fn absolute_indexed_page_cross() {
    let mut cpu = init_cpu();
    cpu.set_x(0x01);
    assert_eq!(cpu.resolve(AddressingMode::AbsoluteX, 0xFF, 0x12), (Operand::Address(0x1300), true));
    cpu.set_x(0x05);
    assert_eq!(cpu.resolve(AddressingMode::AbsoluteX, 0x00, 0x12), (Operand::Address(0x1205), false));
    cpu.set_y(0x02);
    assert_eq!(cpu.resolve(AddressingMode::AbsoluteY, 0xFF, 0xFF), (Operand::Address(0x0001), true));
}

#[test]
fn indirect_modes() {
    let mut cpu = init_cpu();
    cpu.write(0x0024, 0x74);
    cpu.write(0x0025, 0x20);
    cpu.set_x(0x04);
    assert_eq!(cpu.resolve(AddressingMode::IndexedIndirect, 0x20, 0), (Operand::Address(0x2074), false));
    cpu.write(0x0086, 0x28);
    cpu.write(0x0087, 0x40);
    cpu.set_y(0x10);
    assert_eq!(cpu.resolve(AddressingMode::IndirectIndexed, 0x86, 0), (Operand::Address(0x4038), false));
    cpu.set_y(0xFF);
    assert_eq!(cpu.resolve(AddressingMode::IndirectIndexed, 0x86, 0), (Operand::Address(0x4127), true));
    // The pointer's high byte comes from the start of the same page.
    cpu.write(0x02FF, 0x34);
    cpu.write(0x0200, 0x12);
    cpu.write(0x0300, 0x99);
    assert_eq!(cpu.resolve(AddressingMode::Indirect, 0xFF, 0x02), (Operand::Address(0x1234), false));
    // Indexed-indirect wraps within the zero page before the pointer is read.
    cpu.write(0x00FF, 0x00);
    cpu.write(0x0000, 0x80);
    cpu.set_x(0x01);
    assert_eq!(cpu.resolve(AddressingMode::IndexedIndirect, 0xFE, 0), (Operand::Address(0x8000), false));
}

#[test]
fn compare_immediate_flags() {
    let mut cpu = init_cpu();
    cpu.set_a(0x50);
    run(&mut cpu, 0xC9, 0x30, 0);
    assert!(cpu.get_flag(Flag::Carry));
    assert!(!cpu.get_flag(Flag::Zero));
    assert!(!cpu.get_flag(Flag::Negative));
    assert_eq!(cpu.get_a(), 0x50);

    cpu.set_a(0x30);
    run(&mut cpu, 0xC9, 0x50, 0);
    assert!(cpu.get_flag(Flag::Negative));
    assert!(!cpu.get_flag(Flag::Carry));
    assert!(!cpu.get_flag(Flag::Zero));

    cpu.set_a(0x42);
    run(&mut cpu, 0xC9, 0x42, 0);
    assert!(cpu.get_flag(Flag::Carry));
    assert!(cpu.get_flag(Flag::Zero));
    assert!(!cpu.get_flag(Flag::Negative));
    assert_eq!(cpu.get_pc(), 0x10 + 6);
}

#[test]
fn compare_negative_follows_difference() {
    let mut cpu = init_cpu();
    cpu.set_a(0x10);
    run(&mut cpu, 0xC9, 0xF0, 0);
    assert!(!cpu.get_flag(Flag::Carry));
    assert!(!cpu.get_flag(Flag::Negative));
    cpu.set_x(0x05);
    run(&mut cpu, 0xE0, 0x05, 0);
    assert!(cpu.get_flag(Flag::Zero) && cpu.get_flag(Flag::Carry));
    cpu.set_y(0x01);
    run(&mut cpu, 0xC0, 0x02, 0);
    assert!(cpu.get_flag(Flag::Negative) && !cpu.get_flag(Flag::Carry));
}

#[test]
fn load_immediate_flags() {
    let mut cpu = init_cpu();
    cpu.set_a(0x12);
    run(&mut cpu, 0xA9, 0x00, 0);
    assert_eq!(cpu.get_a(), 0x00);
    assert!(cpu.get_flag(Flag::Zero));
    assert!(!cpu.get_flag(Flag::Negative));
    assert_eq!(cpu.get_zero_flag(), 0b10);
    run(&mut cpu, 0xA9, 0x80, 0);
    assert_eq!(cpu.get_a(), 0x80);
    assert!(!cpu.get_flag(Flag::Zero));
    assert!(cpu.get_flag(Flag::Negative));
    assert_eq!(cpu.get_negative_flag(), 0b1000_0000);
    assert_eq!(cpu.get_pc(), 0x14);
}

#[test]
fn load_leaves_other_flags() {
    let mut cpu = init_cpu();
    cpu.set_carry_flag();
    cpu.set_overflow_flag();
    run(&mut cpu, 0xA2, 0x00, 0);
    assert_eq!(cpu.get_x(), 0);
    assert_eq!(cpu.get_carry_flag(), 1);
    assert_eq!(cpu.get_overflow_flag(), 0x40);
    assert_eq!(cpu.get_interrupt_flag(), 0x04);
}

#[test]
fn sei_sets_interrupt_disable() {
    let mut cpu = init_cpu();
    cpu.reset_interrupt_flag();
    assert_eq!(cpu.get_interrupt_flag(), 0);
    run(&mut cpu, 0x78, 0, 0);
    assert_eq!(cpu.get_interrupt_flag(), 0x04);
    run(&mut cpu, 0x78, 0, 0);
    assert_eq!(cpu.get_interrupt_flag(), 0x04);
    assert_eq!(cpu.get_pc(), 0x12);
}

#[test]
fn flag_set_and_clear_instructions() {
    let mut cpu = init_cpu();
    run(&mut cpu, 0x38, 0, 0);
    assert!(cpu.get_flag(Flag::Carry));
    run(&mut cpu, 0x18, 0, 0);
    assert!(!cpu.get_flag(Flag::Carry));
    run(&mut cpu, 0xF8, 0, 0);
    assert_eq!(cpu.get_decimal_flag(), 0x08);
    run(&mut cpu, 0xD8, 0, 0);
    assert_eq!(cpu.get_decimal_flag(), 0);
    run(&mut cpu, 0x58, 0, 0);
    assert!(!cpu.get_flag(Flag::InterruptDisable));
    cpu.set_overflow_flag();
    run(&mut cpu, 0xB8, 0, 0);
    assert!(!cpu.get_flag(Flag::Overflow));
    assert_eq!(cpu.get_status() & 0x30, 0x30);
}

#[test]
fn flag_accessors_touch_one_bit() {
    let mut cpu = init_cpu();
    cpu.set_zero_flag();
    cpu.set_decimal_flag();
    cpu.set_negative_flag();
    assert_eq!(cpu.get_status(), 0x34 | 0x02 | 0x08 | 0x80);
    cpu.reset_zero_flag();
    cpu.reset_decimal_flag();
    cpu.reset_negative_flag();
    cpu.reset_carry_flag();
    cpu.reset_overflow_flag();
    assert_eq!(cpu.get_status(), 0x34);
    cpu.set_flag(Flag::Carry);
    cpu.clear_flag(Flag::InterruptDisable);
    assert_eq!(cpu.get_status(), 0x31);
    cpu.set_status(0x00);
    assert_eq!(cpu.get_status(), 0x30);
}

#[test]
fn transfer_to_stack_pointer() {
    let mut cpu = init_cpu();
    cpu.set_x(0x42);
    let status = cpu.get_status();
    run(&mut cpu, 0x9A, 0, 0);
    assert_eq!(cpu.get_s(), 0x0100 + 0x42);
    assert_eq!(cpu.get_sp(), 0x42);
    assert_eq!(cpu.get_status(), status);
    run(&mut cpu, 0xBA, 0, 0);
    assert_eq!(cpu.get_x(), 0x42);
}

#[test]
fn push_then_pull_restores() {
    let mut cpu = init_cpu();
    let before = cpu.get_s();
    cpu.push(0xAB);
    assert_eq!(cpu.get_s(), before - 1);
    assert_eq!(cpu.read(before), 0xAB);
    assert_eq!(cpu.pull(), 0xAB);
    assert_eq!(cpu.get_s(), before);
    cpu.set_s(0x00);
    cpu.push(0x11);
    assert_eq!(cpu.get_s(), 0x01FF);
    assert_eq!(cpu.read(0x0100), 0x11);
    assert_eq!(cpu.pull(), 0x11);
    assert_eq!(cpu.get_s(), 0x0100);
}

#[test]
fn push_and_pull_accumulator_and_status() {
    let mut cpu = init_cpu();
    cpu.set_a(0x80);
    run(&mut cpu, 0x48, 0, 0);
    run(&mut cpu, 0xA9, 0x01, 0);
    run(&mut cpu, 0x68, 0, 0);
    assert_eq!(cpu.get_a(), 0x80);
    assert!(cpu.get_flag(Flag::Negative));
    assert_eq!(cpu.get_s(), 0x01FD);
    cpu.set_carry_flag();
    let status = cpu.get_status();
    run(&mut cpu, 0x08, 0, 0);
    run(&mut cpu, 0x18, 0, 0);
    run(&mut cpu, 0x28, 0, 0);
    assert_eq!(cpu.get_status(), status);
}

#[test]
fn stream_of_two_instructions() {
    let mut cpu = init_cpu();
    let program = vec![0xA9, 0x05, 0x8D, 0x00, 0x00];
    assert_eq!(cpu.load_program(0x10, &program), Ok(()));
    assert_eq!(cpu.step(), 2);
    assert_eq!(cpu.step(), 4);
    assert_eq!(cpu.get_a(), 5);
    assert_eq!(cpu.read(0x0000), 5);
    assert_eq!(cpu.get_pc(), 0x15);
    assert_eq!(cpu.get_instruction(), 0x8D);
    assert_eq!(cpu.get_first_byte_of_interest(), 0x00);
    assert_eq!(cpu.get_second_byte_of_interest(), 0x00);
}

#[test]
fn fetch_from_image() {
    let mut cpu = init_cpu();
    let mut image = vec![0u8; 0x10];
    image.extend_from_slice(&[0xA9, 0x05, 0x8D, 0x00, 0x02]);
    let op = cpu.fetch_from(&image).unwrap();
    assert_eq!(op.code, 0xA9);
    assert_eq!(cpu.get_first_byte_of_interest(), 0x05);
    cpu.execute_opcode(op);
    let op = cpu.fetch_from(&image).unwrap();
    assert_eq!(op.length, 3);
    cpu.execute_opcode(op);
    assert_eq!(cpu.read(0x0200), 5);
    assert_eq!(cpu.get_pc(), 0x15);
    assert_eq!(cpu.fetch_from(&image).unwrap_err(), StreamError::EndOfStream);
}

#[test]
fn fetch_stops_at_truncated_instruction() {
    let mut cpu = init_cpu();
    let mut image = vec![0u8; 0x10];
    image.extend_from_slice(&[0xAD, 0x00]);
    assert_eq!(cpu.fetch_from(&image).unwrap_err(), StreamError::EndOfStream);
    assert_eq!(cpu.get_pc(), 0x10);
    assert_eq!(cpu.get_instruction(), 0);
}

#[test]
fn program_that_does_not_fit() {
    let mut cpu = init_cpu();
    assert_eq!(cpu.load_program(0xFFFF, &vec![1, 2]), Err(LoadError::DoesNotFit));
    assert_eq!(cpu.read(0xFFFF), 0);
    assert_eq!(cpu.load_program(0xFFFE, &vec![1, 2]), Ok(()));
    assert_eq!(cpu.read(0xFFFF), 2);
}

#[test]
fn add_with_carry() {
    let mut cpu = init_cpu();
    cpu.set_a(0x50);
    run(&mut cpu, 0x69, 0x50, 0);
    assert_eq!(cpu.get_a(), 0xA0);
    assert!(cpu.get_flag(Flag::Overflow));
    assert!(!cpu.get_flag(Flag::Carry));
    assert!(cpu.get_flag(Flag::Negative));
    cpu.set_a(0xFF);
    run(&mut cpu, 0x69, 0x01, 0);
    assert_eq!(cpu.get_a(), 0x00);
    assert!(cpu.get_flag(Flag::Carry));
    assert!(cpu.get_flag(Flag::Zero));
    assert!(!cpu.get_flag(Flag::Overflow));
    run(&mut cpu, 0x69, 0x01, 0);
    assert_eq!(cpu.get_a(), 0x02);
}

#[test]
fn subtract_with_borrow() {
    let mut cpu = init_cpu();
    cpu.set_carry_flag();
    cpu.set_a(0x50);
    run(&mut cpu, 0xE9, 0xB0, 0);
    assert_eq!(cpu.get_a(), 0xA0);
    assert!(!cpu.get_flag(Flag::Carry));
    assert!(cpu.get_flag(Flag::Overflow));
    cpu.set_a(0x05);
    run(&mut cpu, 0xE9, 0x01, 0);
    assert_eq!(cpu.get_a(), 0x03);
    assert!(cpu.get_flag(Flag::Carry));
}

#[test]
fn logic_and_bit_test() {
    let mut cpu = init_cpu();
    cpu.set_a(0b1100_1100);
    run(&mut cpu, 0x29, 0b1010_1010, 0);
    assert_eq!(cpu.get_a(), 0b1000_1000);
    run(&mut cpu, 0x09, 0b0000_0011, 0);
    assert_eq!(cpu.get_a(), 0b1000_1011);
    run(&mut cpu, 0x49, 0b1000_1011, 0);
    assert_eq!(cpu.get_a(), 0);
    assert!(cpu.get_flag(Flag::Zero));
    cpu.write(0x0040, 0b1100_0000);
    cpu.set_a(0x01);
    run(&mut cpu, 0x24, 0x40, 0);
    assert!(cpu.get_flag(Flag::Zero));
    assert!(cpu.get_flag(Flag::Negative));
    assert!(cpu.get_flag(Flag::Overflow));
}

#[test]
fn shifts_and_rotates() {
    let mut cpu = init_cpu();
    cpu.set_a(0x81);
    run(&mut cpu, 0x0A, 0, 0);
    assert_eq!(cpu.get_a(), 0x02);
    assert!(cpu.get_flag(Flag::Carry));
    run(&mut cpu, 0x2A, 0, 0);
    assert_eq!(cpu.get_a(), 0x05);
    assert!(!cpu.get_flag(Flag::Carry));
    run(&mut cpu, 0x4A, 0, 0);
    assert_eq!(cpu.get_a(), 0x02);
    assert!(cpu.get_flag(Flag::Carry));
    run(&mut cpu, 0x6A, 0, 0);
    assert_eq!(cpu.get_a(), 0x81);
    assert!(!cpu.get_flag(Flag::Carry));
    assert!(cpu.get_flag(Flag::Negative));
    cpu.write(0x0010, 0x40);
    run(&mut cpu, 0x06, 0x10, 0);
    assert_eq!(cpu.read(0x0010), 0x80);
}

#[test]
fn increments_and_decrements_wrap() {
    let mut cpu = init_cpu();
    cpu.set_x(0xFF);
    run(&mut cpu, 0xE8, 0, 0);
    assert_eq!(cpu.get_x(), 0x00);
    assert!(cpu.get_flag(Flag::Zero));
    run(&mut cpu, 0xCA, 0, 0);
    assert_eq!(cpu.get_x(), 0xFF);
    assert!(cpu.get_flag(Flag::Negative));
    cpu.set_y(0x00);
    run(&mut cpu, 0x88, 0, 0);
    assert_eq!(cpu.get_y(), 0xFF);
    run(&mut cpu, 0xC8, 0, 0);
    assert_eq!(cpu.get_y(), 0x00);
    cpu.write(0x0300, 0xFF);
    run(&mut cpu, 0xEE, 0x00, 0x03);
    assert_eq!(cpu.read(0x0300), 0x00);
    run(&mut cpu, 0xCE, 0x00, 0x03);
    assert_eq!(cpu.read(0x0300), 0xFF);
}

#[test]
fn transfers_set_flags() {
    let mut cpu = init_cpu();
    cpu.set_a(0x80);
    run(&mut cpu, 0xAA, 0, 0);
    assert_eq!(cpu.get_x(), 0x80);
    assert!(cpu.get_flag(Flag::Negative));
    run(&mut cpu, 0xA8, 0, 0);
    assert_eq!(cpu.get_y(), 0x80);
    cpu.set_x(0x00);
    run(&mut cpu, 0x8A, 0, 0);
    assert_eq!(cpu.get_a(), 0x00);
    assert!(cpu.get_flag(Flag::Zero));
    run(&mut cpu, 0x98, 0, 0);
    assert_eq!(cpu.get_a(), 0x80);
}

#[test]
fn branches_use_signed_displacement() {
    let mut cpu = init_cpu();
    // BNE at 0x10 with Zero clear: taken, four bytes back from the branch itself.
    cpu.reset_zero_flag();
    cpu.set_instruction(0xD0);
    cpu.set_first_byte_of_interest(0xFC);
    assert_eq!(cpu.cycles_taken(0xD0), 3);
    cpu.execute_opcode(build_opcode(0xD0));
    assert_eq!(cpu.get_pc(), 0x0C);
    // BEQ with Zero clear: not taken, the program counter moves past the branch.
    run(&mut cpu, 0xF0, 0x10, 0);
    assert_eq!(cpu.get_pc(), 0x0E);
    // BCS at 0x0E with Carry set: taken forward.
    cpu.set_carry_flag();
    run(&mut cpu, 0xB0, 0x05, 0);
    assert_eq!(cpu.get_pc(), 0x13);
    // BPL with Negative set: not taken.
    cpu.set_negative_flag();
    run(&mut cpu, 0x10, 0x05, 0);
    assert_eq!(cpu.get_pc(), 0x15);
}

#[test]
fn branch_back_from_start() {
    let mut cpu = init_cpu();
    // BCS at 0x10 with Carry set and displacement -4 lands at 0x0C.
    cpu.set_carry_flag();
    run(&mut cpu, 0xB0, 0xFC, 0);
    assert_eq!(cpu.get_pc(), 0x0C);
    assert_eq!(cpu.get_carry_flag(), 1);
    // BPL with Negative clear, displacement 0: a branch to itself.
    cpu.reset_negative_flag();
    run(&mut cpu, 0x10, 0x00, 0);
    assert_eq!(cpu.get_pc(), 0x0C);
    // Wraps below address zero.
    cpu.set_pc(0x0002);
    run(&mut cpu, 0xB0, 0xFC, 0);
    assert_eq!(cpu.get_pc(), 0xFFFE);
}

#[test]
fn page_crossing_costs_a_cycle() {
    let mut cpu = init_cpu();
    cpu.set_x(0x01);
    cpu.set_first_byte_of_interest(0xFF);
    cpu.set_second_byte_of_interest(0x12);
    assert_eq!(cpu.cycles_taken(0xBD), 5);
    assert_eq!(cpu.cycles_taken(0x9D), 5);
    cpu.set_x(0x00);
    assert_eq!(cpu.cycles_taken(0xBD), 4);
    // A taken branch that lands on another page than its own costs two more.
    cpu.set_pc(0x00F0);
    cpu.set_carry_flag();
    cpu.set_first_byte_of_interest(0x20);
    assert_eq!(cpu.cycles_taken(0xB0), 4);
    // A taken branch within its own page costs one more.
    cpu.set_first_byte_of_interest(0x0E);
    assert_eq!(cpu.cycles_taken(0xB0), 3);
    cpu.set_first_byte_of_interest(0x10);
    assert_eq!(cpu.cycles_taken(0xB0), 4);
}

#[test]
fn jump_call_and_return() {
    let mut cpu = init_cpu();
    // JSR $0300 at $0010, then RTS at $0300.
    assert_eq!(cpu.load_program(0x10, &vec![0x20, 0x00, 0x03]), Ok(()));
    assert_eq!(cpu.load_program(0x0300, &vec![0x60]), Ok(()));
    assert_eq!(cpu.step(), 6);
    assert_eq!(cpu.get_pc(), 0x0300);
    assert_eq!(cpu.read(0x01FD), 0x00);
    assert_eq!(cpu.read(0x01FC), 0x12);
    assert_eq!(cpu.step(), 6);
    assert_eq!(cpu.get_pc(), 0x13);
    assert_eq!(cpu.get_s(), 0x01FD);
    run(&mut cpu, 0x4C, 0x34, 0x12);
    assert_eq!(cpu.get_pc(), 0x1234);
}

#[test]
fn break_and_return_from_interrupt() {
    let mut cpu = init_cpu();
    cpu.write(0xFFFE, 0x00);
    cpu.write(0xFFFF, 0x80);
    cpu.reset_interrupt_flag();
    cpu.set_carry_flag();
    let status = cpu.get_status();
    run(&mut cpu, 0x00, 0, 0);
    assert_eq!(cpu.get_pc(), 0x8000);
    assert!(cpu.get_flag(Flag::InterruptDisable));
    assert_eq!(cpu.read(0x01FD), 0x00);
    assert_eq!(cpu.read(0x01FC), 0x12);
    assert_eq!(cpu.read(0x01FB), status);
    run(&mut cpu, 0x40, 0, 0);
    assert_eq!(cpu.get_pc(), 0x12);
    assert_eq!(cpu.get_status(), status);
    assert_eq!(cpu.get_s(), 0x01FD);
}

#[test]
fn interrupts_use_their_vectors() {
    let mut cpu = init_cpu();
    cpu.write(0xFFFA, 0x00);
    cpu.write(0xFFFB, 0x90);
    cpu.write(0xFFFC, 0x00);
    cpu.write(0xFFFD, 0xA0);
    cpu.write(0xFFFE, 0x00);
    cpu.write(0xFFFF, 0xB0);
    // Interrupt-Disable is set after start-up: the maskable interrupt waits.
    assert!(!cpu.interrupt(Interrupt::Irq));
    assert_eq!(cpu.get_pc(), 0x10);
    assert!(cpu.interrupt(Interrupt::Nmi));
    assert_eq!(cpu.get_pc(), 0x9000);
    assert_eq!(cpu.read(0x01FC), 0x10);
    cpu.reset_interrupt_flag();
    assert!(cpu.interrupt(Interrupt::Irq));
    assert_eq!(cpu.get_pc(), 0xB000);
    assert!(cpu.interrupt(Interrupt::Reset));
    assert_eq!(cpu.get_pc(), 0xA000);
}

#[test]
fn unused_opcode_only_advances() {
    let mut cpu = init_cpu();
    cpu.set_a(0x33);
    let status = cpu.get_status();
    run(&mut cpu, 0x02, 0xFF, 0xFF);
    assert_eq!(cpu.get_pc(), 0x11);
    assert_eq!(cpu.get_a(), 0x33);
    assert_eq!(cpu.get_status(), status);
    run(&mut cpu, 0xEA, 0, 0);
    assert_eq!(cpu.get_pc(), 0x12);
}

#[test]
fn program_counter_wraps() {
    let mut cpu = init_cpu();
    cpu.set_pc(0xFFFF);
    cpu.increment_pc(2);
    assert_eq!(cpu.get_pc(), 0x0001);
}

#[test]
fn stores_write_memory() {
    let mut cpu = init_cpu();
    cpu.set_a(0x11);
    cpu.set_x(0x22);
    cpu.set_y(0x33);
    run(&mut cpu, 0x85, 0x40, 0);
    run(&mut cpu, 0x86, 0x41, 0);
    run(&mut cpu, 0x84, 0x42, 0);
    assert_eq!(cpu.read(0x40), 0x11);
    assert_eq!(cpu.read(0x41), 0x22);
    assert_eq!(cpu.read(0x42), 0x33);
    run(&mut cpu, 0x8D, 0x00, 0x20);
    assert_eq!(cpu.read(0x2000), 0x11);
}

#[test]
fn memory_mapped_registers() {
    assert_eq!(mapped_register(0x2000), Some(IoRegister::PpuControl1));
    assert_eq!(mapped_register(0x2002), Some(IoRegister::PpuStatus));
    assert_eq!(mapped_register(0x2007), Some(IoRegister::PpuData));
    assert_eq!(mapped_register(0x4002), Some(IoRegister::SquareOne));
    assert_eq!(mapped_register(0x4004), Some(IoRegister::SquareTwo));
    assert_eq!(mapped_register(0x400B), Some(IoRegister::Triangle));
    assert_eq!(mapped_register(0x400C), Some(IoRegister::Noise));
    assert_eq!(mapped_register(0x4013), Some(IoRegister::DeltaModulation));
    assert_eq!(mapped_register(0x4014), Some(IoRegister::SpriteDma));
    assert_eq!(mapped_register(0x4015), Some(IoRegister::SoundMaster));
    assert_eq!(mapped_register(0x4016), Some(IoRegister::JoypadOne));
    assert_eq!(mapped_register(0x4017), Some(IoRegister::JoypadTwo));
    assert_eq!(mapped_register(0x2008), None);
    assert_eq!(mapped_register(0x0000), None);
}
