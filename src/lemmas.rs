use vstd::prelude::*;
use crate::bus::STACK_BASE;
use crate::flags::{Flag, flag, with_flag, lemma_with_flag};
use crate::opcode::{AddressingMode, Mnemonic, spec_decode};
use crate::state::{
    CpuState, Operand, state_ok, spec_resolve, word, compare_flags, zn, push, pulled, pull_value,
    stack_addr, spec_execute, is_branch, branch_taken, signed,
};

verus! {

/// Zero-page indexed addressing wraps within the zero page: the address is
/// the base plus the index modulo 256, never 256 or more.
pub proof fn lemma_zero_page_wraps(st: CpuState, mode: AddressingMode, b1: u8, b2: u8)
    requires
        mode == AddressingMode::ZeroPageX || mode == AddressingMode::ZeroPageY,
    ensures
        spec_resolve(st, mode, b1, b2).0 == Operand::Address(
            ((b1 + if mode == AddressingMode::ZeroPageX {
                st.x
            } else {
                st.y
            }) % 256) as u16,
        ),
        spec_resolve(st, mode, b1, b2).0 matches Operand::Address(addr) && addr < 256,
{
}

/// Absolute indexed addressing adds the index to the 16-bit base modulo
/// 2^16, and reports a page crossing exactly when the high byte of the result
/// differs from the high byte of the base.
pub proof fn lemma_absolute_indexed(st: CpuState, mode: AddressingMode, b1: u8, b2: u8)
    requires
        mode == AddressingMode::AbsoluteX || mode == AddressingMode::AbsoluteY,
    ensures
        ({
            let index = if mode == AddressingMode::AbsoluteX {
                st.x
            } else {
                st.y
            };
            let addr = (word(b1, b2) + index) % 65536;
            &&& spec_resolve(st, mode, b1, b2).0 == Operand::Address(addr as u16)
            &&& addr < 65536
            &&& (addr < word(b1, b2) ==> word(b1, b2) + index >= 65536)
            &&& spec_resolve(st, mode, b1, b2).1 == (addr / 256 != b2)
        }),
{
}

/// Setting Zero and Negative from a value: Zero says whether it is zero,
/// Negative copies its bit 7, and no other flag changes.
pub proof fn lemma_zn(p: u8, v: u8)
    ensures
        flag(zn(p, v), Flag::Zero) == (v == 0),
        flag(zn(p, v), Flag::Negative) == (v >= 128),
        forall|g: Flag| g != Flag::Zero && g != Flag::Negative ==> flag(#[trigger] zn(p, v), g) == flag(p, g),
{
    lemma_with_flag(p, Flag::Zero, v == 0);
    lemma_with_flag(with_flag(p, Flag::Zero, v == 0), Flag::Negative, v >= 128);
}

/// A compare sets Carry when the register is at least the operand, Zero when
/// they are equal, and Negative from bit 7 of their difference; it changes no
/// other flag.
pub proof fn lemma_compare(p: u8, reg: u8, m: u8)
    ensures
        flag(compare_flags(p, reg, m), Flag::Carry) == (reg >= m),
        flag(compare_flags(p, reg, m), Flag::Zero) == (reg == m),
        flag(compare_flags(p, reg, m), Flag::Negative) == ((reg - m) % 256 >= 128),
        forall|g: Flag|
            g != Flag::Carry && g != Flag::Zero && g != Flag::Negative ==> flag(
                #[trigger] compare_flags(p, reg, m),
                g,
            ) == flag(p, g),
{
    let p1 = with_flag(p, Flag::Carry, reg >= m);
    let p2 = with_flag(p1, Flag::Zero, reg == m);
    lemma_with_flag(p, Flag::Carry, reg >= m);
    lemma_with_flag(p1, Flag::Zero, reg == m);
    lemma_with_flag(p2, Flag::Negative, (reg - m) % 256 >= 128);
}

/// SEI sets Interrupt-Disable whatever its prior value, and leaves every other
/// flag; a second SEI leaves the status byte as the first one left it.
pub proof fn lemma_sei_sets(st: CpuState)
    ensures
        flag(spec_execute(st, 0x78).p, Flag::InterruptDisable),
        forall|g: Flag| g != Flag::InterruptDisable ==> flag(#[trigger] spec_execute(st, 0x78).p, g) == flag(st.p, g),
        spec_execute(spec_execute(st, 0x78), 0x78).p == spec_execute(st, 0x78).p,
{
    assert(spec_decode(0x78) == (Mnemonic::Sei, AddressingMode::Implied));
    let p1 = with_flag(st.p, Flag::InterruptDisable, true);
    assert(spec_execute(st, 0x78).p == p1);
    lemma_with_flag(st.p, Flag::InterruptDisable, true);
    lemma_with_flag(p1, Flag::InterruptDisable, true);
    assert(with_flag(p1, Flag::InterruptDisable, true) == p1 | 0x04u8);
    assert(p1 == st.p | 0x04u8);
    let p0 = st.p;
    assert((p0 | 0x04u8) | 0x04u8 == p0 | 0x04u8) by (bit_vector);
}

/// TXS makes the stack pointer the X register, so the stack address is the
/// stack base plus X; it changes no flag.
pub proof fn lemma_txs(st: CpuState)
    ensures
        spec_execute(st, 0x9A).s == st.x,
        STACK_BASE + spec_execute(st, 0x9A).s == STACK_BASE + st.x,
        spec_execute(st, 0x9A).p == st.p,
{
    assert(spec_decode(0x9A) == (Mnemonic::Txs, AddressingMode::Implied));
}

/// A pull after a push gives back the byte pushed and the original stack
/// pointer, and the push wrote that byte inside the stack page.
pub proof fn lemma_push_pull(st: CpuState, v: u8)
    requires
        state_ok(st),
    ensures
        pull_value(push(st, v)) == v,
        pulled(push(st, v)).s == st.s,
        STACK_BASE <= stack_addr(st.s) < STACK_BASE + 256,
        push(st, v).mem[stack_addr(st.s)] == v,
{
}

/// LDA immediate loads the operand byte, sets Zero exactly when it is zero
/// and Negative exactly when its bit 7 is set, and changes no other flag.
pub proof fn lemma_load_immediate(st: CpuState)
    ensures
        spec_execute(st, 0xA9).a == st.first_byte,
        flag(spec_execute(st, 0xA9).p, Flag::Zero) == (st.first_byte == 0),
        flag(spec_execute(st, 0xA9).p, Flag::Negative) == (st.first_byte >= 128),
        forall|g: Flag|
            g != Flag::Zero && g != Flag::Negative ==> flag(#[trigger] spec_execute(st, 0xA9).p, g)
                == flag(st.p, g),
{
    assert(spec_decode(0xA9) == (Mnemonic::Lda, AddressingMode::Immediate));
    lemma_zn(st.p, st.first_byte);
}

/// CMP immediate leaves the accumulator, sets Carry when it is at least the
/// operand, Zero when they are equal, and Negative from bit 7 of their
/// difference.
pub proof fn lemma_compare_immediate(st: CpuState)
    ensures
        spec_execute(st, 0xC9).a == st.a,
        flag(spec_execute(st, 0xC9).p, Flag::Carry) == (st.a >= st.first_byte),
        flag(spec_execute(st, 0xC9).p, Flag::Zero) == (st.a == st.first_byte),
        flag(spec_execute(st, 0xC9).p, Flag::Negative) == ((st.a - st.first_byte) % 256 >= 128),
{
    assert(spec_decode(0xC9) == (Mnemonic::Cmp, AddressingMode::Immediate));
    lemma_compare(st.p, st.a, st.first_byte);
}

/// PHA followed by PLA gives back the accumulator and the stack pointer.
pub proof fn lemma_push_pull_accumulator(st: CpuState)
    requires
        state_ok(st),
    ensures
        spec_execute(spec_execute(st, 0x48), 0x68).a == st.a,
        spec_execute(spec_execute(st, 0x48), 0x68).s == st.s,
{
    assert(spec_decode(0x48) == (Mnemonic::Pha, AddressingMode::Implied));
    assert(spec_decode(0x68) == (Mnemonic::Pla, AddressingMode::Implied));
    let s1 = spec_execute(st, 0x48);
    lemma_push_pull(CpuState { pc: s1.pc, ..st }, st.a);
}

/// A taken branch moves the program counter to its own address plus the
/// signed displacement; an untaken one moves it past the two-byte instruction.
/// Nothing else changes.
pub proof fn lemma_branch_target(st: CpuState, code: u8)
    requires
        is_branch(spec_decode(code).0),
    ensures
        branch_taken(st.p, spec_decode(code).0) ==> spec_execute(st, code).pc == (st.pc + signed(
            st.first_byte,
        )) % 65536,
        !branch_taken(st.p, spec_decode(code).0) ==> spec_execute(st, code).pc == (st.pc + 2)
            % 65536,
        spec_execute(st, code) == (CpuState { pc: spec_execute(st, code).pc, ..st }),
{
}

} // verus!
