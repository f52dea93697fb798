use vstd::prelude::*;
use crate::bus::{MEMORY_SIZE, STACK_BASE};
use crate::flags::{Flag, flag, with_flag, status_ok};
use crate::opcode::{AddressingMode, Mnemonic, spec_decode, operand_bytes, spec_cycles};

verus! {

/// The mathematical model of the processor: its registers and the address space.
pub struct CpuState {
    pub pc: u16,
    pub a: u8,
    pub x: u8,
    pub y: u8,
    /// Stack pointer: an offset into the stack page.
    pub s: u8,
    /// Status byte, NV11DIZC.
    pub p: u8,
    /// The opcode being executed.
    pub instruction: u8,
    /// The first byte after the opcode.
    pub first_byte: u8,
    /// The second byte after the opcode.
    pub second_byte: u8,
    pub mem: Seq<u8>,
}

/// A well-formed state has a full address space and its reserved status bits set.
pub open spec fn state_ok(st: CpuState) -> bool {
    st.mem.len() == MEMORY_SIZE && status_ok(st.p)
}

/// Where an instruction finds its operand.
#[derive(Clone, Copy, Debug, PartialEq, Eq, Structural)]
pub enum Operand {
    /// The instruction has no operand.
    Nothing,
    /// The accumulator.
    Accumulator,
    /// A value taken from the instruction itself.
    Value(u8),
    /// A byte of the address space (for jumps and branches, the target).
    Address(u16),
}

/// The two's-complement value of a byte.
pub open spec fn signed(v: u8) -> int {
    if v < 128 {
        v as int
    } else {
        v as int - 256
    }
}

/// The 16-bit address whose low byte is `lo` and high byte is `hi`.
pub open spec fn word(lo: u8, hi: u8) -> int {
    hi as int * 256 + lo as int
}

/// Whether two addresses lie on different 256-byte pages.
pub open spec fn crosses_page(base: int, addr: int) -> bool {
    base / 256 != addr / 256
}

/// The operand that `mode` designates, given the operand bytes `b1` and `b2`,
/// and whether indexing crossed a page boundary.
pub open spec fn spec_resolve(st: CpuState, mode: AddressingMode, b1: u8, b2: u8) -> (Operand, bool) {
    match mode {
        AddressingMode::Implied => (Operand::Nothing, false),
        AddressingMode::Accumulator => (Operand::Accumulator, false),
        AddressingMode::Immediate => (Operand::Value(b1), false),
        AddressingMode::ZeroPage => (Operand::Address(b1 as u16), false),
        AddressingMode::ZeroPageX => (Operand::Address(((b1 + st.x) % 256) as u16), false),
        AddressingMode::ZeroPageY => (Operand::Address(((b1 + st.y) % 256) as u16), false),
        AddressingMode::Absolute => (Operand::Address(word(b1, b2) as u16), false),
        AddressingMode::AbsoluteX => {
            let addr = (word(b1, b2) + st.x) % 65536;
            (Operand::Address(addr as u16), crosses_page(word(b1, b2), addr))
        },
        AddressingMode::AbsoluteY => {
            let addr = (word(b1, b2) + st.y) % 65536;
            (Operand::Address(addr as u16), crosses_page(word(b1, b2), addr))
        },
        AddressingMode::Indirect => {
            // The high byte of the pointer is read from the same page as the low byte.
            let ptr = word(b1, b2);
            let hi_addr = (ptr / 256) * 256 + (ptr % 256 + 1) % 256;
            (Operand::Address(word(st.mem[ptr], st.mem[hi_addr]) as u16), false)
        },
        AddressingMode::IndexedIndirect => {
            let zp = (b1 + st.x) % 256;
            (Operand::Address(word(st.mem[zp], st.mem[(zp + 1) % 256]) as u16), false)
        },
        AddressingMode::IndirectIndexed => {
            let base = word(st.mem[b1 as int], st.mem[(b1 + 1) % 256]);
            let addr = (base + st.y) % 65536;
            (Operand::Address(addr as u16), crosses_page(base, addr))
        },
        AddressingMode::Relative => {
            // The displacement counts from the branch instruction's own address.
            let target = (st.pc + signed(b1)) % 65536;
            (Operand::Address(target as u16), crosses_page(st.pc as int, target))
        },
    }
}

/// The byte an operand designates.
pub open spec fn operand_value(st: CpuState, o: Operand) -> u8 {
    match o {
        Operand::Nothing => 0,
        Operand::Accumulator => st.a,
        Operand::Value(v) => v,
        Operand::Address(addr) => st.mem[addr as int],
    }
}

/// The state after writing `v` where operand `o` designates.
pub open spec fn store(st: CpuState, o: Operand, v: u8) -> CpuState {
    match o {
        Operand::Accumulator => CpuState { a: v, ..st },
        Operand::Address(addr) => CpuState { mem: st.mem.update(addr as int, v), ..st },
        _ => st,
    }
}

/// Status byte with Zero and Negative set from `v`.
pub open spec fn zn(p: u8, v: u8) -> u8 {
    with_flag(with_flag(p, Flag::Zero, v == 0), Flag::Negative, v >= 128)
}

/// 1 when the carry is set, else 0.
pub open spec fn carry_in(p: u8) -> int {
    if flag(p, Flag::Carry) {
        1
    } else {
        0
    }
}

/// Add with carry. Arithmetic is binary: the Decimal flag is kept but, as on
/// the NES's processor, does not change how ADC and SBC compute.
pub open spec fn spec_adc(st: CpuState, m: u8) -> CpuState {
    let sum = st.a + m + carry_in(st.p);
    let sv = signed(st.a) + signed(m) + carry_in(st.p);
    let r = (sum % 256) as u8;
    let p = with_flag(with_flag(st.p, Flag::Carry, sum > 255), Flag::Overflow, sv < -128 || sv > 127);
    CpuState { a: r, p: zn(p, r), ..st }
}

/// Subtract with borrow (the borrow is the inverted carry).
pub open spec fn spec_sbc(st: CpuState, m: u8) -> CpuState {
    let diff = st.a - m - (1 - carry_in(st.p));
    let sv = signed(st.a) - signed(m) - (1 - carry_in(st.p));
    let r = (diff % 256) as u8;
    let p = with_flag(with_flag(st.p, Flag::Carry, diff >= 0), Flag::Overflow, sv < -128 || sv > 127);
    CpuState { a: r, p: zn(p, r), ..st }
}

/// Compare a register with `m`: the flags of `reg - m`, with no result kept.
pub open spec fn compare_flags(p: u8, reg: u8, m: u8) -> u8 {
    with_flag(
        with_flag(with_flag(p, Flag::Carry, reg >= m), Flag::Zero, reg == m),
        Flag::Negative,
        (reg - m) % 256 >= 128,
    )
}

/// The result of a shift or rotate of `m`, given the carry flag.
pub open spec fn shifted(mn: Mnemonic, m: u8, c: int) -> u8 {
    match mn {
        Mnemonic::Asl => ((2 * m) % 256) as u8,
        Mnemonic::Rol => ((2 * m + c) % 256) as u8,
        Mnemonic::Lsr => (m / 2) as u8,
        _ => (m / 2 + 128 * c) as u8,
    }
}

/// The bit a shift or rotate moves out into the carry.
pub open spec fn shifted_out(mn: Mnemonic, m: u8) -> bool {
    match mn {
        Mnemonic::Asl | Mnemonic::Rol => m >= 128,
        _ => m % 2 == 1,
    }
}

/// Shift or rotate the operand.
pub open spec fn spec_shift(st: CpuState, mn: Mnemonic, o: Operand) -> CpuState {
    let m = operand_value(st, o);
    let r = shifted(mn, m, carry_in(st.p));
    let st2 = store(st, o, r);
    CpuState { p: zn(with_flag(st.p, Flag::Carry, shifted_out(mn, m)), r), ..st2 }
}

/// `v + 1` modulo 256.
pub open spec fn inc8(v: u8) -> u8 {
    ((v + 1) % 256) as u8
}

/// `v - 1` modulo 256.
pub open spec fn dec8(v: u8) -> u8 {
    ((v + 255) % 256) as u8
}

/// The stack-page address the stack pointer designates.
pub open spec fn stack_addr(s: u8) -> int {
    STACK_BASE + s
}

/// Push a byte: store it at the stack pointer, then move the pointer down.
pub open spec fn push(st: CpuState, v: u8) -> CpuState {
    CpuState { mem: st.mem.update(stack_addr(st.s), v), s: ((st.s + 255) % 256) as u8, ..st }
}

/// The state after a pull: the pointer moved up.
pub open spec fn pulled(st: CpuState) -> CpuState {
    CpuState { s: ((st.s + 1) % 256) as u8, ..st }
}

/// The byte a pull reads.
pub open spec fn pull_value(st: CpuState) -> u8 {
    st.mem[stack_addr(((st.s + 1) % 256) as u8)]
}

/// Push a 16-bit address, high byte first.
pub open spec fn push_word(st: CpuState, w: u16) -> CpuState {
    push(push(st, (w / 256) as u8), (w % 256) as u8)
}

/// The flag a branch tests and the value that takes the branch.
pub open spec fn branch_condition(mn: Mnemonic) -> (Flag, bool) {
    match mn {
        Mnemonic::Bpl => (Flag::Negative, false),
        Mnemonic::Bmi => (Flag::Negative, true),
        Mnemonic::Bvc => (Flag::Overflow, false),
        Mnemonic::Bvs => (Flag::Overflow, true),
        Mnemonic::Bcc => (Flag::Carry, false),
        Mnemonic::Bcs => (Flag::Carry, true),
        Mnemonic::Bne => (Flag::Zero, false),
        _ => (Flag::Zero, true),
    }
}

pub open spec fn is_branch(mn: Mnemonic) -> bool {
    matches!(mn, Mnemonic::Bpl | Mnemonic::Bmi | Mnemonic::Bvc | Mnemonic::Bvs | Mnemonic::Bcc
        | Mnemonic::Bcs | Mnemonic::Bne | Mnemonic::Beq)
}

/// Whether branch `mn` is taken with status byte `p`.
pub open spec fn branch_taken(p: u8, mn: Mnemonic) -> bool {
    flag(p, branch_condition(mn).0) == branch_condition(mn).1
}

/// The flag a set or clear instruction changes, and its new value.
pub open spec fn flag_change(mn: Mnemonic) -> (Flag, bool) {
    match mn {
        Mnemonic::Clc => (Flag::Carry, false),
        Mnemonic::Sec => (Flag::Carry, true),
        Mnemonic::Cli => (Flag::InterruptDisable, false),
        Mnemonic::Sei => (Flag::InterruptDisable, true),
        Mnemonic::Cld => (Flag::Decimal, false),
        Mnemonic::Sed => (Flag::Decimal, true),
        _ => (Flag::Overflow, false),
    }
}

/// Vector addresses (low byte) of the three interrupt kinds.
pub const NMI_VECTOR: u16 = 0xFFFA;
pub const RESET_VECTOR: u16 = 0xFFFC;
pub const IRQ_VECTOR: u16 = 0xFFFE;

/// The interrupt sequence: push the return address and the status byte, set
/// Interrupt-Disable and jump through the vector at `vector`.
pub open spec fn spec_interrupt(st: CpuState, ret: u16, vector: u16) -> CpuState {
    let st2 = push(push_word(st, ret), st.p);
    CpuState {
        p: with_flag(st.p, Flag::InterruptDisable, true),
        pc: word(st.mem[vector as int], st.mem[vector + 1]) as u16,
        ..st2
    }
}

/// Loads, stores and register transfers.
pub open spec fn spec_load_transfer(st: CpuState, mn: Mnemonic, o: Operand) -> CpuState {
    let m = operand_value(st, o);
    match mn {
        Mnemonic::Lda => CpuState { a: m, p: zn(st.p, m), ..st },
        Mnemonic::Ldx => CpuState { x: m, p: zn(st.p, m), ..st },
        Mnemonic::Ldy => CpuState { y: m, p: zn(st.p, m), ..st },
        Mnemonic::Sta => store(st, o, st.a),
        Mnemonic::Stx => store(st, o, st.x),
        Mnemonic::Sty => store(st, o, st.y),
        Mnemonic::Tax => CpuState { x: st.a, p: zn(st.p, st.a), ..st },
        Mnemonic::Tay => CpuState { y: st.a, p: zn(st.p, st.a), ..st },
        Mnemonic::Txa => CpuState { a: st.x, p: zn(st.p, st.x), ..st },
        Mnemonic::Tya => CpuState { a: st.y, p: zn(st.p, st.y), ..st },
        Mnemonic::Tsx => CpuState { x: st.s, p: zn(st.p, st.s), ..st },
        Mnemonic::Txs => CpuState { s: st.x, ..st },
        _ => st,
    }
}

/// Arithmetic, logic, compare and bit test.
pub open spec fn spec_arithmetic(st: CpuState, mn: Mnemonic, o: Operand) -> CpuState {
    let m = operand_value(st, o);
    match mn {
        Mnemonic::Adc => spec_adc(st, m),
        Mnemonic::Sbc => spec_sbc(st, m),
        Mnemonic::And => CpuState { a: st.a & m, p: zn(st.p, st.a & m), ..st },
        Mnemonic::Ora => CpuState { a: st.a | m, p: zn(st.p, st.a | m), ..st },
        Mnemonic::Eor => CpuState { a: st.a ^ m, p: zn(st.p, st.a ^ m), ..st },
        Mnemonic::Cmp => CpuState { p: compare_flags(st.p, st.a, m), ..st },
        Mnemonic::Cpx => CpuState { p: compare_flags(st.p, st.x, m), ..st },
        Mnemonic::Cpy => CpuState { p: compare_flags(st.p, st.y, m), ..st },
        Mnemonic::Bit => CpuState {
            p: with_flag(
                with_flag(with_flag(st.p, Flag::Zero, st.a & m == 0), Flag::Negative, m >= 128),
                Flag::Overflow,
                m & 0x40 != 0,
            ),
            ..st
        },
        _ => st,
    }
}

/// Shifts, rotates, increments and decrements.
pub open spec fn spec_modify(st: CpuState, mn: Mnemonic, o: Operand) -> CpuState {
    let m = operand_value(st, o);
    match mn {
        Mnemonic::Asl | Mnemonic::Lsr | Mnemonic::Rol | Mnemonic::Ror => spec_shift(st, mn, o),
        Mnemonic::Inc => CpuState { p: zn(st.p, inc8(m)), ..store(st, o, inc8(m)) },
        Mnemonic::Dec => CpuState { p: zn(st.p, dec8(m)), ..store(st, o, dec8(m)) },
        Mnemonic::Inx => CpuState { x: inc8(st.x), p: zn(st.p, inc8(st.x)), ..st },
        Mnemonic::Iny => CpuState { y: inc8(st.y), p: zn(st.p, inc8(st.y)), ..st },
        Mnemonic::Dex => CpuState { x: dec8(st.x), p: zn(st.p, dec8(st.x)), ..st },
        Mnemonic::Dey => CpuState { y: dec8(st.y), p: zn(st.p, dec8(st.y)), ..st },
        _ => st,
    }
}

/// Branches, jumps, calls, returns and BRK.
pub open spec fn spec_control(st: CpuState, mn: Mnemonic, o: Operand) -> CpuState {
    match mn {
        Mnemonic::Bpl | Mnemonic::Bmi | Mnemonic::Bvc | Mnemonic::Bvs | Mnemonic::Bcc
        | Mnemonic::Bcs | Mnemonic::Bne | Mnemonic::Beq => match o {
            Operand::Address(target) => if branch_taken(st.p, mn) {
                CpuState { pc: target, ..st }
            } else {
                st
            },
            _ => st,
        },
        Mnemonic::Jmp => match o {
            Operand::Address(target) => CpuState { pc: target, ..st },
            _ => st,
        },
        Mnemonic::Jsr => match o {
            Operand::Address(target) => CpuState {
                pc: target,
                ..push_word(st, ((st.pc + 65535) % 65536) as u16)
            },
            _ => st,
        },
        Mnemonic::Rts => {
            let lo = pull_value(st);
            let hi = pull_value(pulled(st));
            CpuState { pc: ((word(lo, hi) + 1) % 65536) as u16, ..pulled(pulled(st)) }
        },
        Mnemonic::Rti => {
            let p = pull_value(st);
            let lo = pull_value(pulled(st));
            let hi = pull_value(pulled(pulled(st)));
            CpuState { p: p | 0x30, pc: word(lo, hi) as u16, ..pulled(pulled(pulled(st))) }
        },
        // The return address skips the padding byte that follows BRK.
        Mnemonic::Brk => spec_interrupt(st, ((st.pc + 1) % 65536) as u16, IRQ_VECTOR),
        _ => st,
    }
}

/// Stack pushes and pulls, flag changes and no-ops.
pub open spec fn spec_stack_flags(st: CpuState, mn: Mnemonic, o: Operand) -> CpuState {
    match mn {
        Mnemonic::Pha => push(st, st.a),
        Mnemonic::Php => push(st, st.p),
        Mnemonic::Pla => CpuState { a: pull_value(st), p: zn(st.p, pull_value(st)), ..pulled(st) },
        Mnemonic::Plp => CpuState { p: pull_value(st) | 0x30, ..pulled(st) },
        Mnemonic::Clc | Mnemonic::Sec | Mnemonic::Cli | Mnemonic::Sei | Mnemonic::Cld
        | Mnemonic::Sed | Mnemonic::Clv => CpuState {
            p: with_flag(st.p, flag_change(mn).0, flag_change(mn).1),
            ..st
        },
        _ => st,
    }
}

/// The effect of mnemonic `mn` on operand `o`, from a state whose program
/// counter already points past the instruction.
pub open spec fn spec_operate(st: CpuState, mn: Mnemonic, o: Operand) -> CpuState {
    match mn {
        Mnemonic::Lda | Mnemonic::Ldx | Mnemonic::Ldy | Mnemonic::Sta | Mnemonic::Stx
        | Mnemonic::Sty | Mnemonic::Tax | Mnemonic::Tay | Mnemonic::Txa | Mnemonic::Tya
        | Mnemonic::Tsx | Mnemonic::Txs => {
            spec_load_transfer(st, mn, o)
        },
        Mnemonic::Adc | Mnemonic::Sbc | Mnemonic::And | Mnemonic::Ora | Mnemonic::Eor
        | Mnemonic::Cmp | Mnemonic::Cpx | Mnemonic::Cpy | Mnemonic::Bit => {
            spec_arithmetic(st, mn, o)
        },
        Mnemonic::Asl | Mnemonic::Lsr | Mnemonic::Rol | Mnemonic::Ror | Mnemonic::Inc
        | Mnemonic::Dec | Mnemonic::Inx | Mnemonic::Iny | Mnemonic::Dex | Mnemonic::Dey => {
            spec_modify(st, mn, o)
        },
        Mnemonic::Bpl | Mnemonic::Bmi | Mnemonic::Bvc | Mnemonic::Bvs | Mnemonic::Bcc
        | Mnemonic::Bcs | Mnemonic::Bne | Mnemonic::Beq | Mnemonic::Jmp | Mnemonic::Jsr
        | Mnemonic::Rts | Mnemonic::Rti | Mnemonic::Brk => {
            spec_control(st, mn, o)
        },
        _ => spec_stack_flags(st, mn, o),
    }
}

/// Executing opcode `code` with the operand bytes that `st` holds: the
/// program counter moves past the instruction, then the operation applies.
pub open spec fn spec_execute(st: CpuState, code: u8) -> CpuState {
    let (mn, mode) = spec_decode(code);
    let o = spec_resolve(st, mode, st.first_byte, st.second_byte).0;
    let next = CpuState { pc: ((st.pc + 1 + operand_bytes(mode)) % 65536) as u16, ..st };
    spec_operate(next, mn, o)
}

/// Whether a page crossing costs `mn` an extra cycle (instructions that only read).
pub open spec fn pays_page_penalty(mn: Mnemonic) -> bool {
    !matches!(mn, Mnemonic::Sta | Mnemonic::Stx | Mnemonic::Sty | Mnemonic::Asl | Mnemonic::Lsr
        | Mnemonic::Rol | Mnemonic::Ror | Mnemonic::Inc | Mnemonic::Dec)
}

/// Cycles taken by executing `code` from `st`: the base cost, one more for a
/// page crossing on a read, and for a taken branch one more, two if it lands
/// on another page.
pub open spec fn spec_cycles_taken(st: CpuState, code: u8) -> int {
    let (mn, mode) = spec_decode(code);
    let crossed = spec_resolve(st, mode, st.first_byte, st.second_byte).1;
    let base = spec_cycles(mn, mode) as int;
    if is_branch(mn) {
        if branch_taken(st.p, mn) {
            base + 1 + if crossed {
                1int
            } else {
                0
            }
        } else {
            base
        }
    } else if crossed && pays_page_penalty(mn) {
        base + 1
    } else {
        base
    }
}

/// The state once the opcode at the program counter and the two bytes after it are fetched.
pub open spec fn fetched(st: CpuState) -> CpuState {
    CpuState {
        instruction: st.mem[st.pc as int],
        first_byte: st.mem[(st.pc + 1) % 65536],
        second_byte: st.mem[(st.pc + 2) % 65536],
        ..st
    }
}

} // verus!
