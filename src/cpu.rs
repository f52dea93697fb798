use vstd::prelude::*;
use crate::bus::{Bus, PPU_STATUS, MEMORY_SIZE, STACK_BASE};
use crate::flags::{Flag, mask, spec_mask, flag, with_flag, lemma_with_flag, RESERVED_BITS};
use crate::opcode::AddressingMode;
use crate::state::{
    CpuState, Operand, state_ok, spec_resolve, word, push, pulled, pull_value, zn, signed,
    crosses_page,
};

verus! {

/// The processor: registers, the operand bytes of the current instruction,
/// and the bus it owns.
#[derive(Debug, Clone)]
pub struct CPU {
    pub(crate) pc: u16,
    pub(crate) a: u8,
    pub(crate) x: u8,
    pub(crate) y: u8,
    /// Stack pointer, an offset into the stack page.
    pub(crate) s: u8,
    /// Status byte, NV11DIZC.
    pub(crate) p: u8,
    pub(crate) instruction: u8,
    pub(crate) first_byte_of_interest: u8,
    pub(crate) second_byte_of_interest: u8,
    pub(crate) bus: Bus,
}

impl View for CPU {
    type V = CpuState;

    closed spec fn view(&self) -> CpuState {
        CpuState {
            pc: self.pc,
            a: self.a,
            x: self.x,
            y: self.y,
            s: self.s,
            p: self.p,
            instruction: self.instruction,
            first_byte: self.first_byte_of_interest,
            second_byte: self.second_byte_of_interest,
            mem: self.bus@,
        }
    }
}

/// Stack pointer after reset.
pub const RESET_STACK: u8 = 0xFD;

/// Status byte after reset: Interrupt-Disable and the reserved bits set.
pub const RESET_STATUS: u8 = 0x34;

/// Program counter at start-up: the first byte after the image header.
pub const START_PC: u16 = 0x10;

/// Value the picture unit's status register holds at power-up.
pub const PPU_STATUS_AT_POWER_UP: u8 = 0b10100000;

/// A processor in its start-up state: program counter at the start address,
/// registers clear, stack pointer and status at their reset values, memory
/// clear but for the picture unit's status register.
pub fn init_cpu() -> (r: CPU)
    ensures
        r.wf(),
        r@.pc == START_PC,
        r@.a == 0 && r@.x == 0 && r@.y == 0,
        r@.s == RESET_STACK,
        r@.p == RESET_STATUS,
        r@.instruction == 0 && r@.first_byte == 0 && r@.second_byte == 0,
        r@.mem == Seq::new(MEMORY_SIZE as nat, |i: int| 0u8).update(PPU_STATUS as int, PPU_STATUS_AT_POWER_UP),
{
    let mut cpu = CPU {
        pc: START_PC,
        a: 0x0,
        x: 0x0,
        y: 0x0,
        s: RESET_STACK,
        p: RESET_STATUS,
        instruction: 0x0,
        first_byte_of_interest: 0x0,
        second_byte_of_interest: 0x0,
        bus: Bus::new(),
    };
    cpu.bus.write(PPU_STATUS, PPU_STATUS_AT_POWER_UP);
    assert(RESET_STATUS & RESERVED_BITS == RESERVED_BITS) by (bit_vector);
    cpu
}

impl CPU {
    /// The bus is complete and the reserved status bits are set.
    pub open spec fn wf(&self) -> bool {
        state_ok(self@)
    }

    pub fn set_instruction(&mut self, instruction: u8)
        requires
            old(self).wf(),
        ensures
            final(self).wf(),
            final(self)@ == (CpuState { instruction, ..old(self)@ }),
    {
        self.instruction = instruction;
    }

    pub fn get_instruction(&self) -> (r: u8)
        ensures
            r == self@.instruction,
    {
        self.instruction
    }

    pub fn set_first_byte_of_interest(&mut self, first_byte_of_interest: u8)
        requires
            old(self).wf(),
        ensures
            final(self).wf(),
            final(self)@ == (CpuState { first_byte: first_byte_of_interest, ..old(self)@ }),
    {
        self.first_byte_of_interest = first_byte_of_interest;
    }

    pub fn get_first_byte_of_interest(&self) -> (r: u8)
        ensures
            r == self@.first_byte,
    {
        self.first_byte_of_interest
    }

    pub fn set_second_byte_of_interest(&mut self, second_byte_of_interest: u8)
        requires
            old(self).wf(),
        ensures
            final(self).wf(),
            final(self)@ == (CpuState { second_byte: second_byte_of_interest, ..old(self)@ }),
    {
        self.second_byte_of_interest = second_byte_of_interest;
    }

    pub fn get_second_byte_of_interest(&self) -> (r: u8)
        ensures
            r == self@.second_byte,
    {
        self.second_byte_of_interest
    }

    pub fn get_pc(&self) -> (r: u16)
        ensures
            r == self@.pc,
    {
        self.pc
    }

    /// Moves the program counter forward by `val`, wrapping at 16 bits.
    pub fn increment_pc(&mut self, val: u16)
        requires
            old(self).wf(),
        ensures
            final(self).wf(),
            final(self)@ == (CpuState { pc: ((old(self)@.pc + val) % 65536) as u16, ..old(self)@ }),
    {
        self.pc = ((self.pc as u32 + val as u32) % 65536) as u16;
    }

    pub fn get_a(&self) -> (r: u8)
        ensures
            r == self@.a,
    {
        self.a
    }

    pub fn set_a(&mut self, val: u8)
        requires
            old(self).wf(),
        ensures
            final(self).wf(),
            final(self)@ == (CpuState { a: val, ..old(self)@ }),
    {
        self.a = val;
    }

    pub fn get_x(&self) -> (r: u8)
        ensures
            r == self@.x,
    {
        self.x
    }

    pub fn set_x(&mut self, val: u8)
        requires
            old(self).wf(),
        ensures
            final(self).wf(),
            final(self)@ == (CpuState { x: val, ..old(self)@ }),
    {
        self.x = val;
    }

    pub fn get_y(&self) -> (r: u8)
        ensures
            r == self@.y,
    {
        self.y
    }

    pub fn set_y(&mut self, val: u8)
        requires
            old(self).wf(),
        ensures
            final(self).wf(),
            final(self)@ == (CpuState { y: val, ..old(self)@ }),
    {
        self.y = val;
    }

    /// The address the stack pointer designates in the stack page.
    pub fn get_s(&self) -> (r: u16)
        ensures
            r == STACK_BASE + self@.s,
    {
        STACK_BASE + self.s as u16
    }

    /// Points the stack pointer at offset `val` of the stack page; only the
    /// low byte counts, so the pointer never leaves the page.
    pub fn set_s(&mut self, val: u16)
        requires
            old(self).wf(),
        ensures
            final(self).wf(),
            final(self)@ == (CpuState { s: (val % 256) as u8, ..old(self)@ }),
    {
        self.s = (val % 256) as u8;
    }

    /// Whether flag `f` is set. Reading changes nothing.
    pub fn get_flag(&self, f: Flag) -> (r: bool)
        ensures
            r == flag(self@.p, f),
    {
        self.p & mask(f) != 0
    }

    /// Sets flag `f` to `v`, leaving every other bit of the status byte.
    pub fn update_flag(&mut self, f: Flag, v: bool)
        requires
            old(self).wf(),
        ensures
            final(self).wf(),
            final(self)@ == (CpuState { p: with_flag(old(self)@.p, f, v), ..old(self)@ }),
    {
        proof {
            lemma_with_flag(self.p, f, v);
        }
        if v {
            self.p = self.p | mask(f);
        } else {
            self.p = self.p & !mask(f);
        }
    }

    pub fn set_flag(&mut self, f: Flag)
        requires
            old(self).wf(),
        ensures
            final(self).wf(),
            final(self)@ == (CpuState { p: with_flag(old(self)@.p, f, true), ..old(self)@ }),
    {
        self.update_flag(f, true);
    }

    pub fn clear_flag(&mut self, f: Flag)
        requires
            old(self).wf(),
        ensures
            final(self).wf(),
            final(self)@ == (CpuState { p: with_flag(old(self)@.p, f, false), ..old(self)@ }),
    {
        self.update_flag(f, false);
    }

    /// The carry bit of the status byte, in place.
    pub fn get_carry_flag(&self) -> (r: u8)
        ensures
            r == self@.p & spec_mask(Flag::Carry),
    {
        self.p & mask(Flag::Carry)
    }

    pub fn set_carry_flag(&mut self)
        requires
            old(self).wf(),
        ensures
            final(self).wf(),
            final(self)@ == (CpuState { p: with_flag(old(self)@.p, Flag::Carry, true), ..old(self)@ }),
    {
        self.set_flag(Flag::Carry);
    }

    pub fn reset_carry_flag(&mut self)
        requires
            old(self).wf(),
        ensures
            final(self).wf(),
            final(self)@ == (CpuState { p: with_flag(old(self)@.p, Flag::Carry, false), ..old(self)@ }),
    {
        self.clear_flag(Flag::Carry);
    }

    /// The zero bit of the status byte, in place.
    pub fn get_zero_flag(&self) -> (r: u8)
        ensures
            r == self@.p & spec_mask(Flag::Zero),
    {
        self.p & mask(Flag::Zero)
    }

    pub fn set_zero_flag(&mut self)
        requires
            old(self).wf(),
        ensures
            final(self).wf(),
            final(self)@ == (CpuState { p: with_flag(old(self)@.p, Flag::Zero, true), ..old(self)@ }),
    {
        self.set_flag(Flag::Zero);
    }

    pub fn reset_zero_flag(&mut self)
        requires
            old(self).wf(),
        ensures
            final(self).wf(),
            final(self)@ == (CpuState { p: with_flag(old(self)@.p, Flag::Zero, false), ..old(self)@ }),
    {
        self.clear_flag(Flag::Zero);
    }

    /// The interrupt-disable bit of the status byte, in place.
    pub fn get_interrupt_flag(&self) -> (r: u8)
        ensures
            r == self@.p & spec_mask(Flag::InterruptDisable),
    {
        self.p & mask(Flag::InterruptDisable)
    }

    pub fn set_interrupt_flag(&mut self)
        requires
            old(self).wf(),
        ensures
            final(self).wf(),
            final(self)@ == (CpuState {
                p: with_flag(old(self)@.p, Flag::InterruptDisable, true),
                ..old(self)@
            }),
    {
        self.set_flag(Flag::InterruptDisable);
    }

    pub fn reset_interrupt_flag(&mut self)
        requires
            old(self).wf(),
        ensures
            final(self).wf(),
            final(self)@ == (CpuState {
                p: with_flag(old(self)@.p, Flag::InterruptDisable, false),
                ..old(self)@
            }),
    {
        self.clear_flag(Flag::InterruptDisable);
    }

    /// The decimal bit of the status byte, in place.
    pub fn get_decimal_flag(&self) -> (r: u8)
        ensures
            r == self@.p & spec_mask(Flag::Decimal),
    {
        self.p & mask(Flag::Decimal)
    }

    pub fn set_decimal_flag(&mut self)
        requires
            old(self).wf(),
        ensures
            final(self).wf(),
            final(self)@ == (CpuState { p: with_flag(old(self)@.p, Flag::Decimal, true), ..old(self)@ }),
    {
        self.set_flag(Flag::Decimal);
    }

    pub fn reset_decimal_flag(&mut self)
        requires
            old(self).wf(),
        ensures
            final(self).wf(),
            final(self)@ == (CpuState { p: with_flag(old(self)@.p, Flag::Decimal, false), ..old(self)@ }),
    {
        self.clear_flag(Flag::Decimal);
    }

    /// The overflow bit of the status byte, in place.
    pub fn get_overflow_flag(&self) -> (r: u8)
        ensures
            r == self@.p & spec_mask(Flag::Overflow),
    {
        self.p & mask(Flag::Overflow)
    }

    pub fn set_overflow_flag(&mut self)
        requires
            old(self).wf(),
        ensures
            final(self).wf(),
            final(self)@ == (CpuState { p: with_flag(old(self)@.p, Flag::Overflow, true), ..old(self)@ }),
    {
        self.set_flag(Flag::Overflow);
    }

    pub fn reset_overflow_flag(&mut self)
        requires
            old(self).wf(),
        ensures
            final(self).wf(),
            final(self)@ == (CpuState { p: with_flag(old(self)@.p, Flag::Overflow, false), ..old(self)@ }),
    {
        self.clear_flag(Flag::Overflow);
    }

    /// The negative bit of the status byte, in place.
    pub fn get_negative_flag(&self) -> (r: u8)
        ensures
            r == self@.p & spec_mask(Flag::Negative),
    {
        self.p & mask(Flag::Negative)
    }

    pub fn set_negative_flag(&mut self)
        requires
            old(self).wf(),
        ensures
            final(self).wf(),
            final(self)@ == (CpuState { p: with_flag(old(self)@.p, Flag::Negative, true), ..old(self)@ }),
    {
        self.set_flag(Flag::Negative);
    }

    pub fn reset_negative_flag(&mut self)
        requires
            old(self).wf(),
        ensures
            final(self).wf(),
            final(self)@ == (CpuState { p: with_flag(old(self)@.p, Flag::Negative, false), ..old(self)@ }),
    {
        self.clear_flag(Flag::Negative);
    }

    /// Points the program counter at `pc`.
    pub fn set_pc(&mut self, pc: u16)
        requires
            old(self).wf(),
        ensures
            final(self).wf(),
            final(self)@ == (CpuState { pc, ..old(self)@ }),
    {
        self.pc = pc;
    }

    /// The stack pointer as an offset into the stack page.
    pub fn get_sp(&self) -> (r: u8)
        ensures
            r == self@.s,
    {
        self.s
    }

    /// Replaces the status byte with `v`; the reserved bits stay set whatever `v` holds.
    pub fn set_status(&mut self, v: u8)
        requires
            old(self).wf(),
        ensures
            final(self).wf(),
            final(self)@ == (CpuState { p: v | RESERVED_BITS, ..old(self)@ }),
    {
        assert((v | RESERVED_BITS) & RESERVED_BITS == RESERVED_BITS) by (bit_vector);
        self.p = v | RESERVED_BITS;
    }

    /// The status byte.
    pub fn get_status(&self) -> (r: u8)
        ensures
            r == self@.p,
    {
        self.p
    }

    /// Reads one byte through the bus.
    pub fn read(&self, addr: u16) -> (r: u8)
        requires
            self.wf(),
        ensures
            r == self@.mem[addr as int],
    {
        self.bus.read(addr)
    }

    /// Writes one byte through the bus.
    pub fn write(&mut self, addr: u16, value: u8)
        requires
            old(self).wf(),
        ensures
            final(self).wf(),
            final(self)@ == (CpuState { mem: old(self)@.mem.update(addr as int, value), ..old(self)@ }),
    {
        self.bus.write(addr, value);
    }

    /// Sets Zero and Negative from `v`.
    pub(crate) fn set_zn(&mut self, v: u8)
        requires
            old(self).wf(),
        ensures
            final(self).wf(),
            final(self)@ == (CpuState { p: zn(old(self)@.p, v), ..old(self)@ }),
    {
        self.update_flag(Flag::Zero, v == 0);
        self.update_flag(Flag::Negative, v >= 128);
    }

    /// Pushes a byte onto the stack.
    pub fn push(&mut self, v: u8)
        requires
            old(self).wf(),
        ensures
            final(self).wf(),
            final(self)@ == push(old(self)@, v),
    {
        self.bus.write(STACK_BASE + self.s as u16, v);
        self.s = if self.s == 0 {
            255
        } else {
            self.s - 1
        };
    }

    /// Pulls a byte from the stack.
    pub fn pull(&mut self) -> (r: u8)
        requires
            old(self).wf(),
        ensures
            final(self).wf(),
            final(self)@ == pulled(old(self)@),
            r == pull_value(old(self)@),
    {
        self.s = if self.s == 255 {
            0
        } else {
            self.s + 1
        };
        self.bus.read(STACK_BASE + self.s as u16)
    }

    /// Reads the 16-bit little-endian word whose bytes lie at `lo` and `hi`.
    pub(crate) fn read_word(&self, lo: u16, hi: u16) -> (r: u16)
        requires
            self.wf(),
        ensures
            r == word(self@.mem[lo as int], self@.mem[hi as int]),
    {
        self.bus.read(hi) as u16 * 256 + self.bus.read(lo) as u16
    }

    /// Resolves addressing mode `mode` with operand bytes `b1` and `b2`: the
    /// operand, and whether indexing crossed a page boundary.
    pub fn resolve(&self, mode: AddressingMode, b1: u8, b2: u8) -> (r: (Operand, bool))
        requires
            self.wf(),
        ensures
            r == spec_resolve(self@, mode, b1, b2),
    {
        let base: u16 = b2 as u16 * 256 + b1 as u16;
        match mode {
            AddressingMode::Implied => (Operand::Nothing, false),
            AddressingMode::Accumulator => (Operand::Accumulator, false),
            AddressingMode::Immediate => (Operand::Value(b1), false),
            AddressingMode::ZeroPage => (Operand::Address(b1 as u16), false),
            AddressingMode::ZeroPageX => (Operand::Address((b1 as u16 + self.x as u16) % 256), false),
            AddressingMode::ZeroPageY => (Operand::Address((b1 as u16 + self.y as u16) % 256), false),
            AddressingMode::Absolute => (Operand::Address(base), false),
            AddressingMode::AbsoluteX => index_absolute(base, self.x),
            AddressingMode::AbsoluteY => index_absolute(base, self.y),
            AddressingMode::Indirect => {
                let hi_addr: u16 = (base / 256) * 256 + (base % 256 + 1) % 256;
                (Operand::Address(self.read_word(base, hi_addr)), false)
            },
            AddressingMode::IndexedIndirect => {
                let zp: u16 = (b1 as u16 + self.x as u16) % 256;
                (Operand::Address(self.read_word(zp, (zp + 1) % 256)), false)
            },
            AddressingMode::IndirectIndexed => {
                let ptr = self.read_word(b1 as u16, (b1 as u16 + 1) % 256);
                index_absolute(ptr, self.y)
            },
            AddressingMode::Relative => relative_target(self.pc, b1),
        }
    }
}

/// `base + index` wrapped to 16 bits, and whether it left the page of `base`.
fn index_absolute(base: u16, index: u8) -> (r: (Operand, bool))
    ensures
        r == (Operand::Address(((base + index) % 65536) as u16), crosses_page(
            base as int,
            (base + index) % 65536,
        )),
{
    let addr = ((base as u32 + index as u32) % 65536) as u16;
    (Operand::Address(addr), base / 256 != addr / 256)
}

/// The target of a branch at `pc` with displacement byte `b1`, and whether it
/// lies on another page than the branch itself.
fn relative_target(pc: u16, b1: u8) -> (r: (Operand, bool))
    ensures
        r == (Operand::Address(((pc + signed(b1)) % 65536) as u16), crosses_page(
            pc as int,
            (pc + signed(b1)) % 65536,
        )),
{
    let target: u32 = if b1 < 128 {
        (pc as u32 + b1 as u32) % 65536
    } else {
        (pc as u32 + 65536 - 256 + b1 as u32) % 65536
    };
    (Operand::Address(target as u16), pc as u32 / 256 != target / 256)
}

} // verus!
