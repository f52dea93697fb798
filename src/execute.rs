use vstd::prelude::*;
use crate::bus::MEMORY_SIZE;
use crate::cpu::CPU;
use crate::flags::{Flag, flag};
use crate::opcode::{
    Mnemonic, Opcode, decode_entry, length_for, cycles_for, build_opcode, describes, spec_length,
};
use crate::state::{
    CpuState, Operand, operand_value, store, spec_adc, spec_sbc, compare_flags, spec_shift,
    push_word, spec_interrupt, spec_operate, spec_load_transfer, spec_arithmetic, spec_modify,
    spec_control, spec_stack_flags, spec_execute, spec_cycles_taken, fetched, signed, carry_in,
    branch_condition, is_branch, flag_change, pays_page_penalty, IRQ_VECTOR, NMI_VECTOR,
    RESET_VECTOR,
};

verus! {

/// The three ways the processor can be interrupted.
#[derive(Clone, Copy, Debug, PartialEq, Eq, Structural)]
pub enum Interrupt {
    Reset,
    Nmi,
    Irq,
}

/// The vector an interrupt kind jumps through.
pub open spec fn spec_vector(kind: Interrupt) -> u16 {
    match kind {
        Interrupt::Reset => RESET_VECTOR,
        Interrupt::Nmi => NMI_VECTOR,
        Interrupt::Irq => IRQ_VECTOR,
    }
}

/// A program that does not fit in the address space at the requested origin.
#[derive(Clone, Copy, Debug, PartialEq, Eq, Structural)]
pub enum LoadError {
    DoesNotFit,
}

/// The instruction at the program counter runs past the end of the image.
#[derive(Clone, Copy, Debug, PartialEq, Eq, Structural)]
pub enum StreamError {
    EndOfStream,
}

/// Memory `mem` with `program` copied in from address `origin` on.
pub open spec fn loaded(mem: Seq<u8>, origin: int, program: Seq<u8>) -> Seq<u8> {
    Seq::new(
        mem.len(),
        |i: int|
            if origin <= i < origin + program.len() {
                program[i - origin]
            } else {
                mem[i]
            },
    )
}

/// Byte `i` of `image`, or zero past its end.
pub open spec fn byte_or_zero(image: Seq<u8>, i: int) -> u8 {
    if 0 <= i < image.len() {
        image[i]
    } else {
        0
    }
}

fn signed_value(v: u8) -> (r: i16)
    ensures
        r == signed(v),
{
    if v < 128 {
        v as i16
    } else {
        v as i16 - 256
    }
}

fn branch_condition_of(mn: Mnemonic) -> (r: (Flag, bool))
    ensures
        r == branch_condition(mn),
{
    match mn {
        Mnemonic::Bpl => (Flag::Negative, false),
        Mnemonic::Bmi => (Flag::Negative, true),
        Mnemonic::Bvc => (Flag::Overflow, false),
        Mnemonic::Bvs => (Flag::Overflow, true),
        Mnemonic::Bcc => (Flag::Carry, false),
        Mnemonic::Bcs => (Flag::Carry, true),
        Mnemonic::Bne => (Flag::Zero, false),
        _ => (Flag::Zero, true),
    }
}

fn flag_change_of(mn: Mnemonic) -> (r: (Flag, bool))
    ensures
        r == flag_change(mn),
{
    match mn {
        Mnemonic::Clc => (Flag::Carry, false),
        Mnemonic::Sec => (Flag::Carry, true),
        Mnemonic::Cli => (Flag::InterruptDisable, false),
        Mnemonic::Sei => (Flag::InterruptDisable, true),
        Mnemonic::Cld => (Flag::Decimal, false),
        Mnemonic::Sed => (Flag::Decimal, true),
        _ => (Flag::Overflow, false),
    }
}

fn is_branch_op(mn: Mnemonic) -> (r: bool)
    ensures
        r == is_branch(mn),
{
    matches!(mn, Mnemonic::Bpl | Mnemonic::Bmi | Mnemonic::Bvc | Mnemonic::Bvs | Mnemonic::Bcc
        | Mnemonic::Bcs | Mnemonic::Bne | Mnemonic::Beq)
}

fn pays_penalty(mn: Mnemonic) -> (r: bool)
    ensures
        r == pays_page_penalty(mn),
{
    !matches!(mn, Mnemonic::Sta | Mnemonic::Stx | Mnemonic::Sty | Mnemonic::Asl | Mnemonic::Lsr
        | Mnemonic::Rol | Mnemonic::Ror | Mnemonic::Inc | Mnemonic::Dec)
}

fn vector_of(kind: Interrupt) -> (r: u16)
    ensures
        r == spec_vector(kind),
{
    match kind {
        Interrupt::Reset => RESET_VECTOR,
        Interrupt::Nmi => NMI_VECTOR,
        Interrupt::Irq => IRQ_VECTOR,
    }
}

impl CPU {
    /// The byte that operand `o` designates.
    pub fn operand_value(&self, o: Operand) -> (r: u8)
        requires
            self.wf(),
        ensures
            r == operand_value(self@, o),
    {
        match o {
            Operand::Nothing => 0,
            Operand::Accumulator => self.get_a(),
            Operand::Value(v) => v,
            Operand::Address(addr) => self.read(addr),
        }
    }

    /// Writes `v` where operand `o` designates.
    pub fn store(&mut self, o: Operand, v: u8)
        requires
            old(self).wf(),
        ensures
            final(self).wf(),
            final(self)@ == store(old(self)@, o, v),
    {
        match o {
            Operand::Accumulator => {
                self.set_a(v);
            },
            Operand::Address(addr) => {
                self.write(addr, v);
            },
            _ => {},
        }
    }

    fn carry(&self) -> (r: u8)
        ensures
            r == carry_in(self@.p),
    {
        if self.get_flag(Flag::Carry) {
            1
        } else {
            0
        }
    }

    fn adc(&mut self, m: u8)
        requires
            old(self).wf(),
        ensures
            final(self).wf(),
            final(self)@ == spec_adc(old(self)@, m),
    {
        let c = self.carry();
        let a = self.get_a();
        let sum: u16 = a as u16 + m as u16 + c as u16;
        let sv: i16 = signed_value(a) + signed_value(m) + c as i16;
        let r = (sum % 256) as u8;
        self.update_flag(Flag::Carry, sum > 255);
        self.update_flag(Flag::Overflow, sv < -128 || sv > 127);
        self.set_a(r);
        self.set_zn(r);
    }

    fn sbc(&mut self, m: u8)
        requires
            old(self).wf(),
        ensures
            final(self).wf(),
            final(self)@ == spec_sbc(old(self)@, m),
    {
        let borrow: i16 = 1 - self.carry() as i16;
        let a = self.get_a();
        let diff: i16 = a as i16 - m as i16 - borrow;
        let sv: i16 = signed_value(a) - signed_value(m) - borrow;
        let r: u8 = if diff < 0 {
            (diff + 256) as u8
        } else {
            diff as u8
        };
        self.update_flag(Flag::Carry, diff >= 0);
        self.update_flag(Flag::Overflow, sv < -128 || sv > 127);
        self.set_a(r);
        self.set_zn(r);
    }

    fn compare(&mut self, reg: u8, m: u8)
        requires
            old(self).wf(),
        ensures
            final(self).wf(),
            final(self)@ == (CpuState { p: compare_flags(old(self)@.p, reg, m), ..old(self)@ }),
    {
        let d: u8 = if reg >= m {
            reg - m
        } else {
            (reg as u16 + 256 - m as u16) as u8
        };
        self.update_flag(Flag::Carry, reg >= m);
        self.update_flag(Flag::Zero, reg == m);
        self.update_flag(Flag::Negative, d >= 128);
    }

    fn shift(&mut self, mn: Mnemonic, o: Operand)
        requires
            old(self).wf(),
        ensures
            final(self).wf(),
            final(self)@ == spec_shift(old(self)@, mn, o),
    {
        let m = self.operand_value(o);
        let c = self.carry() as u16;
        let (r, out): (u8, bool) = match mn {
            Mnemonic::Asl => (((m as u16 * 2) % 256) as u8, m >= 128),
            Mnemonic::Rol => (((m as u16 * 2 + c) % 256) as u8, m >= 128),
            Mnemonic::Lsr => (m / 2, m % 2 == 1),
            _ => ((m as u16 / 2 + 128 * c) as u8, m % 2 == 1),
        };
        self.store(o, r);
        self.update_flag(Flag::Carry, out);
        self.set_zn(r);
    }

    /// Pushes a 16-bit address, high byte first.
    pub fn push_word(&mut self, w: u16)
        requires
            old(self).wf(),
        ensures
            final(self).wf(),
            final(self)@ == push_word(old(self)@, w),
    {
        self.push((w / 256) as u8);
        self.push((w % 256) as u8);
    }

    fn interrupt_sequence(&mut self, ret: u16, vector: u16)
        requires
            old(self).wf(),
            vector < 0xFFFF,
        ensures
            final(self).wf(),
            final(self)@ == spec_interrupt(old(self)@, ret, vector),
    {
        let target = self.read_word(vector, vector + 1);
        let p = self.get_status();
        self.push_word(ret);
        self.push(p);
        self.update_flag(Flag::InterruptDisable, true);
        self.set_pc(target);
    }

    /// Loads, stores and register transfers.
    fn load_transfer(&mut self, mn: Mnemonic, o: Operand)
        requires
            old(self).wf(),
            matches!(mn, Mnemonic::Lda | Mnemonic::Ldx | Mnemonic::Ldy | Mnemonic::Sta | Mnemonic::Stx | Mnemonic::Sty
            | Mnemonic::Tax | Mnemonic::Tay | Mnemonic::Txa | Mnemonic::Tya | Mnemonic::Tsx | Mnemonic::Txs),
        ensures
            final(self).wf(),
            final(self)@ == spec_load_transfer(old(self)@, mn, o),
    {
        let m = self.operand_value(o);
        match mn {
            Mnemonic::Lda => {
                self.set_a(m);
                self.set_zn(m);
            },
            Mnemonic::Ldx => {
                self.set_x(m);
                self.set_zn(m);
            },
            Mnemonic::Ldy => {
                self.set_y(m);
                self.set_zn(m);
            },
            Mnemonic::Sta => {
                let v = self.get_a();
                self.store(o, v);
            },
            Mnemonic::Stx => {
                let v = self.get_x();
                self.store(o, v);
            },
            Mnemonic::Sty => {
                let v = self.get_y();
                self.store(o, v);
            },
            Mnemonic::Tax => {
                let v = self.get_a();
                self.set_x(v);
                self.set_zn(v);
            },
            Mnemonic::Tay => {
                let v = self.get_a();
                self.set_y(v);
                self.set_zn(v);
            },
            Mnemonic::Txa => {
                let v = self.get_x();
                self.set_a(v);
                self.set_zn(v);
            },
            Mnemonic::Tya => {
                let v = self.get_y();
                self.set_a(v);
                self.set_zn(v);
            },
            Mnemonic::Tsx => {
                let v = self.get_sp();
                self.set_x(v);
                self.set_zn(v);
            },
            Mnemonic::Txs => {
                let v = self.get_x();
                self.set_s(v as u16);
            },
            _ => {},
        }
    }

    /// Arithmetic, logic, compare and bit test.
    fn arithmetic(&mut self, mn: Mnemonic, o: Operand)
        requires
            old(self).wf(),
            matches!(mn, Mnemonic::Adc | Mnemonic::Sbc | Mnemonic::And | Mnemonic::Ora | Mnemonic::Eor | Mnemonic::Cmp
            | Mnemonic::Cpx | Mnemonic::Cpy | Mnemonic::Bit),
        ensures
            final(self).wf(),
            final(self)@ == spec_arithmetic(old(self)@, mn, o),
    {
        let m = self.operand_value(o);
        match mn {
            Mnemonic::Adc => self.adc(m),
            Mnemonic::Sbc => self.sbc(m),
            Mnemonic::And => {
                let v = self.get_a() & m;
                self.set_a(v);
                self.set_zn(v);
            },
            Mnemonic::Ora => {
                let v = self.get_a() | m;
                self.set_a(v);
                self.set_zn(v);
            },
            Mnemonic::Eor => {
                let v = self.get_a() ^ m;
                self.set_a(v);
                self.set_zn(v);
            },
            Mnemonic::Cmp => {
                let reg = self.get_a();
                self.compare(reg, m);
            },
            Mnemonic::Cpx => {
                let reg = self.get_x();
                self.compare(reg, m);
            },
            Mnemonic::Cpy => {
                let reg = self.get_y();
                self.compare(reg, m);
            },
            Mnemonic::Bit => {
                let a = self.get_a();
                self.update_flag(Flag::Zero, a & m == 0);
                self.update_flag(Flag::Negative, m >= 128);
                self.update_flag(Flag::Overflow, m & 0x40 != 0);
            },
            _ => {},
        }
    }

    /// Shifts, rotates, increments and decrements.
    fn modify(&mut self, mn: Mnemonic, o: Operand)
        requires
            old(self).wf(),
            matches!(mn, Mnemonic::Asl | Mnemonic::Lsr | Mnemonic::Rol | Mnemonic::Ror | Mnemonic::Inc | Mnemonic::Dec
            | Mnemonic::Inx | Mnemonic::Iny | Mnemonic::Dex | Mnemonic::Dey),
        ensures
            final(self).wf(),
            final(self)@ == spec_modify(old(self)@, mn, o),
    {
        let m = self.operand_value(o);
        match mn {
            Mnemonic::Asl | Mnemonic::Lsr | Mnemonic::Rol | Mnemonic::Ror => self.shift(mn, o),
            Mnemonic::Inc => {
                let r: u8 = if m == 255 {
                    0
                } else {
                    m + 1
                };
                self.store(o, r);
                self.set_zn(r);
            },
            Mnemonic::Dec => {
                let r: u8 = if m == 0 {
                    255
                } else {
                    m - 1
                };
                self.store(o, r);
                self.set_zn(r);
            },
            Mnemonic::Inx => {
                let x = self.get_x();
                let v: u8 = if x == 255 {
                    0
                } else {
                    x + 1
                };
                self.set_x(v);
                self.set_zn(v);
            },
            Mnemonic::Iny => {
                let y = self.get_y();
                let v: u8 = if y == 255 {
                    0
                } else {
                    y + 1
                };
                self.set_y(v);
                self.set_zn(v);
            },
            Mnemonic::Dex => {
                let x = self.get_x();
                let v: u8 = if x == 0 {
                    255
                } else {
                    x - 1
                };
                self.set_x(v);
                self.set_zn(v);
            },
            Mnemonic::Dey => {
                let y = self.get_y();
                let v: u8 = if y == 0 {
                    255
                } else {
                    y - 1
                };
                self.set_y(v);
                self.set_zn(v);
            },
            _ => {},
        }
    }

    /// Branches, jumps, calls, returns and BRK.
    fn control(&mut self, mn: Mnemonic, o: Operand)
        requires
            old(self).wf(),
            matches!(mn, Mnemonic::Bpl | Mnemonic::Bmi | Mnemonic::Bvc | Mnemonic::Bvs | Mnemonic::Bcc | Mnemonic::Bcs
            | Mnemonic::Bne | Mnemonic::Beq | Mnemonic::Jmp | Mnemonic::Jsr | Mnemonic::Rts | Mnemonic::Rti
            | Mnemonic::Brk),
        ensures
            final(self).wf(),
            final(self)@ == spec_control(old(self)@, mn, o),
    {
        match mn {
            Mnemonic::Bpl | Mnemonic::Bmi | Mnemonic::Bvc | Mnemonic::Bvs | Mnemonic::Bcc
            | Mnemonic::Bcs | Mnemonic::Bne | Mnemonic::Beq => {
                let (f, expected) = branch_condition_of(mn);
                if let Operand::Address(target) = o {
                    if self.get_flag(f) == expected {
                        self.set_pc(target);
                    }
                }
            },
            Mnemonic::Jmp => {
                if let Operand::Address(target) = o {
                    self.set_pc(target);
                }
            },
            Mnemonic::Jsr => {
                if let Operand::Address(target) = o {
                    let pc = self.get_pc();
                    let ret: u16 = if pc == 0 {
                        65535
                    } else {
                        pc - 1
                    };
                    self.push_word(ret);
                    self.set_pc(target);
                }
            },
            Mnemonic::Rts => {
                let lo = self.pull();
                let hi = self.pull();
                self.set_pc(((hi as u32 * 256 + lo as u32 + 1) % 65536) as u16);
            },
            Mnemonic::Rti => {
                let p = self.pull();
                let lo = self.pull();
                let hi = self.pull();
                self.set_status(p);
                self.set_pc(hi as u16 * 256 + lo as u16);
            },
            Mnemonic::Brk => {
                let pc = self.get_pc();
                let ret: u16 = if pc == 65535 {
                    0
                } else {
                    pc + 1
                };
                self.interrupt_sequence(ret, IRQ_VECTOR);
            },
            _ => {},
        }
    }

    /// Stack pushes and pulls, flag changes and no-ops.
    fn stack_flags(&mut self, mn: Mnemonic, o: Operand)
        requires
            old(self).wf(),
        ensures
            final(self).wf(),
            final(self)@ == spec_stack_flags(old(self)@, mn, o),
    {
        match mn {
            Mnemonic::Pha => {
                let v = self.get_a();
                self.push(v);
            },
            Mnemonic::Php => {
                let v = self.get_status();
                self.push(v);
            },
            Mnemonic::Pla => {
                let v = self.pull();
                self.set_a(v);
                self.set_zn(v);
            },
            Mnemonic::Plp => {
                let v = self.pull();
                self.set_status(v);
            },
            Mnemonic::Clc | Mnemonic::Sec | Mnemonic::Cli | Mnemonic::Sei | Mnemonic::Cld
            | Mnemonic::Sed | Mnemonic::Clv => {
                let (f, v) = flag_change_of(mn);
                self.update_flag(f, v);
            },
            Mnemonic::Nop | Mnemonic::Unused => {},

            _ => {},
        }
    }

    /// Performs mnemonic `mn` on operand `o`; the program counter already
    /// points past the instruction.
    fn operate(&mut self, mn: Mnemonic, o: Operand)
        requires
            old(self).wf(),
        ensures
            final(self).wf(),
            final(self)@ == spec_operate(old(self)@, mn, o),
    {
        match mn {
            Mnemonic::Lda | Mnemonic::Ldx | Mnemonic::Ldy | Mnemonic::Sta | Mnemonic::Stx
            | Mnemonic::Sty | Mnemonic::Tax | Mnemonic::Tay | Mnemonic::Txa | Mnemonic::Tya
            | Mnemonic::Tsx | Mnemonic::Txs => {
                self.load_transfer(mn, o)
            },
            Mnemonic::Adc | Mnemonic::Sbc | Mnemonic::And | Mnemonic::Ora | Mnemonic::Eor
            | Mnemonic::Cmp | Mnemonic::Cpx | Mnemonic::Cpy | Mnemonic::Bit => {
                self.arithmetic(mn, o)
            },
            Mnemonic::Asl | Mnemonic::Lsr | Mnemonic::Rol | Mnemonic::Ror | Mnemonic::Inc
            | Mnemonic::Dec | Mnemonic::Inx | Mnemonic::Iny | Mnemonic::Dex | Mnemonic::Dey => {
                self.modify(mn, o)
            },
            Mnemonic::Bpl | Mnemonic::Bmi | Mnemonic::Bvc | Mnemonic::Bvs | Mnemonic::Bcc
            | Mnemonic::Bcs | Mnemonic::Bne | Mnemonic::Beq | Mnemonic::Jmp | Mnemonic::Jsr
            | Mnemonic::Rts | Mnemonic::Rti | Mnemonic::Brk => {
                self.control(mn, o)
            },
            _ => self.stack_flags(mn, o),
        }
    }
}

impl CPU {
    /// Executes the instruction that opcode `op.code` starts, with the operand
    /// bytes held in the first and second bytes of interest: the program
    /// counter moves past the instruction (or to the target of a taken branch,
    /// jump, call or return), and registers, flags and memory change as the
    /// operation defines. An unassigned opcode only moves the program counter.
    pub fn execute_opcode(&mut self, op: Opcode)
        requires
            old(self).wf(),
        ensures
            final(self).wf(),
            final(self)@ == spec_execute(old(self)@, op.code),
    {
        let (mn, mode) = decode_entry(op.code);
        let b1 = self.get_first_byte_of_interest();
        let b2 = self.get_second_byte_of_interest();
        let (o, _) = self.resolve(mode, b1, b2);
        let len = length_for(mode);
        self.increment_pc(len as u16);
        self.operate(mn, o);
    }

    /// The cycles that executing opcode `code` from the current state takes.
    pub fn cycles_taken(&self, code: u8) -> (r: u8)
        requires
            self.wf(),
        ensures
            r == spec_cycles_taken(self@, code),
    {
        let (mn, mode) = decode_entry(code);
        let b1 = self.get_first_byte_of_interest();
        let b2 = self.get_second_byte_of_interest();
        let (_, crossed) = self.resolve(mode, b1, b2);
        let base = cycles_for(mn, mode);
        assert(base <= 7);
        if is_branch_op(mn) {
            let (f, expected) = branch_condition_of(mn);
            if self.get_flag(f) == expected {
                if crossed {
                    base + 2
                } else {
                    base + 1
                }
            } else {
                base
            }
        } else if crossed && pays_penalty(mn) {
            base + 1
        } else {
            base
        }
    }

    /// Fetches the instruction at the program counter from memory and executes
    /// it; returns the cycles it took.
    pub fn step(&mut self) -> (cycles: u8)
        requires
            old(self).wf(),
        ensures
            final(self).wf(),
            final(self)@ == spec_execute(fetched(old(self)@), fetched(old(self)@).instruction),
            cycles == spec_cycles_taken(fetched(old(self)@), fetched(old(self)@).instruction),
    {
        let pc = self.get_pc();
        let code = self.read(pc);
        let b1 = self.read(((pc as u32 + 1) % 65536) as u16);
        let b2 = self.read(((pc as u32 + 2) % 65536) as u16);
        self.set_instruction(code);
        self.set_first_byte_of_interest(b1);
        self.set_second_byte_of_interest(b2);
        let cycles = self.cycles_taken(code);
        let op = build_opcode(code);
        self.execute_opcode(op);
        cycles
    }

    /// Raises an interrupt: pushes the program counter (high byte, then low)
    /// and the status byte, sets Interrupt-Disable and jumps through the
    /// kind's vector. A maskable interrupt is ignored while Interrupt-Disable
    /// is set; the result says whether the interrupt was taken.
    pub fn interrupt(&mut self, kind: Interrupt) -> (taken: bool)
        requires
            old(self).wf(),
        ensures
            final(self).wf(),
            taken == !(kind == Interrupt::Irq && flag(old(self)@.p, Flag::InterruptDisable)),
            taken ==> final(self)@ == spec_interrupt(old(self)@, old(self)@.pc, spec_vector(kind)),
            !taken ==> final(self)@ == old(self)@,
    {
        if kind == Interrupt::Irq && self.get_flag(Flag::InterruptDisable) {
            return false;
        }
        let pc = self.get_pc();
        self.interrupt_sequence(pc, vector_of(kind));
        true
    }

    /// Copies `program` into memory from address `origin` on. Fails, and
    /// changes nothing, when the program does not fit below the top of memory.
    pub fn load_program(&mut self, origin: u16, program: &Vec<u8>) -> (r: Result<(), LoadError>)
        requires
            old(self).wf(),
        ensures
            final(self).wf(),
            r is Ok <==> origin + program@.len() <= MEMORY_SIZE,
            r is Ok ==> final(self)@ == (CpuState {
                mem: loaded(old(self)@.mem, origin as int, program@),
                ..old(self)@
            }),
            r is Err ==> final(self)@ == old(self)@,
    {
        if program.len() > MEMORY_SIZE - origin as usize {
            return Err(LoadError::DoesNotFit);
        }
        let ghost start = self@;
        let mut i: usize = 0;
        while i < program.len()
            invariant
                self.wf(),
                origin + program@.len() <= MEMORY_SIZE,
                i <= program@.len(),
                self@ == (CpuState { mem: self@.mem, ..start }),
                forall|k: int|
                    0 <= k < MEMORY_SIZE ==> #[trigger] self@.mem[k] == if origin <= k < origin + i {
                        program@[k - origin]
                    } else {
                        start.mem[k]
                    },
            decreases program@.len() - i,
        {
            self.write((origin as usize + i) as u16, program[i]);
            i = i + 1;
        }
        assert(self@.mem =~= loaded(start.mem, origin as int, program@));
        Ok(())
    }

    /// Fetches the instruction at the program counter from `image`, a program
    /// image indexed by the program counter: records the opcode and the two
    /// bytes after it (zero past the end) and returns the opcode's descriptor.
    /// Fails, and changes nothing, when the instruction runs past the end.
    pub fn fetch_from(&mut self, image: &Vec<u8>) -> (r: Result<Opcode, StreamError>)
        requires
            old(self).wf(),
        ensures
            final(self).wf(),
            r is Ok <==> old(self)@.pc < image@.len() && old(self)@.pc + spec_length(
                image@[old(self)@.pc as int],
            ) <= image@.len(),
            r matches Ok(op) ==> describes(op, image@[old(self)@.pc as int]) && final(self)@ == (
            CpuState {
                instruction: image@[old(self)@.pc as int],
                first_byte: byte_or_zero(image@, old(self)@.pc + 1),
                second_byte: byte_or_zero(image@, old(self)@.pc + 2),
                ..old(self)@
            }),
            r is Err ==> final(self)@ == old(self)@,
    {
        let pc = self.get_pc() as usize;
        if pc >= image.len() {
            return Err(StreamError::EndOfStream);
        }
        let code = image[pc];
        let op = build_opcode(code);
        if op.length > image.len() - pc {
            return Err(StreamError::EndOfStream);
        }
        let b1 = if pc + 1 < image.len() {
            image[pc + 1]
        } else {
            0
        };
        let b2 = if pc + 2 < image.len() {
            image[pc + 2]
        } else {
            0
        };
        self.set_instruction(code);
        self.set_first_byte_of_interest(b1);
        self.set_second_byte_of_interest(b2);
        Ok(op)
    }
}

} // verus!
