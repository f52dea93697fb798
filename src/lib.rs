//! The core of a MOS 6502 emulator as found in the NES: the opcode table, the
//! status flags, the memory bus, operand resolution and instruction execution,
//! each stated against a mathematical model of the processor.

pub mod flags;
pub mod opcode;
pub mod bus;
pub mod state;
pub mod cpu;
pub mod execute;
pub mod header;
pub mod lemmas;
