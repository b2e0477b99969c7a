//! The processor and memory subsystem of an 8-bit handheld game console:
//! cartridge image, address bus, register file, opcode table, operand fetch
//! and instruction handlers, each with a machine-checked contract.
//!
//! A [`machine::Machine`] owns everything one emulated console needs. Its
//! contracts speak of its view, [`machine::MachineView`], and of the
//! functions on that view that say what a bus access, a push or pop, an
//! operand fetch, a handler and a whole step do:
//!
//! - [`cart`]: the cartridge image, its header and the header checksum;
//! - [`ram`]: working RAM and high RAM;
//! - [`bus`]: which component answers for an address, reads and writes;
//! - [`stack`]: push and pop through the bus;
//! - [`instructions`]: the opcode table;
//! - [`cpu_util`]: registers by name, and the flags;
//! - [`cpu_fetch`]: the operand fetch by addressing mode;
//! - [`cpu_proc`]: the handlers, one per operation kind;
//! - [`cpu`]: the processor's state and the step;
//! - [`emu`]: the cycle counter and the decisions of the driver loop;
//! - [`common`]: bits and bytes.
//!
//! No function of this library panics: where the machine cannot go on, it
//! says why in an error value.

pub mod bus;
pub mod cart;
pub mod common;
pub mod cpu;
pub mod cpu_fetch;
pub mod cpu_proc;
pub mod cpu_util;
pub mod emu;
pub mod instructions;
pub mod machine;
pub mod ram;
pub mod stack;
