//! An emulator of the MOS 6502 processor and its memory bus, with contracts
//! that state the processor's register, flag, stack and memory semantics.
//!
//! - `bus`: RAM and ROM segments mapped into a 16-bit address space.
//! - `memory`: a flat 64 KiB memory.
//! - `status`: the status register and its byte layout.
//! - `instruction`: the opcode table.
//! - `cpu`: the processor, its mathematical model and its step semantics.
//! - `semantics`: facts proved about the step semantics.
//! - `clock`: pacing against wall time.
//! - `computer`: a processor, its bus and its clock, and their builder.
//! - `inspect`: register snapshots, disassembly text and execution records.
//! - `widgets`: the values that the terminal widgets show.
pub mod bus;
pub mod clock;
pub mod computer;
pub mod cpu;
pub mod inspect;
pub mod instruction;
pub mod memory;
pub mod semantics;
pub mod status;
pub mod widgets;
