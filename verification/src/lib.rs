//! A small 16-bit virtual machine: a register-based CPU with a fixed
//! instruction set, executing against a byte-addressable 16-bit address
//! space that a memory mapper routes to pluggable devices (plain storage
//! or an output-only character screen).
//!
//! Every word the machine reads or writes — registers, memory, the stack —
//! is two bytes, big-endian. The CPU owns its register file and a memory
//! mapper; `step` fetches, decodes and executes one instruction, and every
//! fault (an unmapped address, an unknown opcode) is surfaced as a
//! structured error instead of a crash.

pub mod array_buffer;
pub mod cpu;
pub mod create_memory;
pub mod device;
pub mod errors;
pub mod instructions;
pub mod laws;
pub mod mapper;
pub mod memory;
pub mod step;
pub mod word;
