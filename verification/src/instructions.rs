//! The instruction set: one byte of opcode, then zero to four operand
//! bytes. Register operands are one byte, literals and addresses two
//! bytes big-endian. These values are the machine's stable opcode table;
//! programs are composed directly against them.

use vstd::prelude::*;

verus! {

/// Move a 16-bit literal into a register.
pub const MOV_LIT_REG: u8 = 0x10;

/// Copy one register into another.
pub const MOV_REG_REG: u8 = 0x11;

/// Store a register at a literal memory address.
pub const MOV_REG_MEM: u8 = 0x12;

/// Load a register from a literal memory address.
pub const MOV_MEM_REG: u8 = 0x13;

/// Store a 16-bit literal at a literal memory address.
pub const MOV_LIT_MEM: u8 = 0x14;

/// Load a register from the address held in another register.
pub const MOV_REG_PTR_REG: u8 = 0x15;

/// Load a register from a literal base address plus a register offset.
pub const MOV_LIT_OFF_REG: u8 = 0x16;

/// Add two registers into the accumulator.
pub const ADD_REG_REG: u8 = 0x20;

/// Add a literal and a register into the accumulator.
pub const ADD_LIT_REG: u8 = 0x21;

/// Subtract a literal from a register into the accumulator.
pub const SUB_LIT_REG: u8 = 0x22;

/// Subtract a literal from a register into the accumulator; the operands
/// arrive register first.
pub const SUB_REG_LIT: u8 = 0x23;

/// Subtract the second register from the first into the accumulator.
pub const SUB_REG_REG: u8 = 0x24;

/// Increment a register in place.
pub const INC_REG: u8 = 0x25;

/// Decrement a register in place.
pub const DEC_REG: u8 = 0x26;

/// Multiply a literal and a register into the accumulator.
pub const MUL_LIT_REG: u8 = 0x27;

/// Multiply two registers into the accumulator.
pub const MUL_REG_REG: u8 = 0x28;

/// Shift a register left by a literal, in place.
pub const LSH_REG_LIT: u8 = 0x30;

/// Shift a register left by another register, in place.
pub const LSH_REG_REG: u8 = 0x31;

/// Shift a register right by a literal, in place.
pub const RSH_REG_LIT: u8 = 0x32;

/// Shift a register right by another register, in place.
pub const RSH_REG_REG: u8 = 0x33;

/// Bitwise and of a register and a literal, into the accumulator.
pub const AND_REG_LIT: u8 = 0x34;

/// Bitwise and of two registers, into the accumulator.
pub const AND_REG_REG: u8 = 0x35;

/// Bitwise or of a register and a literal, into the accumulator.
pub const OR_REG_LIT: u8 = 0x36;

/// Bitwise or of two registers, into the accumulator.
pub const OR_REG_REG: u8 = 0x37;

/// Bitwise exclusive or of a register and a literal, into the accumulator.
pub const XOR_REG_LIT: u8 = 0x38;

/// Bitwise exclusive or of two registers, into the accumulator.
pub const XOR_REG_REG: u8 = 0x39;

/// Bitwise complement of a register, into the accumulator.
pub const NOT: u8 = 0x3A;

/// Jump if a register differs from the accumulator.
pub const JNE_REG: u8 = 0x40;

/// Jump if a literal differs from the accumulator.
pub const JNE_LIT: u8 = 0x41;

/// Jump if a register equals the accumulator.
pub const JEQ_REG: u8 = 0x42;

/// Jump if a literal equals the accumulator.
pub const JEQ_LIT: u8 = 0x43;

/// Jump if a register is below the accumulator.
pub const JLT_REG: u8 = 0x44;

/// Jump if a literal is below the accumulator.
pub const JLT_LIT: u8 = 0x45;

/// Jump if a register is above the accumulator.
pub const JGT_REG: u8 = 0x46;

/// Jump if a literal is above the accumulator.
pub const JGT_LIT: u8 = 0x47;

/// Jump if a register is at most the accumulator.
pub const JLE_REG: u8 = 0x48;

/// Jump if a literal is at most the accumulator.
pub const JLE_LIT: u8 = 0x49;

/// Jump if a register is at least the accumulator.
pub const JGE_REG: u8 = 0x4A;

/// Jump if a literal is at least the accumulator.
pub const JGE_LIT: u8 = 0x4B;

/// Push a 16-bit literal onto the stack.
pub const PSH_LIT: u8 = 0x50;

/// Push a register onto the stack.
pub const PSH_REG: u8 = 0x51;

/// Pop the top of the stack into a register.
pub const POP: u8 = 0x52;

/// Call the subroutine at a literal address.
pub const CAL_LIT: u8 = 0x53;

/// Call the subroutine at the address held in a register.
pub const CAL_REG: u8 = 0x54;

/// Return from a subroutine.
pub const RET: u8 = 0x55;

/// Halt the machine.
pub const HLT: u8 = 0x56;

} // verus!
