//! Decode and execute: one instruction at a time.
//!
//! Each instruction's exact effect is a spec function over [`CpuView`];
//! `spec_execute` dispatches on the opcode byte and an unknown opcode is
//! a fault. The executable `execute` is proved to implement
//! `spec_execute`, `step` fetches one opcode and either halts or
//! executes, and `run` iterates `step` up to a step budget.

use vstd::prelude::*;

use crate::cpu::CPU;
use crate::cpu::CpuView;
use crate::cpu::Register;
use crate::cpu::reg_word;
use crate::cpu::spec_fetch16;
use crate::cpu::spec_fetch8;
use crate::cpu::spec_fetch_register_index;
use crate::cpu::spec_mem_read_word;
use crate::cpu::spec_mem_write_word;
use crate::cpu::spec_pop;
use crate::cpu::spec_pop_state;
use crate::cpu::spec_push;
use crate::cpu::spec_push_state;
use crate::cpu::spec_reg;
use crate::cpu::spec_with_reg;
use crate::cpu::spec_with_reg_at;
use crate::errors::VmError;
use crate::instructions::ADD_LIT_REG;
use crate::instructions::ADD_REG_REG;
use crate::instructions::AND_REG_LIT;
use crate::instructions::AND_REG_REG;
use crate::instructions::CAL_LIT;
use crate::instructions::CAL_REG;
use crate::instructions::DEC_REG;
use crate::instructions::HLT;
use crate::instructions::INC_REG;
use crate::instructions::JEQ_LIT;
use crate::instructions::JEQ_REG;
use crate::instructions::JGE_LIT;
use crate::instructions::JGE_REG;
use crate::instructions::JGT_LIT;
use crate::instructions::JGT_REG;
use crate::instructions::JLE_LIT;
use crate::instructions::JLE_REG;
use crate::instructions::JLT_LIT;
use crate::instructions::JLT_REG;
use crate::instructions::JNE_LIT;
use crate::instructions::JNE_REG;
use crate::instructions::LSH_REG_LIT;
use crate::instructions::LSH_REG_REG;
use crate::instructions::MOV_LIT_MEM;
use crate::instructions::MOV_LIT_OFF_REG;
use crate::instructions::MOV_LIT_REG;
use crate::instructions::MOV_MEM_REG;
use crate::instructions::MOV_REG_MEM;
use crate::instructions::MOV_REG_PTR_REG;
use crate::instructions::MOV_REG_REG;
use crate::instructions::MUL_LIT_REG;
use crate::instructions::MUL_REG_REG;
use crate::instructions::NOT;
use crate::instructions::OR_REG_LIT;
use crate::instructions::OR_REG_REG;
use crate::instructions::POP;
use crate::instructions::PSH_LIT;
use crate::instructions::PSH_REG;
use crate::instructions::RET;
use crate::instructions::RSH_REG_LIT;
use crate::instructions::RSH_REG_REG;
use crate::instructions::SUB_LIT_REG;
use crate::instructions::SUB_REG_LIT;
use crate::instructions::SUB_REG_REG;
use crate::instructions::XOR_REG_LIT;
use crate::instructions::XOR_REG_REG;
use crate::word::add_wrap16;
use crate::word::mul_wrap16;
use crate::word::shift_left16;
use crate::word::shift_right16;
use crate::word::shl16;
use crate::word::shr16;
use crate::word::sub_wrap16;
use crate::word::wrap_add16;
use crate::word::wrap_mul16;
use crate::word::wrap_sub16;

verus! {

/// Fetch a literal and a register; the accumulator gets their wrapping sum.
pub open spec fn spec_add_lit_reg(s: CpuView) -> Result<CpuView, VmError> {
    match spec_fetch16(s) {
        Err(e) => Err(e),
        Ok((lit, s1)) => match spec_fetch_register_index(s1) {
            Err(e) => Err(e),
            Ok((off, s2)) => Ok(
                spec_with_reg(s2, Register::Acc, wrap_add16(reg_word(s2.regs, off), lit)),
            ),
        },
    }
}

/// Fetch a literal and a register; the accumulator gets their wrapping difference (register minus literal).
pub open spec fn spec_sub_lit_reg(s: CpuView) -> Result<CpuView, VmError> {
    match spec_fetch16(s) {
        Err(e) => Err(e),
        Ok((lit, s1)) => match spec_fetch_register_index(s1) {
            Err(e) => Err(e),
            Ok((off, s2)) => Ok(
                spec_with_reg(s2, Register::Acc, wrap_sub16(reg_word(s2.regs, off), lit)),
            ),
        },
    }
}

/// Fetch a literal and a register; the accumulator gets their wrapping product.
pub open spec fn spec_mul_lit_reg(s: CpuView) -> Result<CpuView, VmError> {
    match spec_fetch16(s) {
        Err(e) => Err(e),
        Ok((lit, s1)) => match spec_fetch_register_index(s1) {
            Err(e) => Err(e),
            Ok((off, s2)) => Ok(
                spec_with_reg(s2, Register::Acc, wrap_mul16(reg_word(s2.regs, off), lit)),
            ),
        },
    }
}

/// Fetch a register and a literal; the accumulator gets the register minus the literal, wrapping.
pub open spec fn spec_sub_reg_lit(s: CpuView) -> Result<CpuView, VmError> {
    match spec_fetch_register_index(s) {
        Err(e) => Err(e),
        Ok((off, s1)) => match spec_fetch16(s1) {
            Err(e) => Err(e),
            Ok((lit, s2)) => Ok(spec_with_reg(s2, Register::Acc, wrap_sub16(reg_word(s2.regs, off), lit))),
        },
    }
}

/// Fetch a register and a literal; the accumulator gets their bitwise and.
pub open spec fn spec_and_reg_lit(s: CpuView) -> Result<CpuView, VmError> {
    match spec_fetch_register_index(s) {
        Err(e) => Err(e),
        Ok((off, s1)) => match spec_fetch16(s1) {
            Err(e) => Err(e),
            Ok((lit, s2)) => Ok(spec_with_reg(s2, Register::Acc, (reg_word(s2.regs, off) & lit))),
        },
    }
}

/// Fetch a register and a literal; the accumulator gets their bitwise or.
pub open spec fn spec_or_reg_lit(s: CpuView) -> Result<CpuView, VmError> {
    match spec_fetch_register_index(s) {
        Err(e) => Err(e),
        Ok((off, s1)) => match spec_fetch16(s1) {
            Err(e) => Err(e),
            Ok((lit, s2)) => Ok(spec_with_reg(s2, Register::Acc, (reg_word(s2.regs, off) | lit))),
        },
    }
}

/// Fetch a register and a literal; the accumulator gets their bitwise exclusive or.
pub open spec fn spec_xor_reg_lit(s: CpuView) -> Result<CpuView, VmError> {
    match spec_fetch_register_index(s) {
        Err(e) => Err(e),
        Ok((off, s1)) => match spec_fetch16(s1) {
            Err(e) => Err(e),
            Ok((lit, s2)) => Ok(spec_with_reg(s2, Register::Acc, (reg_word(s2.regs, off) ^ lit))),
        },
    }
}

/// Fetch two registers; the accumulator gets their wrapping sum.
pub open spec fn spec_add_reg_reg(s: CpuView) -> Result<CpuView, VmError> {
    match spec_fetch_register_index(s) {
        Err(e) => Err(e),
        Ok((off1, s1)) => match spec_fetch_register_index(s1) {
            Err(e) => Err(e),
            Ok((off2, s2)) => Ok(spec_with_reg(s2, Register::Acc, wrap_add16(reg_word(s2.regs, off1), reg_word(s2.regs, off2)))),
        },
    }
}

/// Fetch two registers; the accumulator gets the first minus the second, wrapping.
pub open spec fn spec_sub_reg_reg(s: CpuView) -> Result<CpuView, VmError> {
    match spec_fetch_register_index(s) {
        Err(e) => Err(e),
        Ok((off1, s1)) => match spec_fetch_register_index(s1) {
            Err(e) => Err(e),
            Ok((off2, s2)) => Ok(spec_with_reg(s2, Register::Acc, wrap_sub16(reg_word(s2.regs, off1), reg_word(s2.regs, off2)))),
        },
    }
}

/// Fetch two registers; the accumulator gets their wrapping product.
pub open spec fn spec_mul_reg_reg(s: CpuView) -> Result<CpuView, VmError> {
    match spec_fetch_register_index(s) {
        Err(e) => Err(e),
        Ok((off1, s1)) => match spec_fetch_register_index(s1) {
            Err(e) => Err(e),
            Ok((off2, s2)) => Ok(spec_with_reg(s2, Register::Acc, wrap_mul16(reg_word(s2.regs, off1), reg_word(s2.regs, off2)))),
        },
    }
}

/// Fetch two registers; the accumulator gets their bitwise and.
pub open spec fn spec_and_reg_reg(s: CpuView) -> Result<CpuView, VmError> {
    match spec_fetch_register_index(s) {
        Err(e) => Err(e),
        Ok((off1, s1)) => match spec_fetch_register_index(s1) {
            Err(e) => Err(e),
            Ok((off2, s2)) => Ok(spec_with_reg(s2, Register::Acc, (reg_word(s2.regs, off1) & reg_word(s2.regs, off2)))),
        },
    }
}

/// Fetch two registers; the accumulator gets their bitwise or.
pub open spec fn spec_or_reg_reg(s: CpuView) -> Result<CpuView, VmError> {
    match spec_fetch_register_index(s) {
        Err(e) => Err(e),
        Ok((off1, s1)) => match spec_fetch_register_index(s1) {
            Err(e) => Err(e),
            Ok((off2, s2)) => Ok(spec_with_reg(s2, Register::Acc, (reg_word(s2.regs, off1) | reg_word(s2.regs, off2)))),
        },
    }
}

/// Fetch two registers; the accumulator gets their bitwise exclusive or.
pub open spec fn spec_xor_reg_reg(s: CpuView) -> Result<CpuView, VmError> {
    match spec_fetch_register_index(s) {
        Err(e) => Err(e),
        Ok((off1, s1)) => match spec_fetch_register_index(s1) {
            Err(e) => Err(e),
            Ok((off2, s2)) => Ok(spec_with_reg(s2, Register::Acc, (reg_word(s2.regs, off1) ^ reg_word(s2.regs, off2)))),
        },
    }
}

/// Fetch a register and a literal; shift the register left by the literal, in place.
pub open spec fn spec_lsh_reg_lit(s: CpuView) -> Result<CpuView, VmError> {
    match spec_fetch_register_index(s) {
        Err(e) => Err(e),
        Ok((off, s1)) => match spec_fetch16(s1) {
            Err(e) => Err(e),
            Ok((lit, s2)) => Ok(spec_with_reg_at(s2, off, shl16(reg_word(s2.regs, off), lit))),
        },
    }
}

/// Fetch a register and a literal; shift the register right by the literal, in place.
pub open spec fn spec_rsh_reg_lit(s: CpuView) -> Result<CpuView, VmError> {
    match spec_fetch_register_index(s) {
        Err(e) => Err(e),
        Ok((off, s1)) => match spec_fetch16(s1) {
            Err(e) => Err(e),
            Ok((lit, s2)) => Ok(spec_with_reg_at(s2, off, shr16(reg_word(s2.regs, off), lit))),
        },
    }
}

/// Fetch two registers; shift the first left by the second, in place.
pub open spec fn spec_lsh_reg_reg(s: CpuView) -> Result<CpuView, VmError> {
    match spec_fetch_register_index(s) {
        Err(e) => Err(e),
        Ok((off1, s1)) => match spec_fetch_register_index(s1) {
            Err(e) => Err(e),
            Ok((off2, s2)) => Ok(
                spec_with_reg_at(s2, off1, shl16(reg_word(s2.regs, off1), reg_word(s2.regs, off2))),
            ),
        },
    }
}

/// Fetch two registers; shift the first right by the second, in place.
pub open spec fn spec_rsh_reg_reg(s: CpuView) -> Result<CpuView, VmError> {
    match spec_fetch_register_index(s) {
        Err(e) => Err(e),
        Ok((off1, s1)) => match spec_fetch_register_index(s1) {
            Err(e) => Err(e),
            Ok((off2, s2)) => Ok(
                spec_with_reg_at(s2, off1, shr16(reg_word(s2.regs, off1), reg_word(s2.regs, off2))),
            ),
        },
    }
}

/// Fetch a register; increments it in place, wrapping.
pub open spec fn spec_inc_reg(s: CpuView) -> Result<CpuView, VmError> {
    match spec_fetch_register_index(s) {
        Err(e) => Err(e),
        Ok((off, s1)) => Ok(spec_with_reg_at(s1, off, wrap_add16(reg_word(s1.regs, off), 1))),
    }
}

/// Fetch a register; decrements it in place, wrapping.
pub open spec fn spec_dec_reg(s: CpuView) -> Result<CpuView, VmError> {
    match spec_fetch_register_index(s) {
        Err(e) => Err(e),
        Ok((off, s1)) => Ok(spec_with_reg_at(s1, off, wrap_sub16(reg_word(s1.regs, off), 1))),
    }
}

/// Fetch a register; the accumulator gets its bitwise complement.
pub open spec fn spec_not(s: CpuView) -> Result<CpuView, VmError> {
    match spec_fetch_register_index(s) {
        Err(e) => Err(e),
        Ok((off, s1)) => Ok(spec_with_reg(s1, Register::Acc, !reg_word(s1.regs, off))),
    }
}

/// Fetch a register and a target address; jump there if the register differs from the accumulator.
pub open spec fn spec_jne_reg(s: CpuView) -> Result<CpuView, VmError> {
    match spec_fetch_register_index(s) {
        Err(e) => Err(e),
        Ok((off, s1)) => match spec_fetch16(s1) {
            Err(e) => Err(e),
            Ok((addr, s2)) => if reg_word(s2.regs, off) != spec_reg(s2, Register::Acc) {
                Ok(spec_with_reg(s2, Register::Ip, addr))
            } else {
                Ok(s2)
            },
        },
    }
}

/// Fetch a register and a target address; jump there if the register equals the accumulator.
pub open spec fn spec_jeq_reg(s: CpuView) -> Result<CpuView, VmError> {
    match spec_fetch_register_index(s) {
        Err(e) => Err(e),
        Ok((off, s1)) => match spec_fetch16(s1) {
            Err(e) => Err(e),
            Ok((addr, s2)) => if reg_word(s2.regs, off) == spec_reg(s2, Register::Acc) {
                Ok(spec_with_reg(s2, Register::Ip, addr))
            } else {
                Ok(s2)
            },
        },
    }
}

/// Fetch a register and a target address; jump there if the register is below the accumulator.
pub open spec fn spec_jlt_reg(s: CpuView) -> Result<CpuView, VmError> {
    match spec_fetch_register_index(s) {
        Err(e) => Err(e),
        Ok((off, s1)) => match spec_fetch16(s1) {
            Err(e) => Err(e),
            Ok((addr, s2)) => if reg_word(s2.regs, off) < spec_reg(s2, Register::Acc) {
                Ok(spec_with_reg(s2, Register::Ip, addr))
            } else {
                Ok(s2)
            },
        },
    }
}

/// Fetch a register and a target address; jump there if the register is above the accumulator.
pub open spec fn spec_jgt_reg(s: CpuView) -> Result<CpuView, VmError> {
    match spec_fetch_register_index(s) {
        Err(e) => Err(e),
        Ok((off, s1)) => match spec_fetch16(s1) {
            Err(e) => Err(e),
            Ok((addr, s2)) => if reg_word(s2.regs, off) > spec_reg(s2, Register::Acc) {
                Ok(spec_with_reg(s2, Register::Ip, addr))
            } else {
                Ok(s2)
            },
        },
    }
}

/// Fetch a register and a target address; jump there if the register is at most the accumulator.
pub open spec fn spec_jle_reg(s: CpuView) -> Result<CpuView, VmError> {
    match spec_fetch_register_index(s) {
        Err(e) => Err(e),
        Ok((off, s1)) => match spec_fetch16(s1) {
            Err(e) => Err(e),
            Ok((addr, s2)) => if reg_word(s2.regs, off) <= spec_reg(s2, Register::Acc) {
                Ok(spec_with_reg(s2, Register::Ip, addr))
            } else {
                Ok(s2)
            },
        },
    }
}

/// Fetch a register and a target address; jump there if the register is at least the accumulator.
pub open spec fn spec_jge_reg(s: CpuView) -> Result<CpuView, VmError> {
    match spec_fetch_register_index(s) {
        Err(e) => Err(e),
        Ok((off, s1)) => match spec_fetch16(s1) {
            Err(e) => Err(e),
            Ok((addr, s2)) => if reg_word(s2.regs, off) >= spec_reg(s2, Register::Acc) {
                Ok(spec_with_reg(s2, Register::Ip, addr))
            } else {
                Ok(s2)
            },
        },
    }
}

/// Fetch a literal and a target address; jump there if the literal differs from the accumulator.
pub open spec fn spec_jne_lit(s: CpuView) -> Result<CpuView, VmError> {
    match spec_fetch16(s) {
        Err(e) => Err(e),
        Ok((lit, s1)) => match spec_fetch16(s1) {
            Err(e) => Err(e),
            Ok((addr, s2)) => if lit != spec_reg(s2, Register::Acc) {
                Ok(spec_with_reg(s2, Register::Ip, addr))
            } else {
                Ok(s2)
            },
        },
    }
}

/// Fetch a literal and a target address; jump there if the literal equals the accumulator.
pub open spec fn spec_jeq_lit(s: CpuView) -> Result<CpuView, VmError> {
    match spec_fetch16(s) {
        Err(e) => Err(e),
        Ok((lit, s1)) => match spec_fetch16(s1) {
            Err(e) => Err(e),
            Ok((addr, s2)) => if lit == spec_reg(s2, Register::Acc) {
                Ok(spec_with_reg(s2, Register::Ip, addr))
            } else {
                Ok(s2)
            },
        },
    }
}

/// Fetch a literal and a target address; jump there if the literal is below the accumulator.
pub open spec fn spec_jlt_lit(s: CpuView) -> Result<CpuView, VmError> {
    match spec_fetch16(s) {
        Err(e) => Err(e),
        Ok((lit, s1)) => match spec_fetch16(s1) {
            Err(e) => Err(e),
            Ok((addr, s2)) => if lit < spec_reg(s2, Register::Acc) {
                Ok(spec_with_reg(s2, Register::Ip, addr))
            } else {
                Ok(s2)
            },
        },
    }
}

/// Fetch a literal and a target address; jump there if the literal is above the accumulator.
pub open spec fn spec_jgt_lit(s: CpuView) -> Result<CpuView, VmError> {
    match spec_fetch16(s) {
        Err(e) => Err(e),
        Ok((lit, s1)) => match spec_fetch16(s1) {
            Err(e) => Err(e),
            Ok((addr, s2)) => if lit > spec_reg(s2, Register::Acc) {
                Ok(spec_with_reg(s2, Register::Ip, addr))
            } else {
                Ok(s2)
            },
        },
    }
}

/// Fetch a literal and a target address; jump there if the literal is at most the accumulator.
pub open spec fn spec_jle_lit(s: CpuView) -> Result<CpuView, VmError> {
    match spec_fetch16(s) {
        Err(e) => Err(e),
        Ok((lit, s1)) => match spec_fetch16(s1) {
            Err(e) => Err(e),
            Ok((addr, s2)) => if lit <= spec_reg(s2, Register::Acc) {
                Ok(spec_with_reg(s2, Register::Ip, addr))
            } else {
                Ok(s2)
            },
        },
    }
}

/// Fetch a literal and a target address; jump there if the literal is at least the accumulator.
pub open spec fn spec_jge_lit(s: CpuView) -> Result<CpuView, VmError> {
    match spec_fetch16(s) {
        Err(e) => Err(e),
        Ok((lit, s1)) => match spec_fetch16(s1) {
            Err(e) => Err(e),
            Ok((addr, s2)) => if lit >= spec_reg(s2, Register::Acc) {
                Ok(spec_with_reg(s2, Register::Ip, addr))
            } else {
                Ok(s2)
            },
        },
    }
}

/// Fetch a literal and a register; the register gets the literal.
pub open spec fn spec_mov_lit_reg(s: CpuView) -> Result<CpuView, VmError> {
    match spec_fetch16(s) {
        Err(e) => Err(e),
        Ok((lit, s1)) => match spec_fetch_register_index(s1) {
            Err(e) => Err(e),
            Ok((off, s2)) => Ok(spec_with_reg_at(s2, off, lit)),
        },
    }
}

/// Fetch two registers; the second gets the first's value.
pub open spec fn spec_mov_reg_reg(s: CpuView) -> Result<CpuView, VmError> {
    match spec_fetch_register_index(s) {
        Err(e) => Err(e),
        Ok((off_from, s1)) => match spec_fetch_register_index(s1) {
            Err(e) => Err(e),
            Ok((off_to, s2)) => Ok(spec_with_reg_at(s2, off_to, reg_word(s2.regs, off_from))),
        },
    }
}

/// Fetch a register and an address; memory at the address gets the register's value.
pub open spec fn spec_mov_reg_mem(s: CpuView) -> Result<CpuView, VmError> {
    match spec_fetch_register_index(s) {
        Err(e) => Err(e),
        Ok((off_from, s1)) => match spec_fetch16(s1) {
            Err(e) => Err(e),
            Ok((addr, s2)) => match spec_mem_write_word(
                s2.mapper,
                addr,
                reg_word(s2.regs, off_from),
            ) {
                Err(e) => Err(e),
                Ok(m) => Ok(CpuView { mapper: m, ..s2 }),
            },
        },
    }
}

/// Fetch an address and a register; the register gets the word in memory there.
pub open spec fn spec_mov_mem_reg(s: CpuView) -> Result<CpuView, VmError> {
    match spec_fetch16(s) {
        Err(e) => Err(e),
        Ok((addr, s1)) => match spec_fetch_register_index(s1) {
            Err(e) => Err(e),
            Ok((off_to, s2)) => match spec_mem_read_word(s2.mapper, addr) {
                Err(e) => Err(e),
                Ok(v) => Ok(spec_with_reg_at(s2, off_to, v)),
            },
        },
    }
}

/// Fetch a literal and an address; memory at the address gets the literal.
pub open spec fn spec_mov_lit_mem(s: CpuView) -> Result<CpuView, VmError> {
    match spec_fetch16(s) {
        Err(e) => Err(e),
        Ok((lit, s1)) => match spec_fetch16(s1) {
            Err(e) => Err(e),
            Ok((addr, s2)) => match spec_mem_write_word(s2.mapper, addr, lit) {
                Err(e) => Err(e),
                Ok(m) => Ok(CpuView { mapper: m, ..s2 }),
            },
        },
    }
}

/// Fetch two registers; the second gets the word in memory at the address the first holds.
pub open spec fn spec_mov_reg_ptr_reg(s: CpuView) -> Result<CpuView, VmError> {
    match spec_fetch_register_index(s) {
        Err(e) => Err(e),
        Ok((off_from, s1)) => match spec_fetch_register_index(s1) {
            Err(e) => Err(e),
            Ok((off_to, s2)) => match spec_mem_read_word(s2.mapper, reg_word(s2.regs, off_from)) {
                Err(e) => Err(e),
                Ok(v) => Ok(spec_with_reg_at(s2, off_to, v)),
            },
        },
    }
}

/// Fetch a base address and two registers; the second register gets the word in memory at the base plus the first register's offset.
pub open spec fn spec_mov_lit_off_reg(s: CpuView) -> Result<CpuView, VmError> {
    match spec_fetch16(s) {
        Err(e) => Err(e),
        Ok((base, s1)) => match spec_fetch_register_index(s1) {
            Err(e) => Err(e),
            Ok((off_from, s2)) => match spec_fetch_register_index(s2) {
                Err(e) => Err(e),
                Ok((off_to, s3)) => match spec_mem_read_word(
                    s3.mapper,
                    wrap_add16(base, reg_word(s3.regs, off_from)),
                ) {
                    Err(e) => Err(e),
                    Ok(v) => Ok(spec_with_reg_at(s3, off_to, v)),
                },
            },
        },
    }
}

/// Fetch a literal and push it.
pub open spec fn spec_psh_lit(s: CpuView) -> Result<CpuView, VmError> {
    match spec_fetch16(s) {
        Err(e) => Err(e),
        Ok((lit, s1)) => spec_push(s1, lit),
    }
}

/// Fetch a register and push its value.
pub open spec fn spec_psh_reg(s: CpuView) -> Result<CpuView, VmError> {
    match spec_fetch_register_index(s) {
        Err(e) => Err(e),
        Ok((off, s1)) => spec_push(s1, reg_word(s1.regs, off)),
    }
}

/// Fetch a register; it gets the word popped off the stack.
pub open spec fn spec_pop_reg(s: CpuView) -> Result<CpuView, VmError> {
    match spec_fetch_register_index(s) {
        Err(e) => Err(e),
        Ok((off, s1)) => match spec_pop(s1) {
            Err(e) => Err(e),
            Ok((v, s2)) => Ok(spec_with_reg_at(s2, off, v)),
        },
    }
}

/// Fetch a target address, save the machine state, and jump there.
pub open spec fn spec_cal_lit(s: CpuView) -> Result<CpuView, VmError> {
    match spec_fetch16(s) {
        Err(e) => Err(e),
        Ok((addr, s1)) => match spec_push_state(s1) {
            Err(e) => Err(e),
            Ok(s2) => Ok(spec_with_reg(s2, Register::Ip, addr)),
        },
    }
}

/// Fetch a register holding the target address, save the machine state, and jump there.
pub open spec fn spec_cal_reg(s: CpuView) -> Result<CpuView, VmError> {
    match spec_fetch_register_index(s) {
        Err(e) => Err(e),
        Ok((off, s1)) => {
            let addr = reg_word(s1.regs, off);
            match spec_push_state(s1) {
                Err(e) => Err(e),
                Ok(s2) => Ok(spec_with_reg(s2, Register::Ip, addr)),
            }
        },
    }
}

/// Restore the machine state saved by the matching call.
pub open spec fn spec_ret(s: CpuView) -> Result<CpuView, VmError> {
    spec_pop_state(s)
}

/// What executing one decoded instruction does; an opcode outside the
/// table is a fault naming the byte.
pub open spec fn spec_execute(s: CpuView, instruction: u8) -> Result<CpuView, VmError> {
    if instruction == MOV_LIT_REG {
        spec_mov_lit_reg(s)
    } else if instruction == MOV_REG_REG {
        spec_mov_reg_reg(s)
    } else if instruction == MOV_REG_MEM {
        spec_mov_reg_mem(s)
    } else if instruction == MOV_MEM_REG {
        spec_mov_mem_reg(s)
    } else if instruction == MOV_LIT_MEM {
        spec_mov_lit_mem(s)
    } else if instruction == MOV_REG_PTR_REG {
        spec_mov_reg_ptr_reg(s)
    } else if instruction == MOV_LIT_OFF_REG {
        spec_mov_lit_off_reg(s)
    } else if instruction == ADD_REG_REG {
        spec_add_reg_reg(s)
    } else if instruction == ADD_LIT_REG {
        spec_add_lit_reg(s)
    } else if instruction == SUB_LIT_REG {
        spec_sub_lit_reg(s)
    } else if instruction == SUB_REG_LIT {
        spec_sub_reg_lit(s)
    } else if instruction == SUB_REG_REG {
        spec_sub_reg_reg(s)
    } else if instruction == INC_REG {
        spec_inc_reg(s)
    } else if instruction == DEC_REG {
        spec_dec_reg(s)
    } else if instruction == MUL_LIT_REG {
        spec_mul_lit_reg(s)
    } else if instruction == MUL_REG_REG {
        spec_mul_reg_reg(s)
    } else if instruction == LSH_REG_LIT {
        spec_lsh_reg_lit(s)
    } else if instruction == LSH_REG_REG {
        spec_lsh_reg_reg(s)
    } else if instruction == RSH_REG_LIT {
        spec_rsh_reg_lit(s)
    } else if instruction == RSH_REG_REG {
        spec_rsh_reg_reg(s)
    } else if instruction == AND_REG_LIT {
        spec_and_reg_lit(s)
    } else if instruction == AND_REG_REG {
        spec_and_reg_reg(s)
    } else if instruction == OR_REG_LIT {
        spec_or_reg_lit(s)
    } else if instruction == OR_REG_REG {
        spec_or_reg_reg(s)
    } else if instruction == XOR_REG_LIT {
        spec_xor_reg_lit(s)
    } else if instruction == XOR_REG_REG {
        spec_xor_reg_reg(s)
    } else if instruction == NOT {
        spec_not(s)
    } else if instruction == JNE_REG {
        spec_jne_reg(s)
    } else if instruction == JNE_LIT {
        spec_jne_lit(s)
    } else if instruction == JEQ_REG {
        spec_jeq_reg(s)
    } else if instruction == JEQ_LIT {
        spec_jeq_lit(s)
    } else if instruction == JLT_REG {
        spec_jlt_reg(s)
    } else if instruction == JLT_LIT {
        spec_jlt_lit(s)
    } else if instruction == JGT_REG {
        spec_jgt_reg(s)
    } else if instruction == JGT_LIT {
        spec_jgt_lit(s)
    } else if instruction == JLE_REG {
        spec_jle_reg(s)
    } else if instruction == JLE_LIT {
        spec_jle_lit(s)
    } else if instruction == JGE_REG {
        spec_jge_reg(s)
    } else if instruction == JGE_LIT {
        spec_jge_lit(s)
    } else if instruction == PSH_LIT {
        spec_psh_lit(s)
    } else if instruction == PSH_REG {
        spec_psh_reg(s)
    } else if instruction == POP {
        spec_pop_reg(s)
    } else if instruction == CAL_LIT {
        spec_cal_lit(s)
    } else if instruction == CAL_REG {
        spec_cal_reg(s)
    } else if instruction == RET {
        spec_ret(s)
    } else {
        Err(VmError::UnknownOpcode(instruction))
    }
}

/// What one machine step does: fetch an opcode; the halt opcode reaches
/// the terminal state, anything else executes.
pub open spec fn spec_step(s: CpuView) -> Result<(bool, CpuView), VmError> {
    match spec_fetch8(s) {
        Err(e) => Err(e),
        Ok((instruction, s1)) => if instruction == HLT {
            Ok((true, s1))
        } else {
            match spec_execute(s1, instruction) {
                Err(e) => Err(e),
                Ok(s2) => Ok((false, s2)),
            }
        },
    }
}

/// What running at most `fuel` steps does: step until the halt opcode,
/// a fault, or the budget runs out.
pub open spec fn spec_run(s: CpuView, fuel: nat) -> Result<(bool, CpuView), VmError>
    decreases fuel,
{
    if fuel == 0 {
        Ok((false, s))
    } else {
        match spec_step(s) {
            Err(e) => Err(e),
            Ok((halted, s1)) => if halted {
                Ok((true, s1))
            } else {
                spec_run(s1, (fuel - 1) as nat)
            },
        }
    }
}

impl CPU {
    fn op_add_lit_reg(&mut self) -> (r: Result<(), VmError>)
        requires
            old(self).wf(),
        ensures
            final(self).wf(),
            match spec_add_lit_reg(old(self)@) {
                Ok(s) => r is Ok && final(self)@ == s,
                Err(e) => r == Err::<(), VmError>(e),
            },
    {
        let lit = match self.fetch16() {
            Ok(w) => w,
            Err(e) => {
                return Err(e);
            },
        };
        let off = match self.fetch_register_index() {
            Ok(o) => o,
            Err(e) => {
                return Err(e);
            },
        };
        let v = self.read_reg_at(off);
        self.set_register(Register::Acc, add_wrap16(v, lit));
        Ok(())
    }

    fn op_sub_lit_reg(&mut self) -> (r: Result<(), VmError>)
        requires
            old(self).wf(),
        ensures
            final(self).wf(),
            match spec_sub_lit_reg(old(self)@) {
                Ok(s) => r is Ok && final(self)@ == s,
                Err(e) => r == Err::<(), VmError>(e),
            },
    {
        let lit = match self.fetch16() {
            Ok(w) => w,
            Err(e) => {
                return Err(e);
            },
        };
        let off = match self.fetch_register_index() {
            Ok(o) => o,
            Err(e) => {
                return Err(e);
            },
        };
        let v = self.read_reg_at(off);
        self.set_register(Register::Acc, sub_wrap16(v, lit));
        Ok(())
    }

    fn op_mul_lit_reg(&mut self) -> (r: Result<(), VmError>)
        requires
            old(self).wf(),
        ensures
            final(self).wf(),
            match spec_mul_lit_reg(old(self)@) {
                Ok(s) => r is Ok && final(self)@ == s,
                Err(e) => r == Err::<(), VmError>(e),
            },
    {
        let lit = match self.fetch16() {
            Ok(w) => w,
            Err(e) => {
                return Err(e);
            },
        };
        let off = match self.fetch_register_index() {
            Ok(o) => o,
            Err(e) => {
                return Err(e);
            },
        };
        let v = self.read_reg_at(off);
        self.set_register(Register::Acc, mul_wrap16(v, lit));
        Ok(())
    }

    fn op_sub_reg_lit(&mut self) -> (r: Result<(), VmError>)
        requires
            old(self).wf(),
        ensures
            final(self).wf(),
            match spec_sub_reg_lit(old(self)@) {
                Ok(s) => r is Ok && final(self)@ == s,
                Err(e) => r == Err::<(), VmError>(e),
            },
    {
        let off = match self.fetch_register_index() {
            Ok(o) => o,
            Err(e) => {
                return Err(e);
            },
        };
        let lit = match self.fetch16() {
            Ok(w) => w,
            Err(e) => {
                return Err(e);
            },
        };
        let v = self.read_reg_at(off);
        self.set_register(Register::Acc, sub_wrap16(v, lit));
        Ok(())
    }

    fn op_and_reg_lit(&mut self) -> (r: Result<(), VmError>)
        requires
            old(self).wf(),
        ensures
            final(self).wf(),
            match spec_and_reg_lit(old(self)@) {
                Ok(s) => r is Ok && final(self)@ == s,
                Err(e) => r == Err::<(), VmError>(e),
            },
    {
        let off = match self.fetch_register_index() {
            Ok(o) => o,
            Err(e) => {
                return Err(e);
            },
        };
        let lit = match self.fetch16() {
            Ok(w) => w,
            Err(e) => {
                return Err(e);
            },
        };
        let v = self.read_reg_at(off);
        self.set_register(Register::Acc, v & lit);
        Ok(())
    }

    fn op_or_reg_lit(&mut self) -> (r: Result<(), VmError>)
        requires
            old(self).wf(),
        ensures
            final(self).wf(),
            match spec_or_reg_lit(old(self)@) {
                Ok(s) => r is Ok && final(self)@ == s,
                Err(e) => r == Err::<(), VmError>(e),
            },
    {
        let off = match self.fetch_register_index() {
            Ok(o) => o,
            Err(e) => {
                return Err(e);
            },
        };
        let lit = match self.fetch16() {
            Ok(w) => w,
            Err(e) => {
                return Err(e);
            },
        };
        let v = self.read_reg_at(off);
        self.set_register(Register::Acc, v | lit);
        Ok(())
    }

    fn op_xor_reg_lit(&mut self) -> (r: Result<(), VmError>)
        requires
            old(self).wf(),
        ensures
            final(self).wf(),
            match spec_xor_reg_lit(old(self)@) {
                Ok(s) => r is Ok && final(self)@ == s,
                Err(e) => r == Err::<(), VmError>(e),
            },
    {
        let off = match self.fetch_register_index() {
            Ok(o) => o,
            Err(e) => {
                return Err(e);
            },
        };
        let lit = match self.fetch16() {
            Ok(w) => w,
            Err(e) => {
                return Err(e);
            },
        };
        let v = self.read_reg_at(off);
        self.set_register(Register::Acc, v ^ lit);
        Ok(())
    }

    fn op_add_reg_reg(&mut self) -> (r: Result<(), VmError>)
        requires
            old(self).wf(),
        ensures
            final(self).wf(),
            match spec_add_reg_reg(old(self)@) {
                Ok(s) => r is Ok && final(self)@ == s,
                Err(e) => r == Err::<(), VmError>(e),
            },
    {
        let off1 = match self.fetch_register_index() {
            Ok(o) => o,
            Err(e) => {
                return Err(e);
            },
        };
        let off2 = match self.fetch_register_index() {
            Ok(o) => o,
            Err(e) => {
                return Err(e);
            },
        };
        let v1 = self.read_reg_at(off1);
        let v2 = self.read_reg_at(off2);
        self.set_register(Register::Acc, add_wrap16(v1, v2));
        Ok(())
    }

    fn op_sub_reg_reg(&mut self) -> (r: Result<(), VmError>)
        requires
            old(self).wf(),
        ensures
            final(self).wf(),
            match spec_sub_reg_reg(old(self)@) {
                Ok(s) => r is Ok && final(self)@ == s,
                Err(e) => r == Err::<(), VmError>(e),
            },
    {
        let off1 = match self.fetch_register_index() {
            Ok(o) => o,
            Err(e) => {
                return Err(e);
            },
        };
        let off2 = match self.fetch_register_index() {
            Ok(o) => o,
            Err(e) => {
                return Err(e);
            },
        };
        let v1 = self.read_reg_at(off1);
        let v2 = self.read_reg_at(off2);
        self.set_register(Register::Acc, sub_wrap16(v1, v2));
        Ok(())
    }

    fn op_mul_reg_reg(&mut self) -> (r: Result<(), VmError>)
        requires
            old(self).wf(),
        ensures
            final(self).wf(),
            match spec_mul_reg_reg(old(self)@) {
                Ok(s) => r is Ok && final(self)@ == s,
                Err(e) => r == Err::<(), VmError>(e),
            },
    {
        let off1 = match self.fetch_register_index() {
            Ok(o) => o,
            Err(e) => {
                return Err(e);
            },
        };
        let off2 = match self.fetch_register_index() {
            Ok(o) => o,
            Err(e) => {
                return Err(e);
            },
        };
        let v1 = self.read_reg_at(off1);
        let v2 = self.read_reg_at(off2);
        self.set_register(Register::Acc, mul_wrap16(v1, v2));
        Ok(())
    }

    fn op_and_reg_reg(&mut self) -> (r: Result<(), VmError>)
        requires
            old(self).wf(),
        ensures
            final(self).wf(),
            match spec_and_reg_reg(old(self)@) {
                Ok(s) => r is Ok && final(self)@ == s,
                Err(e) => r == Err::<(), VmError>(e),
            },
    {
        let off1 = match self.fetch_register_index() {
            Ok(o) => o,
            Err(e) => {
                return Err(e);
            },
        };
        let off2 = match self.fetch_register_index() {
            Ok(o) => o,
            Err(e) => {
                return Err(e);
            },
        };
        let v1 = self.read_reg_at(off1);
        let v2 = self.read_reg_at(off2);
        self.set_register(Register::Acc, v1 & v2);
        Ok(())
    }

    fn op_or_reg_reg(&mut self) -> (r: Result<(), VmError>)
        requires
            old(self).wf(),
        ensures
            final(self).wf(),
            match spec_or_reg_reg(old(self)@) {
                Ok(s) => r is Ok && final(self)@ == s,
                Err(e) => r == Err::<(), VmError>(e),
            },
    {
        let off1 = match self.fetch_register_index() {
            Ok(o) => o,
            Err(e) => {
                return Err(e);
            },
        };
        let off2 = match self.fetch_register_index() {
            Ok(o) => o,
            Err(e) => {
                return Err(e);
            },
        };
        let v1 = self.read_reg_at(off1);
        let v2 = self.read_reg_at(off2);
        self.set_register(Register::Acc, v1 | v2);
        Ok(())
    }

    fn op_xor_reg_reg(&mut self) -> (r: Result<(), VmError>)
        requires
            old(self).wf(),
        ensures
            final(self).wf(),
            match spec_xor_reg_reg(old(self)@) {
                Ok(s) => r is Ok && final(self)@ == s,
                Err(e) => r == Err::<(), VmError>(e),
            },
    {
        let off1 = match self.fetch_register_index() {
            Ok(o) => o,
            Err(e) => {
                return Err(e);
            },
        };
        let off2 = match self.fetch_register_index() {
            Ok(o) => o,
            Err(e) => {
                return Err(e);
            },
        };
        let v1 = self.read_reg_at(off1);
        let v2 = self.read_reg_at(off2);
        self.set_register(Register::Acc, v1 ^ v2);
        Ok(())
    }

    fn op_lsh_reg_lit(&mut self) -> (r: Result<(), VmError>)
        requires
            old(self).wf(),
        ensures
            final(self).wf(),
            match spec_lsh_reg_lit(old(self)@) {
                Ok(s) => r is Ok && final(self)@ == s,
                Err(e) => r == Err::<(), VmError>(e),
            },
    {
        let off = match self.fetch_register_index() {
            Ok(o) => o,
            Err(e) => {
                return Err(e);
            },
        };
        let lit = match self.fetch16() {
            Ok(w) => w,
            Err(e) => {
                return Err(e);
            },
        };
        let v = self.read_reg_at(off);
        self.write_reg_at(off, shift_left16(v, lit));
        Ok(())
    }

    fn op_rsh_reg_lit(&mut self) -> (r: Result<(), VmError>)
        requires
            old(self).wf(),
        ensures
            final(self).wf(),
            match spec_rsh_reg_lit(old(self)@) {
                Ok(s) => r is Ok && final(self)@ == s,
                Err(e) => r == Err::<(), VmError>(e),
            },
    {
        let off = match self.fetch_register_index() {
            Ok(o) => o,
            Err(e) => {
                return Err(e);
            },
        };
        let lit = match self.fetch16() {
            Ok(w) => w,
            Err(e) => {
                return Err(e);
            },
        };
        let v = self.read_reg_at(off);
        self.write_reg_at(off, shift_right16(v, lit));
        Ok(())
    }

    fn op_lsh_reg_reg(&mut self) -> (r: Result<(), VmError>)
        requires
            old(self).wf(),
        ensures
            final(self).wf(),
            match spec_lsh_reg_reg(old(self)@) {
                Ok(s) => r is Ok && final(self)@ == s,
                Err(e) => r == Err::<(), VmError>(e),
            },
    {
        let off1 = match self.fetch_register_index() {
            Ok(o) => o,
            Err(e) => {
                return Err(e);
            },
        };
        let off2 = match self.fetch_register_index() {
            Ok(o) => o,
            Err(e) => {
                return Err(e);
            },
        };
        let v1 = self.read_reg_at(off1);
        let v2 = self.read_reg_at(off2);
        self.write_reg_at(off1, shift_left16(v1, v2));
        Ok(())
    }

    fn op_rsh_reg_reg(&mut self) -> (r: Result<(), VmError>)
        requires
            old(self).wf(),
        ensures
            final(self).wf(),
            match spec_rsh_reg_reg(old(self)@) {
                Ok(s) => r is Ok && final(self)@ == s,
                Err(e) => r == Err::<(), VmError>(e),
            },
    {
        let off1 = match self.fetch_register_index() {
            Ok(o) => o,
            Err(e) => {
                return Err(e);
            },
        };
        let off2 = match self.fetch_register_index() {
            Ok(o) => o,
            Err(e) => {
                return Err(e);
            },
        };
        let v1 = self.read_reg_at(off1);
        let v2 = self.read_reg_at(off2);
        self.write_reg_at(off1, shift_right16(v1, v2));
        Ok(())
    }

    fn op_inc_reg(&mut self) -> (r: Result<(), VmError>)
        requires
            old(self).wf(),
        ensures
            final(self).wf(),
            match spec_inc_reg(old(self)@) {
                Ok(s) => r is Ok && final(self)@ == s,
                Err(e) => r == Err::<(), VmError>(e),
            },
    {
        let off = match self.fetch_register_index() {
            Ok(o) => o,
            Err(e) => {
                return Err(e);
            },
        };
        let v = self.read_reg_at(off);
        self.write_reg_at(off, add_wrap16(v, 1));
        Ok(())
    }

    fn op_dec_reg(&mut self) -> (r: Result<(), VmError>)
        requires
            old(self).wf(),
        ensures
            final(self).wf(),
            match spec_dec_reg(old(self)@) {
                Ok(s) => r is Ok && final(self)@ == s,
                Err(e) => r == Err::<(), VmError>(e),
            },
    {
        let off = match self.fetch_register_index() {
            Ok(o) => o,
            Err(e) => {
                return Err(e);
            },
        };
        let v = self.read_reg_at(off);
        self.write_reg_at(off, sub_wrap16(v, 1));
        Ok(())
    }

    fn op_not(&mut self) -> (r: Result<(), VmError>)
        requires
            old(self).wf(),
        ensures
            final(self).wf(),
            match spec_not(old(self)@) {
                Ok(s) => r is Ok && final(self)@ == s,
                Err(e) => r == Err::<(), VmError>(e),
            },
    {
        let off = match self.fetch_register_index() {
            Ok(o) => o,
            Err(e) => {
                return Err(e);
            },
        };
        let v = self.read_reg_at(off);
        self.set_register(Register::Acc, !v);
        Ok(())
    }

    fn op_jne_reg(&mut self) -> (r: Result<(), VmError>)
        requires
            old(self).wf(),
        ensures
            final(self).wf(),
            match spec_jne_reg(old(self)@) {
                Ok(s) => r is Ok && final(self)@ == s,
                Err(e) => r == Err::<(), VmError>(e),
            },
    {
        let off = match self.fetch_register_index() {
            Ok(o) => o,
            Err(e) => {
                return Err(e);
            },
        };
        let addr = match self.fetch16() {
            Ok(w) => w,
            Err(e) => {
                return Err(e);
            },
        };
        let v = self.read_reg_at(off);
        let acc = self.get_register(Register::Acc);
        if v != acc {
            self.set_register(Register::Ip, addr);
        }
        Ok(())
    }

    fn op_jeq_reg(&mut self) -> (r: Result<(), VmError>)
        requires
            old(self).wf(),
        ensures
            final(self).wf(),
            match spec_jeq_reg(old(self)@) {
                Ok(s) => r is Ok && final(self)@ == s,
                Err(e) => r == Err::<(), VmError>(e),
            },
    {
        let off = match self.fetch_register_index() {
            Ok(o) => o,
            Err(e) => {
                return Err(e);
            },
        };
        let addr = match self.fetch16() {
            Ok(w) => w,
            Err(e) => {
                return Err(e);
            },
        };
        let v = self.read_reg_at(off);
        let acc = self.get_register(Register::Acc);
        if v == acc {
            self.set_register(Register::Ip, addr);
        }
        Ok(())
    }

    fn op_jlt_reg(&mut self) -> (r: Result<(), VmError>)
        requires
            old(self).wf(),
        ensures
            final(self).wf(),
            match spec_jlt_reg(old(self)@) {
                Ok(s) => r is Ok && final(self)@ == s,
                Err(e) => r == Err::<(), VmError>(e),
            },
    {
        let off = match self.fetch_register_index() {
            Ok(o) => o,
            Err(e) => {
                return Err(e);
            },
        };
        let addr = match self.fetch16() {
            Ok(w) => w,
            Err(e) => {
                return Err(e);
            },
        };
        let v = self.read_reg_at(off);
        let acc = self.get_register(Register::Acc);
        if v < acc {
            self.set_register(Register::Ip, addr);
        }
        Ok(())
    }

    fn op_jgt_reg(&mut self) -> (r: Result<(), VmError>)
        requires
            old(self).wf(),
        ensures
            final(self).wf(),
            match spec_jgt_reg(old(self)@) {
                Ok(s) => r is Ok && final(self)@ == s,
                Err(e) => r == Err::<(), VmError>(e),
            },
    {
        let off = match self.fetch_register_index() {
            Ok(o) => o,
            Err(e) => {
                return Err(e);
            },
        };
        let addr = match self.fetch16() {
            Ok(w) => w,
            Err(e) => {
                return Err(e);
            },
        };
        let v = self.read_reg_at(off);
        let acc = self.get_register(Register::Acc);
        if v > acc {
            self.set_register(Register::Ip, addr);
        }
        Ok(())
    }

    fn op_jle_reg(&mut self) -> (r: Result<(), VmError>)
        requires
            old(self).wf(),
        ensures
            final(self).wf(),
            match spec_jle_reg(old(self)@) {
                Ok(s) => r is Ok && final(self)@ == s,
                Err(e) => r == Err::<(), VmError>(e),
            },
    {
        let off = match self.fetch_register_index() {
            Ok(o) => o,
            Err(e) => {
                return Err(e);
            },
        };
        let addr = match self.fetch16() {
            Ok(w) => w,
            Err(e) => {
                return Err(e);
            },
        };
        let v = self.read_reg_at(off);
        let acc = self.get_register(Register::Acc);
        if v <= acc {
            self.set_register(Register::Ip, addr);
        }
        Ok(())
    }

    fn op_jge_reg(&mut self) -> (r: Result<(), VmError>)
        requires
            old(self).wf(),
        ensures
            final(self).wf(),
            match spec_jge_reg(old(self)@) {
                Ok(s) => r is Ok && final(self)@ == s,
                Err(e) => r == Err::<(), VmError>(e),
            },
    {
        let off = match self.fetch_register_index() {
            Ok(o) => o,
            Err(e) => {
                return Err(e);
            },
        };
        let addr = match self.fetch16() {
            Ok(w) => w,
            Err(e) => {
                return Err(e);
            },
        };
        let v = self.read_reg_at(off);
        let acc = self.get_register(Register::Acc);
        if v >= acc {
            self.set_register(Register::Ip, addr);
        }
        Ok(())
    }

    fn op_jne_lit(&mut self) -> (r: Result<(), VmError>)
        requires
            old(self).wf(),
        ensures
            final(self).wf(),
            match spec_jne_lit(old(self)@) {
                Ok(s) => r is Ok && final(self)@ == s,
                Err(e) => r == Err::<(), VmError>(e),
            },
    {
        let lit = match self.fetch16() {
            Ok(w) => w,
            Err(e) => {
                return Err(e);
            },
        };
        let addr = match self.fetch16() {
            Ok(w) => w,
            Err(e) => {
                return Err(e);
            },
        };
        let acc = self.get_register(Register::Acc);
        if lit != acc {
            self.set_register(Register::Ip, addr);
        }
        Ok(())
    }

    fn op_jeq_lit(&mut self) -> (r: Result<(), VmError>)
        requires
            old(self).wf(),
        ensures
            final(self).wf(),
            match spec_jeq_lit(old(self)@) {
                Ok(s) => r is Ok && final(self)@ == s,
                Err(e) => r == Err::<(), VmError>(e),
            },
    {
        let lit = match self.fetch16() {
            Ok(w) => w,
            Err(e) => {
                return Err(e);
            },
        };
        let addr = match self.fetch16() {
            Ok(w) => w,
            Err(e) => {
                return Err(e);
            },
        };
        let acc = self.get_register(Register::Acc);
        if lit == acc {
            self.set_register(Register::Ip, addr);
        }
        Ok(())
    }

    fn op_jlt_lit(&mut self) -> (r: Result<(), VmError>)
        requires
            old(self).wf(),
        ensures
            final(self).wf(),
            match spec_jlt_lit(old(self)@) {
                Ok(s) => r is Ok && final(self)@ == s,
                Err(e) => r == Err::<(), VmError>(e),
            },
    {
        let lit = match self.fetch16() {
            Ok(w) => w,
            Err(e) => {
                return Err(e);
            },
        };
        let addr = match self.fetch16() {
            Ok(w) => w,
            Err(e) => {
                return Err(e);
            },
        };
        let acc = self.get_register(Register::Acc);
        if lit < acc {
            self.set_register(Register::Ip, addr);
        }
        Ok(())
    }

    fn op_jgt_lit(&mut self) -> (r: Result<(), VmError>)
        requires
            old(self).wf(),
        ensures
            final(self).wf(),
            match spec_jgt_lit(old(self)@) {
                Ok(s) => r is Ok && final(self)@ == s,
                Err(e) => r == Err::<(), VmError>(e),
            },
    {
        let lit = match self.fetch16() {
            Ok(w) => w,
            Err(e) => {
                return Err(e);
            },
        };
        let addr = match self.fetch16() {
            Ok(w) => w,
            Err(e) => {
                return Err(e);
            },
        };
        let acc = self.get_register(Register::Acc);
        if lit > acc {
            self.set_register(Register::Ip, addr);
        }
        Ok(())
    }

    fn op_jle_lit(&mut self) -> (r: Result<(), VmError>)
        requires
            old(self).wf(),
        ensures
            final(self).wf(),
            match spec_jle_lit(old(self)@) {
                Ok(s) => r is Ok && final(self)@ == s,
                Err(e) => r == Err::<(), VmError>(e),
            },
    {
        let lit = match self.fetch16() {
            Ok(w) => w,
            Err(e) => {
                return Err(e);
            },
        };
        let addr = match self.fetch16() {
            Ok(w) => w,
            Err(e) => {
                return Err(e);
            },
        };
        let acc = self.get_register(Register::Acc);
        if lit <= acc {
            self.set_register(Register::Ip, addr);
        }
        Ok(())
    }

    fn op_jge_lit(&mut self) -> (r: Result<(), VmError>)
        requires
            old(self).wf(),
        ensures
            final(self).wf(),
            match spec_jge_lit(old(self)@) {
                Ok(s) => r is Ok && final(self)@ == s,
                Err(e) => r == Err::<(), VmError>(e),
            },
    {
        let lit = match self.fetch16() {
            Ok(w) => w,
            Err(e) => {
                return Err(e);
            },
        };
        let addr = match self.fetch16() {
            Ok(w) => w,
            Err(e) => {
                return Err(e);
            },
        };
        let acc = self.get_register(Register::Acc);
        if lit >= acc {
            self.set_register(Register::Ip, addr);
        }
        Ok(())
    }

    fn op_mov_lit_reg(&mut self) -> (r: Result<(), VmError>)
        requires
            old(self).wf(),
        ensures
            final(self).wf(),
            match spec_mov_lit_reg(old(self)@) {
                Ok(s) => r is Ok && final(self)@ == s,
                Err(e) => r == Err::<(), VmError>(e),
            },
    {
        let lit = match self.fetch16() {
            Ok(w) => w,
            Err(e) => {
                return Err(e);
            },
        };
        let off = match self.fetch_register_index() {
            Ok(o) => o,
            Err(e) => {
                return Err(e);
            },
        };
        self.write_reg_at(off, lit);
        Ok(())
    }

    fn op_mov_reg_reg(&mut self) -> (r: Result<(), VmError>)
        requires
            old(self).wf(),
        ensures
            final(self).wf(),
            match spec_mov_reg_reg(old(self)@) {
                Ok(s) => r is Ok && final(self)@ == s,
                Err(e) => r == Err::<(), VmError>(e),
            },
    {
        let off_from = match self.fetch_register_index() {
            Ok(o) => o,
            Err(e) => {
                return Err(e);
            },
        };
        let off_to = match self.fetch_register_index() {
            Ok(o) => o,
            Err(e) => {
                return Err(e);
            },
        };
        let v = self.read_reg_at(off_from);
        self.write_reg_at(off_to, v);
        Ok(())
    }

    fn op_mov_reg_mem(&mut self) -> (r: Result<(), VmError>)
        requires
            old(self).wf(),
        ensures
            final(self).wf(),
            match spec_mov_reg_mem(old(self)@) {
                Ok(s) => r is Ok && final(self)@ == s,
                Err(e) => r == Err::<(), VmError>(e),
            },
    {
        let off_from = match self.fetch_register_index() {
            Ok(o) => o,
            Err(e) => {
                return Err(e);
            },
        };
        let addr = match self.fetch16() {
            Ok(w) => w,
            Err(e) => {
                return Err(e);
            },
        };
        let v = self.read_reg_at(off_from);
        match self.mem_write_word(addr, v) {
            Ok(_u) => Ok(()),
            Err(e) => Err(e),
        }
    }

    fn op_mov_mem_reg(&mut self) -> (r: Result<(), VmError>)
        requires
            old(self).wf(),
        ensures
            final(self).wf(),
            match spec_mov_mem_reg(old(self)@) {
                Ok(s) => r is Ok && final(self)@ == s,
                Err(e) => r == Err::<(), VmError>(e),
            },
    {
        let addr = match self.fetch16() {
            Ok(w) => w,
            Err(e) => {
                return Err(e);
            },
        };
        let off_to = match self.fetch_register_index() {
            Ok(o) => o,
            Err(e) => {
                return Err(e);
            },
        };
        let v = match self.mem_read_word(addr) {
            Ok(w) => w,
            Err(e) => {
                return Err(e);
            },
        };
        self.write_reg_at(off_to, v);
        Ok(())
    }

    fn op_mov_lit_mem(&mut self) -> (r: Result<(), VmError>)
        requires
            old(self).wf(),
        ensures
            final(self).wf(),
            match spec_mov_lit_mem(old(self)@) {
                Ok(s) => r is Ok && final(self)@ == s,
                Err(e) => r == Err::<(), VmError>(e),
            },
    {
        let lit = match self.fetch16() {
            Ok(w) => w,
            Err(e) => {
                return Err(e);
            },
        };
        let addr = match self.fetch16() {
            Ok(w) => w,
            Err(e) => {
                return Err(e);
            },
        };
        match self.mem_write_word(addr, lit) {
            Ok(_u) => Ok(()),
            Err(e) => Err(e),
        }
    }

    fn op_mov_reg_ptr_reg(&mut self) -> (r: Result<(), VmError>)
        requires
            old(self).wf(),
        ensures
            final(self).wf(),
            match spec_mov_reg_ptr_reg(old(self)@) {
                Ok(s) => r is Ok && final(self)@ == s,
                Err(e) => r == Err::<(), VmError>(e),
            },
    {
        let off_from = match self.fetch_register_index() {
            Ok(o) => o,
            Err(e) => {
                return Err(e);
            },
        };
        let off_to = match self.fetch_register_index() {
            Ok(o) => o,
            Err(e) => {
                return Err(e);
            },
        };
        let ptr = self.read_reg_at(off_from);
        let v = match self.mem_read_word(ptr) {
            Ok(w) => w,
            Err(e) => {
                return Err(e);
            },
        };
        self.write_reg_at(off_to, v);
        Ok(())
    }

    fn op_mov_lit_off_reg(&mut self) -> (r: Result<(), VmError>)
        requires
            old(self).wf(),
        ensures
            final(self).wf(),
            match spec_mov_lit_off_reg(old(self)@) {
                Ok(s) => r is Ok && final(self)@ == s,
                Err(e) => r == Err::<(), VmError>(e),
            },
    {
        let base = match self.fetch16() {
            Ok(w) => w,
            Err(e) => {
                return Err(e);
            },
        };
        let off_from = match self.fetch_register_index() {
            Ok(o) => o,
            Err(e) => {
                return Err(e);
            },
        };
        let off_to = match self.fetch_register_index() {
            Ok(o) => o,
            Err(e) => {
                return Err(e);
            },
        };
        let offset = self.read_reg_at(off_from);
        let v = match self.mem_read_word(add_wrap16(base, offset)) {
            Ok(w) => w,
            Err(e) => {
                return Err(e);
            },
        };
        self.write_reg_at(off_to, v);
        Ok(())
    }

    fn op_psh_lit(&mut self) -> (r: Result<(), VmError>)
        requires
            old(self).wf(),
        ensures
            final(self).wf(),
            match spec_psh_lit(old(self)@) {
                Ok(s) => r is Ok && final(self)@ == s,
                Err(e) => r == Err::<(), VmError>(e),
            },
    {
        let lit = match self.fetch16() {
            Ok(w) => w,
            Err(e) => {
                return Err(e);
            },
        };
        self.push(lit)
    }

    fn op_psh_reg(&mut self) -> (r: Result<(), VmError>)
        requires
            old(self).wf(),
        ensures
            final(self).wf(),
            match spec_psh_reg(old(self)@) {
                Ok(s) => r is Ok && final(self)@ == s,
                Err(e) => r == Err::<(), VmError>(e),
            },
    {
        let off = match self.fetch_register_index() {
            Ok(o) => o,
            Err(e) => {
                return Err(e);
            },
        };
        let v = self.read_reg_at(off);
        self.push(v)
    }

    fn op_pop_reg(&mut self) -> (r: Result<(), VmError>)
        requires
            old(self).wf(),
        ensures
            final(self).wf(),
            match spec_pop_reg(old(self)@) {
                Ok(s) => r is Ok && final(self)@ == s,
                Err(e) => r == Err::<(), VmError>(e),
            },
    {
        let off = match self.fetch_register_index() {
            Ok(o) => o,
            Err(e) => {
                return Err(e);
            },
        };
        let v = match self.pop() {
            Ok(w) => w,
            Err(e) => {
                return Err(e);
            },
        };
        self.write_reg_at(off, v);
        Ok(())
    }

    fn op_cal_lit(&mut self) -> (r: Result<(), VmError>)
        requires
            old(self).wf(),
        ensures
            final(self).wf(),
            match spec_cal_lit(old(self)@) {
                Ok(s) => r is Ok && final(self)@ == s,
                Err(e) => r == Err::<(), VmError>(e),
            },
    {
        let addr = match self.fetch16() {
            Ok(w) => w,
            Err(e) => {
                return Err(e);
            },
        };
        match self.push_state() {
            Ok(_u) => {},
            Err(e) => {
                return Err(e);
            },
        }
        self.set_register(Register::Ip, addr);
        Ok(())
    }

    fn op_cal_reg(&mut self) -> (r: Result<(), VmError>)
        requires
            old(self).wf(),
        ensures
            final(self).wf(),
            match spec_cal_reg(old(self)@) {
                Ok(s) => r is Ok && final(self)@ == s,
                Err(e) => r == Err::<(), VmError>(e),
            },
    {
        let off = match self.fetch_register_index() {
            Ok(o) => o,
            Err(e) => {
                return Err(e);
            },
        };
        let addr = self.read_reg_at(off);
        match self.push_state() {
            Ok(_u) => {},
            Err(e) => {
                return Err(e);
            },
        }
        self.set_register(Register::Ip, addr);
        Ok(())
    }

    fn op_ret(&mut self) -> (r: Result<(), VmError>)
        requires
            old(self).wf(),
        ensures
            final(self).wf(),
            match spec_ret(old(self)@) {
                Ok(s) => r is Ok && final(self)@ == s,
                Err(e) => r == Err::<(), VmError>(e),
            },
    {
        self.pop_state()
    }

    /// Executes one decoded instruction. Exactly implements
    /// `spec_execute`; an opcode outside the table is reported as
    /// `UnknownOpcode` and on any fault the machine stays well formed.
    pub fn execute(&mut self, instruction: u8) -> (r: Result<(), VmError>)
        requires
            old(self).wf(),
        ensures
            final(self).wf(),
            match spec_execute(old(self)@, instruction) {
                Ok(s) => r is Ok && final(self)@ == s,
                Err(e) => r == Err::<(), VmError>(e),
            },
    {
        if instruction == MOV_LIT_REG {
            self.op_mov_lit_reg()
        } else if instruction == MOV_REG_REG {
            self.op_mov_reg_reg()
        } else if instruction == MOV_REG_MEM {
            self.op_mov_reg_mem()
        } else if instruction == MOV_MEM_REG {
            self.op_mov_mem_reg()
        } else if instruction == MOV_LIT_MEM {
            self.op_mov_lit_mem()
        } else if instruction == MOV_REG_PTR_REG {
            self.op_mov_reg_ptr_reg()
        } else if instruction == MOV_LIT_OFF_REG {
            self.op_mov_lit_off_reg()
        } else if instruction == ADD_REG_REG {
            self.op_add_reg_reg()
        } else if instruction == ADD_LIT_REG {
            self.op_add_lit_reg()
        } else if instruction == SUB_LIT_REG {
            self.op_sub_lit_reg()
        } else if instruction == SUB_REG_LIT {
            self.op_sub_reg_lit()
        } else if instruction == SUB_REG_REG {
            self.op_sub_reg_reg()
        } else if instruction == INC_REG {
            self.op_inc_reg()
        } else if instruction == DEC_REG {
            self.op_dec_reg()
        } else if instruction == MUL_LIT_REG {
            self.op_mul_lit_reg()
        } else if instruction == MUL_REG_REG {
            self.op_mul_reg_reg()
        } else if instruction == LSH_REG_LIT {
            self.op_lsh_reg_lit()
        } else if instruction == LSH_REG_REG {
            self.op_lsh_reg_reg()
        } else if instruction == RSH_REG_LIT {
            self.op_rsh_reg_lit()
        } else if instruction == RSH_REG_REG {
            self.op_rsh_reg_reg()
        } else if instruction == AND_REG_LIT {
            self.op_and_reg_lit()
        } else if instruction == AND_REG_REG {
            self.op_and_reg_reg()
        } else if instruction == OR_REG_LIT {
            self.op_or_reg_lit()
        } else if instruction == OR_REG_REG {
            self.op_or_reg_reg()
        } else if instruction == XOR_REG_LIT {
            self.op_xor_reg_lit()
        } else if instruction == XOR_REG_REG {
            self.op_xor_reg_reg()
        } else if instruction == NOT {
            self.op_not()
        } else if instruction == JNE_REG {
            self.op_jne_reg()
        } else if instruction == JNE_LIT {
            self.op_jne_lit()
        } else if instruction == JEQ_REG {
            self.op_jeq_reg()
        } else if instruction == JEQ_LIT {
            self.op_jeq_lit()
        } else if instruction == JLT_REG {
            self.op_jlt_reg()
        } else if instruction == JLT_LIT {
            self.op_jlt_lit()
        } else if instruction == JGT_REG {
            self.op_jgt_reg()
        } else if instruction == JGT_LIT {
            self.op_jgt_lit()
        } else if instruction == JLE_REG {
            self.op_jle_reg()
        } else if instruction == JLE_LIT {
            self.op_jle_lit()
        } else if instruction == JGE_REG {
            self.op_jge_reg()
        } else if instruction == JGE_LIT {
            self.op_jge_lit()
        } else if instruction == PSH_LIT {
            self.op_psh_lit()
        } else if instruction == PSH_REG {
            self.op_psh_reg()
        } else if instruction == POP {
            self.op_pop_reg()
        } else if instruction == CAL_LIT {
            self.op_cal_lit()
        } else if instruction == CAL_REG {
            self.op_cal_reg()
        } else if instruction == RET {
            self.op_ret()
        } else {
            Err(VmError::UnknownOpcode(instruction))
        }
    }

    /// Runs one instruction: fetches the opcode at the instruction
    /// pointer and executes it. Returns `Ok(true)` when the opcode was
    /// halt — the terminal state — and `Ok(false)` to continue.
    pub fn step(&mut self) -> (r: Result<bool, VmError>)
        requires
            old(self).wf(),
        ensures
            final(self).wf(),
            match spec_step(old(self)@) {
                Ok((halted, s)) => r == Ok::<bool, VmError>(halted) && final(self)@ == s,
                Err(e) => r == Err::<bool, VmError>(e),
            },
    {
        let instruction = match self.fetch8() {
            Ok(b) => b,
            Err(e) => {
                return Err(e);
            },
        };
        if instruction == HLT {
            return Ok(true);
        }
        match self.execute(instruction) {
            Ok(_u) => Ok(false),
            Err(e) => Err(e),
        }
    }

    /// Runs the machine for at most `max_steps` instructions: `Ok(true)`
    /// when the program halted, `Ok(false)` when the budget ran out
    /// first, and the first fault otherwise.
    pub fn run(&mut self, max_steps: usize) -> (r: Result<bool, VmError>)
        requires
            old(self).wf(),
        ensures
            final(self).wf(),
            match spec_run(old(self)@, max_steps as nat) {
                Ok((halted, s)) => r == Ok::<bool, VmError>(halted) && final(self)@ == s,
                Err(e) => r == Err::<bool, VmError>(e),
            },
    {
        let ghost s0 = self@;
        let mut steps: usize = 0;
        while steps < max_steps
            invariant
                self.wf(),
                steps <= max_steps,
                s0 == old(self)@,
                spec_run(s0, max_steps as nat) == spec_run(self@, (max_steps - steps) as nat),
            decreases max_steps - steps,
        {
            match self.step() {
                Ok(halted) => {
                    if halted {
                        return Ok(true);
                    }
                },
                Err(e) => {
                    return Err(e);
                },
            }
            steps = steps + 1;
        }
        Ok(false)
    }
}

} // verus!
