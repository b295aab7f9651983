//! The execution engine's state: the register file and the stack
//! discipline.
//!
//! The CPU owns twelve 16-bit registers — instruction pointer,
//! accumulator, eight general-purpose registers, stack pointer and frame
//! pointer — stored big-endian in one contiguous 24-byte buffer, and a
//! memory mapper through which all loads and stores go. The stack grows
//! downward from the top of the address space: a push writes a word at
//! the stack pointer and moves it down by two, a pop moves it up by two
//! and reads the word there. Around subroutine calls, `push_state` saves
//! the general-purpose registers, the instruction pointer and the running
//! frame size, and `pop_state` restores them in reverse and discards the
//! caller-pushed arguments.
//!
//! Every operation's exact effect is a spec function over [`CpuView`];
//! the executable methods are proved to implement those functions.

use vstd::prelude::*;

use crate::errors::VmError;
use crate::device::OutputAction;
use crate::mapper::MapperView;
use crate::mapper::MemoryMapper;
use crate::mapper::spec_get_byte;
use crate::mapper::spec_set_byte;
use crate::memory::zero_seq;
use crate::memory::zeroed;
use crate::word::add_wrap16;
use crate::word::hi_byte;
use crate::word::lo_byte;
use crate::word::sub_wrap16;
use crate::word::word_from_bytes;
use crate::word::word_hi;
use crate::word::word_lo;
use crate::word::word_of;
use crate::word::wrap_add16;
use crate::word::wrap_sub16;

verus! {

/// How many registers the machine has.
pub const REGISTER_COUNT: usize = 12;

/// How many bytes the register file holds: two per register.
pub const REGISTER_FILE_SIZE: usize = 24;

/// Where the stack pointer and frame pointer start: two below the top
/// of the 16-bit address space.
pub const STACK_TOP: u16 = 0xFFFD;

/// A register, identified by its place in the register file.
#[derive(Clone, Copy, Debug, PartialEq, Eq, Structural)]
pub enum Register {
    /// Instruction pointer.
    Ip,
    /// Accumulator: arithmetic and bitwise results land here.
    Acc,
    /// General-purpose register.
    R1,
    /// General-purpose register.
    R2,
    /// General-purpose register.
    R3,
    /// General-purpose register.
    R4,
    /// General-purpose register.
    R5,
    /// General-purpose register.
    R6,
    /// General-purpose register.
    R7,
    /// General-purpose register.
    R8,
    /// Stack pointer.
    Sp,
    /// Frame pointer.
    Fp,
}

impl Register {
    /// The register's byte offset in the register file.
    pub open spec fn spec_offset(self) -> int {
        match self {
            Register::Ip => 0,
            Register::Acc => 2,
            Register::R1 => 4,
            Register::R2 => 6,
            Register::R3 => 8,
            Register::R4 => 10,
            Register::R5 => 12,
            Register::R6 => 14,
            Register::R7 => 16,
            Register::R8 => 18,
            Register::Sp => 20,
            Register::Fp => 22,
        }
    }

    /// The register's byte offset in the register file.
    pub fn offset(self) -> (o: usize)
        ensures
            o == self.spec_offset(),
    {
        match self {
            Register::Ip => 0,
            Register::Acc => 2,
            Register::R1 => 4,
            Register::R2 => 6,
            Register::R3 => 8,
            Register::R4 => 10,
            Register::R5 => 12,
            Register::R6 => 14,
            Register::R7 => 16,
            Register::R8 => 18,
            Register::Sp => 20,
            Register::Fp => 22,
        }
    }
}

/// The CPU as the specifications see it: the register file's bytes, the
/// running frame-size counter, and the mapped address space.
#[verifier::ext_equal]
pub struct CpuView {
    pub regs: Seq<u8>,
    pub frame_size: u16,
    pub mapper: MapperView,
}

/// The word stored big-endian at a byte offset of the register file.
pub open spec fn reg_word(regs: Seq<u8>, off: int) -> u16 {
    word_of(regs[off], regs[off + 1])
}

/// The register file with the word at a byte offset replaced.
pub open spec fn with_reg_word(regs: Seq<u8>, off: int, value: u16) -> Seq<u8> {
    regs.update(off, hi_byte(value)).update(off + 1, lo_byte(value))
}

/// The value a register holds.
pub open spec fn spec_reg(s: CpuView, r: Register) -> u16 {
    reg_word(s.regs, r.spec_offset())
}

/// The state with the word at a register-file byte offset replaced.
pub open spec fn spec_with_reg_at(s: CpuView, off: int, value: u16) -> CpuView {
    CpuView { regs: with_reg_word(s.regs, off, value), ..s }
}

/// The state with one register replaced.
pub open spec fn spec_with_reg(s: CpuView, r: Register, value: u16) -> CpuView {
    spec_with_reg_at(s, r.spec_offset(), value)
}

/// The register file at power-on: all zero, except the stack pointer and
/// frame pointer, which start at the top of the stack.
pub open spec fn initial_regs() -> Seq<u8> {
    with_reg_word(
        with_reg_word(zero_seq(REGISTER_FILE_SIZE as nat), Register::Sp.spec_offset(), STACK_TOP),
        Register::Fp.spec_offset(),
        STACK_TOP,
    )
}

/// What fetching one byte does: read at the instruction pointer, then
/// advance it by one.
pub open spec fn spec_fetch8(s: CpuView) -> Result<(u8, CpuView), VmError> {
    let ip = spec_reg(s, Register::Ip);
    match spec_get_byte(s.mapper, ip) {
        Ok(b) => Ok((b, spec_with_reg(s, Register::Ip, wrap_add16(ip, 1)))),
        Err(e) => Err(e),
    }
}

/// What fetching one big-endian word does: read at the instruction
/// pointer and the byte after it, then advance the pointer by two.
pub open spec fn spec_fetch16(s: CpuView) -> Result<(u16, CpuView), VmError> {
    let ip = spec_reg(s, Register::Ip);
    match spec_get_byte(s.mapper, ip) {
        Err(e) => Err(e),
        Ok(b0) => match spec_get_byte(s.mapper, wrap_add16(ip, 1)) {
            Err(e) => Err(e),
            Ok(b1) => Ok((word_of(b0, b1), spec_with_reg(s, Register::Ip, wrap_add16(ip, 2)))),
        },
    }
}

/// What fetching a register operand does: fetch one byte, reduce it
/// modulo the register count, and double it into a byte offset. An
/// out-of-range selector byte therefore wraps around instead of failing.
pub open spec fn spec_fetch_register_index(s: CpuView) -> Result<(int, CpuView), VmError> {
    match spec_fetch8(s) {
        Ok((b, s1)) => Ok((((b as int) % (REGISTER_COUNT as int)) * 2, s1)),
        Err(e) => Err(e),
    }
}

/// What reading a word through the mapper does: two single-byte reads,
/// at the address and the address after it.
pub open spec fn spec_mem_read_word(m: MapperView, address: u16) -> Result<u16, VmError> {
    match spec_get_byte(m, address) {
        Err(e) => Err(e),
        Ok(b0) => match spec_get_byte(m, wrap_add16(address, 1)) {
            Err(e) => Err(e),
            Ok(b1) => Ok(word_of(b0, b1)),
        },
    }
}

/// What writing a word through the mapper does: two single-byte writes,
/// at the address and the address after it.
pub open spec fn spec_mem_write_word(m: MapperView, address: u16, value: u16) -> Result<
    MapperView,
    VmError,
> {
    match spec_set_byte(m, hi_byte(value), address) {
        Err(e) => Err(e),
        Ok(m1) => spec_set_byte(m1, lo_byte(value), wrap_add16(address, 1)),
    }
}

/// What a push does: write the word at the stack pointer, move the
/// pointer down by two, and count two more bytes into the current frame.
#[verifier::opaque]
pub open spec fn spec_push(s: CpuView, value: u16) -> Result<CpuView, VmError> {
    let sp = spec_reg(s, Register::Sp);
    match spec_mem_write_word(s.mapper, sp, value) {
        Err(e) => Err(e),
        Ok(m2) => Ok(
            CpuView {
                regs: with_reg_word(s.regs, Register::Sp.spec_offset(), wrap_sub16(sp, 2)),
                frame_size: wrap_add16(s.frame_size, 2),
                mapper: m2,
            },
        ),
    }
}

/// What a pop does: move the stack pointer up by two, read the word
/// there, and count two bytes out of the current frame.
#[verifier::opaque]
pub open spec fn spec_pop(s: CpuView) -> Result<(u16, CpuView), VmError> {
    let next = wrap_add16(spec_reg(s, Register::Sp), 2);
    match spec_mem_read_word(s.mapper, next) {
        Err(e) => Err(e),
        Ok(w) => Ok(
            (
                w,
                CpuView {
                    regs: with_reg_word(s.regs, Register::Sp.spec_offset(), next),
                    frame_size: wrap_sub16(s.frame_size, 2),
                    mapper: s.mapper,
                },
            ),
        ),
    }
}

/// What saving the machine state does: push `r1` through `r8`, then the
/// instruction pointer, then the frame size these ten pushes bring the
/// counter to; reset the counter and point the frame pointer at the new
/// stack top.
pub open spec fn spec_push_state(s: CpuView) -> Result<CpuView, VmError> {
    match spec_push(s, spec_reg(s, Register::R1)) {
        Err(e) => Err(e),
        Ok(s1) => match spec_push(s1, spec_reg(s1, Register::R2)) {
            Err(e) => Err(e),
            Ok(s2) => match spec_push(s2, spec_reg(s2, Register::R3)) {
                Err(e) => Err(e),
                Ok(s3) => match spec_push(s3, spec_reg(s3, Register::R4)) {
                    Err(e) => Err(e),
                    Ok(s4) => match spec_push(s4, spec_reg(s4, Register::R5)) {
                        Err(e) => Err(e),
                        Ok(s5) => match spec_push(s5, spec_reg(s5, Register::R6)) {
                            Err(e) => Err(e),
                            Ok(s6) => match spec_push(s6, spec_reg(s6, Register::R7)) {
                                Err(e) => Err(e),
                                Ok(s7) => match spec_push(s7, spec_reg(s7, Register::R8)) {
                                    Err(e) => Err(e),
                                    Ok(s8) => match spec_push(s8, spec_reg(s8, Register::Ip)) {
                                        Err(e) => Err(e),
                                        Ok(s9) => match spec_push(
                                            s9,
                                            wrap_add16(s9.frame_size, 2),
                                        ) {
                                            Err(e) => Err(e),
                                            Ok(s10) => Ok(
                                                CpuView {
                                                    regs: with_reg_word(
                                                        s10.regs,
                                                        Register::Fp.spec_offset(),
                                                        reg_word(
                                                            s10.regs,
                                                            Register::Sp.spec_offset(),
                                                        ),
                                                    ),
                                                    frame_size: 0,
                                                    mapper: s10.mapper,
                                                },
                                            ),
                                        },
                                    },
                                },
                            },
                        },
                    },
                },
            },
        },
    }
}

/// What discarding `n` stack words does: `n` pops whose values are
/// thrown away.
pub open spec fn spec_pop_n(s: CpuView, n: nat) -> Result<CpuView, VmError>
    decreases n,
{
    if n == 0 {
        Ok(s)
    } else {
        match spec_pop(s) {
            Err(e) => Err(e),
            Ok((_w, s1)) => spec_pop_n(s1, (n - 1) as nat),
        }
    }
}

/// What popping the saved registers does: pop the instruction pointer
/// and `r8` down to `r1` (the reverse of the save order), then write
/// them all back into the register file.
#[verifier::opaque]
pub open spec fn spec_restore_registers(s: CpuView) -> Result<CpuView, VmError> {
    match spec_pop(s) {
        Err(e) => Err(e),
        Ok((ip, s2)) => match spec_pop(s2) {
            Err(e) => Err(e),
            Ok((r8, s3)) => match spec_pop(s3) {
                Err(e) => Err(e),
                Ok((r7, s4)) => match spec_pop(s4) {
                    Err(e) => Err(e),
                    Ok((r6, s5)) => match spec_pop(s5) {
                        Err(e) => Err(e),
                        Ok((r5, s6)) => match spec_pop(s6) {
                            Err(e) => Err(e),
                            Ok((r4, s7)) => match spec_pop(s7) {
                                Err(e) => Err(e),
                                Ok((r3, s8)) => match spec_pop(s8) {
                                    Err(e) => Err(e),
                                    Ok((r2, s9)) => match spec_pop(s9) {
                                        Err(e) => Err(e),
                                        Ok((r1, s10)) => Ok(
                                            spec_with_reg(
                                                spec_with_reg(
                                                    spec_with_reg(
                                                        spec_with_reg(
                                                            spec_with_reg(
                                                                spec_with_reg(
                                                                    spec_with_reg(
                                                                        spec_with_reg(
                                                                            spec_with_reg(
                                                                                s10,
                                                                                Register::Ip,
                                                                                ip,
                                                                            ),
                                                                            Register::R8,
                                                                            r8,
                                                                        ),
                                                                        Register::R7,
                                                                        r7,
                                                                    ),
                                                                    Register::R6,
                                                                    r6,
                                                                ),
                                                                Register::R5,
                                                                r5,
                                                            ),
                                                            Register::R4,
                                                            r4,
                                                        ),
                                                        Register::R3,
                                                        r3,
                                                    ),
                                                    Register::R2,
                                                    r2,
                                                ),
                                                Register::R1,
                                                r1,
                                            ),
                                        ),
                                    },
                                },
                            },
                        },
                    },
                },
            },
        },
    }
}

/// What restoring the machine state does: rewind the stack pointer to
/// the frame pointer; pop the saved frame size, then the saved registers
/// (the reverse of the save order); pop the caller's argument count and
/// discard that many words; and rewind the frame pointer by the restored
/// frame size.
#[verifier::opaque]
pub open spec fn spec_pop_state(s: CpuView) -> Result<CpuView, VmError> {
    let fpa = spec_reg(s, Register::Fp);
    let s0 = spec_with_reg(s, Register::Sp, fpa);
    match spec_pop(s0) {
        Err(e) => Err(e),
        Ok((fsv, s1)) => {
            let s1b = CpuView { frame_size: fsv, ..s1 };
            match spec_restore_registers(s1b) {
                Err(e) => Err(e),
                Ok(sr) => match spec_pop(sr) {
                    Err(e) => Err(e),
                    Ok((cal_args, s11)) => match spec_pop_n(s11, cal_args as nat) {
                        Err(e) => Err(e),
                        Ok(s12) => Ok(spec_with_reg(s12, Register::Fp, wrap_add16(fpa, fsv))),
                    },
                },
            }
        },
    }
}

/// Writing a register and then reading the same register yields exactly
/// the value written, for every register and every value.
pub proof fn lemma_register_round_trip(s: CpuView, r: Register, v: u16)
    requires
        s.regs.len() == REGISTER_FILE_SIZE as int,
    ensures
        spec_reg(spec_with_reg(s, r, v), r) == v,
{
    crate::word::lemma_word_split_join(v);
}

/// Reading back the word just written at a register-file offset yields
/// the word.
pub proof fn lemma_reg_word_round_trip(regs: Seq<u8>, off: int, v: u16)
    requires
        0 <= off,
        off + 1 < regs.len(),
    ensures
        reg_word(with_reg_word(regs, off, v), off) == v,
{
    crate::word::lemma_word_split_join(v);
}

/// Writing back the word a register-file offset already holds changes
/// nothing.
pub proof fn lemma_with_reg_word_self(regs: Seq<u8>, off: int)
    requires
        0 <= off,
        off + 1 < regs.len(),
    ensures
        with_reg_word(regs, off, reg_word(regs, off)) == regs,
{
    crate::word::lemma_word_join_split(regs[off], regs[off + 1]);
    assert(with_reg_word(regs, off, reg_word(regs, off)) =~= regs);
}

/// Two writes to the same register-file offset collapse to the second.
pub proof fn lemma_with_reg_word_collapse(regs: Seq<u8>, off: int, a: u16, b: u16)
    requires
        0 <= off,
        off + 1 < regs.len(),
    ensures
        with_reg_word(with_reg_word(regs, off, a), off, b) == with_reg_word(regs, off, b),
{
    assert(with_reg_word(with_reg_word(regs, off, a), off, b) =~= with_reg_word(regs, off, b));
}

/// The execution engine: register file, frame-size counter, and the
/// mapped address space it executes against.
pub struct CPU {
    device_mapper: MemoryMapper,
    registers: Vec<u8>,
    stack_frame_size: u16,
}

impl View for CPU {
    type V = CpuView;

    closed spec fn view(&self) -> CpuView {
        CpuView {
            regs: self.registers@,
            frame_size: self.stack_frame_size,
            mapper: self.device_mapper@,
        }
    }
}

impl CPU {
    /// The register file holds exactly its 24 bytes and the mapper's
    /// devices are well formed.
    pub closed spec fn wf(&self) -> bool {
        self.registers@.len() == REGISTER_FILE_SIZE as int && self.device_mapper.wf()
    }

    /// A fresh machine over a mapped address space: every register zero
    /// but the stack and frame pointers, which start at the top of the
    /// stack; nothing counted into the current frame yet.
    pub fn new(device_mapper: MemoryMapper) -> (c: CPU)
        requires
            device_mapper.wf(),
        ensures
            c.wf(),
            c@ == (CpuView { regs: initial_regs(), frame_size: 0, mapper: device_mapper@ }),
    {
        let ghost mv = device_mapper@;
        let mut c = CPU {
            device_mapper,
            registers: zeroed(REGISTER_FILE_SIZE),
            stack_frame_size: 0,
        };
        c.set_register(Register::Sp, STACK_TOP);
        c.set_register(Register::Fp, STACK_TOP);
        proof {
            assert(c@ =~~= (CpuView { regs: initial_regs(), frame_size: 0, mapper: mv }));
        }
        c
    }

    /// Reads a register.
    pub fn get_register(&self, register: Register) -> (v: u16)
        requires
            self.wf(),
        ensures
            v == spec_reg(self@, register),
    {
        let off = register.offset();
        word_from_bytes(self.registers[off], self.registers[off + 1])
    }

    /// Writes a register, big-endian.
    pub fn set_register(&mut self, register: Register, value: u16)
        requires
            old(self).wf(),
        ensures
            final(self).wf(),
            final(self)@ == spec_with_reg(old(self)@, register, value),
    {
        let off = register.offset();
        self.registers[off] = word_hi(value);
        self.registers[off + 1] = word_lo(value);
    }

    /// Reads the register whose register file byte offset is `offset`.
    pub fn read_reg_at(&self, offset: usize) -> (v: u16)
        requires
            self.wf(),
            offset + 1 < REGISTER_FILE_SIZE,
        ensures
            v == reg_word(self@.regs, offset as int),
    {
        word_from_bytes(self.registers[offset], self.registers[offset + 1])
    }

    /// Writes the register whose register file byte offset is `offset`.
    pub fn write_reg_at(&mut self, offset: usize, value: u16)
        requires
            old(self).wf(),
            offset + 1 < REGISTER_FILE_SIZE,
        ensures
            final(self).wf(),
            final(self)@ == spec_with_reg_at(old(self)@, offset as int, value),
    {
        self.registers[offset] = word_hi(value);
        self.registers[offset + 1] = word_lo(value);
    }

    /// Read-only access to the mapped address space, for inspection.
    pub fn mapper(&self) -> (m: &MemoryMapper)
        ensures
            m@ == self@.mapper,
            self.wf() ==> m.wf(),
    {
        &self.device_mapper
    }

    /// Hands over the screen actions the machine's output devices have
    /// produced so far, oldest first, and clears the queue.
    pub fn take_output(&mut self) -> (out: Vec<OutputAction>)
        requires
            old(self).wf(),
        ensures
            final(self).wf(),
            out@ == old(self)@.mapper.output,
            final(self)@ == (CpuView {
                mapper: MapperView {
                    regions: old(self)@.mapper.regions,
                    output: Seq::<OutputAction>::empty(),
                },
                ..old(self)@
            }),
    {
        let out = self.device_mapper.take_output();
        proof {
            assert(self@ =~~= (CpuView {
                mapper: MapperView {
                    regions: old(self)@.mapper.regions,
                    output: Seq::<OutputAction>::empty(),
                },
                ..old(self)@
            }));
        }
        out
    }

    /// Reads the big-endian word at `address` and the byte after it,
    /// through the mapper.
    pub fn mem_read_word(&self, address: u16) -> (r: Result<u16, VmError>)
        requires
            self.wf(),
        ensures
            r == spec_mem_read_word(self@.mapper, address),
    {
        let b0 = match self.device_mapper.get_byte(address) {
            Ok(b) => b,
            Err(e) => {
                return Err(e);
            },
        };
        let b1 = match self.device_mapper.get_byte(add_wrap16(address, 1)) {
            Ok(b) => b,
            Err(e) => {
                return Err(e);
            },
        };
        Ok(word_from_bytes(b0, b1))
    }

    /// Writes a word big-endian at `address` and the byte after it,
    /// through the mapper.
    pub fn mem_write_word(&mut self, address: u16, value: u16) -> (r: Result<(), VmError>)
        requires
            old(self).wf(),
        ensures
            final(self).wf(),
            match spec_mem_write_word(old(self)@.mapper, address, value) {
                Ok(m) => r is Ok && final(self)@ == (CpuView { mapper: m, ..old(self)@ }),
                Err(e) => r == Err::<(), VmError>(e) && final(self)@.regs == old(self)@.regs
                    && final(self)@.frame_size == old(self)@.frame_size,
            },
    {
        match self.device_mapper.set_byte(word_hi(value), address) {
            Ok(_u) => {},
            Err(e) => {
                return Err(e);
            },
        }
        match self.device_mapper.set_byte(word_lo(value), add_wrap16(address, 1)) {
            Ok(_u) => {},
            Err(e) => {
                return Err(e);
            },
        }
        proof {
            assert(self@ =~~= (CpuView {
                mapper: spec_mem_write_word(old(self)@.mapper, address, value)->Ok_0,
                ..old(self)@
            }));
        }
        Ok(())
    }

    /// Fetches the byte at the instruction pointer and advances it.
    pub fn fetch8(&mut self) -> (r: Result<u8, VmError>)
        requires
            old(self).wf(),
        ensures
            final(self).wf(),
            match spec_fetch8(old(self)@) {
                Ok((b, s)) => r == Ok::<u8, VmError>(b) && final(self)@ == s,
                Err(e) => r == Err::<u8, VmError>(e) && final(self)@ == old(self)@,
            },
    {
        let ip = self.get_register(Register::Ip);
        let b = match self.device_mapper.get_byte(ip) {
            Ok(b) => b,
            Err(e) => {
                return Err(e);
            },
        };
        self.set_register(Register::Ip, add_wrap16(ip, 1));
        Ok(b)
    }

    /// Fetches the big-endian word at the instruction pointer and
    /// advances it by two.
    pub fn fetch16(&mut self) -> (r: Result<u16, VmError>)
        requires
            old(self).wf(),
        ensures
            final(self).wf(),
            match spec_fetch16(old(self)@) {
                Ok((w, s)) => r == Ok::<u16, VmError>(w) && final(self)@ == s,
                Err(e) => r == Err::<u16, VmError>(e) && final(self)@ == old(self)@,
            },
    {
        let ip = self.get_register(Register::Ip);
        let b0 = match self.device_mapper.get_byte(ip) {
            Ok(b) => b,
            Err(e) => {
                return Err(e);
            },
        };
        let b1 = match self.device_mapper.get_byte(add_wrap16(ip, 1)) {
            Ok(b) => b,
            Err(e) => {
                return Err(e);
            },
        };
        self.set_register(Register::Ip, add_wrap16(ip, 2));
        Ok(word_from_bytes(b0, b1))
    }

    /// Fetches a register operand: one byte, reduced modulo the register
    /// count and doubled into a byte offset into the register file.
    pub fn fetch_register_index(&mut self) -> (r: Result<usize, VmError>)
        requires
            old(self).wf(),
        ensures
            final(self).wf(),
            match spec_fetch_register_index(old(self)@) {
                Ok((off, s)) => r is Ok && r->Ok_0 as int == off && final(self)@ == s,
                Err(e) => r == Err::<usize, VmError>(e) && final(self)@ == old(self)@,
            },
            r is Ok ==> r->Ok_0 + 1 < REGISTER_FILE_SIZE,
    {
        let b = match self.fetch8() {
            Ok(b) => b,
            Err(e) => {
                return Err(e);
            },
        };
        Ok((b as usize % REGISTER_COUNT) * 2)
    }

    /// Pushes a word onto the stack.
    pub fn push(&mut self, value: u16) -> (r: Result<(), VmError>)
        requires
            old(self).wf(),
        ensures
            final(self).wf(),
            match spec_push(old(self)@, value) {
                Ok(s) => r is Ok && final(self)@ == s,
                Err(e) => r == Err::<(), VmError>(e) && final(self)@.regs == old(self)@.regs
                    && final(self)@.frame_size == old(self)@.frame_size,
            },
    {
        proof {
            reveal(spec_push);
        }
        let sp = self.get_register(Register::Sp);
        match self.device_mapper.set_byte(word_hi(value), sp) {
            Ok(_u) => {},
            Err(e) => {
                return Err(e);
            },
        }
        match self.device_mapper.set_byte(word_lo(value), add_wrap16(sp, 1)) {
            Ok(_u) => {},
            Err(e) => {
                return Err(e);
            },
        }
        self.set_register(Register::Sp, sub_wrap16(sp, 2));
        self.stack_frame_size = add_wrap16(self.stack_frame_size, 2);
        proof {
            assert(self@ =~~= spec_push(old(self)@, value)->Ok_0);
        }
        Ok(())
    }

    /// Pops a word off the stack.
    pub fn pop(&mut self) -> (r: Result<u16, VmError>)
        requires
            old(self).wf(),
        ensures
            final(self).wf(),
            match spec_pop(old(self)@) {
                Ok((w, s)) => r == Ok::<u16, VmError>(w) && final(self)@ == s,
                Err(e) => r == Err::<u16, VmError>(e) && final(self)@ == old(self)@,
            },
    {
        proof {
            reveal(spec_pop);
        }
        let next = add_wrap16(self.get_register(Register::Sp), 2);
        let b0 = match self.device_mapper.get_byte(next) {
            Ok(b) => b,
            Err(e) => {
                return Err(e);
            },
        };
        let b1 = match self.device_mapper.get_byte(add_wrap16(next, 1)) {
            Ok(b) => b,
            Err(e) => {
                return Err(e);
            },
        };
        self.set_register(Register::Sp, next);
        self.stack_frame_size = sub_wrap16(self.stack_frame_size, 2);
        proof {
            assert(self@ =~~= spec_pop(old(self)@)->Ok_0.1);
        }
        Ok(word_from_bytes(b0, b1))
    }

    /// Saves the machine state for a subroutine call: pushes `r1`
    /// through `r8`, the instruction pointer and the closed frame's
    /// size, then opens a fresh frame at the new stack top.
    pub fn push_state(&mut self) -> (r: Result<(), VmError>)
        requires
            old(self).wf(),
        ensures
            final(self).wf(),
            match spec_push_state(old(self)@) {
                Ok(s) => r is Ok && final(self)@ == s,
                Err(e) => r == Err::<(), VmError>(e),
            },
    {
        proof {
            reveal(spec_push_state);
        }
        let v1 = self.get_register(Register::R1);
        match self.push(v1) {
            Ok(_u) => {},
            Err(e) => {
                return Err(e);
            },
        }
        let v2 = self.get_register(Register::R2);
        match self.push(v2) {
            Ok(_u) => {},
            Err(e) => {
                return Err(e);
            },
        }
        let v3 = self.get_register(Register::R3);
        match self.push(v3) {
            Ok(_u) => {},
            Err(e) => {
                return Err(e);
            },
        }
        let v4 = self.get_register(Register::R4);
        match self.push(v4) {
            Ok(_u) => {},
            Err(e) => {
                return Err(e);
            },
        }
        let v5 = self.get_register(Register::R5);
        match self.push(v5) {
            Ok(_u) => {},
            Err(e) => {
                return Err(e);
            },
        }
        let v6 = self.get_register(Register::R6);
        match self.push(v6) {
            Ok(_u) => {},
            Err(e) => {
                return Err(e);
            },
        }
        let v7 = self.get_register(Register::R7);
        match self.push(v7) {
            Ok(_u) => {},
            Err(e) => {
                return Err(e);
            },
        }
        let v8 = self.get_register(Register::R8);
        match self.push(v8) {
            Ok(_u) => {},
            Err(e) => {
                return Err(e);
            },
        }
        let ip = self.get_register(Register::Ip);
        match self.push(ip) {
            Ok(_u) => {},
            Err(e) => {
                return Err(e);
            },
        }
        let fsv = add_wrap16(self.frame_size(), 2);
        match self.push(fsv) {
            Ok(_u) => {},
            Err(e) => {
                return Err(e);
            },
        }
        self.stack_frame_size = 0;
        let sp = self.get_register(Register::Sp);
        self.set_register(Register::Fp, sp);
        proof {
            assert(self@ =~~= spec_push_state(old(self)@)->Ok_0);
        }
        Ok(())
    }

    /// Restores the machine state on return from a subroutine: rewinds
    /// the stack to the frame pointer, pops the saved frame size, the
    /// instruction pointer and `r8` down to `r1`, discards the caller's
    /// arguments, and rewinds the frame pointer to the caller's frame.
    pub fn pop_state(&mut self) -> (r: Result<(), VmError>)
        requires
            old(self).wf(),
        ensures
            final(self).wf(),
            match spec_pop_state(old(self)@) {
                Ok(s) => r is Ok && final(self)@ == s,
                Err(e) => r == Err::<(), VmError>(e),
            },
    {
        proof {
            reveal(spec_pop_state);
            reveal(spec_restore_registers);
        }
        let frame_pointer_address = self.get_register(Register::Fp);
        self.set_register(Register::Sp, frame_pointer_address);
        let fsv = match self.pop() {
            Ok(w) => w,
            Err(e) => {
                return Err(e);
            },
        };
        self.stack_frame_size = fsv;
        let ip = match self.pop() {
            Ok(w) => w,
            Err(e) => {
                return Err(e);
            },
        };
        let r8 = match self.pop() {
            Ok(w) => w,
            Err(e) => {
                return Err(e);
            },
        };
        let r7 = match self.pop() {
            Ok(w) => w,
            Err(e) => {
                return Err(e);
            },
        };
        let r6 = match self.pop() {
            Ok(w) => w,
            Err(e) => {
                return Err(e);
            },
        };
        let r5 = match self.pop() {
            Ok(w) => w,
            Err(e) => {
                return Err(e);
            },
        };
        let r4 = match self.pop() {
            Ok(w) => w,
            Err(e) => {
                return Err(e);
            },
        };
        let r3 = match self.pop() {
            Ok(w) => w,
            Err(e) => {
                return Err(e);
            },
        };
        let r2 = match self.pop() {
            Ok(w) => w,
            Err(e) => {
                return Err(e);
            },
        };
        let r1 = match self.pop() {
            Ok(w) => w,
            Err(e) => {
                return Err(e);
            },
        };
        self.set_register(Register::Ip, ip);
        self.set_register(Register::R8, r8);
        self.set_register(Register::R7, r7);
        self.set_register(Register::R6, r6);
        self.set_register(Register::R5, r5);
        self.set_register(Register::R4, r4);
        self.set_register(Register::R3, r3);
        self.set_register(Register::R2, r2);
        self.set_register(Register::R1, r1);
        let ghost sr = self@;
        let cal_args = match self.pop() {
            Ok(w) => w,
            Err(e) => {
                return Err(e);
            },
        };
        match self.discard_stack_words(cal_args) {
            Ok(_u) => {},
            Err(e) => {
                return Err(e);
            },
        }
        self.set_register(Register::Fp, add_wrap16(frame_pointer_address, fsv));
        proof {
            assert(self@ =~~= spec_pop_state(old(self)@)->Ok_0);
        }
        Ok(())
    }

    /// Pops and discards `n` stack words: the caller-pushed arguments a
    /// returning subroutine leaves behind.
    fn discard_stack_words(&mut self, n: u16) -> (r: Result<(), VmError>)
        requires
            old(self).wf(),
        ensures
            final(self).wf(),
            match spec_pop_n(old(self)@, n as nat) {
                Ok(s) => r is Ok && final(self)@ == s,
                Err(e) => r == Err::<(), VmError>(e),
            },
    {
        let ghost s11 = self@;
        let mut discarded: u16 = 0;
        while discarded < n
            invariant
                self.wf(),
                discarded <= n,
                s11 == old(self)@,
                spec_pop_n(s11, n as nat) == spec_pop_n(self@, (n - discarded) as nat),
            decreases n - discarded,
        {
            match self.pop() {
                Ok(_w) => {},
                Err(e) => {
                    return Err(e);
                },
            }
            discarded = discarded + 1;
        }
        Ok(())
    }

    /// The running frame-size counter: how many bytes have been pushed
    /// since the current frame was opened.
    pub fn frame_size(&self) -> (n: u16)
        ensures
            n == self@.frame_size,
    {
        self.stack_frame_size
    }
}

} // verus!
