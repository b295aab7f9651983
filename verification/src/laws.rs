//! The machine's cross-cutting guarantees, proved once and for all: the
//! stack is symmetric (what a run of pushes puts up, the matching pops
//! hand back in reverse, leaving the stack pointer where it began), and
//! a subroutine call followed by its return restores the caller's
//! registers.

use vstd::prelude::*;

use crate::cpu::CpuView;
use crate::cpu::Register;
use crate::cpu::lemma_reg_word_round_trip;
use crate::cpu::lemma_with_reg_word_self;
use crate::cpu::lemma_with_reg_word_collapse;
use crate::cpu::reg_word;
use crate::cpu::spec_pop;
use crate::cpu::spec_pop_n;
use crate::cpu::spec_pop_state;
use crate::cpu::spec_restore_registers;
use crate::cpu::spec_push;
use crate::cpu::spec_push_state;
use crate::cpu::spec_reg;
use crate::cpu::spec_with_reg;
use crate::cpu::with_reg_word;
use crate::cpu::REGISTER_FILE_SIZE;
use crate::errors::VmError;
use crate::mapper::MapperView;
use crate::mapper::lemma_set_byte_frame;
use crate::mapper::same_layout;
use crate::mapper::spec_get_byte;
use crate::mapper::spec_set_byte;
use crate::mapper::writable;
use crate::word::hi_byte;
use crate::word::lo_byte;
use crate::word::wrap_add16;
use crate::word::wrap_sub16;

verus! {

/// What pushing a sequence of words, first element first, does.
pub open spec fn spec_push_all(s: CpuView, words: Seq<u16>) -> Result<CpuView, VmError>
    decreases words.len(),
{
    if words.len() == 0 {
        Ok(s)
    } else {
        match spec_push(s, words[0]) {
            Err(e) => Err(e),
            Ok(s1) => spec_push_all(s1, words.drop_first()),
        }
    }
}

/// What popping `n` words does: the popped words in pop order, and the
/// state after.
pub open spec fn spec_pop_values(s: CpuView, n: nat) -> Result<(Seq<u16>, CpuView), VmError>
    decreases n,
{
    if n == 0 {
        Ok((Seq::empty(), s))
    } else {
        match spec_pop(s) {
            Err(e) => Err(e),
            Ok((w, s1)) => match spec_pop_values(s1, (n - 1) as nat) {
                Err(e) => Err(e),
                Ok((ws, s2)) => Ok((seq![w] + ws, s2)),
            },
        }
    }
}

/// Room for `n` pushes: the stack pointer has `n` words below it before
/// the bottom of the address space, one byte above it, and every byte
/// the pushes will touch is backed by plain storage.
pub open spec fn stack_room(m: MapperView, sp: u16, n: nat) -> bool {
    &&& sp < 0xFFFF
    &&& 2 * n <= sp
    &&& forall|b: u16| sp - 2 * n + 2 <= b <= sp + 1 ==> writable(m, b)
}

/// Wrapping arithmetic agrees with plain arithmetic when nothing wraps.
proof fn lemma_wrap_small(a: u16, b: u16)
    ensures
        a + b <= 0xFFFF ==> wrap_add16(a, b) == a + b,
        b <= a ==> wrap_sub16(a, b) == a - b,
{
    if a + b <= 0xFFFF {
        vstd::arithmetic::div_mod::lemma_small_mod((a + b) as nat, 0x10000);
    }
    if b <= a {
        vstd::arithmetic::div_mod::lemma_small_mod((a - b) as nat, 0x10000);
    }
}

/// Adding to a wrapped sum is the same as wrapping the whole sum.
proof fn lemma_wrap_mod_shift(x: int, y: int)
    requires
        0 <= y < 0x10000,
    ensures
        ((x % 0x10000) + y) % 0x10000 == (x + y) % 0x10000,
        ((x % 0x10000) - y) % 0x10000 == (x - y) % 0x10000,
{
    vstd::arithmetic::div_mod::lemma_small_mod(y as nat, 0x10000);
    vstd::arithmetic::div_mod::lemma_add_mod_noop(x, y, 0x10000);
    vstd::arithmetic::div_mod::lemma_sub_mod_noop(x, y, 0x10000);
}

/// One push to a storage-backed stack: it succeeds, the word's bytes
/// land at the old stack pointer, the pointer moves down two, and
/// nothing else in the address space or the register file changes.
proof fn lemma_push_effect(s: CpuView, value: u16)
    requires
        s.regs.len() == REGISTER_FILE_SIZE as int,
        spec_reg(s, Register::Sp) < 0xFFFF,
        writable(s.mapper, spec_reg(s, Register::Sp)),
        writable(s.mapper, (spec_reg(s, Register::Sp) + 1) as u16),
    ensures
        spec_push(s, value) is Ok,
        ({
            let sp = spec_reg(s, Register::Sp);
            let s1 = spec_push(s, value)->Ok_0;
            &&& s1.regs == with_reg_word(s.regs, Register::Sp.spec_offset(), wrap_sub16(sp, 2))
            &&& s1.frame_size == wrap_add16(s.frame_size, 2)
            &&& same_layout(s.mapper, s1.mapper)
            &&& s1.mapper.output == s.mapper.output
            &&& spec_get_byte(s1.mapper, sp) == Ok::<u8, VmError>(hi_byte(value))
            &&& spec_get_byte(s1.mapper, (sp + 1) as u16) == Ok::<u8, VmError>(lo_byte(value))
            &&& forall|b: u16|
                b != sp && b != (sp + 1) as u16 ==> spec_get_byte(s1.mapper, b) == spec_get_byte(
                    s.mapper,
                    b,
                )
            &&& forall|b: u16| writable(s1.mapper, b) == writable(s.mapper, b)
        }),
{
    reveal(crate::cpu::spec_push);
    let sp = spec_reg(s, Register::Sp);
    lemma_wrap_small(sp, 1);
    lemma_set_byte_frame(s.mapper, hi_byte(value), sp);
    let m1 = spec_set_byte(s.mapper, hi_byte(value), sp)->Ok_0;
    lemma_set_byte_frame(m1, lo_byte(value), (sp + 1) as u16);
    let m2 = spec_set_byte(m1, lo_byte(value), (sp + 1) as u16)->Ok_0;
    assert(spec_get_byte(m2, sp) == Ok::<u8, VmError>(hi_byte(value)));
    assert(same_layout(s.mapper, m2));
}

/// Pushing a sequence of words onto storage-backed stack space: every
/// push succeeds, word `k`'s bytes land at `sp - 2k`, the stack pointer
/// ends `2n` lower, and nothing else changes.
proof fn lemma_push_all(s: CpuView, words: Seq<u16>)
    requires
        s.regs.len() == REGISTER_FILE_SIZE as int,
        stack_room(s.mapper, spec_reg(s, Register::Sp), words.len()),
    ensures
        spec_push_all(s, words) is Ok,
        ({
            let sp = spec_reg(s, Register::Sp);
            let n = words.len() as int;
            let s1 = spec_push_all(s, words)->Ok_0;
            &&& s1.regs == with_reg_word(s.regs, Register::Sp.spec_offset(), (sp - 2 * n) as u16)
            &&& s1.frame_size == ((s.frame_size + 2 * n) % 0x10000) as u16
            &&& same_layout(s.mapper, s1.mapper)
            &&& s1.mapper.output == s.mapper.output
            &&& forall|k: int|
                0 <= k < n ==> spec_get_byte(s1.mapper, (sp - 2 * k) as u16) == Ok::<
                    u8,
                    VmError,
                >(hi_byte(words[k])) && spec_get_byte(s1.mapper, (sp - 2 * k + 1) as u16) == Ok::<
                    u8,
                    VmError,
                >(lo_byte(words[k]))
            &&& forall|b: u16|
                !(sp - 2 * n + 2 <= b <= sp + 1) ==> spec_get_byte(s1.mapper, b) == spec_get_byte(
                    s.mapper,
                    b,
                )
            &&& forall|b: u16| writable(s1.mapper, b) == writable(s.mapper, b)
        }),
    decreases words.len(),
{
    let sp = spec_reg(s, Register::Sp);
    let n = words.len() as int;
    let off = Register::Sp.spec_offset();
    if words.len() == 0 {
        lemma_with_reg_word_self(s.regs, off);
        vstd::arithmetic::div_mod::lemma_small_mod(s.frame_size as nat, 0x10000);
    } else {
        assert(writable(s.mapper, sp) && writable(s.mapper, (sp + 1) as u16));
        lemma_push_effect(s, words[0]);
        let s1 = spec_push(s, words[0])->Ok_0;
        lemma_wrap_small(sp, 2);
        lemma_reg_word_round_trip(s.regs, off, wrap_sub16(sp, 2));
        assert(spec_reg(s1, Register::Sp) == sp - 2);
        assert(stack_room(s1.mapper, (sp - 2) as u16, (n - 1) as nat));
        lemma_push_all(s1, words.drop_first());
        let s2 = spec_push_all(s1, words.drop_first())->Ok_0;
        lemma_with_reg_word_collapse(s.regs, off, wrap_sub16(sp, 2), (sp - 2 * n) as u16);
        lemma_wrap_mod_shift(s.frame_size + 2, 2 * (n - 1));
        // word 0 stays where the first push put it: the rest write lower
        assert forall|k: int| 0 <= k < n implies spec_get_byte(s2.mapper, (sp - 2 * k) as u16)
            == Ok::<u8, VmError>(hi_byte(words[k])) && spec_get_byte(
            s2.mapper,
            (sp - 2 * k + 1) as u16,
        ) == Ok::<u8, VmError>(lo_byte(words[k])) by {
            if k == 0 {
                assert(!((sp - 2) - 2 * (n - 1) + 2 <= sp <= (sp - 2) + 1));
                assert(!((sp - 2) - 2 * (n - 1) + 2 <= sp + 1 <= (sp - 2) + 1));
            } else {
                assert(words.drop_first()[k - 1] == words[k]);
                assert((sp - 2) - 2 * (k - 1) == sp - 2 * k);
            }
        }
    }
}

/// Popping `n` words off a stack whose slots hold the given words, last
/// word nearest the top: the pops succeed, hand the words back newest
/// first, move the stack pointer up `2n`, and leave memory untouched.
proof fn lemma_pop_values(t: CpuView, words: Seq<u16>, sp: u16)
    requires
        t.regs.len() == REGISTER_FILE_SIZE as int,
        sp < 0xFFFF,
        2 * words.len() <= sp,
        spec_reg(t, Register::Sp) == sp - 2 * words.len(),
        forall|k: int|
            0 <= k < words.len() ==> spec_get_byte(t.mapper, (sp - 2 * k) as u16) == Ok::<
                u8,
                VmError,
            >(hi_byte(words[k])) && spec_get_byte(t.mapper, (sp - 2 * k + 1) as u16) == Ok::<
                u8,
                VmError,
            >(lo_byte(words[k])),
    ensures
        spec_pop_values(t, words.len()) is Ok,
        ({
            let (vs, t2) = spec_pop_values(t, words.len())->Ok_0;
            &&& vs == words.reverse()
            &&& t2.mapper == t.mapper
            &&& t2.regs == with_reg_word(t.regs, Register::Sp.spec_offset(), sp)
            &&& t2.frame_size == ((t.frame_size - 2 * words.len()) % 0x10000) as u16
        }),
    decreases words.len(),
{
    reveal(crate::cpu::spec_pop);
    let n = words.len() as int;
    let off = Register::Sp.spec_offset();
    if words.len() == 0 {
        lemma_with_reg_word_self(t.regs, off);
        vstd::arithmetic::div_mod::lemma_small_mod(t.frame_size as nat, 0x10000);
        assert(Seq::<u16>::empty() =~= words.reverse());
    } else {
        let top = (sp - 2 * (n - 1)) as u16;
        lemma_wrap_small((sp - 2 * n) as u16, 2);
        lemma_wrap_small(top, 1);
        assert(spec_get_byte(t.mapper, top) == Ok::<u8, VmError>(hi_byte(words[n - 1])));
        assert(spec_get_byte(t.mapper, (top + 1) as u16) == Ok::<u8, VmError>(
            lo_byte(words[n - 1]),
        ));
        crate::word::lemma_word_split_join(words[n - 1]);
        let (w, t1) = spec_pop(t)->Ok_0;
        assert(w == words[n - 1]);
        lemma_reg_word_round_trip(t.regs, off, top);
        assert(spec_reg(t1, Register::Sp) == sp - 2 * (n - 1));
        assert forall|k: int| 0 <= k < n - 1 implies spec_get_byte(
            t1.mapper,
            (sp - 2 * k) as u16,
        ) == Ok::<u8, VmError>(hi_byte(words.drop_last()[k])) && spec_get_byte(
            t1.mapper,
            (sp - 2 * k + 1) as u16,
        ) == Ok::<u8, VmError>(lo_byte(words.drop_last()[k])) by {
            assert(words.drop_last()[k] == words[k]);
        }
        lemma_pop_values(t1, words.drop_last(), sp);
        let (ws, t2) = spec_pop_values(t1, (n - 1) as nat)->Ok_0;
        lemma_with_reg_word_collapse(t.regs, off, top, sp);
        lemma_wrap_mod_shift(t.frame_size - 2, 2 * (n - 1));
        assert(seq![w] + ws =~= words.reverse());
    }
}

/// Stack symmetry: pushing any sequence of words and then popping as
/// many hands the words back in reverse order, returns the stack pointer
/// and the frame-size counter to their starting values, and leaves every
/// other register untouched; the popped words still sit in memory.
pub proof fn lemma_stack_symmetry(s: CpuView, words: Seq<u16>)
    requires
        s.regs.len() == REGISTER_FILE_SIZE as int,
        stack_room(s.mapper, spec_reg(s, Register::Sp), words.len()),
    ensures
        spec_push_all(s, words) is Ok,
        spec_pop_values(spec_push_all(s, words)->Ok_0, words.len()) is Ok,
        ({
            let s1 = spec_push_all(s, words)->Ok_0;
            let (vs, s2) = spec_pop_values(s1, words.len())->Ok_0;
            &&& vs == words.reverse()
            &&& s2.regs == s.regs
            &&& s2.frame_size == s.frame_size
            &&& s2.mapper == s1.mapper
        }),
{
    let sp = spec_reg(s, Register::Sp);
    let n = words.len() as int;
    let off = Register::Sp.spec_offset();
    lemma_push_all(s, words);
    let s1 = spec_push_all(s, words)->Ok_0;
    lemma_reg_word_round_trip(s.regs, off, (sp - 2 * n) as u16);
    lemma_pop_values(s1, words, sp);
    let (vs, s2) = spec_pop_values(s1, words.len())->Ok_0;
    lemma_with_reg_word_collapse(s.regs, off, (sp - 2 * n) as u16, sp);
    lemma_with_reg_word_self(s.regs, off);
    lemma_wrap_mod_shift(s.frame_size + 2 * n, 2 * n);
    vstd::arithmetic::div_mod::lemma_small_mod(s.frame_size as nat, 0x10000);
}

/// Saving the machine state onto storage-backed stack space: the ten
/// pushes succeed; `r1` through `r8`, the instruction pointer and the
/// closed frame's size sit below the old stack pointer in that order;
/// the stack and frame pointers land twenty bytes down, the counter is
/// cleared, and everything above the new frame is untouched.
#[verifier::rlimit(100)]
#[verifier::spinoff_prover]
proof fn lemma_push_state_effect(s: CpuView)
    requires
        s.regs.len() == REGISTER_FILE_SIZE as int,
        20 <= spec_reg(s, Register::Sp),
        stack_room(s.mapper, spec_reg(s, Register::Sp), 10),
    ensures
        spec_push_state(s) is Ok,
        ({
            let sp = spec_reg(s, Register::Sp);
            let fsv = ((s.frame_size + 20) % 0x10000) as u16;
            let s1 = spec_push_state(s)->Ok_0;
            let saved = seq![
                spec_reg(s, Register::R1),
                spec_reg(s, Register::R2),
                spec_reg(s, Register::R3),
                spec_reg(s, Register::R4),
                spec_reg(s, Register::R5),
                spec_reg(s, Register::R6),
                spec_reg(s, Register::R7),
                spec_reg(s, Register::R8),
                spec_reg(s, Register::Ip),
                fsv,
            ];
            &&& s1.regs == with_reg_word(
                with_reg_word(s.regs, Register::Sp.spec_offset(), (sp - 20) as u16),
                Register::Fp.spec_offset(),
                (sp - 20) as u16,
            )
            &&& s1.frame_size == 0
            &&& forall|k: int|
                0 <= k < 10 ==> spec_get_byte(s1.mapper, (sp - 2 * k) as u16) == Ok::<
                    u8,
                    VmError,
                >(hi_byte(saved[k])) && spec_get_byte(s1.mapper, (sp - 2 * k + 1) as u16) == Ok::<
                    u8,
                    VmError,
                >(lo_byte(saved[k]))
            &&& forall|b: u16|
                !(sp - 18 <= b <= sp + 1) ==> spec_get_byte(s1.mapper, b) == spec_get_byte(
                    s.mapper,
                    b,
                )
        }),
{
    let sp = spec_reg(s, Register::Sp);
    let fs = s.frame_size;
    let off_sp = Register::Sp.spec_offset();
    let off_fp = Register::Fp.spec_offset();
    let m = 0x10000;

    // push 1
    assert(spec_reg(s, Register::Sp) == (sp - 0) as u16);
    lemma_push_effect(s, spec_reg(s, Register::R1));
    let p1 = spec_push(s, spec_reg(s, Register::R1))->Ok_0;
    lemma_wrap_small((sp - 0) as u16, 2);
    lemma_reg_word_round_trip(s.regs, off_sp, wrap_sub16((sp - 0) as u16, 2));
    assert(p1.regs == with_reg_word(s.regs, off_sp, (sp - 2) as u16));
    lemma_wrap_mod_shift(fs + 0, 2);
    assert(p1.frame_size == ((fs + 2) % m) as u16);

    // push 2
    assert(spec_reg(p1, Register::Sp) == (sp - 2) as u16);
    assert(spec_reg(p1, Register::R2) == spec_reg(s, Register::R2));
    lemma_push_effect(p1, spec_reg(p1, Register::R2));
    let p2 = spec_push(p1, spec_reg(p1, Register::R2))->Ok_0;
    lemma_wrap_small((sp - 2) as u16, 2);
    lemma_reg_word_round_trip(p1.regs, off_sp, wrap_sub16((sp - 2) as u16, 2));
    lemma_with_reg_word_collapse(s.regs, off_sp, (sp - 2) as u16, (sp - 4) as u16);
    assert(p2.regs == with_reg_word(s.regs, off_sp, (sp - 4) as u16));
    lemma_wrap_mod_shift(fs + 2, 2);
    assert(p2.frame_size == ((fs + 4) % m) as u16);

    // push 3
    assert(spec_reg(p2, Register::Sp) == (sp - 4) as u16);
    assert(spec_reg(p2, Register::R3) == spec_reg(s, Register::R3));
    lemma_push_effect(p2, spec_reg(p2, Register::R3));
    let p3 = spec_push(p2, spec_reg(p2, Register::R3))->Ok_0;
    lemma_wrap_small((sp - 4) as u16, 2);
    lemma_reg_word_round_trip(p2.regs, off_sp, wrap_sub16((sp - 4) as u16, 2));
    lemma_with_reg_word_collapse(s.regs, off_sp, (sp - 4) as u16, (sp - 6) as u16);
    assert(p3.regs == with_reg_word(s.regs, off_sp, (sp - 6) as u16));
    lemma_wrap_mod_shift(fs + 4, 2);
    assert(p3.frame_size == ((fs + 6) % m) as u16);

    // push 4
    assert(spec_reg(p3, Register::Sp) == (sp - 6) as u16);
    assert(spec_reg(p3, Register::R4) == spec_reg(s, Register::R4));
    lemma_push_effect(p3, spec_reg(p3, Register::R4));
    let p4 = spec_push(p3, spec_reg(p3, Register::R4))->Ok_0;
    lemma_wrap_small((sp - 6) as u16, 2);
    lemma_reg_word_round_trip(p3.regs, off_sp, wrap_sub16((sp - 6) as u16, 2));
    lemma_with_reg_word_collapse(s.regs, off_sp, (sp - 6) as u16, (sp - 8) as u16);
    assert(p4.regs == with_reg_word(s.regs, off_sp, (sp - 8) as u16));
    lemma_wrap_mod_shift(fs + 6, 2);
    assert(p4.frame_size == ((fs + 8) % m) as u16);

    // push 5
    assert(spec_reg(p4, Register::Sp) == (sp - 8) as u16);
    assert(spec_reg(p4, Register::R5) == spec_reg(s, Register::R5));
    lemma_push_effect(p4, spec_reg(p4, Register::R5));
    let p5 = spec_push(p4, spec_reg(p4, Register::R5))->Ok_0;
    lemma_wrap_small((sp - 8) as u16, 2);
    lemma_reg_word_round_trip(p4.regs, off_sp, wrap_sub16((sp - 8) as u16, 2));
    lemma_with_reg_word_collapse(s.regs, off_sp, (sp - 8) as u16, (sp - 10) as u16);
    assert(p5.regs == with_reg_word(s.regs, off_sp, (sp - 10) as u16));
    lemma_wrap_mod_shift(fs + 8, 2);
    assert(p5.frame_size == ((fs + 10) % m) as u16);

    // push 6
    assert(spec_reg(p5, Register::Sp) == (sp - 10) as u16);
    assert(spec_reg(p5, Register::R6) == spec_reg(s, Register::R6));
    lemma_push_effect(p5, spec_reg(p5, Register::R6));
    let p6 = spec_push(p5, spec_reg(p5, Register::R6))->Ok_0;
    lemma_wrap_small((sp - 10) as u16, 2);
    lemma_reg_word_round_trip(p5.regs, off_sp, wrap_sub16((sp - 10) as u16, 2));
    lemma_with_reg_word_collapse(s.regs, off_sp, (sp - 10) as u16, (sp - 12) as u16);
    assert(p6.regs == with_reg_word(s.regs, off_sp, (sp - 12) as u16));
    lemma_wrap_mod_shift(fs + 10, 2);
    assert(p6.frame_size == ((fs + 12) % m) as u16);

    // push 7
    assert(spec_reg(p6, Register::Sp) == (sp - 12) as u16);
    assert(spec_reg(p6, Register::R7) == spec_reg(s, Register::R7));
    lemma_push_effect(p6, spec_reg(p6, Register::R7));
    let p7 = spec_push(p6, spec_reg(p6, Register::R7))->Ok_0;
    lemma_wrap_small((sp - 12) as u16, 2);
    lemma_reg_word_round_trip(p6.regs, off_sp, wrap_sub16((sp - 12) as u16, 2));
    lemma_with_reg_word_collapse(s.regs, off_sp, (sp - 12) as u16, (sp - 14) as u16);
    assert(p7.regs == with_reg_word(s.regs, off_sp, (sp - 14) as u16));
    lemma_wrap_mod_shift(fs + 12, 2);
    assert(p7.frame_size == ((fs + 14) % m) as u16);

    // push 8
    assert(spec_reg(p7, Register::Sp) == (sp - 14) as u16);
    assert(spec_reg(p7, Register::R8) == spec_reg(s, Register::R8));
    lemma_push_effect(p7, spec_reg(p7, Register::R8));
    let p8 = spec_push(p7, spec_reg(p7, Register::R8))->Ok_0;
    lemma_wrap_small((sp - 14) as u16, 2);
    lemma_reg_word_round_trip(p7.regs, off_sp, wrap_sub16((sp - 14) as u16, 2));
    lemma_with_reg_word_collapse(s.regs, off_sp, (sp - 14) as u16, (sp - 16) as u16);
    assert(p8.regs == with_reg_word(s.regs, off_sp, (sp - 16) as u16));
    lemma_wrap_mod_shift(fs + 14, 2);
    assert(p8.frame_size == ((fs + 16) % m) as u16);

    // push 9
    assert(spec_reg(p8, Register::Sp) == (sp - 16) as u16);
    assert(spec_reg(p8, Register::Ip) == spec_reg(s, Register::Ip));
    lemma_push_effect(p8, spec_reg(p8, Register::Ip));
    let p9 = spec_push(p8, spec_reg(p8, Register::Ip))->Ok_0;
    lemma_wrap_small((sp - 16) as u16, 2);
    lemma_reg_word_round_trip(p8.regs, off_sp, wrap_sub16((sp - 16) as u16, 2));
    lemma_with_reg_word_collapse(s.regs, off_sp, (sp - 16) as u16, (sp - 18) as u16);
    assert(p9.regs == with_reg_word(s.regs, off_sp, (sp - 18) as u16));
    lemma_wrap_mod_shift(fs + 16, 2);
    assert(p9.frame_size == ((fs + 18) % m) as u16);

    // push 10
    assert(spec_reg(p9, Register::Sp) == (sp - 18) as u16);
    lemma_push_effect(p9, wrap_add16(p9.frame_size, 2));
    let p10 = spec_push(p9, wrap_add16(p9.frame_size, 2))->Ok_0;
    lemma_wrap_small((sp - 18) as u16, 2);
    lemma_reg_word_round_trip(p9.regs, off_sp, wrap_sub16((sp - 18) as u16, 2));
    lemma_with_reg_word_collapse(s.regs, off_sp, (sp - 18) as u16, (sp - 20) as u16);
    assert(p10.regs == with_reg_word(s.regs, off_sp, (sp - 20) as u16));
    lemma_wrap_mod_shift(fs + 18, 2);
    assert(p10.frame_size == ((fs + 20) % m) as u16);

    let fsv = ((fs + 20) % m) as u16;

    assert(spec_get_byte(p10.mapper, (sp - 0) as u16) == Ok::<u8, VmError>(hi_byte(spec_reg(s, Register::R1)))
        && spec_get_byte(p10.mapper, (sp - 0 + 1) as u16) == Ok::<u8, VmError>(lo_byte(spec_reg(s, Register::R1))));
    assert(spec_get_byte(p10.mapper, (sp - 2) as u16) == Ok::<u8, VmError>(hi_byte(spec_reg(s, Register::R2)))
        && spec_get_byte(p10.mapper, (sp - 2 + 1) as u16) == Ok::<u8, VmError>(lo_byte(spec_reg(s, Register::R2))));
    assert(spec_get_byte(p10.mapper, (sp - 4) as u16) == Ok::<u8, VmError>(hi_byte(spec_reg(s, Register::R3)))
        && spec_get_byte(p10.mapper, (sp - 4 + 1) as u16) == Ok::<u8, VmError>(lo_byte(spec_reg(s, Register::R3))));
    assert(spec_get_byte(p10.mapper, (sp - 6) as u16) == Ok::<u8, VmError>(hi_byte(spec_reg(s, Register::R4)))
        && spec_get_byte(p10.mapper, (sp - 6 + 1) as u16) == Ok::<u8, VmError>(lo_byte(spec_reg(s, Register::R4))));
    assert(spec_get_byte(p10.mapper, (sp - 8) as u16) == Ok::<u8, VmError>(hi_byte(spec_reg(s, Register::R5)))
        && spec_get_byte(p10.mapper, (sp - 8 + 1) as u16) == Ok::<u8, VmError>(lo_byte(spec_reg(s, Register::R5))));
    assert(spec_get_byte(p10.mapper, (sp - 10) as u16) == Ok::<u8, VmError>(hi_byte(spec_reg(s, Register::R6)))
        && spec_get_byte(p10.mapper, (sp - 10 + 1) as u16) == Ok::<u8, VmError>(lo_byte(spec_reg(s, Register::R6))));
    assert(spec_get_byte(p10.mapper, (sp - 12) as u16) == Ok::<u8, VmError>(hi_byte(spec_reg(s, Register::R7)))
        && spec_get_byte(p10.mapper, (sp - 12 + 1) as u16) == Ok::<u8, VmError>(lo_byte(spec_reg(s, Register::R7))));
    assert(spec_get_byte(p10.mapper, (sp - 14) as u16) == Ok::<u8, VmError>(hi_byte(spec_reg(s, Register::R8)))
        && spec_get_byte(p10.mapper, (sp - 14 + 1) as u16) == Ok::<u8, VmError>(lo_byte(spec_reg(s, Register::R8))));
    assert(spec_get_byte(p10.mapper, (sp - 16) as u16) == Ok::<u8, VmError>(hi_byte(spec_reg(s, Register::Ip)))
        && spec_get_byte(p10.mapper, (sp - 16 + 1) as u16) == Ok::<u8, VmError>(lo_byte(spec_reg(s, Register::Ip))));
    assert(spec_get_byte(p10.mapper, (sp - 18) as u16) == Ok::<u8, VmError>(hi_byte(fsv))
        && spec_get_byte(p10.mapper, (sp - 18 + 1) as u16) == Ok::<u8, VmError>(lo_byte(fsv)));

    lemma_reg_word_round_trip(s.regs, off_sp, (sp - 20) as u16);
    assert(reg_word(p10.regs, off_sp) == (sp - 20) as u16);
    assert(spec_push_state(s) is Ok);
    let s1 = spec_push_state(s)->Ok_0;
    assert(s1.regs == with_reg_word(
        with_reg_word(s.regs, off_sp, (sp - 20) as u16),
        off_fp,
        (sp - 20) as u16,
    ));
}

/// Two register files that agree on every register agree byte for byte.
proof fn lemma_regs_eq_from_words(regs1: Seq<u8>, regs2: Seq<u8>)
    requires
        regs1.len() == REGISTER_FILE_SIZE as int,
        regs2.len() == REGISTER_FILE_SIZE as int,
        forall|r: Register|
            reg_word(regs1, #[trigger] r.spec_offset()) == reg_word(regs2, r.spec_offset()),
    ensures
        regs1 == regs2,
{

    assert(reg_word(regs1, 0) == reg_word(regs2, 0)) by {
        assert(Register::Ip.spec_offset() == 0);
    }
    crate::word::lemma_word_join_split(regs1[0int], regs1[0int + 1]);
    crate::word::lemma_word_join_split(regs2[0int], regs2[0int + 1]);
    assert(reg_word(regs1, 2) == reg_word(regs2, 2)) by {
        assert(Register::Acc.spec_offset() == 2);
    }
    crate::word::lemma_word_join_split(regs1[2int], regs1[2int + 1]);
    crate::word::lemma_word_join_split(regs2[2int], regs2[2int + 1]);
    assert(reg_word(regs1, 4) == reg_word(regs2, 4)) by {
        assert(Register::R1.spec_offset() == 4);
    }
    crate::word::lemma_word_join_split(regs1[4int], regs1[4int + 1]);
    crate::word::lemma_word_join_split(regs2[4int], regs2[4int + 1]);
    assert(reg_word(regs1, 6) == reg_word(regs2, 6)) by {
        assert(Register::R2.spec_offset() == 6);
    }
    crate::word::lemma_word_join_split(regs1[6int], regs1[6int + 1]);
    crate::word::lemma_word_join_split(regs2[6int], regs2[6int + 1]);
    assert(reg_word(regs1, 8) == reg_word(regs2, 8)) by {
        assert(Register::R3.spec_offset() == 8);
    }
    crate::word::lemma_word_join_split(regs1[8int], regs1[8int + 1]);
    crate::word::lemma_word_join_split(regs2[8int], regs2[8int + 1]);
    assert(reg_word(regs1, 10) == reg_word(regs2, 10)) by {
        assert(Register::R4.spec_offset() == 10);
    }
    crate::word::lemma_word_join_split(regs1[10int], regs1[10int + 1]);
    crate::word::lemma_word_join_split(regs2[10int], regs2[10int + 1]);
    assert(reg_word(regs1, 12) == reg_word(regs2, 12)) by {
        assert(Register::R5.spec_offset() == 12);
    }
    crate::word::lemma_word_join_split(regs1[12int], regs1[12int + 1]);
    crate::word::lemma_word_join_split(regs2[12int], regs2[12int + 1]);
    assert(reg_word(regs1, 14) == reg_word(regs2, 14)) by {
        assert(Register::R6.spec_offset() == 14);
    }
    crate::word::lemma_word_join_split(regs1[14int], regs1[14int + 1]);
    crate::word::lemma_word_join_split(regs2[14int], regs2[14int + 1]);
    assert(reg_word(regs1, 16) == reg_word(regs2, 16)) by {
        assert(Register::R7.spec_offset() == 16);
    }
    crate::word::lemma_word_join_split(regs1[16int], regs1[16int + 1]);
    crate::word::lemma_word_join_split(regs2[16int], regs2[16int + 1]);
    assert(reg_word(regs1, 18) == reg_word(regs2, 18)) by {
        assert(Register::R8.spec_offset() == 18);
    }
    crate::word::lemma_word_join_split(regs1[18int], regs1[18int + 1]);
    crate::word::lemma_word_join_split(regs2[18int], regs2[18int + 1]);
    assert(reg_word(regs1, 20) == reg_word(regs2, 20)) by {
        assert(Register::Sp.spec_offset() == 20);
    }
    crate::word::lemma_word_join_split(regs1[20int], regs1[20int + 1]);
    crate::word::lemma_word_join_split(regs2[20int], regs2[20int + 1]);
    assert(reg_word(regs1, 22) == reg_word(regs2, 22)) by {
        assert(Register::Fp.spec_offset() == 22);
    }
    crate::word::lemma_word_join_split(regs1[22int], regs1[22int + 1]);
    crate::word::lemma_word_join_split(regs2[22int], regs2[22int + 1]);
    assert(regs1 =~= regs2);
}

/// One pop from a stack slot holding a known word: it succeeds, hands
/// the word back, moves the stack pointer up two, and leaves memory
/// untouched.
proof fn lemma_pop_effect(t: CpuView, w: u16)
    requires
        t.regs.len() == REGISTER_FILE_SIZE as int,
        spec_reg(t, Register::Sp) <= 0xFFFC,
        spec_get_byte(t.mapper, (spec_reg(t, Register::Sp) + 2) as u16) == Ok::<u8, VmError>(
            hi_byte(w),
        ),
        spec_get_byte(t.mapper, (spec_reg(t, Register::Sp) + 3) as u16) == Ok::<u8, VmError>(
            lo_byte(w),
        ),
    ensures
        spec_pop(t) is Ok,
        spec_pop(t)->Ok_0.0 == w,
        spec_pop(t)->Ok_0.1 == (CpuView {
            regs: with_reg_word(
                t.regs,
                Register::Sp.spec_offset(),
                (spec_reg(t, Register::Sp) + 2) as u16,
            ),
            frame_size: wrap_sub16(t.frame_size, 2),
            mapper: t.mapper,
        }),
{
    reveal(crate::cpu::spec_pop);
    let sp = spec_reg(t, Register::Sp);
    lemma_wrap_small(sp, 2);
    lemma_wrap_small((sp + 2) as u16, 1);
    crate::word::lemma_word_split_join(w);
}

/// Popping the saved registers from a frame whose nine lower slots hold
/// the given words (`r1` lowest, the instruction pointer on top): the
/// pops succeed, the registers take those words, and memory is
/// untouched.
#[verifier::rlimit(100)]
#[verifier::spinoff_prover]
proof fn lemma_restore_registers_effect(t: CpuView, sp: u16, saved: Seq<u16>)
    requires
        t.regs.len() == REGISTER_FILE_SIZE as int,
        saved.len() == 9,
        18 <= sp <= 0xFFFC,
        spec_reg(t, Register::Sp) == sp - 18,
        forall|k: int|
            0 <= k < 9 ==> spec_get_byte(t.mapper, (sp - 2 * k) as u16) == Ok::<u8, VmError>(
                hi_byte(saved[k]),
            ) && spec_get_byte(t.mapper, (sp - 2 * k + 1) as u16) == Ok::<u8, VmError>(
                lo_byte(saved[k]),
            ),
    ensures
        spec_restore_registers(t) is Ok,
        ({
            let rr = spec_restore_registers(t)->Ok_0;
            &&& rr.regs.len() == REGISTER_FILE_SIZE as int
            &&& rr.mapper == t.mapper
            &&& rr.frame_size == ((t.frame_size - 18) % 0x10000) as u16
            &&& spec_reg(rr, Register::R1) == saved[0]
            &&& spec_reg(rr, Register::R2) == saved[1]
            &&& spec_reg(rr, Register::R3) == saved[2]
            &&& spec_reg(rr, Register::R4) == saved[3]
            &&& spec_reg(rr, Register::R5) == saved[4]
            &&& spec_reg(rr, Register::R6) == saved[5]
            &&& spec_reg(rr, Register::R7) == saved[6]
            &&& spec_reg(rr, Register::R8) == saved[7]
            &&& spec_reg(rr, Register::Ip) == saved[8]
            &&& spec_reg(rr, Register::Acc) == spec_reg(t, Register::Acc)
            &&& spec_reg(rr, Register::Sp) == sp
            &&& spec_reg(rr, Register::Fp) == spec_reg(t, Register::Fp)
        }),
{
    reveal(crate::cpu::spec_restore_registers);
    let off_sp = Register::Sp.spec_offset();
    let m = 0x10000;
    let fs = t.frame_size;

    // pop 1
    assert(spec_reg(t, Register::Sp) == (sp - 18) as u16);
    assert(spec_get_byte(t.mapper, ((sp - 18) + 2) as u16) == Ok::<u8, VmError>(
        hi_byte(saved[8]),
    )) by {
        assert((sp - 2 * 8) as u16 == ((sp - 18) + 2) as u16);
    }
    assert(spec_get_byte(t.mapper, ((sp - 18) + 3) as u16) == Ok::<u8, VmError>(
        lo_byte(saved[8]),
    )) by {
        assert((sp - 2 * 8 + 1) as u16 == ((sp - 18) + 3) as u16);
    }
    lemma_pop_effect(t, saved[8]);
    let popped1 = spec_pop(t)->Ok_0.0;
    let q1 = spec_pop(t)->Ok_0.1;
    assert(q1.regs == with_reg_word(t.regs, off_sp, (sp - 16) as u16));
    vstd::arithmetic::div_mod::lemma_small_mod(fs as nat, m as nat);
    lemma_wrap_mod_shift(fs as int, 2);
    assert(q1.frame_size == ((fs - 2) % m) as u16);

    // pop 2
    assert(spec_reg(q1, Register::Sp) == (sp - 16) as u16);
    assert(spec_get_byte(q1.mapper, ((sp - 16) + 2) as u16) == Ok::<u8, VmError>(
        hi_byte(saved[7]),
    )) by {
        assert((sp - 2 * 7) as u16 == ((sp - 16) + 2) as u16);
    }
    assert(spec_get_byte(q1.mapper, ((sp - 16) + 3) as u16) == Ok::<u8, VmError>(
        lo_byte(saved[7]),
    )) by {
        assert((sp - 2 * 7 + 1) as u16 == ((sp - 16) + 3) as u16);
    }
    lemma_pop_effect(q1, saved[7]);
    let popped2 = spec_pop(q1)->Ok_0.0;
    let q2 = spec_pop(q1)->Ok_0.1;
    lemma_with_reg_word_collapse(t.regs, off_sp, (sp - 16) as u16, (sp - 14) as u16);
    assert(q2.regs == with_reg_word(t.regs, off_sp, (sp - 14) as u16));
    lemma_wrap_mod_shift(fs - 2, 2);
    assert(q2.frame_size == ((fs - 4) % m) as u16);

    // pop 3
    assert(spec_reg(q2, Register::Sp) == (sp - 14) as u16);
    assert(spec_get_byte(q2.mapper, ((sp - 14) + 2) as u16) == Ok::<u8, VmError>(
        hi_byte(saved[6]),
    )) by {
        assert((sp - 2 * 6) as u16 == ((sp - 14) + 2) as u16);
    }
    assert(spec_get_byte(q2.mapper, ((sp - 14) + 3) as u16) == Ok::<u8, VmError>(
        lo_byte(saved[6]),
    )) by {
        assert((sp - 2 * 6 + 1) as u16 == ((sp - 14) + 3) as u16);
    }
    lemma_pop_effect(q2, saved[6]);
    let popped3 = spec_pop(q2)->Ok_0.0;
    let q3 = spec_pop(q2)->Ok_0.1;
    lemma_with_reg_word_collapse(t.regs, off_sp, (sp - 14) as u16, (sp - 12) as u16);
    assert(q3.regs == with_reg_word(t.regs, off_sp, (sp - 12) as u16));
    lemma_wrap_mod_shift(fs - 4, 2);
    assert(q3.frame_size == ((fs - 6) % m) as u16);

    // pop 4
    assert(spec_reg(q3, Register::Sp) == (sp - 12) as u16);
    assert(spec_get_byte(q3.mapper, ((sp - 12) + 2) as u16) == Ok::<u8, VmError>(
        hi_byte(saved[5]),
    )) by {
        assert((sp - 2 * 5) as u16 == ((sp - 12) + 2) as u16);
    }
    assert(spec_get_byte(q3.mapper, ((sp - 12) + 3) as u16) == Ok::<u8, VmError>(
        lo_byte(saved[5]),
    )) by {
        assert((sp - 2 * 5 + 1) as u16 == ((sp - 12) + 3) as u16);
    }
    lemma_pop_effect(q3, saved[5]);
    let popped4 = spec_pop(q3)->Ok_0.0;
    let q4 = spec_pop(q3)->Ok_0.1;
    lemma_with_reg_word_collapse(t.regs, off_sp, (sp - 12) as u16, (sp - 10) as u16);
    assert(q4.regs == with_reg_word(t.regs, off_sp, (sp - 10) as u16));
    lemma_wrap_mod_shift(fs - 6, 2);
    assert(q4.frame_size == ((fs - 8) % m) as u16);

    // pop 5
    assert(spec_reg(q4, Register::Sp) == (sp - 10) as u16);
    assert(spec_get_byte(q4.mapper, ((sp - 10) + 2) as u16) == Ok::<u8, VmError>(
        hi_byte(saved[4]),
    )) by {
        assert((sp - 2 * 4) as u16 == ((sp - 10) + 2) as u16);
    }
    assert(spec_get_byte(q4.mapper, ((sp - 10) + 3) as u16) == Ok::<u8, VmError>(
        lo_byte(saved[4]),
    )) by {
        assert((sp - 2 * 4 + 1) as u16 == ((sp - 10) + 3) as u16);
    }
    lemma_pop_effect(q4, saved[4]);
    let popped5 = spec_pop(q4)->Ok_0.0;
    let q5 = spec_pop(q4)->Ok_0.1;
    lemma_with_reg_word_collapse(t.regs, off_sp, (sp - 10) as u16, (sp - 8) as u16);
    assert(q5.regs == with_reg_word(t.regs, off_sp, (sp - 8) as u16));
    lemma_wrap_mod_shift(fs - 8, 2);
    assert(q5.frame_size == ((fs - 10) % m) as u16);

    // pop 6
    assert(spec_reg(q5, Register::Sp) == (sp - 8) as u16);
    assert(spec_get_byte(q5.mapper, ((sp - 8) + 2) as u16) == Ok::<u8, VmError>(
        hi_byte(saved[3]),
    )) by {
        assert((sp - 2 * 3) as u16 == ((sp - 8) + 2) as u16);
    }
    assert(spec_get_byte(q5.mapper, ((sp - 8) + 3) as u16) == Ok::<u8, VmError>(
        lo_byte(saved[3]),
    )) by {
        assert((sp - 2 * 3 + 1) as u16 == ((sp - 8) + 3) as u16);
    }
    lemma_pop_effect(q5, saved[3]);
    let popped6 = spec_pop(q5)->Ok_0.0;
    let q6 = spec_pop(q5)->Ok_0.1;
    lemma_with_reg_word_collapse(t.regs, off_sp, (sp - 8) as u16, (sp - 6) as u16);
    assert(q6.regs == with_reg_word(t.regs, off_sp, (sp - 6) as u16));
    lemma_wrap_mod_shift(fs - 10, 2);
    assert(q6.frame_size == ((fs - 12) % m) as u16);

    // pop 7
    assert(spec_reg(q6, Register::Sp) == (sp - 6) as u16);
    assert(spec_get_byte(q6.mapper, ((sp - 6) + 2) as u16) == Ok::<u8, VmError>(
        hi_byte(saved[2]),
    )) by {
        assert((sp - 2 * 2) as u16 == ((sp - 6) + 2) as u16);
    }
    assert(spec_get_byte(q6.mapper, ((sp - 6) + 3) as u16) == Ok::<u8, VmError>(
        lo_byte(saved[2]),
    )) by {
        assert((sp - 2 * 2 + 1) as u16 == ((sp - 6) + 3) as u16);
    }
    lemma_pop_effect(q6, saved[2]);
    let popped7 = spec_pop(q6)->Ok_0.0;
    let q7 = spec_pop(q6)->Ok_0.1;
    lemma_with_reg_word_collapse(t.regs, off_sp, (sp - 6) as u16, (sp - 4) as u16);
    assert(q7.regs == with_reg_word(t.regs, off_sp, (sp - 4) as u16));
    lemma_wrap_mod_shift(fs - 12, 2);
    assert(q7.frame_size == ((fs - 14) % m) as u16);

    // pop 8
    assert(spec_reg(q7, Register::Sp) == (sp - 4) as u16);
    assert(spec_get_byte(q7.mapper, ((sp - 4) + 2) as u16) == Ok::<u8, VmError>(
        hi_byte(saved[1]),
    )) by {
        assert((sp - 2 * 1) as u16 == ((sp - 4) + 2) as u16);
    }
    assert(spec_get_byte(q7.mapper, ((sp - 4) + 3) as u16) == Ok::<u8, VmError>(
        lo_byte(saved[1]),
    )) by {
        assert((sp - 2 * 1 + 1) as u16 == ((sp - 4) + 3) as u16);
    }
    lemma_pop_effect(q7, saved[1]);
    let popped8 = spec_pop(q7)->Ok_0.0;
    let q8 = spec_pop(q7)->Ok_0.1;
    lemma_with_reg_word_collapse(t.regs, off_sp, (sp - 4) as u16, (sp - 2) as u16);
    assert(q8.regs == with_reg_word(t.regs, off_sp, (sp - 2) as u16));
    lemma_wrap_mod_shift(fs - 14, 2);
    assert(q8.frame_size == ((fs - 16) % m) as u16);

    // pop 9
    assert(spec_reg(q8, Register::Sp) == (sp - 2) as u16);
    assert(spec_get_byte(q8.mapper, ((sp - 2) + 2) as u16) == Ok::<u8, VmError>(
        hi_byte(saved[0]),
    )) by {
        assert((sp - 2 * 0) as u16 == ((sp - 2) + 2) as u16);
    }
    assert(spec_get_byte(q8.mapper, ((sp - 2) + 3) as u16) == Ok::<u8, VmError>(
        lo_byte(saved[0]),
    )) by {
        assert((sp - 2 * 0 + 1) as u16 == ((sp - 2) + 3) as u16);
    }
    lemma_pop_effect(q8, saved[0]);
    let popped9 = spec_pop(q8)->Ok_0.0;
    let q9 = spec_pop(q8)->Ok_0.1;
    lemma_with_reg_word_collapse(t.regs, off_sp, (sp - 2) as u16, (sp - 0) as u16);
    assert(q9.regs == with_reg_word(t.regs, off_sp, (sp - 0) as u16));
    lemma_wrap_mod_shift(fs - 16, 2);
    assert(q9.frame_size == ((fs - 18) % m) as u16);

    let rr = spec_with_reg(
        spec_with_reg(
            spec_with_reg(
                spec_with_reg(
                    spec_with_reg(
                        spec_with_reg(
                            spec_with_reg(
                                spec_with_reg(
                                    spec_with_reg(q9, Register::Ip, popped1),
                                    Register::R8,
                                    popped2,
                                ),
                                Register::R7,
                                popped3,
                            ),
                            Register::R6,
                            popped4,
                        ),
                        Register::R5,
                        popped5,
                    ),
                    Register::R4,
                    popped6,
                ),
                Register::R3,
                popped7,
            ),
            Register::R2,
            popped8,
        ),
        Register::R1,
        popped9,
    );
    assert(spec_restore_registers(t) == Ok::<CpuView, VmError>(rr));
    lemma_reg_word_round_trip(t.regs, off_sp, sp);
}

/// Restoring the machine state from a frame whose slots hold the given
/// saved words (the closed frame's size on top, `r1` at the bottom) and
/// whose argument count is zero: the pops succeed; the saved registers,
/// the stack pointer and the frame pointer take the values the matching
/// save gave them; memory is untouched.
#[verifier::rlimit(100)]
#[verifier::spinoff_prover]
proof fn lemma_pop_state_effect(t: CpuView, sp: u16, saved: Seq<u16>)
    requires
        t.regs.len() == REGISTER_FILE_SIZE as int,
        saved.len() == 10,
        20 <= sp <= 0xFFFC,
        spec_reg(t, Register::Fp) == sp - 20,
        forall|k: int|
            0 <= k < 10 ==> spec_get_byte(t.mapper, (sp - 2 * k) as u16) == Ok::<u8, VmError>(
                hi_byte(saved[k]),
            ) && spec_get_byte(t.mapper, (sp - 2 * k + 1) as u16) == Ok::<u8, VmError>(
                lo_byte(saved[k]),
            ),
        spec_get_byte(t.mapper, (sp + 2) as u16) == Ok::<u8, VmError>(0),
        spec_get_byte(t.mapper, (sp + 3) as u16) == Ok::<u8, VmError>(0),
    ensures
        spec_pop_state(t) is Ok,
        ({
            let s3 = spec_pop_state(t)->Ok_0;
            &&& s3.regs.len() == REGISTER_FILE_SIZE as int
            &&& s3.mapper == t.mapper
            &&& s3.frame_size == ((saved[9] - 20) % 0x10000) as u16
            &&& spec_reg(s3, Register::R1) == saved[0]
            &&& spec_reg(s3, Register::R2) == saved[1]
            &&& spec_reg(s3, Register::R3) == saved[2]
            &&& spec_reg(s3, Register::R4) == saved[3]
            &&& spec_reg(s3, Register::R5) == saved[4]
            &&& spec_reg(s3, Register::R6) == saved[5]
            &&& spec_reg(s3, Register::R7) == saved[6]
            &&& spec_reg(s3, Register::R8) == saved[7]
            &&& spec_reg(s3, Register::Ip) == saved[8]
            &&& spec_reg(s3, Register::Acc) == spec_reg(t, Register::Acc)
            &&& spec_reg(s3, Register::Sp) == sp + 2
            &&& spec_reg(s3, Register::Fp) == wrap_add16((sp - 20) as u16, saved[9])
        }),
{
    reveal(crate::cpu::spec_pop_state);
    let off_sp = Register::Sp.spec_offset();
    let m = 0x10000;
    let fsv = saved[9];
    let fpa = spec_reg(t, Register::Fp);
    let q0 = spec_with_reg(t, Register::Sp, fpa);
    lemma_reg_word_round_trip(t.regs, off_sp, fpa);
    assert(q0.regs == with_reg_word(t.regs, off_sp, (sp - 20) as u16));

    // pop the closed frame's size
    assert(spec_reg(q0, Register::Sp) == (sp - 20) as u16);
    assert(spec_get_byte(q0.mapper, ((sp - 20) + 2) as u16) == Ok::<u8, VmError>(hi_byte(fsv)))
        by {
        assert((sp - 2 * 9) as u16 == ((sp - 20) + 2) as u16);
    }
    assert(spec_get_byte(q0.mapper, ((sp - 20) + 3) as u16) == Ok::<u8, VmError>(lo_byte(fsv)))
        by {
        assert((sp - 2 * 9 + 1) as u16 == ((sp - 20) + 3) as u16);
    }
    lemma_pop_effect(q0, fsv);
    let q1_raw = spec_pop(q0)->Ok_0.1;
    let q1 = CpuView { frame_size: fsv, ..q1_raw };
    lemma_with_reg_word_collapse(t.regs, off_sp, (sp - 20) as u16, (sp - 18) as u16);
    assert(q1.regs == with_reg_word(t.regs, off_sp, (sp - 18) as u16));
    assert(q1.mapper == t.mapper);
    lemma_reg_word_round_trip(t.regs, off_sp, (sp - 18) as u16);
    assert(spec_reg(q1, Register::Sp) == sp - 18);

    // pop the nine saved registers
    assert forall|k: int| 0 <= k < 9 implies spec_get_byte(q1.mapper, (sp - 2 * k) as u16)
        == Ok::<u8, VmError>(hi_byte(saved.take(9)[k])) && spec_get_byte(
        q1.mapper,
        (sp - 2 * k + 1) as u16,
    ) == Ok::<u8, VmError>(lo_byte(saved.take(9)[k])) by {
        assert(saved.take(9)[k] == saved[k]);
    }
    assert(spec_reg(q1, Register::Fp) == spec_reg(t, Register::Fp)) by {
        crate::word::lemma_word_join_split(
            t.regs[Register::Fp.spec_offset()],
            t.regs[Register::Fp.spec_offset() + 1],
        );
    }
    lemma_restore_registers_effect(q1, sp, saved.take(9));
    let sr = spec_restore_registers(q1)->Ok_0;

    // pop the argument count: zero, so nothing is discarded
    assert(spec_reg(sr, Register::Sp) == sp);
    assert(spec_get_byte(sr.mapper, (sp + 2) as u16) == Ok::<u8, VmError>(hi_byte(0u16)));
    assert(spec_get_byte(sr.mapper, (sp + 3) as u16) == Ok::<u8, VmError>(lo_byte(0u16)));
    lemma_pop_effect(sr, 0u16);
    let nargs = spec_pop(sr)->Ok_0.0;
    let q11 = spec_pop(sr)->Ok_0.1;
    assert(nargs == 0);
    assert(spec_pop_n(q11, 0nat) == Ok::<CpuView, VmError>(q11));

    let s3 = spec_with_reg(q11, Register::Fp, wrap_add16(fpa, fsv));
    assert(spec_pop_state(t) == Ok::<CpuView, VmError>(s3));
    lemma_reg_word_round_trip(sr.regs, off_sp, (sp + 2) as u16);
    lemma_reg_word_round_trip(q11.regs, Register::Fp.spec_offset(), wrap_add16(fpa, fsv));
    assert(spec_reg(s3, Register::Sp) == sp + 2);
    lemma_wrap_mod_shift(fsv as int, 18);
    vstd::arithmetic::div_mod::lemma_small_mod(fsv as nat, m as nat);
    lemma_wrap_mod_shift(fsv - 18, 2);
    assert(s3.frame_size == ((fsv - 20) % m) as u16);
}

/// Call/return symmetry: saving the machine state as a call does, jumping
/// anywhere, and restoring as the matching return does — with an argument
/// count of zero on the stack — gives every register its pre-call value
/// back, except the stack pointer, which ends two bytes higher: the count
/// word is consumed. The frame-size counter is also restored.
#[verifier::rlimit(100)]
#[verifier::spinoff_prover]
pub proof fn lemma_call_return(s: CpuView, target: u16)
    requires
        s.regs.len() == REGISTER_FILE_SIZE as int,
        spec_reg(s, Register::Sp) <= 0xFFFC,
        20 <= spec_reg(s, Register::Sp),
        stack_room(s.mapper, spec_reg(s, Register::Sp), 10),
        spec_get_byte(s.mapper, (spec_reg(s, Register::Sp) + 2) as u16) == Ok::<u8, VmError>(0),
        spec_get_byte(s.mapper, (spec_reg(s, Register::Sp) + 3) as u16) == Ok::<u8, VmError>(0),
        spec_reg(s, Register::Fp) == spec_reg(s, Register::Sp) + s.frame_size,
    ensures
        spec_push_state(s) is Ok,
        spec_pop_state(spec_with_reg(spec_push_state(s)->Ok_0, Register::Ip, target)) is Ok,
        ({
            let s3 = spec_pop_state(
                spec_with_reg(spec_push_state(s)->Ok_0, Register::Ip, target),
            )->Ok_0;
            &&& s3.regs == with_reg_word(
                s.regs,
                Register::Sp.spec_offset(),
                (spec_reg(s, Register::Sp) + 2) as u16,
            )
            &&& s3.frame_size == s.frame_size
            &&& spec_reg(s3, Register::Sp) == spec_reg(s, Register::Sp) + 2
            &&& forall|r: Register|
                r != Register::Sp ==> #[trigger] spec_reg(s3, r) == spec_reg(s, r)
        }),
{
    let sp = spec_reg(s, Register::Sp);
    let fs = s.frame_size;
    let off_sp = Register::Sp.spec_offset();
    let off_fp = Register::Fp.spec_offset();
    let m = 0x10000;
    lemma_push_state_effect(s);
    let fsv = ((fs + 20) % m) as u16;
    let s1 = spec_push_state(s)->Ok_0;
    let s2 = spec_with_reg(s1, Register::Ip, target);
    let saved = seq![
        spec_reg(s, Register::R1),
        spec_reg(s, Register::R2),
        spec_reg(s, Register::R3),
        spec_reg(s, Register::R4),
        spec_reg(s, Register::R5),
        spec_reg(s, Register::R6),
        spec_reg(s, Register::R7),
        spec_reg(s, Register::R8),
        spec_reg(s, Register::Ip),
        fsv,
    ];
    assert(s2.mapper == s1.mapper);
    lemma_reg_word_round_trip(
        with_reg_word(s.regs, off_sp, (sp - 20) as u16),
        off_fp,
        (sp - 20) as u16,
    );
    assert(spec_reg(s2, Register::Fp) == (sp - 20) as u16);
    lemma_pop_state_effect(s2, sp, saved);
    let s3 = spec_pop_state(s2)->Ok_0;

    // register for register, only the stack pointer moved
    lemma_wrap_mod_shift(fs + 20, sp - 20);
    vstd::arithmetic::div_mod::lemma_small_mod((sp + fs) as nat, m as nat);
    assert(spec_reg(s3, Register::Fp) == spec_reg(s, Register::Fp));
    assert(spec_reg(s3, Register::Acc) == spec_reg(s, Register::Acc));
    lemma_reg_word_round_trip(s.regs, off_sp, (sp + 2) as u16);
    assert forall|r: Register| reg_word(s3.regs, #[trigger] r.spec_offset()) == reg_word(
        with_reg_word(s.regs, off_sp, (sp + 2) as u16),
        r.spec_offset(),
    ) by {
        crate::word::lemma_word_join_split(s.regs[r.spec_offset()], s.regs[r.spec_offset() + 1]);
    }
    lemma_regs_eq_from_words(s3.regs, with_reg_word(s.regs, off_sp, (sp + 2) as u16));

    // the frame-size counter is back where it started
    lemma_wrap_mod_shift(fs + 20, 20);
    vstd::arithmetic::div_mod::lemma_small_mod(fs as nat, m as nat);
    assert(s3.frame_size == fs);

    assert forall|r: Register| r != Register::Sp implies #[trigger] spec_reg(s3, r) == spec_reg(
        s,
        r,
    ) by {
        crate::word::lemma_word_join_split(s.regs[r.spec_offset()], s.regs[r.spec_offset() + 1]);
    }
}

} // verus!
