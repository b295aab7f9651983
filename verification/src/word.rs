//! Big-endian 16-bit words, and the wrapping arithmetic the CPU uses.
//!
//! Every multi-byte value in the machine — a register, a word in memory,
//! a stack slot — is two bytes, most significant first. These are the
//! only functions that turn bytes into words and back, so byte order is
//! fixed in one place.

use vstd::prelude::*;

verus! {

/// The word formed from a high and a low byte, big-endian.
pub open spec fn word_of(hi: u8, lo: u8) -> u16 {
    (hi * 256 + lo) as u16
}

/// The high (first, most significant) byte of a word.
pub open spec fn hi_byte(w: u16) -> u8 {
    (w / 256) as u8
}

/// The low (second, least significant) byte of a word.
pub open spec fn lo_byte(w: u16) -> u8 {
    (w % 256) as u8
}

/// Sum modulo 2^16: 16-bit arithmetic wraps rather than traps.
pub open spec fn wrap_add16(a: u16, b: u16) -> u16 {
    ((a + b) % 0x10000) as u16
}

/// Difference modulo 2^16.
pub open spec fn wrap_sub16(a: u16, b: u16) -> u16 {
    ((a - b) % 0x10000) as u16
}

/// Product modulo 2^16.
pub open spec fn wrap_mul16(a: u16, b: u16) -> u16 {
    ((a * b) % 0x10000) as u16
}

/// Left shift; shifting by 16 or more clears the word.
pub open spec fn shl16(v: u16, n: u16) -> u16 {
    if n >= 16 {
        0
    } else {
        v << n
    }
}

/// Logical right shift; shifting by 16 or more clears the word.
pub open spec fn shr16(v: u16, n: u16) -> u16 {
    if n >= 16 {
        0
    } else {
        v >> n
    }
}

/// Splitting a word and joining the halves again gives the word back.
pub proof fn lemma_word_split_join(w: u16)
    ensures
        word_of(hi_byte(w), lo_byte(w)) == w,
{
    vstd::arithmetic::div_mod::lemma_fundamental_div_mod(w as int, 256);
}

/// Joining two bytes and splitting the word again gives the bytes back.
pub proof fn lemma_word_join_split(hi: u8, lo: u8)
    ensures
        hi_byte(word_of(hi, lo)) == hi,
        lo_byte(word_of(hi, lo)) == lo,
{
    let w = hi * 256 + lo;
    assert(w / 256 == hi && w % 256 == lo) by (nonlinear_arith)
        requires
            0 <= hi < 256 && 0 <= lo < 256 && w == hi * 256 + lo,
    ;
}

/// Wrapping addition and wrapping subtraction of the same amount cancel.
pub proof fn lemma_wrap_add_sub(a: u16, b: u16)
    ensures
        wrap_sub16(wrap_add16(a, b), b) == a,
        wrap_add16(wrap_sub16(a, b), b) == a,
{
    let m = 0x10000;
    vstd::arithmetic::div_mod::lemma_mod_bound(a + b, m);
    vstd::arithmetic::div_mod::lemma_mod_bound(a - b, m);
    vstd::arithmetic::div_mod::lemma_sub_mod_noop(a + b, b as int, m);
    vstd::arithmetic::div_mod::lemma_mod_add_multiples_vanish(a as int, m);
    vstd::arithmetic::div_mod::lemma_small_mod(a as nat, m as nat);
    vstd::arithmetic::div_mod::lemma_add_mod_noop(a - b, b as int, m);
}

pub fn word_from_bytes(hi: u8, lo: u8) -> (w: u16)
    ensures
        w == word_of(hi, lo),
{
    (hi as u16) * 256 + (lo as u16)
}

pub fn word_hi(w: u16) -> (b: u8)
    ensures
        b == hi_byte(w),
{
    (w / 256) as u8
}

pub fn word_lo(w: u16) -> (b: u8)
    ensures
        b == lo_byte(w),
{
    (w % 256) as u8
}

pub fn add_wrap16(a: u16, b: u16) -> (r: u16)
    ensures
        r == wrap_add16(a, b),
{
    (((a as u32) + (b as u32)) % 0x10000) as u16
}

pub fn sub_wrap16(a: u16, b: u16) -> (r: u16)
    ensures
        r == wrap_sub16(a, b),
{
    proof {
        vstd::arithmetic::div_mod::lemma_mod_add_multiples_vanish(a - b, 0x10000);
    }
    ((0x10000u32 + (a as u32) - (b as u32)) % 0x10000) as u16
}

pub fn mul_wrap16(a: u16, b: u16) -> (r: u16)
    ensures
        r == wrap_mul16(a, b),
{
    proof {
        assert((a as int) * (b as int) < 0x100000000) by (nonlinear_arith)
            requires
                a <= 0xFFFF && b <= 0xFFFF,
        ;
    }
    (((a as u32) * (b as u32)) % 0x10000) as u16
}

pub fn shift_left16(v: u16, n: u16) -> (r: u16)
    ensures
        r == shl16(v, n),
{
    if n >= 16 {
        0
    } else {
        v << n
    }
}

pub fn shift_right16(v: u16, n: u16) -> (r: u16)
    ensures
        r == shr16(v, n),
{
    if n >= 16 {
        0
    } else {
        v >> n
    }
}

} // verus!
