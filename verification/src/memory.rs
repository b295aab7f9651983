//! Plain byte storage: a fixed-size, zero-initialised buffer.

use vstd::prelude::*;

verus! {

/// The sequence of `length` zero bytes.
pub open spec fn zero_seq(length: nat) -> Seq<u8> {
    Seq::new(length, |i: int| 0u8)
}

/// Builds a zero-filled byte buffer of the given length.
pub(crate) fn zeroed(length: usize) -> (v: Vec<u8>)
    ensures
        v@ == zero_seq(length as nat),
{
    let mut v: Vec<u8> = Vec::new();
    let mut i: usize = 0;
    while i < length
        invariant
            i <= length,
            v@ == zero_seq(i as nat),
        decreases length - i,
    {
        v.push(0x00);
        i = i + 1;
        proof {
            assert(v@ =~= zero_seq(i as nat));
        }
    }
    v
}

/// A fixed-size block of byte storage.
pub struct Memory {
    buffer: Vec<u8>,
    pub length: u16,
}

impl View for Memory {
    type V = Seq<u8>;

    closed spec fn view(&self) -> Seq<u8> {
        self.buffer@
    }
}

impl Memory {
    /// A zero-initialised block of `length` bytes.
    pub fn new(length: usize) -> (m: Memory)
        requires
            length <= 0xFFFF,
        ensures
            m@ == zero_seq(length as nat),
    {
        Memory { buffer: zeroed(length), length: length as u16 }
    }

    /// Writes one byte.
    pub fn set_byte(&mut self, data: u8, address: usize)
        requires
            address < old(self)@.len(),
        ensures
            final(self)@ == old(self)@.update(address as int, data),
    {
        self.buffer[address] = data;
    }

    /// Reads one byte.
    pub fn get_byte(&self, address: usize) -> (b: u8)
        requires
            address < self@.len(),
        ensures
            b == self@[address as int],
    {
        self.buffer[address]
    }
}

} // verus!
