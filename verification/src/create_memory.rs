//! A bare byte array and its constructor, the simplest storage the
//! machine can be seeded with.

use vstd::prelude::*;

use crate::memory::zero_seq;
use crate::memory::zeroed;

verus! {

/// A growable-in-name-only byte array: allocated once, indexed ever after.
pub struct ByteArray {
    buffer: Vec<u8>,
}

impl View for ByteArray {
    type V = Seq<u8>;

    closed spec fn view(&self) -> Seq<u8> {
        self.buffer@
    }
}

impl ByteArray {
    /// A zero-initialised array of `length` bytes.
    pub fn new(length: usize) -> (a: ByteArray)
        ensures
            a@ == zero_seq(length as nat),
    {
        ByteArray { buffer: zeroed(length) }
    }

    /// Writes one byte.
    pub fn set_byte(&mut self, data: u8, index: usize)
        requires
            index < old(self)@.len(),
        ensures
            final(self)@ == old(self)@.update(index as int, data),
    {
        self.buffer[index] = data;
    }

    /// Reads one byte.
    pub fn get_byte(&self, index: usize) -> (b: u8)
        requires
            index < self@.len(),
        ensures
            b == self@[index as int],
    {
        self.buffer[index]
    }
}

/// A fresh zeroed byte array of `length` bytes.
pub fn create_memory(length: usize) -> (a: ByteArray)
    ensures
        a@ == zero_seq(length as nat),
{
    ByteArray::new(length)
}

} // verus!
