//! A raw buffer with its logical length kept beside it.

use vstd::prelude::*;

use crate::memory::zero_seq;
use crate::memory::zeroed;

verus! {

/// A zero-initialised byte buffer together with its length in bytes.
pub struct ArrayBuffer {
    pub buffer: Vec<u8>,
    pub length: u16,
}

impl ArrayBuffer {
    /// A zeroed buffer of `length` bytes.
    pub fn new(length: usize) -> (a: ArrayBuffer)
        requires
            length <= 0xFFFF,
        ensures
            a.buffer@ == zero_seq(length as nat),
            a.length == length,
    {
        ArrayBuffer { buffer: zeroed(length), length: length as u16 }
    }
}

/// A fresh zeroed buffer of `length` bytes.
pub fn create_memory(length: usize) -> (a: ArrayBuffer)
    requires
        length <= 0xFFFF,
    ensures
        a.buffer@ == zero_seq(length as nat),
        a.length == length,
{
    ArrayBuffer::new(length)
}

} // verus!
