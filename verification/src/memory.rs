//! The address space the register-activity model moves data through.
//!
//! Transfers are described over 32-bit addresses. `Memory` realizes a span
//! of that address space as plain bytes, so a programmed transfer can be
//! run against it and its effect stated byte for byte.

use vstd::prelude::*;

verus! {

/// A byte-addressed span of the 32-bit address space, starting at address
/// zero.
pub struct Memory {
    bytes: Vec<u8>,
}

impl View for Memory {
    type V = Seq<u8>;

    closed spec fn view(&self) -> Seq<u8> {
        self.bytes@
    }
}

impl Memory {
    /// Allocates `size` bytes, all zero.
    pub fn new(size: usize) -> (r: Memory)
        ensures
            r@ =~= Seq::new(size as nat, |i: int| 0u8),
    {
        let mut bytes: Vec<u8> = Vec::new();
        let mut i: usize = 0;
        while i < size
            invariant
                i <= size,
                bytes@ =~= Seq::new(i as nat, |j: int| 0u8),
            decreases size - i,
        {
            bytes.push(0);
            i = i + 1;
        }
        Memory { bytes }
    }

    /// The number of addressable bytes.
    pub fn len(&self) -> (r: usize)
        ensures
            r == self@.len(),
    {
        self.bytes.len()
    }

    /// Reads the byte at `address`.
    pub fn read_byte(&self, address: u32) -> (r: u8)
        requires
            address < self@.len(),
        ensures
            r == self@[address as int],
    {
        self.bytes[address as usize]
    }

    /// Writes the byte at `address`.
    pub fn write_byte(&mut self, address: u32, value: u8)
        requires
            address < old(self)@.len(),
        ensures
            final(self)@ =~= old(self)@.update(address as int, value),
    {
        self.bytes.set(address as usize, value);
    }
}

} // verus!
