//! Transfer element sizes.
//!
//! The DMA engine moves data one element at a time. The element size is fixed
//! per descriptor and encoded in the descriptor's transfer-attribute field as
//! a three-bit code.

use vstd::prelude::*;

verus! {

/// The size of one transfer element.
#[derive(Debug, Clone, Copy, PartialEq, Eq, Structural)]
pub enum ElementSize {
    /// One-byte elements.
    One,
    /// Two-byte elements.
    Two,
    /// Four-byte elements.
    Four,
    /// Eight-byte elements.
    Eight,
}

impl ElementSize {
    /// The element size in bytes.
    pub open spec fn bytes(self) -> u32 {
        match self {
            ElementSize::One => 1,
            ElementSize::Two => 2,
            ElementSize::Four => 4,
            ElementSize::Eight => 8,
        }
    }

    /// The three-bit size code stored in the descriptor's attribute field.
    pub open spec fn code(self) -> u8 {
        match self {
            ElementSize::One => 0,
            ElementSize::Two => 1,
            ElementSize::Four => 2,
            ElementSize::Eight => 3,
        }
    }

    /// Returns the element size in bytes.
    pub fn size_bytes(self) -> (r: u32)
        ensures
            r == self.bytes(),
    {
        match self {
            ElementSize::One => 1,
            ElementSize::Two => 2,
            ElementSize::Four => 4,
            ElementSize::Eight => 8,
        }
    }

    /// Returns the three-bit size code used in the attribute field.
    pub fn data_transfer_id(self) -> (r: u8)
        ensures
            r == self.code(),
    {
        match self {
            ElementSize::One => 0,
            ElementSize::Two => 1,
            ElementSize::Four => 2,
            ElementSize::Eight => 3,
        }
    }
}

} // verus!
