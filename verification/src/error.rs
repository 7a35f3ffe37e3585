//! Decoded error status.
//!
//! A hardware transfer error is reported through a 32-bit error-status
//! register. `Error` is an immutable snapshot of that register at the moment
//! of observation, with one accessor per documented bit.

use vstd::prelude::*;

verus! {

/// Error-status bit: destination bus error (bit 0).
pub const ES_DBE: u32 = 0x0000_0001;

/// Error-status bit: source bus error (bit 1).
pub const ES_SBE: u32 = 0x0000_0002;

/// Error-status bit: scatter-gather configuration error (bit 2).
pub const ES_SGE: u32 = 0x0000_0004;

/// Error-status bit: minor-loop byte count or iteration count
/// configuration error (bit 3).
pub const ES_NCE: u32 = 0x0000_0008;

/// Error-status bit: destination offset error (bit 4).
pub const ES_DOE: u32 = 0x0000_0010;

/// Error-status bit: destination address error (bit 5).
pub const ES_DAE: u32 = 0x0000_0020;

/// Error-status bit: source offset error (bit 6).
pub const ES_SOE: u32 = 0x0000_0040;

/// Error-status bit: source address error (bit 7).
pub const ES_SAE: u32 = 0x0000_0080;

/// Error-status field: number of the channel that erred (bits 8 to 12).
pub const ES_ERRCHN_OFFSET: u32 = 8;

/// Error-status bit: channel priority error (bit 14).
pub const ES_CPE: u32 = 0x0000_4000;

/// Error-status bit: group priority error (bit 15).
pub const ES_GPE: u32 = 0x0000_8000;

/// Error-status bit: transfer canceled (bit 16).
pub const ES_ECX: u32 = 0x0001_0000;

/// Error-status bit: the snapshot records a live error (bit 31).
pub const ES_VLD: u32 = 0x8000_0000;

/// A decoded snapshot of an error-status register.
///
/// The value is copyable and never mutated; it stays meaningful after the
/// hardware register has moved on to a later error.
#[derive(Debug, Clone, Copy, PartialEq, Eq, Structural)]
pub struct Error {
    es: u32,
}

impl Error {
    /// The raw register value this snapshot was decoded from.
    pub closed spec fn raw_spec(self) -> u32 {
        self.es
    }

    /// Decodes a raw error-status register value.
    pub fn new(es: u32) -> (r: Error)
        ensures
            r.raw_spec() == es,
    {
        Error { es }
    }

    /// Returns the raw error-status register value.
    pub fn raw(self) -> (r: u32)
        ensures
            r == self.raw_spec(),
    {
        self.es
    }

    /// The snapshot records a live error.
    pub fn is_valid(self) -> (r: bool)
        ensures
            r == (self.raw_spec() & ES_VLD != 0),
    {
        self.es & ES_VLD != 0
    }

    /// The number of the channel that erred.
    pub fn error_channel(self) -> (r: u32)
        ensures
            r == (self.raw_spec() >> ES_ERRCHN_OFFSET) & 0x1F,
    {
        (self.es >> ES_ERRCHN_OFFSET) & 0x1F
    }

    /// The transfer was canceled.
    pub fn transfer_canceled(self) -> (r: bool)
        ensures
            r == (self.raw_spec() & ES_ECX != 0),
    {
        self.es & ES_ECX != 0
    }

    /// Group priority configuration error.
    pub fn group_priority_error(self) -> (r: bool)
        ensures
            r == (self.raw_spec() & ES_GPE != 0),
    {
        self.es & ES_GPE != 0
    }

    /// Channel priority configuration error.
    pub fn channel_priority_error(self) -> (r: bool)
        ensures
            r == (self.raw_spec() & ES_CPE != 0),
    {
        self.es & ES_CPE != 0
    }

    /// Source address error.
    pub fn source_address_error(self) -> (r: bool)
        ensures
            r == (self.raw_spec() & ES_SAE != 0),
    {
        self.es & ES_SAE != 0
    }

    /// Source offset error.
    pub fn source_offset_error(self) -> (r: bool)
        ensures
            r == (self.raw_spec() & ES_SOE != 0),
    {
        self.es & ES_SOE != 0
    }

    /// Destination address error.
    pub fn destination_address_error(self) -> (r: bool)
        ensures
            r == (self.raw_spec() & ES_DAE != 0),
    {
        self.es & ES_DAE != 0
    }

    /// Destination offset error.
    pub fn destination_offset_error(self) -> (r: bool)
        ensures
            r == (self.raw_spec() & ES_DOE != 0),
    {
        self.es & ES_DOE != 0
    }

    /// Minor-loop byte count or iteration count configuration error.
    pub fn nbytes_citer_error(self) -> (r: bool)
        ensures
            r == (self.raw_spec() & ES_NCE != 0),
    {
        self.es & ES_NCE != 0
    }

    /// Scatter-gather configuration error.
    pub fn scatter_gather_error(self) -> (r: bool)
        ensures
            r == (self.raw_spec() & ES_SGE != 0),
    {
        self.es & ES_SGE != 0
    }

    /// Source bus error.
    pub fn source_bus_error(self) -> (r: bool)
        ensures
            r == (self.raw_spec() & ES_SBE != 0),
    {
        self.es & ES_SBE != 0
    }

    /// Destination bus error.
    pub fn destination_bus_error(self) -> (r: bool)
        ensures
            r == (self.raw_spec() & ES_DBE != 0),
    {
        self.es & ES_DBE != 0
    }
}

} // verus!
