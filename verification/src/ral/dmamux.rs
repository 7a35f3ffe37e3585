//! DMA multiplexer registers.
//!
//! Only the first controller generation routes request signals through a
//! separate multiplexer block; the later generations multiplex inside the
//! channel's own register space.

use vstd::prelude::*;

verus! {

/// Multiplexer configuration bit: the channel is enabled (bit 31).
pub const ENBL: u32 = 0x8000_0000;

/// Multiplexer configuration bit: periodic triggering (bit 30), valid only
/// for the lowest four channels, which correspond to the periodic timers.
pub const TRIG: u32 = 0x4000_0000;

/// Multiplexer configuration bit: always on (bit 29); the source selector is
/// ignored while it is set.
pub const A_ON: u32 = 0x2000_0000;

/// DMA multiplexer configuration registers, one 32-bit word per channel.
pub struct RegisterBlock {
    /// Multiplexer configuration registers, indexed by channel.
    pub chcfg: Vec<u32>,
}

} // verus!
