//! First-generation controller registers.
//!
//! This generation keeps per-channel control and status as one bit per
//! channel inside shared 32-bit registers, pairs the controller with a
//! separate multiplexer block, and stores completion and activity inside the
//! descriptor's control/status word. The hardware's byte-wide set/clear ports
//! (set request, clear request, clear done, software start, clear error,
//! clear interrupt) are operations on these registers; the channel code
//! models each port by the single-bit update it performs.

use crate::bits::nth_bit;
use crate::ral::dmamux;
use crate::ral::tcd;
use crate::ChannelView;
use vstd::prelude::*;

verus! {

/// The shared controller registers and the per-channel descriptors.
pub struct RegisterBlock {
    /// Control register.
    pub cr: u32,
    /// Global error-status register: a snapshot of the last transfer error.
    pub es: u32,
    /// Enable-request bits, one per channel.
    pub erq: u32,
    /// Enable-error-interrupt bits, one per channel.
    pub eei: u32,
    /// Interrupt-request bits, one per channel.
    pub int: u32,
    /// Error bits, one per channel.
    pub err: u32,
    /// Hardware-request-status bits, one per channel.
    pub hrs: u32,
    /// Enable-asynchronous-request bits, one per channel.
    pub ears: u32,
    /// Channel priority registers.
    pub dchpri: ChannelPriorityRegisters,
    /// Transfer control descriptors, one per channel.
    pub tcd: Vec<tcd::RegisterBlock>,
}

/// What a channel of this generation reports through the uniform interface.
pub open spec fn channel_view(regs: RegisterBlock, mux: dmamux::RegisterBlock, i: int) -> ChannelView {
    ChannelView {
        enabled: nth_bit(regs.erq, i as u32),
        active: regs.tcd@[i].active_bit(),
        done: regs.tcd@[i].done_bit(),
        error: nth_bit(regs.err, i as u32),
        interrupt: nth_bit(regs.int, i as u32),
        hardware_signal: nth_bit(regs.hrs, i as u32),
        start: regs.tcd@[i].start_bit(),
        error_status: regs.es,
        mux: mux.chcfg@[i],
        tcd: regs.tcd@[i].configured(),
    }
}

/// Channel priority registers.
///
/// The hardware stores the byte-wide priority registers in a swizzled order:
/// within each group of four channels the bytes appear highest channel
/// first. [`index`](ChannelPriorityRegisters::index) converts a channel
/// number to its storage slot.
pub struct ChannelPriorityRegisters {
    /// The priority bytes in hardware storage order.
    pub dchpri: Vec<u8>,
}

impl ChannelPriorityRegisters {
    /// Converts a channel number to the storage slot of its priority
    /// register. Within each aligned group of four channels the hardware
    /// lays the bytes out in reverse: channels 0 to 3 live in slots 3 down
    /// to 0, channels 4 to 7 in slots 7 down to 4, and so on.
    pub fn index(&self, channel: usize) -> (slot: usize)
        requires
            channel < 32,
            self.dchpri@.len() == 32,
        ensures
            slot == 4 * (channel as int / 4) + (3 - channel as int % 4),
            slot < 32,
    {
        4 * (channel / 4) + (3 - channel % 4)
    }
}

} // verus!
