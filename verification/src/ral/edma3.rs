//! Third-generation controller registers.
//!
//! This generation gives every channel its own register block next to its
//! descriptor: control/status, error status, interrupt flag, and the request
//! multiplexer all live per channel. Only hardware-request status remains in
//! the shared management block.

use crate::bits::nth_bit;
use crate::ral::tcd;
use crate::ChannelView;
use vstd::prelude::*;

verus! {

/// Per-channel control/status bit: the request-enable bit (bit 0).
pub const CH_CSR_ERQ: u32 = 0x0000_0001;

/// Per-channel control/status bit: the major loop has completed (bit 30).
pub const CH_CSR_DONE: u32 = 0x4000_0000;

/// Per-channel control/status bit: the channel is actively moving data (bit 31).
pub const CH_CSR_ACTIVE: u32 = 0x8000_0000;

/// Per-channel error-status bit: the channel observed an error (bit 31).
pub const CH_ES_ERR: u32 = 0x8000_0000;

/// Management control/status bit: replicate the programming bus controller's
/// domain identifier into each channel (bit 7).
pub const MP_CSR_GMRC: u32 = 0x0000_0080;

/// One channel's register block: control, status, and multiplexing beside
/// the transfer control descriptor. Shared by the third and fourth
/// generations.
#[derive(Debug, Clone, Copy, PartialEq, Eq, Structural)]
pub struct ChannelRegisterBlock {
    /// Channel control/status: request enable, done, active.
    pub csr: u32,
    /// Channel error status: error flag in the highest bit, cause bits below.
    pub es: u32,
    /// Channel interrupt flag: nonzero while an interrupt is pending.
    pub int: u32,
    /// Channel system-bus configuration.
    pub sbr: u32,
    /// Channel priority.
    pub pri: u32,
    /// Channel request multiplexer: the routed request-source selector.
    pub mux: u32,
    /// The channel's transfer control descriptor.
    pub tcd: tcd::RegisterBlock,
}

/// What one per-channel register block reports through the uniform
/// interface; the hardware-request bit lives outside it and is passed in.
pub open spec fn channel_view(ch: ChannelRegisterBlock, hardware_signal: bool) -> ChannelView {
    ChannelView {
        enabled: ch.csr & CH_CSR_ERQ != 0,
        active: ch.csr & CH_CSR_ACTIVE != 0,
        done: ch.csr & CH_CSR_DONE != 0,
        error: ch.es & CH_ES_ERR != 0,
        interrupt: ch.int != 0,
        hardware_signal,
        start: ch.tcd.start_bit(),
        error_status: ch.es,
        mux: ch.mux,
        tcd: ch.tcd.configured(),
    }
}

/// The third-generation controller: the management block plus one register
/// block per channel.
pub struct RegisterBlock {
    /// Management control/status register.
    pub csr: u32,
    /// Management error-status register.
    pub es: u32,
    /// Aggregate interrupt-request bits, one per channel.
    pub int: u32,
    /// Hardware-request-status bits, one per channel.
    pub hrs: u32,
    /// Per-channel register blocks.
    pub tcd: Vec<ChannelRegisterBlock>,
}

/// What a channel of this generation reports through the uniform interface.
pub open spec fn controller_channel_view(regs: RegisterBlock, i: int) -> ChannelView {
    channel_view(regs.tcd@[i], nth_bit(regs.hrs, i as u32))
}

} // verus!
