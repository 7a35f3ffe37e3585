//! Fourth-generation controller registers.
//!
//! Identical to the third generation per channel, but the controller serves
//! up to 64 channels, so the shared interrupt and hardware-request status
//! registers are split into a low half for channels 0 to 31 and a high half
//! for channels 32 to 63.

use crate::bits::nth_bit;
use crate::ral::edma3::ChannelRegisterBlock;
use crate::ral::edma3;
use crate::ChannelView;
use vstd::prelude::*;

verus! {

/// The fourth-generation controller: the management block plus one register
/// block per channel.
pub struct RegisterBlock {
    /// Management control/status register.
    pub csr: u32,
    /// Management error-status register.
    pub es: u32,
    /// Aggregate interrupt-request bits for channels 0 to 31.
    pub int_low: u32,
    /// Aggregate interrupt-request bits for channels 32 to 63.
    pub int_high: u32,
    /// Hardware-request-status bits for channels 0 to 31.
    pub hrs_low: u32,
    /// Hardware-request-status bits for channels 32 to 63.
    pub hrs_high: u32,
    /// Per-channel register blocks.
    pub tcd: Vec<ChannelRegisterBlock>,
}

/// The hardware-request bit for channel `i`, read from the half that holds it.
pub open spec fn hardware_signal(regs: RegisterBlock, i: int) -> bool {
    if i < 32 {
        nth_bit(regs.hrs_low, i as u32)
    } else {
        nth_bit(regs.hrs_high, (i - 32) as u32)
    }
}

/// What a channel of this generation reports through the uniform interface.
pub open spec fn controller_channel_view(regs: RegisterBlock, i: int) -> ChannelView {
    edma3::channel_view(regs.tcd@[i], hardware_signal(regs, i))
}

} // verus!
