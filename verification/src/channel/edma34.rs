//! Channel operations on the later-generation controllers.
//!
//! The third and fourth generations keep everything per channel: control,
//! status, error, interrupt, and request multiplexing all live in the
//! channel's own register block beside its descriptor. These operations act
//! on one such block; only the hardware-request bit lives outside it, so
//! each contract holds for whatever that bit reads.

use crate::ral::edma3::channel_view;
use crate::ral::edma3::ChannelRegisterBlock;
use crate::ral::edma3::CH_CSR_ACTIVE;
use crate::ral::edma3::CH_CSR_DONE;
use crate::ral::edma3::CH_CSR_ERQ;
use crate::ral::edma3::CH_ES_ERR;
use crate::ral::tcd;
use crate::ChannelView;
use vstd::prelude::*;

verus! {

/// Sets the request-enable bit in the channel's control/status register.
pub(crate) fn block_enable(ch: &mut ChannelRegisterBlock)
    ensures
        forall|h: bool|
            channel_view(*final(ch), h) == (ChannelView {
                enabled: true,
                ..channel_view(*old(ch), h)
            }),
{
    let c = ch.csr;
    ch.csr = c | CH_CSR_ERQ;
    proof {
        assert((c | CH_CSR_ERQ) & CH_CSR_ERQ != 0 && (c | CH_CSR_ERQ) & CH_CSR_ACTIVE == c
            & CH_CSR_ACTIVE && (c | CH_CSR_ERQ) & CH_CSR_DONE == c & CH_CSR_DONE) by (bit_vector);
    }
}

/// Clears the request-enable bit in the channel's control/status register.
pub(crate) fn block_disable(ch: &mut ChannelRegisterBlock)
    ensures
        forall|h: bool|
            channel_view(*final(ch), h) == (ChannelView {
                enabled: false,
                ..channel_view(*old(ch), h)
            }),
{
    let c = ch.csr;
    ch.csr = c & !CH_CSR_ERQ;
    proof {
        assert((c & !CH_CSR_ERQ) & CH_CSR_ERQ == 0 && (c & !CH_CSR_ERQ) & CH_CSR_ACTIVE == c
            & CH_CSR_ACTIVE && (c & !CH_CSR_ERQ) & CH_CSR_DONE == c & CH_CSR_DONE) by (bit_vector);
    }
}

/// Clears the done bit, as the write-one-to-clear done flag does.
pub(crate) fn block_clear_complete(ch: &mut ChannelRegisterBlock)
    ensures
        forall|h: bool|
            channel_view(*final(ch), h) == (ChannelView {
                done: false,
                ..channel_view(*old(ch), h)
            }),
{
    let c = ch.csr;
    ch.csr = c & !CH_CSR_DONE;
    proof {
        assert((c & !CH_CSR_DONE) & CH_CSR_DONE == 0 && (c & !CH_CSR_DONE) & CH_CSR_ACTIVE == c
            & CH_CSR_ACTIVE && (c & !CH_CSR_DONE) & CH_CSR_ERQ == c & CH_CSR_ERQ) by (bit_vector);
    }
}

/// Clears the channel's write-one-to-clear interrupt flag.
pub(crate) fn block_clear_interrupt(ch: &mut ChannelRegisterBlock)
    ensures
        forall|h: bool|
            channel_view(*final(ch), h) == (ChannelView {
                interrupt: false,
                ..channel_view(*old(ch), h)
            }),
{
    ch.int = 0;
}

/// Clears the error flag in the channel's error-status register, as the
/// write-one-to-clear flag does; the recorded cause bits stay readable.
pub(crate) fn block_clear_error(ch: &mut ChannelRegisterBlock)
    ensures
        forall|h: bool|
            channel_view(*final(ch), h) == (ChannelView {
                error: false,
                error_status: old(ch).es & !CH_ES_ERR,
                ..channel_view(*old(ch), h)
            }),
{
    let e = ch.es;
    ch.es = e & !CH_ES_ERR;
    proof {
        assert((e & !CH_ES_ERR) & CH_ES_ERR == 0) by (bit_vector);
    }
}

/// Writes the channel's request-multiplexer register.
pub(crate) fn block_write_mux(ch: &mut ChannelRegisterBlock, value: u32)
    ensures
        forall|h: bool|
            channel_view(*final(ch), h) == (ChannelView {
                mux: value,
                ..channel_view(*old(ch), h)
            }),
{
    ch.mux = value;
}

/// Writes the channel's raw descriptor. On this generation the done and
/// active bits live outside the descriptor, so only the configured
/// descriptor and the start bit follow the written value.
pub(crate) fn block_write_descriptor(ch: &mut ChannelRegisterBlock, t: tcd::RegisterBlock)
    ensures
        final(ch).tcd == t,
        forall|h: bool|
            channel_view(*final(ch), h) == (ChannelView {
                start: t.start_bit(),
                tcd: t.configured(),
                ..channel_view(*old(ch), h)
            }),
{
    ch.tcd = t;
}

/// Sets the start bit in the channel's descriptor: the software service
/// request for generations without a dedicated start port.
pub(crate) fn block_start(ch: &mut ChannelRegisterBlock)
    ensures
        forall|h: bool|
            channel_view(*final(ch), h) == (ChannelView {
                start: true,
                ..channel_view(*old(ch), h)
            }),
{
    let t = ch.tcd;
    ch.tcd = tcd::RegisterBlock { csr: t.csr | tcd::CSR_START, ..t };
    proof {
        let c = t.csr;
        assert((c | tcd::CSR_START) & tcd::CSR_START != 0 && (c | tcd::CSR_START)
            & tcd::CSR_CONFIG_MASK == c & tcd::CSR_CONFIG_MASK) by (bit_vector);
    }
}

/// Sets the done bit, as the engine does when the major loop completes.
pub(crate) fn block_set_complete(ch: &mut ChannelRegisterBlock)
    ensures
        forall|h: bool|
            channel_view(*final(ch), h) == (ChannelView {
                done: true,
                ..channel_view(*old(ch), h)
            }),
{
    let c = ch.csr;
    ch.csr = c | CH_CSR_DONE;
    proof {
        assert((c | CH_CSR_DONE) & CH_CSR_DONE != 0 && (c | CH_CSR_DONE) & CH_CSR_ACTIVE == c
            & CH_CSR_ACTIVE && (c | CH_CSR_DONE) & CH_CSR_ERQ == c & CH_CSR_ERQ) by (bit_vector);
    }
}

/// Raises the channel's interrupt flag, as the engine does when a
/// completed major loop asks for an interrupt.
pub(crate) fn block_raise_interrupt(ch: &mut ChannelRegisterBlock)
    ensures
        forall|h: bool|
            channel_view(*final(ch), h) == (ChannelView {
                interrupt: true,
                ..channel_view(*old(ch), h)
            }),
{
    ch.int = 1;
}

/// Records a transfer error in the channel's error-status register.
pub(crate) fn block_raise_error(ch: &mut ChannelRegisterBlock, es: u32)
    requires
        es & CH_ES_ERR != 0,
    ensures
        forall|h: bool|
            channel_view(*final(ch), h) == (ChannelView {
                error: true,
                error_status: es,
                ..channel_view(*old(ch), h)
            }),
{
    ch.es = es;
}

/// Reads the request-enable bit.
pub(crate) fn block_is_enabled(ch: &ChannelRegisterBlock) -> (r: bool)
    ensures
        forall|h: bool| r == channel_view(*ch, h).enabled,
{
    ch.csr & CH_CSR_ERQ != 0
}

/// Reads the done bit.
pub(crate) fn block_is_complete(ch: &ChannelRegisterBlock) -> (r: bool)
    ensures
        forall|h: bool| r == channel_view(*ch, h).done,
{
    ch.csr & CH_CSR_DONE != 0
}

/// Reads the active bit.
pub(crate) fn block_is_active(ch: &ChannelRegisterBlock) -> (r: bool)
    ensures
        forall|h: bool| r == channel_view(*ch, h).active,
{
    ch.csr & CH_CSR_ACTIVE != 0
}

/// Reads the error flag.
pub(crate) fn block_is_error(ch: &ChannelRegisterBlock) -> (r: bool)
    ensures
        forall|h: bool| r == channel_view(*ch, h).error,
{
    ch.es & CH_ES_ERR != 0
}

/// Reads the interrupt flag.
pub(crate) fn block_is_interrupt(ch: &ChannelRegisterBlock) -> (r: bool)
    ensures
        forall|h: bool| r == channel_view(*ch, h).interrupt,
{
    ch.int != 0
}

/// Reads the channel's error-status register.
pub(crate) fn block_error_status(ch: &ChannelRegisterBlock) -> (r: u32)
    ensures
        forall|h: bool| r == channel_view(*ch, h).error_status,
{
    ch.es
}

/// Reads the channel's raw descriptor.
pub(crate) fn block_read_descriptor(ch: &ChannelRegisterBlock) -> (t: tcd::RegisterBlock)
    ensures
        t == ch.tcd,
{
    ch.tcd
}

} // verus!
