//! The memory-to-memory canned operation.
//!
//! [`memcpy`] composes a channel and two linear-buffer descriptors into an
//! in-memory copy. No hardware requester is involved, so instead of routing
//! a request signal it issues one software start; the engine then runs the
//! whole major loop from that single request. Like the peripheral
//! operations it schedules the transfer and returns at once, and reports an
//! error observed right after the start by disabling the channel, clearing
//! the error, and returning the captured status.

use crate::channel::attr_encoding;
use crate::channel::Channel;
use crate::channel::Transfer;
use crate::channel::TransferView;
use crate::element::ElementSize;
use crate::error::Error;
use crate::peripheral::linear_side;
use crate::ral;
use crate::ral::tcd;
use crate::ChannelView;
use crate::Dma;
use vstd::prelude::*;

verus! {

/// The channel view after a memory-to-memory copy has been scheduled: both
/// linear sides installed, one element per service request, `len`
/// iterations, and one software start pending. The request routing and
/// the request-enable bit are not touched.
pub open spec fn copy_armed(
    c: ChannelView,
    source: TransferView,
    destination: TransferView,
    element: ElementSize,
    len: u16,
) -> ChannelView {
    ChannelView {
        start: true,
        tcd: (tcd::RegisterBlock {
            saddr: source.address,
            soff: source.offset,
            sattr: attr_encoding(source),
            slast: source.adjustment,
            daddr: destination.address,
            doff: destination.offset,
            dattr: attr_encoding(destination),
            dlast_sga: destination.adjustment,
            nbytes: element.bytes(),
            citer: len,
            biter: len,
            ..c.tcd
        }),
        ..c
    }
}

/// A copy scheduled by [`memcpy`] is serviceable: for any nonempty
/// length, the descriptor it installs is one the engine accepts, so
/// running it can raise no configuration error.
pub proof fn lemma_copy_descriptor_valid(
    c: ChannelView,
    source: TransferView,
    destination: TransferView,
    element: ElementSize,
    len: u16,
)
    requires
        1 <= len <= tcd::ITERATION_MASK,
        source.element == element,
        destination.element == element,
    ensures
        crate::engine::descriptor_valid(copy_armed(c, source, destination, element, len).tcd),
{
    crate::peripheral::lemma_attr_size(source);
    crate::peripheral::lemma_attr_size(destination);
    match element {
        ElementSize::One => {},
        ElementSize::Two => {},
        ElementSize::Four => {},
        ElementSize::Eight => {},
    }
    vstd::arithmetic::div_mod::lemma_mod_self_0(element.bytes() as int);
}

/// Schedules a memory-to-memory copy of `len` elements from the linear
/// buffer at `source_address` to the linear buffer at
/// `destination_address`, driven by one software start request.
///
/// The copy is scheduled, not complete, on success; the caller must
/// guarantee both buffers stay valid until completion is observed and that
/// no transfer is already active on the channel. An error observed right
/// after the start disables the channel, clears the error, and is returned
/// decoded.
#[verifier::rlimit(100)]
pub fn memcpy(
    channel: &Channel,
    dma: &mut Dma,
    source_address: u32,
    destination_address: u32,
    len: u16,
    element: ElementSize,
) -> (r: Result<(), Error>)
    requires
        old(dma).wf(),
        channel.in_range(old(dma)@),
        len <= tcd::ITERATION_MASK,
    ensures
        final(dma).wf(),
        (r is Err) == old(dma)@.channels[channel.idx()].error,
        ({
            let c = old(dma)@.channels[channel.idx()];
            let armed = copy_armed(
                c,
                linear_side(source_address, len, element),
                linear_side(destination_address, len, element),
                element,
                len,
            );
            &&& (r is Ok ==> final(dma)@ =~= old(dma)@.with_channel(channel.idx(), armed))
            &&& (r matches Err(e) ==> e.raw_spec() == c.error_status && final(dma)@ =~= old(
                dma,
            )@.with_channel(
                channel.idx(),
                (ChannelView {
                    enabled: false,
                    error: false,
                    error_status: if old(dma)@.generation == crate::Generation::EDma {
                        c.error_status
                    } else {
                        c.error_status & !ral::edma3::CH_ES_ERR
                    },
                    ..armed
                }),
            ))
        }),
{
    let source = Transfer::buffer_linear(source_address, len as usize, element);
    let destination = Transfer::buffer_linear(destination_address, len as usize, element);
    channel.set_source_transfer(dma, &source);
    channel.set_destination_transfer(dma, &destination);
    channel.set_minor_loop_elements(dma, element, 1);
    channel.set_transfer_iterations(dma, len);
    // A hardware-facing build must place a memory barrier here: the
    // descriptor writes must reach the register file before the start
    // request. The register model is sequential, so nothing reorders.
    channel.start(dma);
    if channel.is_error(dma) {
        channel.disable(dma);
        let es = channel.error_status(dma);
        channel.clear_error(dma);
        Err(es)
    } else {
        Ok(())
    }
}

} // verus!
