//! Transfer orchestration.
//!
//! [`transmit`] and [`receive`] compose a channel, two transfer
//! descriptors, and a peripheral collaborator into a canned operation:
//! memory to peripheral, or peripheral to memory. They enable the
//! peripheral's request generation, route its request signal through the
//! channel's multiplexer, install the descriptors on the correct sides, set
//! the minor loop to one element and the major loop to the buffer length,
//! and enable the channel. They schedule the transfer and return at once:
//! completion is the caller's to observe, by polling the channel or through
//! its completion cell. If the status read that follows the enable shows an
//! error, they disable the channel, capture and clear the error, and report
//! the captured status.

use crate::channel::attr_encoding;
use crate::channel::mux_encoding;
use crate::channel::Channel;
use crate::channel::ChannelConfiguration;
use crate::channel::Transfer;
use crate::channel::TransferView;
use crate::element::ElementSize;
use crate::error::Error;
use crate::ral;
use crate::ral::tcd;
use crate::ChannelView;
use crate::Dma;
use vstd::prelude::*;

verus! {

/// The minimal contract a DMA-capable peripheral offers the orchestration
/// helpers: the fixed address of its data register, the element size that
/// register moves, its hardware request-signal number, and hooks to gate
/// its own request generation. The orchestration helpers call each hook
/// exactly once per scheduled transfer, before arming the channel.
pub trait Peripheral {
    /// The fixed address of the peripheral's data register.
    spec fn data_address_spec(&self) -> u32;

    /// The peripheral's hardware request-signal number.
    spec fn request_signal_spec(&self) -> u32;

    /// The element size of the peripheral's data register.
    spec fn element_spec(&self) -> ElementSize;

    /// Returns the fixed address of the peripheral's data register.
    fn data_address(&self) -> (r: u32)
        ensures
            r == self.data_address_spec(),
    ;

    /// Returns the peripheral's hardware request-signal number.
    fn request_signal(&self) -> (r: u32)
        ensures
            r == self.request_signal_spec(),
    ;

    /// Returns the element size of the peripheral's data register.
    fn element(&self) -> (r: ElementSize)
        ensures
            r == self.element_spec(),
    ;

    /// Enables the peripheral's own DMA request generation.
    fn enable_request(&mut self)
        ensures
            final(self).data_address_spec() == old(self).data_address_spec(),
            final(self).request_signal_spec() == old(self).request_signal_spec(),
            final(self).element_spec() == old(self).element_spec(),
    ;

    /// Disables the peripheral's own DMA request generation.
    fn disable_request(&mut self)
        ensures
            final(self).data_address_spec() == old(self).data_address_spec(),
            final(self).request_signal_spec() == old(self).request_signal_spec(),
            final(self).element_spec() == old(self).element_spec(),
    ;
}

/// The channel view after a transfer has been scheduled: request routing
/// enabled for `signal`, the two descriptor sides installed, one element
/// per service request, `len` iterations, and the channel enabled.
pub open spec fn scheduled(
    c: ChannelView,
    g: crate::Generation,
    source: TransferView,
    destination: TransferView,
    element: ElementSize,
    len: u16,
    signal: u32,
) -> ChannelView {
    ChannelView {
        enabled: true,
        mux: mux_encoding(g, ChannelConfiguration::Enable { source: signal, periodic: false }),
        tcd: (tcd::RegisterBlock {
            saddr: source.address,
            soff: source.offset,
            sattr: attr_encoding(source),
            slast: source.adjustment,
            daddr: destination.address,
            doff: destination.offset,
            dattr: attr_encoding(destination),
            dlast_sga: destination.adjustment,
            nbytes: element.bytes(),
            citer: len,
            biter: len,
            ..c.tcd
        }),
        ..c
    }
}

/// The linear-buffer side of a scheduled transfer, as
/// [`Transfer::buffer_linear`] builds it.
pub open spec fn linear_side(address: u32, len: u16, element: ElementSize) -> TransferView {
    TransferView {
        address,
        offset: element.bytes() as i16,
        modulo: 0,
        adjustment: (-(len * element.bytes())) as i32,
        element,
    }
}

/// The fixed-register side of a scheduled transfer, as
/// [`Transfer::hardware`] builds it.
pub open spec fn register_side(address: u32, element: ElementSize) -> TransferView {
    TransferView { address, offset: 0, modulo: 0, adjustment: 0, element }
}

/// A transfer scheduled by the orchestration helpers is serviceable: for
/// any nonempty length, the descriptor it installs is one the engine
/// accepts, so running it can raise no configuration error.
pub proof fn lemma_scheduled_descriptor_valid(
    c: ChannelView,
    g: crate::Generation,
    source: TransferView,
    destination: TransferView,
    element: ElementSize,
    len: u16,
    signal: u32,
)
    requires
        1 <= len <= tcd::ITERATION_MASK,
        source.element == element,
        destination.element == element,
    ensures
        crate::engine::descriptor_valid(scheduled(c, g, source, destination, element, len, signal).tcd),
{
    lemma_attr_size(source);
    lemma_attr_size(destination);
    match element {
        ElementSize::One => {},
        ElementSize::Two => {},
        ElementSize::Four => {},
        ElementSize::Eight => {},
    }
    vstd::arithmetic::div_mod::lemma_mod_self_0(element.bytes() as int);
}

/// The attribute byte a descriptor side packs decodes back to its element
/// size.
pub proof fn lemma_attr_size(v: TransferView)
    ensures
        crate::engine::attr_size(attr_encoding(v)) == v.element.bytes(),
{
    let m = (v.modulo % 32) as u8;
    let code = v.element.code();
    assert((((m << 3) | code) & 7) == code) by (bit_vector)
        requires
            code <= 3 && m <= 31,
    ;
    assert(attr_encoding(v) & 7 == v.element.code());
    match v.element {
        ElementSize::One => {},
        ElementSize::Two => {},
        ElementSize::Four => {},
        ElementSize::Eight => {},
    }
}

/// Schedules a transfer and reports the immediately observed outcome: if
/// the channel shows an error right after being enabled, disables it,
/// captures and clears the error, and returns the captured status.
#[verifier::rlimit(100)]
fn arm_and_check<P: Peripheral>(
    channel: &Channel,
    dma: &mut Dma,
    peripheral: &mut P,
    source: &Transfer,
    destination: &Transfer,
    element: ElementSize,
    len: u16,
) -> (r: Result<(), Error>)
    requires
        old(dma).wf(),
        channel.in_range(old(dma)@),
        len < 0x8000,
    ensures
        final(dma).wf(),
        final(peripheral).data_address_spec() == old(peripheral).data_address_spec(),
        final(peripheral).request_signal_spec() == old(peripheral).request_signal_spec(),
        final(peripheral).element_spec() == old(peripheral).element_spec(),
        (r is Err) == old(dma)@.channels[channel.idx()].error,
        ({
            let c = old(dma)@.channels[channel.idx()];
            let armed = scheduled(
                c,
                old(dma)@.generation,
                source@,
                destination@,
                element,
                len,
                old(peripheral).request_signal_spec(),
            );
            &&& (r is Ok ==> final(dma)@ =~= old(dma)@.with_channel(channel.idx(), armed))
            &&& (r matches Err(e) ==> e.raw_spec() == c.error_status && final(dma)@ =~= old(
                dma,
            )@.with_channel(
                channel.idx(),
                (ChannelView {
                    enabled: false,
                    error: false,
                    error_status: if old(dma)@.generation == crate::Generation::EDma {
                        c.error_status
                    } else {
                        c.error_status & !ral::edma3::CH_ES_ERR
                    },
                    ..armed
                }),
            ))
        }),
{
    peripheral.enable_request();
    let signal = peripheral.request_signal();
    let cfg = channel.set_channel_configuration(
        dma,
        ChannelConfiguration::Enable { source: signal, periodic: false },
    );
    proof {
        assert(cfg is Ok);
    }
    channel.set_source_transfer(dma, source);
    channel.set_destination_transfer(dma, destination);
    channel.set_minor_loop_elements(dma, element, 1);
    channel.set_transfer_iterations(dma, len);
    // A hardware-facing build must place a memory barrier here: the
    // descriptor writes must reach the register file before the enable is
    // observed. The register model is sequential, so nothing reorders.
    channel.enable(dma);
    if channel.is_error(dma) {
        channel.disable(dma);
        let es = channel.error_status(dma);
        channel.clear_error(dma);
        Err(es)
    } else {
        Ok(())
    }
}

/// Schedules a memory-to-peripheral transfer: `len` elements from the
/// linear buffer at `source_address` to the peripheral's data register,
/// one element per hardware service request.
///
/// The transfer is scheduled, not complete, on success; the caller must
/// guarantee the source buffer stays valid until completion is observed
/// and that no transfer is already active on the channel. An error
/// observed right after arming disables the channel, clears the error,
/// and is returned decoded.
pub fn transmit<P: Peripheral>(
    channel: &Channel,
    dma: &mut Dma,
    source_address: u32,
    len: u16,
    peripheral: &mut P,
) -> (r: Result<(), Error>)
    requires
        old(dma).wf(),
        channel.in_range(old(dma)@),
        len < 0x8000,
    ensures
        final(dma).wf(),
        final(peripheral).data_address_spec() == old(peripheral).data_address_spec(),
        final(peripheral).request_signal_spec() == old(peripheral).request_signal_spec(),
        final(peripheral).element_spec() == old(peripheral).element_spec(),
        (r is Err) == old(dma)@.channels[channel.idx()].error,
        ({
            let c = old(dma)@.channels[channel.idx()];
            let element = old(peripheral).element_spec();
            let armed = scheduled(
                c,
                old(dma)@.generation,
                linear_side(source_address, len, element),
                register_side(old(peripheral).data_address_spec(), element),
                element,
                len,
                old(peripheral).request_signal_spec(),
            );
            &&& (r is Ok ==> final(dma)@ =~= old(dma)@.with_channel(channel.idx(), armed))
            &&& (r matches Err(e) ==> e.raw_spec() == c.error_status && final(dma)@ =~= old(
                dma,
            )@.with_channel(
                channel.idx(),
                (ChannelView {
                    enabled: false,
                    error: false,
                    error_status: if old(dma)@.generation == crate::Generation::EDma {
                        c.error_status
                    } else {
                        c.error_status & !ral::edma3::CH_ES_ERR
                    },
                    ..armed
                }),
            ))
        }),
{
    let element = peripheral.element();
    let address = peripheral.data_address();
    let source = Transfer::buffer_linear(source_address, len as usize, element);
    let destination = Transfer::hardware(address, element);
    arm_and_check(channel, dma, peripheral, &source, &destination, element, len)
}

/// Schedules a peripheral-to-memory transfer: `len` elements from the
/// peripheral's data register to the linear buffer at
/// `destination_address`, one element per hardware service request.
///
/// The transfer is scheduled, not complete, on success; the caller must
/// guarantee the destination buffer stays valid until completion is
/// observed and that no transfer is already active on the channel. An
/// error observed right after arming disables the channel, clears the
/// error, and is returned decoded.
pub fn receive<P: Peripheral>(
    channel: &Channel,
    dma: &mut Dma,
    destination_address: u32,
    len: u16,
    peripheral: &mut P,
) -> (r: Result<(), Error>)
    requires
        old(dma).wf(),
        channel.in_range(old(dma)@),
        len < 0x8000,
    ensures
        final(dma).wf(),
        final(peripheral).data_address_spec() == old(peripheral).data_address_spec(),
        final(peripheral).request_signal_spec() == old(peripheral).request_signal_spec(),
        final(peripheral).element_spec() == old(peripheral).element_spec(),
        (r is Err) == old(dma)@.channels[channel.idx()].error,
        ({
            let c = old(dma)@.channels[channel.idx()];
            let element = old(peripheral).element_spec();
            let armed = scheduled(
                c,
                old(dma)@.generation,
                register_side(old(peripheral).data_address_spec(), element),
                linear_side(destination_address, len, element),
                element,
                len,
                old(peripheral).request_signal_spec(),
            );
            &&& (r is Ok ==> final(dma)@ =~= old(dma)@.with_channel(channel.idx(), armed))
            &&& (r matches Err(e) ==> e.raw_spec() == c.error_status && final(dma)@ =~= old(
                dma,
            )@.with_channel(
                channel.idx(),
                (ChannelView {
                    enabled: false,
                    error: false,
                    error_status: if old(dma)@.generation == crate::Generation::EDma {
                        c.error_status
                    } else {
                        c.error_status & !ral::edma3::CH_ES_ERR
                    },
                    ..armed
                }),
            ))
        }),
{
    let element = peripheral.element();
    let address = peripheral.data_address();
    let source = Transfer::hardware(address, element);
    let destination = Transfer::buffer_linear(destination_address, len as usize, element);
    arm_and_check(channel, dma, peripheral, &source, &destination, element, len)
}

/// A peripheral model for exercising the orchestration against the
/// register-activity model: its data register is a fixed address in the
/// simulated address space, and its request gate is a plain flag.
pub struct PeripheralModel {
    /// The fixed address of the modeled data register.
    pub data_address: u32,
    /// The hardware request-signal number the model claims.
    pub request_signal: u32,
    /// The element size of the modeled data register.
    pub element: ElementSize,
    /// Whether the model's own request generation is enabled.
    pub request_enabled: bool,
}

impl PeripheralModel {
    /// Builds a peripheral model with request generation disabled.
    pub fn new(data_address: u32, request_signal: u32, element: ElementSize) -> (r:
        PeripheralModel)
        ensures
            r == (PeripheralModel { data_address, request_signal, element, request_enabled: false }),
    {
        PeripheralModel { data_address, request_signal, element, request_enabled: false }
    }
}

impl Peripheral for PeripheralModel {
    open spec fn data_address_spec(&self) -> u32 {
        self.data_address
    }

    open spec fn request_signal_spec(&self) -> u32 {
        self.request_signal
    }

    open spec fn element_spec(&self) -> ElementSize {
        self.element
    }

    fn data_address(&self) -> (r: u32) {
        self.data_address
    }

    fn request_signal(&self) -> (r: u32) {
        self.request_signal
    }

    fn element(&self) -> (r: ElementSize) {
        self.element
    }

    fn enable_request(&mut self) {
        self.request_enabled = true;
    }

    fn disable_request(&mut self) {
        self.request_enabled = false;
    }
}

} // verus!
