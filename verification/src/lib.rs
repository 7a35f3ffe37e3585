//! Driver core for a family of DMA controllers.
//!
//! The core lets software describe a memory or peripheral transfer once, in a
//! generation-independent way, and drive it to completion by polling or
//! through a per-channel completion cell. Three hardware generations expose
//! the same logical operations at materially different register layouts; a
//! [`Dma`] driver is built for one generation and every channel operation
//! resolves through that choice.
//!
//! The hardware registers are modeled as plain data (see [`ral`]), so every
//! operation's effect on the register file is stated and checked, and the
//! register-activity model in [`engine`] can run a programmed transfer
//! against an in-memory address space. A hardware-facing build performs the
//! same reads and writes through volatile register cells at fixed addresses;
//! that thin layer lives outside this crate.

use vstd::prelude::*;

mod bits;
pub mod channel;
mod element;
pub mod engine;
pub mod error;
pub mod interrupt;
pub mod memcpy;
pub mod memory;
pub mod peripheral;
pub mod ral;

pub use channel::Channel;
pub use channel::ChannelConfiguration;
pub use channel::ConfigurationError;
pub use channel::Transfer;
pub use element::ElementSize;
pub use error::Error;
pub use ral::tcd::BandwidthControl;

verus! {

use crate::bits::nth_bit;

/// The closed set of controller generations. Decided once when the driver is
/// constructed and fixed for its lifetime.
#[derive(Debug, Clone, Copy, PartialEq, Eq, Structural)]
pub enum Generation {
    /// First generation: shared bitmask registers plus a separate multiplexer.
    EDma,
    /// Third generation: per-channel register blocks, up to 32 channels.
    EDma3,
    /// Fourth generation: per-channel register blocks, up to 64 channels,
    /// with split interrupt and request-status registers.
    EDma4,
}

/// The generation-specific register file owned by the driver.
pub enum Kind {
    EDma { regs: ral::edma::RegisterBlock, mux: ral::dmamux::RegisterBlock },
    EDma3 { regs: ral::edma3::RegisterBlock },
    EDma4 { regs: ral::edma4::RegisterBlock },
}

/// What one channel reports through the generation-independent interface:
/// each field is the meaning of one register bit or field, wherever that
/// generation stores it.
#[verifier::ext_equal]
pub struct ChannelView {
    /// The channel acts on service requests.
    pub enabled: bool,
    /// The channel is actively moving data.
    pub active: bool,
    /// The major loop has completed.
    pub done: bool,
    /// The channel observed a transfer error.
    pub error: bool,
    /// A completion interrupt is pending.
    pub interrupt: bool,
    /// The channel's hardware request line is asserted.
    pub hardware_signal: bool,
    /// A software start request is pending.
    pub start: bool,
    /// The raw error-status register this channel's errors are reported
    /// through: global on the first generation, per channel on the others.
    pub error_status: u32,
    /// The raw request-multiplexer configuration for this channel.
    pub mux: u32,
    /// The transfer control descriptor as configured (status bits masked out).
    pub tcd: ral::tcd::RegisterBlock,
}

impl ChannelView {
    /// Every flag clear and every register zero: the state after power-on
    /// reset of the model.
    pub open spec fn power_on() -> ChannelView {
        ChannelView {
            enabled: false,
            active: false,
            done: false,
            error: false,
            interrupt: false,
            hardware_signal: false,
            start: false,
            error_status: 0,
            mux: 0,
            tcd: ral::tcd::RegisterBlock::zeroed(),
        }
    }
}

/// The driver's full observable state.
#[verifier::ext_equal]
pub struct DmaView {
    /// The controller generation the driver was built for.
    pub generation: Generation,
    /// Whether the controller replicates the programming bus controller's
    /// domain identifier into each channel (later generations only).
    pub id_replication: bool,
    /// One view per channel.
    pub channels: Seq<ChannelView>,
    /// Each channel's completion cell: the registered waiter, if any.
    pub wakers: Seq<Option<u32>>,
    /// Which channel tokens have been handed out.
    pub taken: Seq<bool>,
}

impl DmaView {
    /// This view with channel `i` replaced by `c`.
    pub open spec fn with_channel(self, i: int, c: ChannelView) -> DmaView {
        DmaView { channels: self.channels.update(i, c), ..self }
    }
}

/// A DMA driver: the controller's register file, one completion cell per
/// channel, and the registry of channel tokens already handed out.
///
/// The driver owns all generation-specific state; [`Channel`] tokens carry
/// only their index and operate on the driver they were allocated from.
pub struct Dma {
    pub(crate) controller: Kind,
    pub(crate) wakers: Vec<Option<u32>>,
    pub(crate) taken: Vec<bool>,
}

impl Kind {
    pub(crate) closed spec fn generation(&self) -> Generation {
        match self {
            Kind::EDma { .. } => Generation::EDma,
            Kind::EDma3 { .. } => Generation::EDma3,
            Kind::EDma4 { .. } => Generation::EDma4,
        }
    }

    pub(crate) closed spec fn id_replication(&self) -> bool {
        match self {
            Kind::EDma { .. } => false,
            Kind::EDma3 { regs } => regs.csr & ral::edma3::MP_CSR_GMRC != 0,
            Kind::EDma4 { regs } => regs.csr & ral::edma3::MP_CSR_GMRC != 0,
        }
    }
}

impl Dma {
    /// The number of channels this driver serves.
    pub closed spec fn count(&self) -> nat {
        self.wakers@.len()
    }

    /// The register file is consistent with the channel count: every
    /// per-channel structure has one entry per channel, and the count fits
    /// the generation's limit.
    pub closed spec fn wf(&self) -> bool {
        &&& self.taken@.len() == self.count()
        &&& match self.controller {
            Kind::EDma { regs, mux } => {
                &&& regs.tcd@.len() == self.count()
                &&& mux.chcfg@.len() == self.count()
                &&& regs.dchpri.dchpri@.len() == 32
                &&& self.count() <= 32
            },
            Kind::EDma3 { regs } => regs.tcd@.len() == self.count() && self.count() <= 32,
            Kind::EDma4 { regs } => regs.tcd@.len() == self.count() && self.count() <= 64,
        }
    }

    pub(crate) closed spec fn channel_view_of(controller: Kind, i: int) -> ChannelView {
        match controller {
            Kind::EDma { regs, mux } => ral::edma::channel_view(regs, mux, i),
            Kind::EDma3 { regs } => ral::edma3::controller_channel_view(regs, i),
            Kind::EDma4 { regs } => ral::edma4::controller_channel_view(regs, i),
        }
    }
}

impl View for Dma {
    type V = DmaView;

    closed spec fn view(&self) -> DmaView {
        DmaView {
            generation: self.controller.generation(),
            id_replication: self.controller.id_replication(),
            channels: Seq::new(self.count(), |i: int| Dma::channel_view_of(self.controller, i)),
            wakers: self.wakers@,
            taken: self.taken@,
        }
    }
}

/// A vector holding `n` copies of `value`.
fn filled<T: Copy>(value: T, n: usize) -> (r: Vec<T>)
    ensures
        r@ =~= Seq::new(n as nat, |i: int| value),
{
    let mut r: Vec<T> = Vec::new();
    let mut i: usize = 0;
    while i < n
        invariant
            i <= n,
            r@ =~= Seq::new(i as nat, |j: int| value),
        decreases n - i,
    {
        r.push(value);
        i = i + 1;
    }
    r
}

/// The zero state of every descriptor bit and of the configuration mask.
pub(crate) proof fn lemma_zero_tcd_bits()
    ensures
        !ral::tcd::RegisterBlock::zeroed().done_bit(),
        !ral::tcd::RegisterBlock::zeroed().active_bit(),
        !ral::tcd::RegisterBlock::zeroed().start_bit(),
        ral::tcd::RegisterBlock::zeroed().configured() == ral::tcd::RegisterBlock::zeroed(),
{
    assert(0u16 & ral::tcd::CSR_DONE == 0 && 0u16 & ral::tcd::CSR_ACTIVE == 0 && 0u16
        & ral::tcd::CSR_START == 0 && 0u16 & ral::tcd::CSR_CONFIG_MASK == 0) by (bit_vector);
}

/// No bit of zero is set.
pub(crate) proof fn lemma_zero_word_bits(i: u32)
    by (bit_vector)
    ensures
        !nth_bit(0u32, i),
{
}

/// An all-zero register file reports the power-on view on every channel.
proof fn lemma_power_on_view(controller: Kind, n: nat)
    requires
        match controller {
            Kind::EDma { regs, mux } => {
                &&& regs == (ral::edma::RegisterBlock {
                    cr: 0,
                    es: 0,
                    erq: 0,
                    eei: 0,
                    int: 0,
                    err: 0,
                    hrs: 0,
                    ears: 0,
                    dchpri: regs.dchpri,
                    tcd: regs.tcd,
                })
                &&& regs.tcd@ =~= Seq::new(n, |i: int| ral::tcd::RegisterBlock::zeroed())
                &&& mux.chcfg@ =~= Seq::new(n, |i: int| 0u32)
            },
            Kind::EDma3 { regs } => {
                &&& regs.csr == 0
                &&& regs.hrs == 0
                &&& regs.tcd@ =~= Seq::new(n, |i: int| zeroed_channel_block())
            },
            Kind::EDma4 { regs } => {
                &&& regs.csr == 0
                &&& regs.hrs_low == 0
                &&& regs.hrs_high == 0
                &&& regs.tcd@ =~= Seq::new(n, |i: int| zeroed_channel_block())
            },
        },
    ensures
        forall|i: int| 0 <= i < n ==> Dma::channel_view_of(controller, i) == ChannelView::power_on(),
        !controller.id_replication(),
{
    lemma_zero_tcd_bits();
    assert forall|i: int| 0 <= i < n implies Dma::channel_view_of(controller, i)
        == ChannelView::power_on() by {
        lemma_zero_word_bits(i as u32);
        if i >= 32 {
            lemma_zero_word_bits((i - 32) as u32);
        }
        assert(0u32 & ral::edma3::CH_CSR_ERQ == 0 && 0u32 & ral::edma3::CH_CSR_ACTIVE == 0 && 0u32
            & ral::edma3::CH_CSR_DONE == 0 && 0u32 & ral::edma3::CH_ES_ERR == 0) by (bit_vector);
    }
    assert(0u32 & ral::edma3::MP_CSR_GMRC == 0) by (bit_vector);
}

/// The all-zero per-channel register block of the later generations.
pub(crate) closed spec fn zeroed_channel_block() -> ral::edma3::ChannelRegisterBlock {
    ral::edma3::ChannelRegisterBlock {
        csr: 0,
        es: 0,
        int: 0,
        sbr: 0,
        pri: 0,
        mux: 0,
        tcd: ral::tcd::RegisterBlock::zeroed(),
    }
}

/// The power-on driver view: every channel at its power-on state, every
/// completion cell empty, every channel token still available.
pub open spec fn power_on_view(generation: Generation, channels: nat) -> DmaView {
    DmaView {
        generation,
        id_replication: false,
        channels: Seq::new(channels, |i: int| ChannelView::power_on()),
        wakers: Seq::new(channels, |i: int| None),
        taken: Seq::new(channels, |i: int| false),
    }
}

impl Dma {
    /// Creates a first-generation driver serving `channels` channels, with
    /// the whole register model in its power-on state.
    pub fn new(channels: usize) -> (r: Dma)
        requires
            channels <= 32,
        ensures
            r.wf(),
            r@ =~= power_on_view(Generation::EDma, channels as nat),
    {
        let zero_tcd = zero_descriptor();
        let regs = ral::edma::RegisterBlock {
            cr: 0,
            es: 0,
            erq: 0,
            eei: 0,
            int: 0,
            err: 0,
            hrs: 0,
            ears: 0,
            dchpri: ral::edma::ChannelPriorityRegisters { dchpri: filled(0u8, 32) },
            tcd: filled(zero_tcd, channels),
        };
        let mux = ral::dmamux::RegisterBlock { chcfg: filled(0u32, channels) };
        let r = Dma {
            controller: Kind::EDma { regs, mux },
            wakers: filled(None, channels),
            taken: filled(false, channels),
        };
        proof {
            lemma_power_on_view(r.controller, channels as nat);
        }
        r
    }

    /// Creates a third-generation driver serving `channels` channels, with
    /// the whole register model in its power-on state.
    pub fn new_edma3(channels: usize) -> (r: Dma)
        requires
            channels <= 32,
        ensures
            r.wf(),
            r@ =~= power_on_view(Generation::EDma3, channels as nat),
    {
        let regs = ral::edma3::RegisterBlock {
            csr: 0,
            es: 0,
            int: 0,
            hrs: 0,
            tcd: filled(zero_channel_block(), channels),
        };
        let r = Dma {
            controller: Kind::EDma3 { regs },
            wakers: filled(None, channels),
            taken: filled(false, channels),
        };
        proof {
            lemma_power_on_view(r.controller, channels as nat);
        }
        r
    }

    /// Creates a fourth-generation driver serving `channels` channels, with
    /// the whole register model in its power-on state.
    pub fn new_edma4(channels: usize) -> (r: Dma)
        requires
            channels <= 64,
        ensures
            r.wf(),
            r@ =~= power_on_view(Generation::EDma4, channels as nat),
    {
        let regs = ral::edma4::RegisterBlock {
            csr: 0,
            es: 0,
            int_low: 0,
            int_high: 0,
            hrs_low: 0,
            hrs_high: 0,
            tcd: filled(zero_channel_block(), channels),
        };
        let r = Dma {
            controller: Kind::EDma4 { regs },
            wakers: filled(None, channels),
            taken: filled(false, channels),
        };
        proof {
            lemma_power_on_view(r.controller, channels as nat);
        }
        r
    }

    /// Allocates the channel token for `index`.
    ///
    /// At most one token exists per index: the first request for an index in
    /// range succeeds and marks the index taken; any later request for the
    /// same index, and any request out of range, returns `None`.
    pub fn channel(&mut self, index: usize) -> (r: Option<Channel>)
        requires
            old(self).wf(),
        ensures
            final(self).wf(),
            (r matches Some(ch)) <==> (index < old(self)@.channels.len()
                && !old(self)@.taken[index as int]),
            r matches Some(ch) ==> ch.idx() == index
                && final(self)@ =~= (DmaView {
                    taken: old(self)@.taken.update(index as int, true),
                    ..old(self)@
                }),
            r is None ==> final(self)@ =~= old(self)@,
    {
        if index < self.taken.len() && !self.taken[index] {
            self.taken.set(index, true);
            Some(channel::token(index))
        } else {
            None
        }
    }

    /// Propagates the identifier of the programming bus controller through
    /// each DMA channel. Only the later generations offer the control; it is
    /// off after construction, and the controller then uses nonsecure
    /// privilege for its transfers.
    pub fn set_global_id_replication(&mut self, enable: bool)
        requires
            old(self).wf(),
            old(self)@.generation != Generation::EDma,
        ensures
            final(self).wf(),
            final(self)@ =~= (DmaView { id_replication: enable, ..old(self)@ }),
    {
        match &mut self.controller {
            Kind::EDma { .. } => {},
            Kind::EDma3 { regs } => {
                let csr = regs.csr;
                regs.csr = if enable {
                    csr | ral::edma3::MP_CSR_GMRC
                } else {
                    csr & !ral::edma3::MP_CSR_GMRC
                };
                proof {
                    lemma_gmrc_bit(csr);
                }
            },
            Kind::EDma4 { regs } => {
                let csr = regs.csr;
                regs.csr = if enable {
                    csr | ral::edma3::MP_CSR_GMRC
                } else {
                    csr & !ral::edma3::MP_CSR_GMRC
                };
                proof {
                    lemma_gmrc_bit(csr);
                }
            },
        }
    }
}

/// Setting or clearing the replication bit acts on that bit alone.
proof fn lemma_gmrc_bit(csr: u32)
    by (bit_vector)
    ensures
        (csr | ral::edma3::MP_CSR_GMRC) & ral::edma3::MP_CSR_GMRC != 0,
        (csr & !ral::edma3::MP_CSR_GMRC) & ral::edma3::MP_CSR_GMRC == 0,
{
}

/// The all-zero descriptor as a runtime value.
fn zero_descriptor() -> (r: ral::tcd::RegisterBlock)
    ensures
        r == ral::tcd::RegisterBlock::zeroed(),
{
    ral::tcd::RegisterBlock {
        saddr: 0,
        soff: 0,
        dattr: 0,
        sattr: 0,
        nbytes: 0,
        slast: 0,
        daddr: 0,
        doff: 0,
        citer: 0,
        dlast_sga: 0,
        csr: 0,
        biter: 0,
    }
}

/// The all-zero per-channel register block as a runtime value.
fn zero_channel_block() -> (r: ral::edma3::ChannelRegisterBlock)
    ensures
        r == zeroed_channel_block(),
{
    ral::edma3::ChannelRegisterBlock {
        csr: 0,
        es: 0,
        int: 0,
        sbr: 0,
        pri: 0,
        mux: 0,
        tcd: zero_descriptor(),
    }
}

/// Marks a peripheral as compatible with a given DMA controller instance.
///
/// Implement this on DMA-capable peripherals to assert that they work with
/// the controller instance identified by `DMA_INST`. An incorrect
/// implementation cannot break this crate's guarantees; the transfer simply
/// will not be serviced by the hardware.
pub trait WorksWith<const DMA_INST: u8> {

}

} // verus!
