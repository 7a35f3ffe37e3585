//! DMA channels and transfer descriptors.
//!
//! A [`Channel`] is the schedulable unit: a move-only token for one channel
//! index, allocated once from [`Dma::channel`](crate::Dma::channel). Every
//! operation takes the driver it was allocated from and resolves through the
//! driver's generation to the right register location; the contracts state
//! each operation's effect on the generation-independent channel view.
//!
//! A [`Transfer`] describes one side of a transfer — a fixed hardware
//! register, a linear buffer, or a power-of-two circular buffer — as pure
//! data. Constructing one never touches the register file; only installing
//! it into a channel does.

use crate::element::ElementSize;
use crate::ChannelView;
use crate::ral;
use crate::Dma;
use vstd::arithmetic::power2::lemma2_to64;
use vstd::arithmetic::power2::lemma_pow2_adds;
use vstd::arithmetic::power2::lemma_pow2_strictly_increases;
use vstd::arithmetic::power2::lemma_pow2_unfold;
use vstd::arithmetic::power2::pow2;
use vstd::prelude::*;

mod edma;
mod edma34;

verus! {

/// A DMA channel token.
///
/// At most one token exists per index; the allocator in the driver enforces
/// it. The token itself holds only the index: all channel state lives in the
/// driver's register file, which every operation takes explicitly.
pub struct Channel {
    index: usize,
}

/// Builds the token for `index`. Only the driver's allocator calls this.
pub(crate) fn token(index: usize) -> (r: Channel)
    ensures
        r.idx() == index,
{
    Channel { index }
}

impl Channel {
    /// The channel number as a mathematical value.
    pub closed spec fn idx(&self) -> int {
        self.index as int
    }

    /// The token is for a channel this driver view serves.
    pub open spec fn in_range(&self, v: crate::DmaView) -> bool {
        0 <= self.idx() < v.channels.len()
    }

    /// Returns the DMA channel number. Channels are unique and numbered
    /// within the half-open range from zero to the driver's channel count.
    pub fn channel(&self) -> (r: usize)
        ensures
            r == self.idx(),
    {
        self.index
    }
}

/// What a transfer descriptor holds.
#[verifier::ext_equal]
pub struct TransferView {
    /// The first address read (source side) or written (destination side).
    pub address: u32,
    /// Signed bytes advanced per element.
    pub offset: i16,
    /// Circular-buffer exponent: the number of low address bits allowed to
    /// vary; zero for linear or fixed-register transfers.
    pub modulo: u16,
    /// Signed byte offset applied to the working address once the major
    /// loop completes.
    pub adjustment: i32,
    /// The element size the descriptor was built for.
    pub element: ElementSize,
}

/// Describes one side — source or destination — of a DMA transfer.
///
/// A side can be a fixed hardware register, a linear element buffer, or a
/// circular element buffer whose capacity is a power of two. The descriptor
/// is pure data: it is constructed immutably, consumed by installing it into
/// a channel, and never mutated.
#[derive(Debug, Clone, Copy)]
pub struct Transfer {
    address: u32,
    offset: i16,
    modulo: u16,
    last_address_adjustment: i32,
    element: ElementSize,
}

impl View for Transfer {
    type V = TransferView;

    closed spec fn view(&self) -> TransferView {
        TransferView {
            address: self.address,
            offset: self.offset,
            modulo: self.modulo,
            adjustment: self.last_address_adjustment,
            element: self.element,
        }
    }
}

/// `n` is a power of two.
pub open spec fn power_of_two(n: nat) -> bool {
    exists|e: nat| #[trigger] pow2(e) == n
}

impl Transfer {
    /// Defines a transfer that reads from, or writes to, a fixed hardware
    /// register: the address never advances and is never adjusted.
    pub fn hardware(address: u32, element: ElementSize) -> (r: Transfer)
        ensures
            r@ == (TransferView { address, offset: 0, modulo: 0, adjustment: 0, element }),
    {
        Transfer { address, offset: 0, modulo: 0, last_address_adjustment: 0, element }
    }

    /// Defines a transfer over a linear buffer of `len` elements starting at
    /// `address`. The stride is one element, and the end adjustment rewinds
    /// the working address over the whole buffer, exactly minus `len` times
    /// the element size, so a completed transfer starts over at `address`.
    pub fn buffer_linear(address: u32, len: usize, element: ElementSize) -> (r: Transfer)
        requires
            len * element.bytes() <= 0x7FFF_FFFF,
        ensures
            r@ == (TransferView {
                address,
                offset: element.bytes() as i16,
                modulo: 0,
                adjustment: (-(len * element.bytes())) as i32,
                element,
            }),
            r@.adjustment == -(len as int * element.bytes() as int),
    {
        let size: usize = element.size_bytes() as usize;
        let total: usize = len * size;
        let adjustment: i32 = -(total as i32);
        Transfer {
            address,
            offset: element.size_bytes() as i16,
            modulo: 0,
            last_address_adjustment: adjustment,
            element,
        }
    }

    /// Defines a transfer over a circular buffer of `capacity` elements
    /// starting at `address`.
    ///
    /// Construction succeeds exactly when `capacity` is a power of two; the
    /// descriptor's wraparound exponent then satisfies two to the power of
    /// `modulo` equals `capacity` times the element size. The address keeps
    /// wrapping, so no end adjustment is applied.
    ///
    /// The caller must align the buffer to its size in bytes for the
    /// hardware's address masking to stay inside it.
    pub fn buffer_circular(address: u32, capacity: usize, element: ElementSize) -> (r: Option<
        Transfer,
    >)
        requires
            capacity * element.bytes() <= 0xFFFF_FFFF,
        ensures
            (r is Some) <==> power_of_two(capacity as nat),
            r matches Some(t) ==> {
                &&& t@.address == address
                &&& t@.offset == element.bytes()
                &&& t@.adjustment == 0
                &&& t@.element == element
                &&& t@.modulo <= 31
                &&& pow2(t@.modulo as nat) == capacity * element.bytes()
            },
    {
        let cap: u64 = capacity as u64;
        let mut k: u16 = 0;
        let mut p: u64 = 1;
        proof {
            lemma2_to64();
            assert(capacity as int <= capacity as int * element.bytes() as int)
                by (nonlinear_arith)
                requires
                    element.bytes() >= 1,
                    capacity >= 0,
            ;
        }
        while p < cap
            invariant
                cap == capacity,
                cap <= 0xFFFF_FFFF,
                p == pow2(k as nat),
                1 <= p,
                k == 0 || pow2((k - 1) as nat) < cap,
                k <= 32,
            decreases 2 * cap - p,
        {
            proof {
                if k == 32 {
                    lemma2_to64();
                }
                lemma_pow2_unfold((k + 1) as nat);
            }
            p = p * 2;
            k = k + 1;
        }
        if p == cap {
            let code: u16 = element.data_transfer_id() as u16;
            let modulo: u16 = k + code;
            proof {
                assert(pow2(k as nat) == capacity);
                lemma_pow2_adds(k as nat, code as nat);
                lemma2_to64();
                assert(pow2(code as nat) == element.bytes());
                assert(pow2(modulo as nat) == capacity * element.bytes());
                if modulo > 31 {
                    if modulo > 32 {
                        lemma_pow2_strictly_increases(32, modulo as nat);
                    }
                    assert(false);
                }
            }
            Some(
                Transfer {
                    address,
                    offset: element.size_bytes() as i16,
                    modulo,
                    last_address_adjustment: 0,
                    element,
                },
            )
        } else {
            proof {
                assert forall|e: nat| #[trigger] pow2(e) != capacity as nat by {
                    if e < k {
                        if e + 1 < k {
                            lemma_pow2_strictly_increases(e, (k - 1) as nat);
                        }
                    } else {
                        if e > k {
                            lemma_pow2_strictly_increases(k as nat, e);
                        }
                    }
                }
            }
            None
        }
    }
}

/// The transfer-attribute byte for one descriptor side: the address-modulo
/// exponent in the high five bits, the element-size code in the low three.
pub open spec fn attr_encoding(v: TransferView) -> u8 {
    (((v.modulo % 32) as u8) << 3) | v.element.code()
}

/// Packs one side's transfer attributes.
fn pack_attr(transfer: &Transfer) -> (r: u8)
    ensures
        r == attr_encoding(transfer@),
{
    let m: u8 = (transfer.modulo % 32) as u8;
    (m << 3) | transfer.element.data_transfer_id()
}

impl Channel {
    /// Indicates whether this channel acts on service requests.
    pub fn is_enabled(&self, dma: &Dma) -> (r: bool)
        requires
            dma.wf(),
            self.in_range(dma@),
        ensures
            r == dma@.channels[self.idx()].enabled,
    {
        let i = self.index;
        match &dma.controller {
            crate::Kind::EDma { regs, mux } => edma::is_enabled(regs, mux, i),
            crate::Kind::EDma3 { regs } => {
                let ch = regs.tcd[i];
                edma34::block_is_enabled(&ch)
            },
            crate::Kind::EDma4 { regs } => {
                let ch = regs.tcd[i];
                edma34::block_is_enabled(&ch)
            },
        }
    }

    /// Indicates whether the DMA transfer has completed.
    pub fn is_complete(&self, dma: &Dma) -> (r: bool)
        requires
            dma.wf(),
            self.in_range(dma@),
        ensures
            r == dma@.channels[self.idx()].done,
    {
        let i = self.index;
        match &dma.controller {
            crate::Kind::EDma { regs, mux } => edma::is_complete(regs, mux, i),
            crate::Kind::EDma3 { regs } => {
                let ch = regs.tcd[i];
                edma34::block_is_complete(&ch)
            },
            crate::Kind::EDma4 { regs } => {
                let ch = regs.tcd[i];
                edma34::block_is_complete(&ch)
            },
        }
    }

    /// Indicates whether this channel is actively transferring data.
    pub fn is_active(&self, dma: &Dma) -> (r: bool)
        requires
            dma.wf(),
            self.in_range(dma@),
        ensures
            r == dma@.channels[self.idx()].active,
    {
        let i = self.index;
        match &dma.controller {
            crate::Kind::EDma { regs, mux } => edma::is_active(regs, mux, i),
            crate::Kind::EDma3 { regs } => {
                let ch = regs.tcd[i];
                edma34::block_is_active(&ch)
            },
            crate::Kind::EDma4 { regs } => {
                let ch = regs.tcd[i];
                edma34::block_is_active(&ch)
            },
        }
    }

    /// Indicates whether this channel is in an error state.
    pub fn is_error(&self, dma: &Dma) -> (r: bool)
        requires
            dma.wf(),
            self.in_range(dma@),
        ensures
            r == dma@.channels[self.idx()].error,
    {
        let i = self.index;
        match &dma.controller {
            crate::Kind::EDma { regs, mux } => edma::is_error(regs, mux, i),
            crate::Kind::EDma3 { regs } => {
                let ch = regs.tcd[i];
                edma34::block_is_error(&ch)
            },
            crate::Kind::EDma4 { regs } => {
                let ch = regs.tcd[i];
                edma34::block_is_error(&ch)
            },
        }
    }

    /// Indicates whether this channel has a completion interrupt pending.
    pub fn is_interrupt(&self, dma: &Dma) -> (r: bool)
        requires
            dma.wf(),
            self.in_range(dma@),
        ensures
            r == dma@.channels[self.idx()].interrupt,
    {
        let i = self.index;
        match &dma.controller {
            crate::Kind::EDma { regs, mux } => edma::is_interrupt(regs, mux, i),
            crate::Kind::EDma3 { regs } => {
                let ch = regs.tcd[i];
                edma34::block_is_interrupt(&ch)
            },
            crate::Kind::EDma4 { regs } => {
                let ch = regs.tcd[i];
                edma34::block_is_interrupt(&ch)
            },
        }
    }

    /// Indicates whether this channel's hardware request line is asserted.
    pub fn is_hardware_signaling(&self, dma: &Dma) -> (r: bool)
        requires
            dma.wf(),
            self.in_range(dma@),
        ensures
            r == dma@.channels[self.idx()].hardware_signal,
    {
        let i = self.index;
        match &dma.controller {
            crate::Kind::EDma { regs, mux } => edma::is_hardware_signaling(regs, mux, i),
            crate::Kind::EDma3 { regs } => regs.hrs & (1u32 << (i as u32)) != 0,
            crate::Kind::EDma4 { regs } => {
                if i < 32 {
                    regs.hrs_low & (1u32 << (i as u32)) != 0
                } else {
                    regs.hrs_high & (1u32 << ((i - 32) as u32)) != 0
                }
            },
        }
    }

    /// Returns the decoded value of the error-status register this channel
    /// reports through. On the first generation that register is global: it
    /// reflects the last channel that erred, which may not be this one, so
    /// read it before another channel's error overwrites it.
    pub fn error_status(&self, dma: &Dma) -> (r: crate::Error)
        requires
            dma.wf(),
            self.in_range(dma@),
        ensures
            r.raw_spec() == dma@.channels[self.idx()].error_status,
    {
        let i = self.index;
        let es = match &dma.controller {
            crate::Kind::EDma { regs, mux } => edma::error_status(regs, mux, i),
            crate::Kind::EDma3 { regs } => {
                let ch = regs.tcd[i];
                edma34::block_error_status(&ch)
            },
            crate::Kind::EDma4 { regs } => {
                let ch = regs.tcd[i];
                edma34::block_error_status(&ch)
            },
        };
        crate::Error::new(es)
    }

    /// Enables the channel: it then acts on service requests, and data can
    /// start moving the instant a request is already pending. The caller
    /// must have installed valid source and destination descriptors first.
    pub fn enable(&self, dma: &mut Dma)
        requires
            old(dma).wf(),
            self.in_range(old(dma)@),
        ensures
            final(dma).wf(),
            final(dma)@ =~= old(dma)@.with_channel(
                self.idx(),
                (ChannelView { enabled: true, ..old(dma)@.channels[self.idx()] }),
            ),
    {
        let i = self.index;
        match &mut dma.controller {
            crate::Kind::EDma { regs, mux } => edma::enable(regs, mux, i),
            crate::Kind::EDma3 { regs } => {
                let mut ch = regs.tcd[i];
                edma34::block_enable(&mut ch);
                regs.tcd.set(i, ch);
            },
            crate::Kind::EDma4 { regs } => {
                let mut ch = regs.tcd[i];
                edma34::block_enable(&mut ch);
                regs.tcd.set(i, ch);
            },
        }
        proof {
            assert(dma@.channels =~= old(dma)@.channels.update(
                self.idx(),
                (ChannelView { enabled: true, ..old(dma)@.channels[self.idx()] }),
            ));
        }
    }

    /// Disables the channel, preventing any further service of requests.
    pub fn disable(&self, dma: &mut Dma)
        requires
            old(dma).wf(),
            self.in_range(old(dma)@),
        ensures
            final(dma).wf(),
            final(dma)@ =~= old(dma)@.with_channel(
                self.idx(),
                (ChannelView { enabled: false, ..old(dma)@.channels[self.idx()] }),
            ),
    {
        let i = self.index;
        match &mut dma.controller {
            crate::Kind::EDma { regs, mux } => edma::disable(regs, mux, i),
            crate::Kind::EDma3 { regs } => {
                let mut ch = regs.tcd[i];
                edma34::block_disable(&mut ch);
                regs.tcd.set(i, ch);
            },
            crate::Kind::EDma4 { regs } => {
                let mut ch = regs.tcd[i];
                edma34::block_disable(&mut ch);
                regs.tcd.set(i, ch);
            },
        }
        proof {
            assert(dma@.channels =~= old(dma)@.channels.update(
                self.idx(),
                (ChannelView { enabled: false, ..old(dma)@.channels[self.idx()] }),
            ));
        }
    }

    /// Requests one software-triggered service: sets the start flag, used
    /// for in-memory transfers with no hardware requester. The hardware
    /// model clears the flag once the request is serviced. The caller must
    /// have installed valid source and destination descriptors first.
    pub fn start(&self, dma: &mut Dma)
        requires
            old(dma).wf(),
            self.in_range(old(dma)@),
        ensures
            final(dma).wf(),
            final(dma)@ =~= old(dma)@.with_channel(
                self.idx(),
                (ChannelView { start: true, ..old(dma)@.channels[self.idx()] }),
            ),
    {
        let i = self.index;
        match &mut dma.controller {
            crate::Kind::EDma { regs, mux } => edma::start(regs, mux, i),
            crate::Kind::EDma3 { regs } => {
                let mut ch = regs.tcd[i];
                edma34::block_start(&mut ch);
                regs.tcd.set(i, ch);
            },
            crate::Kind::EDma4 { regs } => {
                let mut ch = regs.tcd[i];
                edma34::block_start(&mut ch);
                regs.tcd.set(i, ch);
            },
        }
        proof {
            assert(dma@.channels =~= old(dma)@.channels.update(
                self.idx(),
                (ChannelView { start: true, ..old(dma)@.channels[self.idx()] }),
            ));
        }
    }

    /// Clears this channel's pending interrupt flag.
    pub fn clear_interrupt(&self, dma: &mut Dma)
        requires
            old(dma).wf(),
            self.in_range(old(dma)@),
        ensures
            final(dma).wf(),
            final(dma)@ =~= old(dma)@.with_channel(
                self.idx(),
                (ChannelView { interrupt: false, ..old(dma)@.channels[self.idx()] }),
            ),
    {
        let i = self.index;
        match &mut dma.controller {
            crate::Kind::EDma { regs, mux } => edma::clear_interrupt(regs, mux, i),
            crate::Kind::EDma3 { regs } => {
                let mut ch = regs.tcd[i];
                edma34::block_clear_interrupt(&mut ch);
                regs.tcd.set(i, ch);
            },
            crate::Kind::EDma4 { regs } => {
                let mut ch = regs.tcd[i];
                edma34::block_clear_interrupt(&mut ch);
                regs.tcd.set(i, ch);
            },
        }
        proof {
            assert(dma@.channels =~= old(dma)@.channels.update(
                self.idx(),
                (ChannelView { interrupt: false, ..old(dma)@.channels[self.idx()] }),
            ));
        }
    }

    /// Clears this channel's error flag. On the generations whose error
    /// flag lives in the channel's own error-status register the recorded
    /// cause bits stay readable; on the first generation the global
    /// snapshot is untouched.
    pub fn clear_error(&self, dma: &mut Dma)
        requires
            old(dma).wf(),
            self.in_range(old(dma)@),
        ensures
            final(dma).wf(),
            ({
                let c = old(dma)@.channels[self.idx()];
                final(dma)@ =~= old(dma)@.with_channel(
                    self.idx(),
                    (ChannelView {
                        error: false,
                        error_status: if old(dma)@.generation == crate::Generation::EDma {
                            c.error_status
                        } else {
                            c.error_status & !ral::edma3::CH_ES_ERR
                        },
                        ..c
                    }),
                )
            }),
    {
        let i = self.index;
        match &mut dma.controller {
            crate::Kind::EDma { regs, mux } => edma::clear_error(regs, mux, i),
            crate::Kind::EDma3 { regs } => {
                let mut ch = regs.tcd[i];
                edma34::block_clear_error(&mut ch);
                regs.tcd.set(i, ch);
            },
            crate::Kind::EDma4 { regs } => {
                let mut ch = regs.tcd[i];
                edma34::block_clear_error(&mut ch);
                regs.tcd.set(i, ch);
            },
        }
        proof {
            let c = old(dma)@.channels[self.idx()];
            assert(dma@.channels =~= old(dma)@.channels.update(
                self.idx(),
                (ChannelView {
                    error: false,
                    error_status: if old(dma)@.generation == crate::Generation::EDma {
                        c.error_status
                    } else {
                        c.error_status & !ral::edma3::CH_ES_ERR
                    },
                    ..c
                }),
            ));
        }
    }

    /// Resets the channel's transfer control descriptor to all zeroes.
    ///
    /// Call it during channel initialization to put the descriptor into a
    /// known, good state; it is idempotent. On the first generation the
    /// done, active, and start status live inside the descriptor word and
    /// are cleared with it; the later generations keep done and active
    /// outside the descriptor, where this operation does not reach.
    pub fn reset(&self, dma: &mut Dma)
        requires
            old(dma).wf(),
            self.in_range(old(dma)@),
        ensures
            final(dma).wf(),
            final(dma)@ =~= descriptor_reset(old(dma)@, self.idx()),
    {
        let i = self.index;
        let zero = crate::zero_descriptor();
        proof {
            crate::lemma_zero_tcd_bits();
        }
        match &mut dma.controller {
            crate::Kind::EDma { regs, mux } => edma::write_descriptor(regs, mux, i, zero),
            crate::Kind::EDma3 { regs } => {
                let mut ch = regs.tcd[i];
                edma34::block_write_descriptor(&mut ch, zero);
                regs.tcd.set(i, ch);
            },
            crate::Kind::EDma4 { regs } => {
                let mut ch = regs.tcd[i];
                edma34::block_write_descriptor(&mut ch, zero);
                regs.tcd.set(i, ch);
            },
        }
        proof {
            let c = old(dma)@.channels[self.idx()];
            let first = old(dma)@.generation == crate::Generation::EDma;
            assert(dma@.channels =~= old(dma)@.channels.update(
                self.idx(),
                (ChannelView {
                    tcd: ral::tcd::RegisterBlock::zeroed(),
                    start: false,
                    done: if first {
                        false
                    } else {
                        c.done
                    },
                    active: if first {
                        false
                    } else {
                        c.active
                    },
                    ..c
                }),
            ));
        }
    }

    /// Clears the completion indication: exactly the done bit, wherever the
    /// generation stores it. Clearing must happen before the channel can
    /// usefully report a new completion cycle.
    pub fn clear_complete(&self, dma: &mut Dma)
        requires
            old(dma).wf(),
            self.in_range(old(dma)@),
        ensures
            final(dma).wf(),
            final(dma)@ =~= old(dma)@.with_channel(
                self.idx(),
                (ChannelView { done: false, ..old(dma)@.channels[self.idx()] }),
            ),
    {
        let i = self.index;
        match &mut dma.controller {
            crate::Kind::EDma { regs, mux } => edma::clear_complete(regs, mux, i),
            crate::Kind::EDma3 { regs } => {
                let mut ch = regs.tcd[i];
                edma34::block_clear_complete(&mut ch);
                regs.tcd.set(i, ch);
            },
            crate::Kind::EDma4 { regs } => {
                let mut ch = regs.tcd[i];
                edma34::block_clear_complete(&mut ch);
                regs.tcd.set(i, ch);
            },
        }
        proof {
            assert(dma@.channels =~= old(dma)@.channels.update(
                self.idx(),
                (ChannelView { done: false, ..old(dma)@.channels[self.idx()] }),
            ));
        }
    }
}

impl Channel {
    /// Reads the channel's raw descriptor out of the register file.
    pub(crate) fn read_tcd(&self, dma: &Dma) -> (t: ral::tcd::RegisterBlock)
        requires
            dma.wf(),
            self.in_range(dma@),
        ensures
            t.configured() == dma@.channels[self.idx()].tcd,
            t.start_bit() == dma@.channels[self.idx()].start,
            dma@.generation == crate::Generation::EDma ==> t.done_bit()
                == dma@.channels[self.idx()].done && t.active_bit()
                == dma@.channels[self.idx()].active,
    {
        let i = self.index;
        match &dma.controller {
            crate::Kind::EDma { regs, mux } => edma::read_descriptor(regs, i),
            crate::Kind::EDma3 { regs } => {
                let ch = regs.tcd[i];
                edma34::block_read_descriptor(&ch)
            },
            crate::Kind::EDma4 { regs } => {
                let ch = regs.tcd[i];
                edma34::block_read_descriptor(&ch)
            },
        }
    }

    /// Writes the channel's raw descriptor back into the register file. On
    /// the first generation the done, active, and start bits live inside
    /// the written word; on the others only the start bit does.
    pub(crate) fn write_tcd(&self, dma: &mut Dma, t: ral::tcd::RegisterBlock)
        requires
            old(dma).wf(),
            self.in_range(old(dma)@),
        ensures
            final(dma).wf(),
            ({
                let c = old(dma)@.channels[self.idx()];
                let first = old(dma)@.generation == crate::Generation::EDma;
                final(dma)@ =~= old(dma)@.with_channel(
                    self.idx(),
                    (ChannelView {
                        tcd: t.configured(),
                        start: t.start_bit(),
                        done: if first {
                            t.done_bit()
                        } else {
                            c.done
                        },
                        active: if first {
                            t.active_bit()
                        } else {
                            c.active
                        },
                        ..c
                    }),
                )
            }),
    {
        let i = self.index;
        match &mut dma.controller {
            crate::Kind::EDma { regs, mux } => edma::write_descriptor(regs, mux, i, t),
            crate::Kind::EDma3 { regs } => {
                let mut ch = regs.tcd[i];
                edma34::block_write_descriptor(&mut ch, t);
                regs.tcd.set(i, ch);
            },
            crate::Kind::EDma4 { regs } => {
                let mut ch = regs.tcd[i];
                edma34::block_write_descriptor(&mut ch, t);
                regs.tcd.set(i, ch);
            },
        }
        proof {
            let c = old(dma)@.channels[self.idx()];
            let first = old(dma)@.generation == crate::Generation::EDma;
            assert(dma@.channels =~= old(dma)@.channels.update(
                self.idx(),
                (ChannelView {
                    tcd: t.configured(),
                    start: t.start_bit(),
                    done: if first {
                        t.done_bit()
                    } else {
                        c.done
                    },
                    active: if first {
                        t.active_bit()
                    } else {
                        c.active
                    },
                    ..c
                }),
            ));
        }
    }

    /// Installs `transfer` as the channel's source side: writes the source
    /// address, stride, transfer attributes, and end-of-transfer adjustment
    /// into the descriptor. The caller must guarantee the described memory
    /// stays valid for the transfer's duration and must not call this while
    /// the channel is actively moving data.
    pub fn set_source_transfer(&self, dma: &mut Dma, transfer: &Transfer)
        requires
            old(dma).wf(),
            self.in_range(old(dma)@),
        ensures
            final(dma).wf(),
            ({
                let c = old(dma)@.channels[self.idx()];
                final(dma)@ =~= old(dma)@.with_channel(
                    self.idx(),
                    (ChannelView {
                        tcd: (ral::tcd::RegisterBlock {
                            saddr: transfer@.address,
                            soff: transfer@.offset,
                            sattr: attr_encoding(transfer@),
                            slast: transfer@.adjustment,
                            ..c.tcd
                        }),
                        ..c
                    }),
                )
            }),
    {
        let t = self.read_tcd(dma);
        let t2 = ral::tcd::RegisterBlock {
            saddr: transfer.address,
            soff: transfer.offset,
            sattr: pack_attr(transfer),
            slast: transfer.last_address_adjustment,
            ..t
        };
        self.write_tcd(dma, t2);
    }

    /// Installs `transfer` as the channel's destination side: writes the
    /// destination address, stride, transfer attributes, and end-of-transfer
    /// adjustment into the descriptor. The caller must guarantee the
    /// described memory stays valid for the transfer's duration and must not
    /// call this while the channel is actively moving data.
    pub fn set_destination_transfer(&self, dma: &mut Dma, transfer: &Transfer)
        requires
            old(dma).wf(),
            self.in_range(old(dma)@),
        ensures
            final(dma).wf(),
            ({
                let c = old(dma)@.channels[self.idx()];
                final(dma)@ =~= old(dma)@.with_channel(
                    self.idx(),
                    (ChannelView {
                        tcd: (ral::tcd::RegisterBlock {
                            daddr: transfer@.address,
                            doff: transfer@.offset,
                            dattr: attr_encoding(transfer@),
                            dlast_sga: transfer@.adjustment,
                            ..c.tcd
                        }),
                        ..c
                    }),
                )
            }),
    {
        let t = self.read_tcd(dma);
        let t2 = ral::tcd::RegisterBlock {
            daddr: transfer.address,
            doff: transfer.offset,
            dattr: pack_attr(transfer),
            dlast_sga: transfer.last_address_adjustment,
            ..t
        };
        self.write_tcd(dma, t2);
    }

    /// Sets how many bytes move per service request (per minor loop).
    pub fn set_minor_loop_bytes(&self, dma: &mut Dma, nbytes: u32)
        requires
            old(dma).wf(),
            self.in_range(old(dma)@),
        ensures
            final(dma).wf(),
            ({
                let c = old(dma)@.channels[self.idx()];
                final(dma)@ =~= old(dma)@.with_channel(
                    self.idx(),
                    (ChannelView { tcd: (ral::tcd::RegisterBlock { nbytes, ..c.tcd }), ..c }),
                )
            }),
    {
        let t = self.read_tcd(dma);
        let t2 = ral::tcd::RegisterBlock { nbytes, ..t };
        self.write_tcd(dma, t2);
    }

    /// Sets how many elements move per service request, converted to bytes
    /// using the element's size.
    pub fn set_minor_loop_elements(&self, dma: &mut Dma, element: ElementSize, len: usize)
        requires
            old(dma).wf(),
            self.in_range(old(dma)@),
            len * element.bytes() <= 0xFFFF_FFFF,
        ensures
            final(dma).wf(),
            ({
                let c = old(dma)@.channels[self.idx()];
                final(dma)@ =~= old(dma)@.with_channel(
                    self.idx(),
                    (ChannelView {
                        tcd: (ral::tcd::RegisterBlock {
                            nbytes: (len * element.bytes()) as u32,
                            ..c.tcd
                        }),
                        ..c
                    }),
                )
            }),
    {
        let nbytes: u32 = (len * (element.size_bytes() as usize)) as u32;
        self.set_minor_loop_bytes(dma, nbytes);
    }

    /// Tells the channel how many transfer iterations to perform: sets both
    /// the current and the starting major-loop counter to `iterations`, so
    /// a completed transfer can restart with the same count without
    /// reprogramming. The counters hold fifteen bits.
    pub fn set_transfer_iterations(&self, dma: &mut Dma, iterations: u16)
        requires
            old(dma).wf(),
            self.in_range(old(dma)@),
            iterations <= ral::tcd::ITERATION_MASK,
        ensures
            final(dma).wf(),
            ({
                let c = old(dma)@.channels[self.idx()];
                final(dma)@ =~= old(dma)@.with_channel(
                    self.idx(),
                    (ChannelView {
                        tcd: (ral::tcd::RegisterBlock {
                            citer: iterations,
                            biter: iterations,
                            ..c.tcd
                        }),
                        ..c
                    }),
                )
            }),
    {
        let t = self.read_tcd(dma);
        let t2 = ral::tcd::RegisterBlock { citer: iterations, biter: iterations, ..t };
        self.write_tcd(dma, t2);
    }

    /// Enables or disables disable-on-completion: when set, the channel
    /// clears its own request-enable bit as it completes a transfer.
    pub fn set_disable_on_completion(&self, dma: &mut Dma, dreq: bool)
        requires
            old(dma).wf(),
            self.in_range(old(dma)@),
        ensures
            final(dma).wf(),
            ({
                let c = old(dma)@.channels[self.idx()];
                final(dma)@ =~= old(dma)@.with_channel(
                    self.idx(),
                    (ChannelView {
                        tcd: (ral::tcd::RegisterBlock {
                            csr: if dreq {
                                c.tcd.csr | ral::tcd::CSR_DREQ
                            } else {
                                c.tcd.csr & !ral::tcd::CSR_DREQ
                            },
                            ..c.tcd
                        }),
                        ..c
                    }),
                )
            }),
    {
        let t = self.read_tcd(dma);
        let csr = if dreq {
            t.csr | ral::tcd::CSR_DREQ
        } else {
            t.csr & !ral::tcd::CSR_DREQ
        };
        let t2 = ral::tcd::RegisterBlock { csr, ..t };
        proof {
            ral::tcd::lemma_csr_masks();
            ral::tcd::lemma_csr_config_bits(t.csr, ral::tcd::CSR_DREQ);
        }
        self.write_tcd(dma, t2);
    }

    /// Enables or disables interrupt generation when the transfer
    /// completes. The caller is responsible for routing the controller's
    /// interrupt to [`interrupt::on_interrupt`](crate::interrupt::on_interrupt).
    pub fn set_interrupt_on_completion(&self, dma: &mut Dma, intr: bool)
        requires
            old(dma).wf(),
            self.in_range(old(dma)@),
        ensures
            final(dma).wf(),
            ({
                let c = old(dma)@.channels[self.idx()];
                final(dma)@ =~= old(dma)@.with_channel(
                    self.idx(),
                    (ChannelView {
                        tcd: (ral::tcd::RegisterBlock {
                            csr: if intr {
                                c.tcd.csr | ral::tcd::CSR_INTMAJOR
                            } else {
                                c.tcd.csr & !ral::tcd::CSR_INTMAJOR
                            },
                            ..c.tcd
                        }),
                        ..c
                    }),
                )
            }),
    {
        let t = self.read_tcd(dma);
        let csr = if intr {
            t.csr | ral::tcd::CSR_INTMAJOR
        } else {
            t.csr & !ral::tcd::CSR_INTMAJOR
        };
        let t2 = ral::tcd::RegisterBlock { csr, ..t };
        proof {
            ral::tcd::lemma_csr_masks();
            ral::tcd::lemma_csr_config_bits(t.csr, ral::tcd::CSR_INTMAJOR);
        }
        self.write_tcd(dma, t2);
    }

    /// Sets the channel's bandwidth control: `None` disables stalling (the
    /// default), a value makes the engine stall after each read/write. Only
    /// the generations that keep bandwidth control in the descriptor's
    /// control/status word offer it; the fourth generation does not.
    pub fn set_bandwidth_control(&self, dma: &mut Dma, bandwidth: Option<ral::tcd::BandwidthControl>)
        requires
            old(dma).wf(),
            self.in_range(old(dma)@),
            old(dma)@.generation != crate::Generation::EDma4,
        ensures
            final(dma).wf(),
            ({
                let c = old(dma)@.channels[self.idx()];
                final(dma)@ =~= old(dma)@.with_channel(
                    self.idx(),
                    (ChannelView {
                        tcd: (ral::tcd::RegisterBlock {
                            csr: (c.tcd.csr & !ral::tcd::CSR_BWC_MASK) | (
                            ral::tcd::BandwidthControl::raw_spec(bandwidth)
                                << ral::tcd::CSR_BWC_OFFSET),
                            ..c.tcd
                        }),
                        ..c
                    }),
                )
            }),
    {
        let raw = ral::tcd::BandwidthControl::raw(bandwidth);
        let t = self.read_tcd(dma);
        let cleared = t.csr & !ral::tcd::CSR_BWC_MASK;
        let csr = cleared | (raw << ral::tcd::CSR_BWC_OFFSET);
        let t2 = ral::tcd::RegisterBlock { csr, ..t };
        proof {
            ral::tcd::lemma_csr_masks();
            ral::tcd::lemma_csr_config_bits(t.csr, ral::tcd::CSR_BWC_MASK);
            ral::tcd::lemma_bwc_field(raw);
            ral::tcd::lemma_csr_config_bits(cleared, raw << ral::tcd::CSR_BWC_OFFSET);
        }
        self.write_tcd(dma, t2);
    }

    /// Programs the channel's request multiplexer.
    ///
    /// A configuration the generation or channel index does not support is
    /// a programmer-contract violation: it is reported synchronously,
    /// before anything is written. Periodic triggering exists only on the
    /// first generation and only on the lowest four channels; always-on
    /// routing only on the first generation.
    pub fn set_channel_configuration(&self, dma: &mut Dma, configuration: ChannelConfiguration)
        -> (r: Result<(), ConfigurationError>)
        requires
            old(dma).wf(),
            self.in_range(old(dma)@),
        ensures
            final(dma).wf(),
            r == (match configuration_rejection(
                old(dma)@.generation,
                self.idx(),
                configuration,
            ) {
                None => Ok::<(), ConfigurationError>(()),
                Some(e) => Err::<(), ConfigurationError>(e),
            }),
            r is Ok ==> final(dma)@ =~= old(dma)@.with_channel(
                self.idx(),
                (ChannelView {
                    mux: mux_encoding(old(dma)@.generation, configuration),
                    ..old(dma)@.channels[self.idx()]
                }),
            ),
            r is Err ==> final(dma)@ =~= old(dma)@,
    {
        let i = self.index;
        let r = match &mut dma.controller {
            crate::Kind::EDma { regs, mux } => {
                match configuration {
                    ChannelConfiguration::Off => {
                        edma::write_chcfg(regs, mux, i, 0);
                        Ok(())
                    },
                    ChannelConfiguration::Enable { source, periodic } => {
                        if periodic && i >= 4 {
                            Err(ConfigurationError::PeriodicTrigger)
                        } else {
                            let value = (source | ral::dmamux::ENBL) | (
                            if periodic {
                                ral::dmamux::TRIG
                            } else {
                                0
                            });
                            edma::write_chcfg(regs, mux, i, value);
                            Ok(())
                        }
                    },
                    ChannelConfiguration::AlwaysOn => {
                        edma::write_chcfg(regs, mux, i, ral::dmamux::ENBL | ral::dmamux::A_ON);
                        Ok(())
                    },
                }
            },
            crate::Kind::EDma3 { regs } => {
                match configuration {
                    ChannelConfiguration::Off => {
                        let mut ch = regs.tcd[i];
                        edma34::block_write_mux(&mut ch, 0);
                        regs.tcd.set(i, ch);
                        Ok(())
                    },
                    ChannelConfiguration::Enable { source, periodic } => {
                        if periodic {
                            Err(ConfigurationError::PeriodicTrigger)
                        } else {
                            let mut ch = regs.tcd[i];
                            edma34::block_write_mux(&mut ch, source);
                            regs.tcd.set(i, ch);
                            Ok(())
                        }
                    },
                    ChannelConfiguration::AlwaysOn => Err(ConfigurationError::AlwaysOn),
                }
            },
            crate::Kind::EDma4 { regs } => {
                match configuration {
                    ChannelConfiguration::Off => {
                        let mut ch = regs.tcd[i];
                        edma34::block_write_mux(&mut ch, 0);
                        regs.tcd.set(i, ch);
                        Ok(())
                    },
                    ChannelConfiguration::Enable { source, periodic } => {
                        if periodic {
                            Err(ConfigurationError::PeriodicTrigger)
                        } else {
                            let mut ch = regs.tcd[i];
                            edma34::block_write_mux(&mut ch, source);
                            regs.tcd.set(i, ch);
                            Ok(())
                        }
                    },
                    ChannelConfiguration::AlwaysOn => Err(ConfigurationError::AlwaysOn),
                }
            },
        };
        proof {
            if r is Ok {
                assert(dma@.channels =~= old(dma)@.channels.update(
                    self.idx(),
                    (ChannelView {
                        mux: mux_encoding(old(dma)@.generation, configuration),
                        ..old(dma)@.channels[self.idx()]
                    }),
                ));
            } else {
                assert(dma@ =~= old(dma)@);
            }
        }
        r
    }
}

/// The error-status register value recorded when channel `channel` errs
/// with cause bits `cause`: the first generation's global snapshot names
/// the erring channel, the later generations' per-channel registers carry
/// the live-error flag and the cause alone.
pub open spec fn error_status_encoding(g: crate::Generation, channel: int, cause: u32) -> u32 {
    match g {
        crate::Generation::EDma => (crate::error::ES_VLD | (((channel as u32) & 0x1F)
            << crate::error::ES_ERRCHN_OFFSET)) | cause,
        _ => ral::edma3::CH_ES_ERR | cause,
    }
}

impl Channel {
    /// Sets the channel's done flag, as the hardware does when the major
    /// loop completes.
    pub(crate) fn set_complete_flag(&self, dma: &mut Dma)
        requires
            old(dma).wf(),
            self.in_range(old(dma)@),
        ensures
            final(dma).wf(),
            final(dma)@ =~= old(dma)@.with_channel(
                self.idx(),
                (ChannelView { done: true, ..old(dma)@.channels[self.idx()] }),
            ),
    {
        let i = self.index;
        match &mut dma.controller {
            crate::Kind::EDma { regs, mux } => edma::set_complete(regs, mux, i),
            crate::Kind::EDma3 { regs } => {
                let mut ch = regs.tcd[i];
                edma34::block_set_complete(&mut ch);
                regs.tcd.set(i, ch);
            },
            crate::Kind::EDma4 { regs } => {
                let mut ch = regs.tcd[i];
                edma34::block_set_complete(&mut ch);
                regs.tcd.set(i, ch);
            },
        }
        proof {
            assert(dma@.channels =~= old(dma)@.channels.update(
                self.idx(),
                (ChannelView { done: true, ..old(dma)@.channels[self.idx()] }),
            ));
        }
    }

    /// Raises the channel's completion-interrupt flag, as the hardware does
    /// when a completed major loop asks for an interrupt.
    pub(crate) fn raise_interrupt_flag(&self, dma: &mut Dma)
        requires
            old(dma).wf(),
            self.in_range(old(dma)@),
        ensures
            final(dma).wf(),
            final(dma)@ =~= old(dma)@.with_channel(
                self.idx(),
                (ChannelView { interrupt: true, ..old(dma)@.channels[self.idx()] }),
            ),
    {
        let i = self.index;
        match &mut dma.controller {
            crate::Kind::EDma { regs, mux } => edma::raise_interrupt(regs, mux, i),
            crate::Kind::EDma3 { regs } => {
                let mut ch = regs.tcd[i];
                edma34::block_raise_interrupt(&mut ch);
                regs.tcd.set(i, ch);
            },
            crate::Kind::EDma4 { regs } => {
                let mut ch = regs.tcd[i];
                edma34::block_raise_interrupt(&mut ch);
                regs.tcd.set(i, ch);
            },
        }
        proof {
            assert(dma@.channels =~= old(dma)@.channels.update(
                self.idx(),
                (ChannelView { interrupt: true, ..old(dma)@.channels[self.idx()] }),
            ));
        }
    }

    /// Records a transfer error on this channel with the given cause bits:
    /// sets the channel's error flag and writes the error-status register
    /// it reports through. On the first generation that register is global,
    /// so every channel's reported status changes with it.
    pub(crate) fn raise_error_status(&self, dma: &mut Dma, cause: u32)
        requires
            old(dma).wf(),
            self.in_range(old(dma)@),
        ensures
            final(dma).wf(),
            final(dma)@.generation == old(dma)@.generation,
            final(dma)@.id_replication == old(dma)@.id_replication,
            final(dma)@.wakers == old(dma)@.wakers,
            final(dma)@.taken == old(dma)@.taken,
            final(dma)@.channels.len() == old(dma)@.channels.len(),
            ({
                let enc = error_status_encoding(old(dma)@.generation, self.idx(), cause);
                &&& final(dma)@.channels[self.idx()] == (ChannelView {
                    error: true,
                    error_status: enc,
                    ..old(dma)@.channels[self.idx()]
                })
                &&& forall|j: int|
                    0 <= j < old(dma)@.channels.len() && j != self.idx()
                        ==> final(dma)@.channels[j] == (
                    if old(dma)@.generation == crate::Generation::EDma {
                        (ChannelView { error_status: enc, ..old(dma)@.channels[j] })
                    } else {
                        old(dma)@.channels[j]
                    })
            }),
    {
        let i = self.index;
        match &mut dma.controller {
            crate::Kind::EDma { regs, mux } => {
                let es = (crate::error::ES_VLD | (((i as u32) & 0x1F)
                    << crate::error::ES_ERRCHN_OFFSET)) | cause;
                edma::raise_error(regs, mux, i, es);
            },
            crate::Kind::EDma3 { regs } => {
                let es = ral::edma3::CH_ES_ERR | cause;
                proof {
                    assert((ral::edma3::CH_ES_ERR | cause) & ral::edma3::CH_ES_ERR != 0)
                        by (bit_vector);
                }
                let mut ch = regs.tcd[i];
                edma34::block_raise_error(&mut ch, es);
                regs.tcd.set(i, ch);
            },
            crate::Kind::EDma4 { regs } => {
                let es = ral::edma3::CH_ES_ERR | cause;
                proof {
                    assert((ral::edma3::CH_ES_ERR | cause) & ral::edma3::CH_ES_ERR != 0)
                        by (bit_vector);
                }
                let mut ch = regs.tcd[i];
                edma34::block_raise_error(&mut ch, es);
                regs.tcd.set(i, ch);
            },
        }
    }

    /// Asserts or clears the channel's hardware request line, as the routed
    /// peripheral does.
    pub(crate) fn set_hardware_signal(&self, dma: &mut Dma, asserted: bool)
        requires
            old(dma).wf(),
            self.in_range(old(dma)@),
        ensures
            final(dma).wf(),
            final(dma)@ =~= old(dma)@.with_channel(
                self.idx(),
                (ChannelView { hardware_signal: asserted, ..old(dma)@.channels[self.idx()] }),
            ),
    {
        let i = self.index;
        match &mut dma.controller {
            crate::Kind::EDma { regs, mux } => edma::set_hardware_request(regs, mux, i, asserted),
            crate::Kind::EDma3 { regs } => {
                let h = regs.hrs;
                if asserted {
                    regs.hrs = h | (1u32 << (i as u32));
                    proof {
                        crate::bits::lemma_set_bit(h, i as u32);
                    }
                } else {
                    regs.hrs = h & !(1u32 << (i as u32));
                    proof {
                        crate::bits::lemma_clear_bit(h, i as u32);
                    }
                }
            },
            crate::Kind::EDma4 { regs } => {
                if i < 32 {
                    let h = regs.hrs_low;
                    if asserted {
                        regs.hrs_low = h | (1u32 << (i as u32));
                        proof {
                            crate::bits::lemma_set_bit(h, i as u32);
                        }
                    } else {
                        regs.hrs_low = h & !(1u32 << (i as u32));
                        proof {
                            crate::bits::lemma_clear_bit(h, i as u32);
                        }
                    }
                } else {
                    let h = regs.hrs_high;
                    if asserted {
                        regs.hrs_high = h | (1u32 << ((i - 32) as u32));
                        proof {
                            crate::bits::lemma_set_bit(h, (i - 32) as u32);
                        }
                    } else {
                        regs.hrs_high = h & !(1u32 << ((i - 32) as u32));
                        proof {
                            crate::bits::lemma_clear_bit(h, (i - 32) as u32);
                        }
                    }
                }
            },
        }
        proof {
            assert(dma@.channels =~= old(dma)@.channels.update(
                self.idx(),
                (ChannelView { hardware_signal: asserted, ..old(dma)@.channels[self.idx()] }),
            ));
        }
    }
}

/// The driver view after a channel's descriptor reset: the descriptor all
/// zero and the start request clear. The first generation keeps done and
/// active inside the descriptor word, so zeroing clears them with it; the
/// later generations keep them outside, where the reset does not reach.
pub open spec fn descriptor_reset(v: crate::DmaView, i: int) -> crate::DmaView {
    let c = v.channels[i];
    let first = v.generation == crate::Generation::EDma;
    v.with_channel(
        i,
        (ChannelView {
            tcd: ral::tcd::RegisterBlock::zeroed(),
            start: false,
            done: if first {
                false
            } else {
                c.done
            },
            active: if first {
                false
            } else {
                c.active
            },
            ..c
        }),
    )
}

/// After a descriptor reset, a channel whose request-enable and error
/// bits were already clear — and, on the generations that keep completion
/// and activity outside the descriptor, those bits too — answers false to
/// every status predicate: it reads disabled, inactive, incomplete, and
/// error-free. The reset itself touches only the descriptor, so a channel
/// still enabled or in error before the reset keeps reporting so.
pub proof fn lemma_reset_known_good(v: crate::DmaView, i: int)
    requires
        0 <= i < v.channels.len(),
        !v.channels[i].enabled,
        !v.channels[i].error,
        v.generation != crate::Generation::EDma ==> !v.channels[i].done && !v.channels[i].active,
    ensures
        !descriptor_reset(v, i).channels[i].enabled,
        !descriptor_reset(v, i).channels[i].active,
        !descriptor_reset(v, i).channels[i].done,
        !descriptor_reset(v, i).channels[i].error,
{
}

/// Multiplexer channel configuration: how service requests reach a channel.
///
/// This is a finite configuration chosen per transfer, not an evolving state
/// machine.
#[derive(Debug, Clone, Copy, PartialEq, Eq, Structural)]
pub enum ChannelConfiguration {
    /// The channel's multiplexer is disabled: no request reaches the channel.
    Off,
    /// The multiplexer routes a hardware request source to the channel.
    Enable {
        /// The request-source selector routed to the channel.
        source: u32,
        /// Trigger the routed request on the periodic timers. Only the
        /// lowest four channels of the first generation support it.
        periodic: bool,
    },
    /// The request line is always asserted; the source selector is ignored.
    /// Used for memory-to-memory work on the first generation.
    AlwaysOn,
}

impl ChannelConfiguration {
    /// Enables the channel without periodic triggering: shorthand for the
    /// enabled configuration with the periodic flag clear, which no channel
    /// index rejects.
    pub fn enable(source: u32) -> (r: ChannelConfiguration)
        ensures
            r == (ChannelConfiguration::Enable { source, periodic: false }),
    {
        ChannelConfiguration::Enable { source, periodic: false }
    }
}

/// A programmer-contract violation detected while configuring a channel's
/// request multiplexer. These indicate a caller bug and are reported
/// synchronously, before anything is written.
#[derive(Debug, Clone, Copy, PartialEq, Eq, Structural)]
pub enum ConfigurationError {
    /// Periodic triggering was requested on a channel that has no
    /// periodic-trigger support.
    PeriodicTrigger,
    /// Always-on routing was requested on a generation without it.
    AlwaysOn,
}

/// Why a configuration is rejected for this generation and channel index,
/// or nothing if it is accepted.
pub open spec fn configuration_rejection(
    g: crate::Generation,
    idx: int,
    c: ChannelConfiguration,
) -> Option<ConfigurationError> {
    match g {
        crate::Generation::EDma => match c {
            ChannelConfiguration::Enable { source, periodic } => if periodic && idx >= 4 {
                Some(ConfigurationError::PeriodicTrigger)
            } else {
                None
            },
            _ => None,
        },
        _ => match c {
            ChannelConfiguration::Off => None,
            ChannelConfiguration::Enable { source, periodic } => if periodic {
                Some(ConfigurationError::PeriodicTrigger)
            } else {
                None
            },
            ChannelConfiguration::AlwaysOn => Some(ConfigurationError::AlwaysOn),
        },
    }
}

/// The raw multiplexer register value that realizes an accepted
/// configuration on the given generation.
pub open spec fn mux_encoding(g: crate::Generation, c: ChannelConfiguration) -> u32 {
    match g {
        crate::Generation::EDma => match c {
            ChannelConfiguration::Off => 0,
            ChannelConfiguration::Enable { source, periodic } => (source | ral::dmamux::ENBL) | (
            if periodic {
                ral::dmamux::TRIG
            } else {
                0
            }),
            ChannelConfiguration::AlwaysOn => ral::dmamux::ENBL | ral::dmamux::A_ON,
        },
        _ => match c {
            ChannelConfiguration::Off => 0,
            ChannelConfiguration::Enable { source, periodic } => source,
            ChannelConfiguration::AlwaysOn => 0,
        },
    }
}

} // verus!
