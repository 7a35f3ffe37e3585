//! Channel operations on the first-generation controller.
//!
//! Per-channel control and status live as one bit per channel in shared
//! 32-bit registers, completion and activity in the descriptor's
//! control/status word, and the request routing in the separate multiplexer
//! block. The hardware's byte-wide set/clear ports are modeled by the
//! single-bit updates they perform. Every contract is stated against the
//! generation-independent channel view.

use crate::bits::lemma_clear_bit;
use crate::bits::lemma_set_bit;
use crate::ral::dmamux;
use crate::ral::edma::channel_view;
use crate::ral::edma::RegisterBlock;
use crate::ral::tcd;
use crate::ral::tcd::CSR_DONE;
use crate::ChannelView;
use vstd::prelude::*;

verus! {

/// The operation's register writes stay inside channel `index`: every other
/// channel reports an unchanged view, and the channel count is unchanged.
pub(crate) open spec fn others_unchanged(
    pre: RegisterBlock,
    post: RegisterBlock,
    mux: dmamux::RegisterBlock,
    index: int,
) -> bool {
    &&& post.tcd@.len() == pre.tcd@.len()
    &&& post.dchpri.dchpri@ == pre.dchpri.dchpri@
    &&& forall|j: int|
        0 <= j < pre.tcd@.len() && j != index ==> channel_view(post, mux, j) == channel_view(
            pre,
            mux,
            j,
        )
}

/// Sets the channel's request-enable bit, as the set-enable-request port
/// does for a written channel number.
pub(crate) fn enable(regs: &mut RegisterBlock, mux: &dmamux::RegisterBlock, index: usize)
    requires
        index < old(regs).tcd@.len(),
        old(regs).tcd@.len() <= 32,
    ensures
        others_unchanged(*old(regs), *final(regs), *mux, index as int),
        channel_view(*final(regs), *mux, index as int) == (ChannelView {
            enabled: true,
            ..channel_view(*old(regs), *mux, index as int)
        }),
{
    regs.erq = regs.erq | (1u32 << (index as u32));
    proof {
        lemma_set_bit(old(regs).erq, index as u32);
    }
}

/// Clears the channel's request-enable bit, as the clear-enable-request
/// port does for a written channel number.
pub(crate) fn disable(regs: &mut RegisterBlock, mux: &dmamux::RegisterBlock, index: usize)
    requires
        index < old(regs).tcd@.len(),
        old(regs).tcd@.len() <= 32,
    ensures
        others_unchanged(*old(regs), *final(regs), *mux, index as int),
        channel_view(*final(regs), *mux, index as int) == (ChannelView {
            enabled: false,
            ..channel_view(*old(regs), *mux, index as int)
        }),
{
    regs.erq = regs.erq & !(1u32 << (index as u32));
    proof {
        lemma_clear_bit(old(regs).erq, index as u32);
    }
}

/// Clears the channel's interrupt-request bit, as the clear-interrupt port
/// does for a written channel number.
pub(crate) fn clear_interrupt(regs: &mut RegisterBlock, mux: &dmamux::RegisterBlock, index: usize)
    requires
        index < old(regs).tcd@.len(),
        old(regs).tcd@.len() <= 32,
    ensures
        others_unchanged(*old(regs), *final(regs), *mux, index as int),
        channel_view(*final(regs), *mux, index as int) == (ChannelView {
            interrupt: false,
            ..channel_view(*old(regs), *mux, index as int)
        }),
{
    regs.int = regs.int & !(1u32 << (index as u32));
    proof {
        lemma_clear_bit(old(regs).int, index as u32);
    }
}

/// Clears the channel's error bit, as the clear-error port does for a
/// written channel number. The global error-status snapshot is untouched.
pub(crate) fn clear_error(regs: &mut RegisterBlock, mux: &dmamux::RegisterBlock, index: usize)
    requires
        index < old(regs).tcd@.len(),
        old(regs).tcd@.len() <= 32,
    ensures
        others_unchanged(*old(regs), *final(regs), *mux, index as int),
        channel_view(*final(regs), *mux, index as int) == (ChannelView {
            error: false,
            ..channel_view(*old(regs), *mux, index as int)
        }),
{
    regs.err = regs.err & !(1u32 << (index as u32));
    proof {
        lemma_clear_bit(old(regs).err, index as u32);
    }
}

/// Clears the done bit in the channel's descriptor, as the clear-done port
/// does for a written channel number.
pub(crate) fn clear_complete(regs: &mut RegisterBlock, mux: &dmamux::RegisterBlock, index: usize)
    requires
        index < old(regs).tcd@.len(),
        old(regs).tcd@.len() <= 32,
    ensures
        others_unchanged(*old(regs), *final(regs), *mux, index as int),
        channel_view(*final(regs), *mux, index as int) == (ChannelView {
            done: false,
            ..channel_view(*old(regs), *mux, index as int)
        }),
{
    let t = regs.tcd[index];
    let t2 = tcd::RegisterBlock { csr: t.csr & !CSR_DONE, ..t };
    regs.tcd.set(index, t2);
    proof {
        let c = t.csr;
        assert((c & !tcd::CSR_DONE) & tcd::CSR_DONE == 0 && (c & !tcd::CSR_DONE) & tcd::CSR_ACTIVE
            == c & tcd::CSR_ACTIVE && (c & !tcd::CSR_DONE) & tcd::CSR_START == c & tcd::CSR_START
            && (c & !tcd::CSR_DONE) & tcd::CSR_CONFIG_MASK == c & tcd::CSR_CONFIG_MASK)
            by (bit_vector);
    }
}

/// Sets the start bit in the channel's descriptor, as the software-start
/// port does for a written channel number.
pub(crate) fn start(regs: &mut RegisterBlock, mux: &dmamux::RegisterBlock, index: usize)
    requires
        index < old(regs).tcd@.len(),
        old(regs).tcd@.len() <= 32,
    ensures
        others_unchanged(*old(regs), *final(regs), *mux, index as int),
        channel_view(*final(regs), *mux, index as int) == (ChannelView {
            start: true,
            ..channel_view(*old(regs), *mux, index as int)
        }),
{
    let t = regs.tcd[index];
    let t2 = tcd::RegisterBlock { csr: t.csr | tcd::CSR_START, ..t };
    regs.tcd.set(index, t2);
    proof {
        let c = t.csr;
        assert((c | tcd::CSR_START) & tcd::CSR_START != 0 && (c | tcd::CSR_START) & tcd::CSR_ACTIVE
            == c & tcd::CSR_ACTIVE && (c | tcd::CSR_START) & tcd::CSR_DONE == c & tcd::CSR_DONE && (
        c | tcd::CSR_START) & tcd::CSR_CONFIG_MASK == c & tcd::CSR_CONFIG_MASK) by (bit_vector);
    }
}

/// Writes the channel's multiplexer configuration word.
pub(crate) fn write_chcfg(
    regs: &RegisterBlock,
    mux: &mut dmamux::RegisterBlock,
    index: usize,
    value: u32,
)
    requires
        index < regs.tcd@.len(),
        regs.tcd@.len() <= 32,
        old(mux).chcfg@.len() == regs.tcd@.len(),
    ensures
        final(mux).chcfg@.len() == old(mux).chcfg@.len(),
        forall|j: int|
            0 <= j < regs.tcd@.len() && j != index ==> channel_view(*regs, *final(mux), j)
                == channel_view(*regs, *old(mux), j),
        channel_view(*regs, *final(mux), index as int) == (ChannelView {
            mux: value,
            ..channel_view(*regs, *old(mux), index as int)
        }),
{
    mux.chcfg.set(index, value);
}

/// Sets the done bit in the channel's descriptor, as the engine does when
/// the major loop completes.
pub(crate) fn set_complete(regs: &mut RegisterBlock, mux: &dmamux::RegisterBlock, index: usize)
    requires
        index < old(regs).tcd@.len(),
        old(regs).tcd@.len() <= 32,
    ensures
        others_unchanged(*old(regs), *final(regs), *mux, index as int),
        channel_view(*final(regs), *mux, index as int) == (ChannelView {
            done: true,
            ..channel_view(*old(regs), *mux, index as int)
        }),
{
    let t = regs.tcd[index];
    let t2 = tcd::RegisterBlock { csr: t.csr | CSR_DONE, ..t };
    regs.tcd.set(index, t2);
    proof {
        let c = t.csr;
        assert((c | tcd::CSR_DONE) & tcd::CSR_DONE != 0 && (c | tcd::CSR_DONE) & tcd::CSR_ACTIVE
            == c & tcd::CSR_ACTIVE && (c | tcd::CSR_DONE) & tcd::CSR_START == c & tcd::CSR_START
            && (c | tcd::CSR_DONE) & tcd::CSR_CONFIG_MASK == c & tcd::CSR_CONFIG_MASK)
            by (bit_vector);
    }
}

/// Sets the channel's interrupt-request bit, as the engine does when a
/// completed major loop asks for an interrupt.
pub(crate) fn raise_interrupt(regs: &mut RegisterBlock, mux: &dmamux::RegisterBlock, index: usize)
    requires
        index < old(regs).tcd@.len(),
        old(regs).tcd@.len() <= 32,
    ensures
        others_unchanged(*old(regs), *final(regs), *mux, index as int),
        channel_view(*final(regs), *mux, index as int) == (ChannelView {
            interrupt: true,
            ..channel_view(*old(regs), *mux, index as int)
        }),
{
    regs.int = regs.int | (1u32 << (index as u32));
    proof {
        lemma_set_bit(old(regs).int, index as u32);
    }
}

/// Records a transfer error: sets the channel's error bit and writes the
/// global error-status snapshot, which every channel then reports.
pub(crate) fn raise_error(
    regs: &mut RegisterBlock,
    mux: &dmamux::RegisterBlock,
    index: usize,
    es: u32,
)
    requires
        index < old(regs).tcd@.len(),
        old(regs).tcd@.len() <= 32,
    ensures
        final(regs).tcd@.len() == old(regs).tcd@.len(),
        final(regs).dchpri.dchpri@ == old(regs).dchpri.dchpri@,
        forall|j: int|
            0 <= j < old(regs).tcd@.len() && j != index ==> channel_view(*final(regs), *mux, j)
                == (ChannelView { error_status: es, ..channel_view(*old(regs), *mux, j) }),
        channel_view(*final(regs), *mux, index as int) == (ChannelView {
            error: true,
            error_status: es,
            ..channel_view(*old(regs), *mux, index as int)
        }),
{
    regs.es = es;
    regs.err = regs.err | (1u32 << (index as u32));
    proof {
        lemma_set_bit(old(regs).err, index as u32);
    }
}

/// Asserts or clears the channel's hardware-request-status bit, as the
/// routed peripheral's request line does.
pub(crate) fn set_hardware_request(
    regs: &mut RegisterBlock,
    mux: &dmamux::RegisterBlock,
    index: usize,
    asserted: bool,
)
    requires
        index < old(regs).tcd@.len(),
        old(regs).tcd@.len() <= 32,
    ensures
        others_unchanged(*old(regs), *final(regs), *mux, index as int),
        channel_view(*final(regs), *mux, index as int) == (ChannelView {
            hardware_signal: asserted,
            ..channel_view(*old(regs), *mux, index as int)
        }),
{
    if asserted {
        regs.hrs = regs.hrs | (1u32 << (index as u32));
        proof {
            lemma_set_bit(old(regs).hrs, index as u32);
        }
    } else {
        regs.hrs = regs.hrs & !(1u32 << (index as u32));
        proof {
            lemma_clear_bit(old(regs).hrs, index as u32);
        }
    }
}

/// Reads the channel's request-enable bit.
pub(crate) fn is_enabled(regs: &RegisterBlock, mux: &dmamux::RegisterBlock, index: usize) -> (r:
    bool)
    requires
        index < regs.tcd@.len(),
        regs.tcd@.len() <= 32,
    ensures
        r == channel_view(*regs, *mux, index as int).enabled,
{
    regs.erq & (1u32 << (index as u32)) != 0
}

/// Reads the channel's hardware-request-status bit.
pub(crate) fn is_hardware_signaling(
    regs: &RegisterBlock,
    mux: &dmamux::RegisterBlock,
    index: usize,
) -> (r: bool)
    requires
        index < regs.tcd@.len(),
        regs.tcd@.len() <= 32,
    ensures
        r == channel_view(*regs, *mux, index as int).hardware_signal,
{
    regs.hrs & (1u32 << (index as u32)) != 0
}

/// Reads the channel's interrupt-request bit.
pub(crate) fn is_interrupt(regs: &RegisterBlock, mux: &dmamux::RegisterBlock, index: usize) -> (r:
    bool)
    requires
        index < regs.tcd@.len(),
        regs.tcd@.len() <= 32,
    ensures
        r == channel_view(*regs, *mux, index as int).interrupt,
{
    regs.int & (1u32 << (index as u32)) != 0
}

/// Reads the channel's error bit.
pub(crate) fn is_error(regs: &RegisterBlock, mux: &dmamux::RegisterBlock, index: usize) -> (r: bool)
    requires
        index < regs.tcd@.len(),
        regs.tcd@.len() <= 32,
    ensures
        r == channel_view(*regs, *mux, index as int).error,
{
    regs.err & (1u32 << (index as u32)) != 0
}

/// Reads the done bit from the channel's descriptor.
pub(crate) fn is_complete(regs: &RegisterBlock, mux: &dmamux::RegisterBlock, index: usize) -> (r:
    bool)
    requires
        index < regs.tcd@.len(),
        regs.tcd@.len() <= 32,
    ensures
        r == channel_view(*regs, *mux, index as int).done,
{
    let t = regs.tcd[index];
    t.csr & CSR_DONE != 0
}

/// Reads the active bit from the channel's descriptor.
pub(crate) fn is_active(regs: &RegisterBlock, mux: &dmamux::RegisterBlock, index: usize) -> (r:
    bool)
    requires
        index < regs.tcd@.len(),
        regs.tcd@.len() <= 32,
    ensures
        r == channel_view(*regs, *mux, index as int).active,
{
    let t = regs.tcd[index];
    t.csr & tcd::CSR_ACTIVE != 0
}

/// Reads the global error-status register.
pub(crate) fn error_status(regs: &RegisterBlock, mux: &dmamux::RegisterBlock, index: usize) -> (r:
    u32)
    requires
        index < regs.tcd@.len(),
        regs.tcd@.len() <= 32,
    ensures
        r == channel_view(*regs, *mux, index as int).error_status,
{
    regs.es
}

/// Reads the channel's raw descriptor.
pub(crate) fn read_descriptor(regs: &RegisterBlock, index: usize) -> (t: tcd::RegisterBlock)
    requires
        index < regs.tcd@.len(),
    ensures
        t == regs.tcd@[index as int],
{
    regs.tcd[index]
}

/// Writes the channel's raw descriptor. On this generation the done,
/// active, and start status bits live inside the descriptor word being
/// written, so the channel's status view follows the written value.
pub(crate) fn write_descriptor(
    regs: &mut RegisterBlock,
    mux: &dmamux::RegisterBlock,
    index: usize,
    t: tcd::RegisterBlock,
)
    requires
        index < old(regs).tcd@.len(),
        old(regs).tcd@.len() <= 32,
    ensures
        others_unchanged(*old(regs), *final(regs), *mux, index as int),
        final(regs).tcd@[index as int] == t,
        channel_view(*final(regs), *mux, index as int) == (ChannelView {
            done: t.done_bit(),
            active: t.active_bit(),
            start: t.start_bit(),
            tcd: t.configured(),
            ..channel_view(*old(regs), *mux, index as int)
        }),
{
    regs.tcd.set(index, t);
}

} // verus!
