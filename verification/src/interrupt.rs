//! Completion synchronization.
//!
//! Each channel owns one completion cell: a single slot holding either "no
//! one waiting" or one registered consumer, identified here by a plain
//! token. The consumer path registers its token and suspends; the interrupt
//! path, on observing a pending completion interrupt, clears the hardware
//! flag and takes the registered token out, so each physical completion
//! resumes at most one consumer and resumes it exactly once. Registration
//! is last-write-wins: the cell offers no sequencing beyond that, and a
//! consumer that stops waiting must deregister before the channel is
//! reused.

use crate::channel::Channel;
use crate::Dma;
use crate::DmaView;
use crate::ChannelView;
use vstd::prelude::*;

verus! {

impl Dma {
    /// Registers `waiter` as the consumer to resume on channel `index`'s
    /// next completion, replacing whatever the cell held: the last
    /// registration wins.
    pub fn register_waiter(&mut self, index: usize, waiter: u32)
        requires
            old(self).wf(),
            index < old(self)@.wakers.len(),
        ensures
            final(self).wf(),
            final(self)@ =~= (DmaView {
                wakers: old(self)@.wakers.update(index as int, Some(waiter)),
                ..old(self)@
            }),
    {
        self.wakers.set(index, Some(waiter));
        proof {
            assert(self@.channels =~= old(self)@.channels);
        }
    }

    /// Empties channel `index`'s completion cell, returning the consumer it
    /// held. A consumer that abandons a wait must call this before the
    /// channel is reused, or a later completion could resume it stale.
    pub fn deregister_waiter(&mut self, index: usize) -> (r: Option<u32>)
        requires
            old(self).wf(),
            index < old(self)@.wakers.len(),
        ensures
            final(self).wf(),
            r == old(self)@.wakers[index as int],
            final(self)@ =~= (DmaView {
                wakers: old(self)@.wakers.update(index as int, None),
                ..old(self)@
            }),
    {
        let r = self.wakers[index];
        self.wakers.set(index, None);
        proof {
            assert(self@.channels =~= old(self)@.channels);
        }
        r
    }
}

/// One visit of the interrupt path to one channel leaves exactly this
/// behind: with a completion interrupt pending, the registered consumer is
/// handed back while the flag and the cell are cleared together; without
/// one, nothing is handed back and nothing changes.
pub open spec fn interrupt_serviced(pre: DmaView, post: DmaView, r: Option<u32>, i: int) -> bool {
    if pre.channels[i].interrupt {
        r == pre.wakers[i] && post =~= (DmaView {
            channels: pre.channels.update(i, (ChannelView { interrupt: false, ..pre.channels[i] })),
            wakers: pre.wakers.update(i, None),
            ..pre
        })
    } else {
        r is None && post =~= pre
    }
}

/// One hardware completion resumes at most one consumer, and resumes it
/// exactly once: the interrupt path that finds the completion interrupt
/// pending hands back the registered consumer and clears both the flag and
/// the cell in the same step, so a second visit of the interrupt path —
/// however it races against the first — hands back no one and changes
/// nothing.
pub proof fn lemma_exactly_one_resumption(
    pre: DmaView,
    mid: DmaView,
    post: DmaView,
    r1: Option<u32>,
    r2: Option<u32>,
    i: int,
)
    requires
        0 <= i < pre.channels.len(),
        0 <= i < pre.wakers.len(),
        pre.channels[i].interrupt,
        interrupt_serviced(pre, mid, r1, i),
        interrupt_serviced(mid, post, r2, i),
    ensures
        r1 == pre.wakers[i],
        r2 is None,
        post =~= mid,
{
}

/// The interrupt path for one channel. Call it from the controller's
/// interrupt handler with each channel that may have completed.
///
/// If the channel has a completion interrupt pending, this clears the
/// hardware flag, empties the completion cell, and returns the consumer
/// that was registered, which the handler must resume — once, since the
/// cell is now empty, a second call finds no pending interrupt and no
/// consumer. Without a pending interrupt nothing changes.
pub fn on_interrupt(dma: &mut Dma, channel: &Channel) -> (r: Option<u32>)
    requires
        old(dma).wf(),
        channel.in_range(old(dma)@),
    ensures
        final(dma).wf(),
        interrupt_serviced(old(dma)@, final(dma)@, r, channel.idx()),
{
    if channel.is_interrupt(dma) {
        channel.clear_interrupt(dma);
        dma.deregister_waiter(channel.channel())
    } else {
        None
    }
}

/// The consumer path: one cooperative polling step toward completion.
///
/// If the channel's transfer has completed, returns true and leaves the
/// completion cell empty. Otherwise registers `waiter` — replacing any
/// prior registration — and returns false; the consumer then suspends until
/// [`on_interrupt`] hands its token back to the scheduler.
pub fn poll_complete(dma: &mut Dma, channel: &Channel, waiter: u32) -> (complete: bool)
    requires
        old(dma).wf(),
        channel.in_range(old(dma)@),
    ensures
        final(dma).wf(),
        complete == old(dma)@.channels[channel.idx()].done,
        complete ==> final(dma)@ =~= (DmaView {
            wakers: old(dma)@.wakers.update(channel.idx(), None),
            ..old(dma)@
        }),
        !complete ==> final(dma)@ =~= (DmaView {
            wakers: old(dma)@.wakers.update(channel.idx(), Some(waiter)),
            ..old(dma)@
        }),
{
    if channel.is_complete(dma) {
        let _ = dma.deregister_waiter(channel.channel());
        true
    } else {
        dma.register_waiter(channel.channel(), waiter);
        false
    }
}

} // verus!
