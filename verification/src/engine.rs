//! Register-activity model of the DMA engine.
//!
//! The driver programs descriptors; this module models what the hardware
//! does with them: it services a channel's requests by moving the
//! descriptor's elements through a [`Memory`], honoring strides,
//! circular-buffer address masking, minor and major loops, the
//! end-of-transfer adjustments, and the completion and error flags. It also
//! models the inputs only hardware can produce — a peripheral asserting a
//! request line, a bus fault recorded in the error-status register — so
//! that every driver path can be exercised against the model.

use crate::channel::error_status_encoding;
use crate::channel::Channel;
use crate::error;
use crate::memory::Memory;
use crate::ral::tcd;
use crate::ChannelView;
use crate::Dma;
use crate::DmaView;
use vstd::prelude::*;
use vstd::wrapping::u32_specs;

verus! {

/// The byte size encoded by a transfer-attribute field; zero for the codes
/// the engine does not serve.
pub open spec fn attr_size(attr: u8) -> nat {
    if attr & 7 == 0 {
        1
    } else if attr & 7 == 1 {
        2
    } else if attr & 7 == 2 {
        4
    } else if attr & 7 == 3 {
        8
    } else {
        0
    }
}

/// The address-modulo exponent encoded by a transfer-attribute field.
pub open spec fn attr_modulo(attr: u8) -> u32 {
    (attr >> 3) as u32
}

/// One address advance: the address moves by the signed offset, wrapping in
/// 32 bits; a nonzero modulo exponent freezes every bit above it, confining
/// the advance to a power-of-two-sized region.
pub open spec fn advance(addr: u32, off: i16, modbits: u32) -> u32 {
    let next = u32_specs::wrapping_add_signed(addr, off as i32);
    if modbits == 0 {
        next
    } else {
        let mask = ((1u32 << modbits) - 1) as u32;
        (addr & !mask) | (next & mask)
    }
}

/// `mem` with the `n` bytes at `s` copied over the `n` bytes at `d`,
/// reading the source from `mem` as it was before the copy.
pub open spec fn copy_block(mem: Seq<u8>, s: int, d: int, n: int) -> Seq<u8> {
    Seq::new(mem.len(), |i: int| if d <= i && i < d + n { mem[s + (i - d)] } else { mem[i] })
}

/// The outcome of modeled data movement: the memory and working addresses
/// it ends with, or the side whose access left the address space.
pub enum Moved {
    /// The movement completed.
    Done {
        /// The memory after the movement.
        mem: Seq<u8>,
        /// The source address after its last advance.
        saddr: u32,
        /// The destination address after its last advance.
        daddr: u32,
    },
    /// An element read fell outside the address space: a source bus error.
    SourceFault,
    /// An element write fell outside the address space: a destination bus
    /// error.
    DestinationFault,
}

/// Moves `count` elements of `esize` bytes: each is copied whole, then both
/// addresses advance by their signed offsets under their modulo masks.
pub open spec fn run_elements(
    mem: Seq<u8>,
    s: u32,
    d: u32,
    soff: i16,
    doff: i16,
    smod: u32,
    dmod: u32,
    esize: nat,
    count: nat,
) -> Moved
    decreases count,
{
    if count == 0 {
        Moved::Done { mem, saddr: s, daddr: d }
    } else if s + esize > mem.len() {
        Moved::SourceFault
    } else if d + esize > mem.len() {
        Moved::DestinationFault
    } else {
        run_elements(
            copy_block(mem, s as int, d as int, esize as int),
            advance(s, soff, smod),
            advance(d, doff, dmod),
            soff,
            doff,
            smod,
            dmod,
            esize,
            (count - 1) as nat,
        )
    }
}

/// Runs `iterations` major-loop iterations of descriptor `t`: each moves
/// one minor loop of `t.nbytes` bytes, element by element.
pub open spec fn run_iterations(
    mem: Seq<u8>,
    s: u32,
    d: u32,
    t: tcd::RegisterBlock,
    iterations: nat,
) -> Moved
    decreases iterations,
{
    if iterations == 0 {
        Moved::Done { mem, saddr: s, daddr: d }
    } else {
        match run_elements(
            mem,
            s,
            d,
            t.soff,
            t.doff,
            attr_modulo(t.sattr),
            attr_modulo(t.dattr),
            attr_size(t.sattr),
            t.nbytes as nat / attr_size(t.sattr),
        ) {
            Moved::Done { mem: m2, saddr: s2, daddr: d2 } => run_iterations(
                m2,
                s2,
                d2,
                t,
                (iterations - 1) as nat,
            ),
            Moved::SourceFault => Moved::SourceFault,
            Moved::DestinationFault => Moved::DestinationFault,
        }
    }
}

/// What one full run of descriptor `t` does to `mem`: every major-loop
/// iteration, from the descriptor's programmed addresses.
pub open spec fn run_outcome(mem: Seq<u8>, t: tcd::RegisterBlock) -> Moved {
    run_iterations(mem, t.saddr, t.daddr, t, t.citer as nat)
}

/// The descriptor configurations the engine serves: a supported element
/// size, equal on both sides; a minor loop of whole elements; and a
/// current iteration count that is nonzero, within its fifteen bits, and
/// equal to the starting count. Anything else raises a configuration
/// error.
pub open spec fn descriptor_valid(t: tcd::RegisterBlock) -> bool {
    &&& attr_size(t.sattr) > 0
    &&& attr_size(t.dattr) == attr_size(t.sattr)
    &&& t.nbytes as nat % attr_size(t.sattr) == 0
    &&& t.citer == t.biter
    &&& 0 < t.citer <= tcd::ITERATION_MASK
}

/// The driver view after the engine records an error on channel `i`: the
/// channel's error flag rises and the error-status register it reports
/// through holds the encoded cause. On the first generation that register
/// is global, so every channel reports the new snapshot.
pub open spec fn error_raised(pre: DmaView, post: DmaView, i: int, cause: u32) -> bool {
    let enc = error_status_encoding(pre.generation, i, cause);
    &&& post.generation == pre.generation
    &&& post.id_replication == pre.id_replication
    &&& post.wakers == pre.wakers
    &&& post.taken == pre.taken
    &&& post.channels.len() == pre.channels.len()
    &&& post.channels[i] == (ChannelView {
        error: true,
        error_status: enc,
        ..pre.channels[i]
    })
    &&& forall|j: int|
        0 <= j < pre.channels.len() && j != i ==> post.channels[j] == (
        if pre.generation == crate::Generation::EDma {
            (ChannelView { error_status: enc, ..pre.channels[j] })
        } else {
            pre.channels[j]
        })
}

/// The driver view after the engine completes channel `i`'s major loop
/// with working addresses `s` and `d`: done rises, the start request is
/// consumed, the end-of-transfer adjustments land on the working
/// addresses, an interrupt rises if the descriptor asked for one, and the
/// request-enable bit falls if the descriptor asked to disable on
/// completion. The iteration counter keeps its starting value, so the
/// transfer can be rerun without reprogramming.
pub open spec fn completion_state(pre: DmaView, post: DmaView, i: int, s: u32, d: u32) -> bool {
    let c = pre.channels[i];
    let t = c.tcd;
    post =~= pre.with_channel(
        i,
        (ChannelView {
            done: true,
            start: false,
            enabled: c.enabled && !t.disable_on_completion(),
            interrupt: c.interrupt || t.interrupt_on_completion(),
            tcd: (tcd::RegisterBlock {
                saddr: u32_specs::wrapping_add_signed(s, t.slast),
                daddr: u32_specs::wrapping_add_signed(d, t.dlast_sga),
                ..t
            }),
            ..c
        }),
    )
}

/// Decodes a transfer-attribute field's element size; zero marks an
/// unsupported code.
fn decode_size(attr: u8) -> (r: u32)
    ensures
        r == attr_size(attr),
{
    let code = attr & 7;
    if code == 0 {
        1
    } else if code == 1 {
        2
    } else if code == 2 {
        4
    } else if code == 3 {
        8
    } else {
        0
    }
}

/// Performs one address advance.
fn advance_exec(addr: u32, off: i16, modbits: u32) -> (r: u32)
    requires
        modbits < 32,
    ensures
        r == advance(addr, off, modbits),
{
    let next = addr.wrapping_add_signed(off as i32);
    if modbits == 0 {
        next
    } else {
        proof {
            assert(1u32 << modbits >= 1) by (bit_vector)
                requires
                    modbits < 32,
            ;
        }
        let mask = (1u32 << modbits) - 1;
        (addr & !mask) | (next & mask)
    }
}

/// Which side of a transfer faulted.
enum Fault {
    Source,
    Destination,
}

/// Copies one element of `n` bytes from `s` to `d`, reading the whole
/// element before writing it.
#[verifier::loop_isolation(false)]
fn copy_element(mem: &mut Memory, s: u32, d: u32, n: u32)
    requires
        s + n <= old(mem)@.len(),
        d + n <= old(mem)@.len(),
        old(mem)@.len() <= 0x1_0000_0000,
    ensures
        final(mem)@ =~= copy_block(old(mem)@, s as int, d as int, n as int),
{
    let mut buf: Vec<u8> = Vec::new();
    let mut b: u32 = 0;
    while b < n
        invariant
            b <= n,
            buf@ =~= old(mem)@.subrange(s as int, s as int + b),
            mem@ == old(mem)@,
        decreases n - b,
    {
        buf.push(mem.read_byte(s + b));
        b = b + 1;
    }
    let mut w: u32 = 0;
    while w < n
        invariant
            w <= n,
            mem@.len() == old(mem)@.len(),
            forall|i: int|
                0 <= i < mem@.len() ==> mem@[i] == (if d <= i && i < d + w {
                    old(mem)@[s + (i - d)]
                } else {
                    old(mem)@[i]
                }),
        decreases n - w,
    {
        mem.write_byte(d + w, buf[w as usize]);
        w = w + 1;
    }
}

/// Moves `count` elements, advancing both addresses after each, and stops
/// at the first access that leaves the address space.
#[verifier::loop_isolation(false)]
fn run_minor(
    mem: &mut Memory,
    s: &mut u32,
    d: &mut u32,
    soff: i16,
    doff: i16,
    smod: u32,
    dmod: u32,
    esize: u32,
    count: u32,
) -> (r: Result<(), Fault>)
    requires
        old(mem)@.len() <= 0x1_0000_0000,
        smod < 32,
        dmod < 32,
        1 <= esize,
    ensures
        final(mem)@.len() == old(mem)@.len(),
        ({
            let outcome = run_elements(
                old(mem)@,
                *old(s),
                *old(d),
                soff,
                doff,
                smod,
                dmod,
                esize as nat,
                count as nat,
            );
            match r {
                Ok(()) => outcome == (Moved::Done {
                    mem: final(mem)@,
                    saddr: *final(s),
                    daddr: *final(d),
                }),
                Err(Fault::Source) => outcome == Moved::SourceFault,
                Err(Fault::Destination) => outcome == Moved::DestinationFault,
            }
        }),
{
    let mut k: u32 = 0;
    while k < count
        invariant
            k <= count,
            mem@.len() == old(mem)@.len(),
            run_elements(
                old(mem)@,
                *old(s),
                *old(d),
                soff,
                doff,
                smod,
                dmod,
                esize as nat,
                count as nat,
            ) == run_elements(
                mem@,
                *s,
                *d,
                soff,
                doff,
                smod,
                dmod,
                esize as nat,
                (count - k) as nat,
            ),
        decreases count - k,
    {
        if (*s as u64) + (esize as u64) > mem.len() as u64 {
            return Err(Fault::Source);
        }
        if (*d as u64) + (esize as u64) > mem.len() as u64 {
            return Err(Fault::Destination);
        }
        copy_element(mem, *s, *d, esize);
        *s = advance_exec(*s, soff, smod);
        *d = advance_exec(*d, doff, dmod);
        k = k + 1;
    }
    Ok(())
}

/// Services channel `channel`'s pending request, if it has one, by running
/// the programmed transfer to completion against `mem`.
///
/// Without a request — neither the request-enable bit nor a software start
/// — nothing happens and `Ok(false)` is returned. A descriptor outside the
/// served configurations raises a configuration error; an element access
/// outside the address space raises the matching bus error; either leaves
/// the channel's error flag set and returns the decoded status, and a bus
/// fault leaves whatever the loop had already written. A completed run
/// returns `Ok(true)` with the memory moved exactly as the descriptor
/// describes and the channel's completion state recorded.
#[verifier::rlimit(60)]
#[verifier::loop_isolation(false)]
pub fn run_transfer(dma: &mut Dma, mem: &mut Memory, channel: &Channel) -> (r: Result<
    bool,
    error::Error,
>)
    requires
        old(dma).wf(),
        channel.in_range(old(dma)@),
        old(mem)@.len() <= 0x1_0000_0000,
    ensures
        final(dma).wf(),
        final(mem)@.len() == old(mem)@.len(),
        ({
            let c = old(dma)@.channels[channel.idx()];
            &&& (!(c.enabled || c.start) ==> r == Ok::<bool, error::Error>(false) && final(dma)@
                =~= old(dma)@ && final(mem)@ =~= old(mem)@)
            &&& ((c.enabled || c.start) && !descriptor_valid(c.tcd) ==> final(mem)@ =~= old(mem)@
                && error_raised(old(dma)@, final(dma)@, channel.idx(), error::ES_NCE) && (
            r matches Err(e) && e.raw_spec() == error_status_encoding(
                old(dma)@.generation,
                channel.idx(),
                error::ES_NCE,
            )))
            &&& ((c.enabled || c.start) && descriptor_valid(c.tcd) ==> match run_outcome(
                old(mem)@,
                c.tcd,
            ) {
                Moved::Done { mem: m, saddr: s2, daddr: d2 } => r == Ok::<bool, error::Error>(true)
                    && final(mem)@ =~= m && completion_state(
                    old(dma)@,
                    final(dma)@,
                    channel.idx(),
                    s2,
                    d2,
                ),
                Moved::SourceFault => error_raised(
                    old(dma)@,
                    final(dma)@,
                    channel.idx(),
                    error::ES_SBE,
                ) && (r matches Err(e) && e.raw_spec() == error_status_encoding(
                    old(dma)@.generation,
                    channel.idx(),
                    error::ES_SBE,
                )),
                Moved::DestinationFault => error_raised(
                    old(dma)@,
                    final(dma)@,
                    channel.idx(),
                    error::ES_DBE,
                ) && (r matches Err(e) && e.raw_spec() == error_status_encoding(
                    old(dma)@.generation,
                    channel.idx(),
                    error::ES_DBE,
                )),
            })
        }),
{
    let ghost c = old(dma)@.channels[channel.idx()];
    let enabled = channel.is_enabled(dma);
    let t = channel.read_tcd(dma);
    let started = t.csr & tcd::CSR_START != 0;
    if !enabled && !started {
        return Ok(false);
    }
    let esize: u32 = decode_size(t.sattr);
    let dsize: u32 = decode_size(t.dattr);
    let valid = esize != 0 && dsize == esize && t.nbytes % esize == 0 && t.citer != 0 && t.citer
        == t.biter && t.citer < 0x8000;
    if !valid {
        channel.raise_error_status(dma, error::ES_NCE);
        let e = channel.error_status(dma);
        return Err(e);
    }
    let elems: u32 = t.nbytes / esize;
    let smod: u32 = (t.sattr >> 3) as u32;
    let dmod: u32 = (t.dattr >> 3) as u32;
    proof {
        let sa = t.sattr;
        let da = t.dattr;
        assert(((sa >> 3) as u32) < 32 && ((da >> 3) as u32) < 32) by (bit_vector);
    }
    let mut s: u32 = t.saddr;
    let mut d: u32 = t.daddr;
    let citer: u16 = t.citer;
    let mut iter: u16 = 0;
    while iter < citer
        invariant
            iter <= citer,
            mem@.len() == old(mem)@.len(),
            dma == old(dma),
            run_iterations(old(mem)@, t.saddr, t.daddr, c.tcd, citer as nat) == run_iterations(
                mem@,
                s,
                d,
                c.tcd,
                (citer - iter) as nat,
            ),
        decreases citer - iter,
    {
        let mr = run_minor(mem, &mut s, &mut d, t.soff, t.doff, smod, dmod, esize, elems);
        match mr {
            Ok(()) => {
                iter = iter + 1;
            },
            Err(Fault::Source) => {
                channel.raise_error_status(dma, error::ES_SBE);
                let e = channel.error_status(dma);
                return Err(e);
            },
            Err(Fault::Destination) => {
                channel.raise_error_status(dma, error::ES_DBE);
                let e = channel.error_status(dma);
                return Err(e);
            },
        }
    }
    let s2 = s.wrapping_add_signed(t.slast);
    let d2 = d.wrapping_add_signed(t.dlast_sga);
    let t2 = tcd::RegisterBlock { saddr: s2, daddr: d2, csr: t.csr & !tcd::CSR_START, ..t };
    let intmajor = t.csr & tcd::CSR_INTMAJOR != 0;
    let dreq = t.csr & tcd::CSR_DREQ != 0;
    proof {
        tcd::lemma_start_clear(t.csr);
        tcd::lemma_configured_bits(t.csr);
    }
    channel.write_tcd(dma, t2);
    channel.set_complete_flag(dma);
    if intmajor {
        channel.raise_interrupt_flag(dma);
    }
    if dreq {
        channel.disable(dma);
    }
    proof {
        assert(dma@.channels =~= old(dma)@.channels.update(
            channel.idx(),
            (ChannelView {
                done: true,
                start: false,
                enabled: c.enabled && !c.tcd.disable_on_completion(),
                interrupt: c.interrupt || c.tcd.interrupt_on_completion(),
                tcd: (tcd::RegisterBlock {
                    saddr: u32_specs::wrapping_add_signed(s, c.tcd.slast),
                    daddr: u32_specs::wrapping_add_signed(d, c.tcd.dlast_sga),
                    ..c.tcd
                }),
                ..c
            }),
        ));
    }
    Ok(true)
}

/// The working address after `k` advances.
pub open spec fn advance_times(addr: u32, off: i16, modbits: u32, k: nat) -> u32
    decreases k,
{
    if k == 0 {
        addr
    } else {
        advance_times(advance(addr, off, modbits), off, modbits, (k - 1) as nat)
    }
}

/// Without address masking, `k` forward advances land on the 32-bit
/// wrapped sum of the start address and `k` strides.
proof fn lemma_advance_times_linear(addr: u32, off: i16, k: nat)
    requires
        0 <= off,
        k * off < 0x1_0000_0000,
    ensures
        advance_times(addr, off, 0, k) == ((addr + k * off) % 0x1_0000_0000) as u32,
    decreases k,
{
    let m: int = 0x1_0000_0000;
    if k == 0 {
        assert(k * off == 0) by (nonlinear_arith)
            requires
                k == 0,
        ;
        vstd::arithmetic::div_mod::lemma_small_mod(addr as nat, m as nat);
    } else {
        let a2 = advance(addr, off, 0);
        assert((k - 1) * off <= k * off) by (nonlinear_arith)
            requires
                0 <= off && 1 <= k,
        ;
        lemma_advance_times_linear(a2, off, (k - 1) as nat);
        assert(a2 as int == (addr + off) % m) by {
            if addr + off < m {
                vstd::arithmetic::div_mod::lemma_small_mod((addr + off) as nat, m as nat);
            } else {
                vstd::arithmetic::div_mod::lemma_mod_sub_multiples_vanish(addr + off, m);
                vstd::arithmetic::div_mod::lemma_small_mod((addr + off - m) as nat, m as nat);
            }
        }
        assert((a2 as int + (k - 1) * off) % m == (addr + k * off) % m) by {
            vstd::arithmetic::div_mod::lemma_add_mod_noop(addr + off, (k - 1) * off, m);
            vstd::arithmetic::div_mod::lemma_small_mod(((k - 1) * off) as nat, m as nat);
            vstd::arithmetic::div_mod::lemma_mod_twice(addr + off, m);
            assert(addr + off + (k - 1) * off == addr + k * off) by (nonlinear_arith);
        }
        assert(advance_times(addr, off, 0, k) == advance_times(a2, off, 0, (k - 1) as nat));
        assert(advance_times(a2, off, 0, (k - 1) as nat) == ((a2 + (k - 1) * off)
            % 0x1_0000_0000) as u32);
    }
}

/// A linear-buffer descriptor round-trips: advancing the working address
/// once per element over the whole buffer and then applying the
/// descriptor's end adjustment returns it exactly to the starting
/// address, for every buffer length and element size the descriptor
/// builder accepts.
pub proof fn lemma_linear_round_trip(address: u32, len: u16, element: crate::ElementSize)
    ensures
        ({
            let side = crate::peripheral::linear_side(address, len, element);
            u32_specs::wrapping_add_signed(
                advance_times(address, side.offset, 0, len as nat),
                side.adjustment,
            ) == address
        }),
{
    let m: int = 0x1_0000_0000;
    let side = crate::peripheral::linear_side(address, len, element);
    let t: int = len * element.bytes();
    assert(0 <= t <= 0xFFFF * 8) by (nonlinear_arith)
        requires
            t == len * element.bytes() && len <= 0xFFFF && 0 <= element.bytes() <= 8,
    ;
    assert(len * side.offset == t) by (nonlinear_arith)
        requires
            t == len * element.bytes() && side.offset == element.bytes(),
    ;
    lemma_advance_times_linear(address, side.offset, len as nat);
    let s = advance_times(address, side.offset, 0, len as nat);
    if address + t < m {
        vstd::arithmetic::div_mod::lemma_small_mod((address + t) as nat, m as nat);
        assert(s == address + t);
    } else {
        vstd::arithmetic::div_mod::lemma_mod_sub_multiples_vanish(address + t, m);
        vstd::arithmetic::div_mod::lemma_small_mod((address + t - m) as nat, m as nat);
        assert(s == address + t - m);
    }
}

/// Completing a major loop reprograms nothing: both iteration counters
/// still read the programmed count afterwards, and the channel reports
/// done, so the transfer can be re-armed and rerun with the same count
/// without touching the descriptor.
pub proof fn lemma_completion_keeps_iterations(
    pre: DmaView,
    post: DmaView,
    i: int,
    s: u32,
    d: u32,
)
    requires
        0 <= i < pre.channels.len(),
        completion_state(pre, post, i, s, d),
    ensures
        post.channels[i].tcd.citer == pre.channels[i].tcd.citer,
        post.channels[i].tcd.biter == pre.channels[i].tcd.biter,
        post.channels[i].done,
        !post.channels[i].start,
{
}

/// Asserts or clears a channel's hardware request line, as the peripheral
/// routed to it does. The driver observes the line through
/// [`Channel::is_hardware_signaling`].
pub fn set_hardware_request(dma: &mut Dma, channel: &Channel, asserted: bool)
    requires
        old(dma).wf(),
        channel.in_range(old(dma)@),
    ensures
        final(dma).wf(),
        final(dma)@ =~= old(dma)@.with_channel(
            channel.idx(),
            (ChannelView { hardware_signal: asserted, ..old(dma)@.channels[channel.idx()] }),
        ),
{
    channel.set_hardware_signal(dma, asserted);
}

/// Records a transfer error on a channel with the given cause bits, as the
/// hardware does when a transfer faults: the channel's error flag rises
/// and the error-status register it reports through holds the encoded
/// cause.
pub fn raise_error(dma: &mut Dma, channel: &Channel, cause: u32)
    requires
        old(dma).wf(),
        channel.in_range(old(dma)@),
    ensures
        final(dma).wf(),
        error_raised(old(dma)@, final(dma)@, channel.idx(), cause),
{
    channel.raise_error_status(dma, cause);
}

} // verus!
