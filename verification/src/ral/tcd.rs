//! Transfer control descriptor (TCD).
//!
//! The TCD is the 32-byte, 32-byte-aligned hardware record that describes one
//! channel's transfer: source and destination addresses, per-element strides,
//! circular-buffer attributes, minor-loop byte count, major-loop iteration
//! counts, and the control/status word. The layout is shared by every
//! controller generation; only the meaning of a few control/status bits
//! varies, and those differences are handled by the per-generation channel
//! code.

use vstd::prelude::*;

verus! {

/// Control/status bit: software start request (bit 0).
pub const CSR_START: u16 = 0x0001;

/// Control/status bit: raise an interrupt when the major loop completes (bit 1).
pub const CSR_INTMAJOR: u16 = 0x0002;

/// Control/status bit: clear the request-enable bit on completion (bit 3).
pub const CSR_DREQ: u16 = 0x0008;

/// Control/status bit: the channel is actively moving data (bit 6).
pub const CSR_ACTIVE: u16 = 0x0040;

/// Control/status bit: the major loop has completed (bit 7).
pub const CSR_DONE: u16 = 0x0080;

/// Control/status field: bandwidth control (bits 14 and 15).
pub const CSR_BWC_MASK: u16 = 0xC000;

/// Offset of the bandwidth-control field within the control/status word.
pub const CSR_BWC_OFFSET: u16 = 14;

/// Major-loop iteration counters hold 15 bits.
pub const ITERATION_MASK: u16 = 0x7FFF;

/// The control/status bits that carry configuration rather than status:
/// interrupt-on-completion, disable-on-completion, and bandwidth control.
pub const CSR_CONFIG_MASK: u16 = 0xC00A;

/// Transfer-attribute field: low three bits give the element-size code.
pub const ATTR_SIZE_MASK: u8 = 0x07;

/// Transfer-attribute field: high five bits give the address-modulo exponent.
pub const ATTR_MOD_OFFSET: u8 = 3;

/// One channel's transfer control descriptor, field for field.
///
/// Offsets and strides are signed because the hardware treats them as signed
/// byte displacements.
#[derive(Debug, Clone, Copy, PartialEq, Eq, Structural)]
pub struct RegisterBlock {
    /// Source address: first address read.
    pub saddr: u32,
    /// Signed source stride applied after each element read.
    pub soff: i16,
    /// Destination transfer attributes: modulo exponent and element-size code.
    pub dattr: u8,
    /// Source transfer attributes: modulo exponent and element-size code.
    pub sattr: u8,
    /// Bytes moved per minor loop (one service request).
    pub nbytes: u32,
    /// Signed adjustment added to the source address when the major loop completes.
    pub slast: i32,
    /// Destination address: first address written.
    pub daddr: u32,
    /// Signed destination stride applied after each element write.
    pub doff: i16,
    /// Current major-loop iteration count (15 bits).
    pub citer: u16,
    /// Signed adjustment added to the destination address when the major loop completes.
    pub dlast_sga: i32,
    /// Control/status word.
    pub csr: u16,
    /// Starting major-loop iteration count (15 bits), reloaded into `citer` on completion.
    pub biter: u16,
}

impl RegisterBlock {
    /// The known-good state that `reset` establishes: every field zero.
    pub open spec fn zeroed() -> RegisterBlock {
        RegisterBlock {
            saddr: 0,
            soff: 0,
            dattr: 0,
            sattr: 0,
            nbytes: 0,
            slast: 0,
            daddr: 0,
            doff: 0,
            citer: 0,
            dlast_sga: 0,
            csr: 0,
            biter: 0,
        }
    }

    /// The software start-request bit is set.
    pub open spec fn start_bit(self) -> bool {
        self.csr & CSR_START != 0
    }

    /// The interrupt-on-completion bit is set.
    pub open spec fn interrupt_on_completion(self) -> bool {
        self.csr & CSR_INTMAJOR != 0
    }

    /// The disable-on-completion bit is set.
    pub open spec fn disable_on_completion(self) -> bool {
        self.csr & CSR_DREQ != 0
    }

    /// The active bit is set. Meaningful only where the generation keeps
    /// channel activity in the descriptor's control/status word.
    pub open spec fn active_bit(self) -> bool {
        self.csr & CSR_ACTIVE != 0
    }

    /// The done bit is set. Meaningful only where the generation keeps
    /// completion in the descriptor's control/status word.
    pub open spec fn done_bit(self) -> bool {
        self.csr & CSR_DONE != 0
    }

    /// The descriptor as configured by software: the control/status word
    /// reduced to its configuration bits, with the status bits (start,
    /// active, done) read out separately by the owning channel.
    pub open spec fn configured(self) -> RegisterBlock {
        RegisterBlock { csr: self.csr & CSR_CONFIG_MASK, ..self }
    }

    /// TCDs are uninitialized after power-on. Writes a known, good state:
    /// every field of the descriptor becomes zero.
    pub fn reset(&mut self)
        ensures
            *final(self) == Self::zeroed(),
    {
        self.saddr = 0;
        self.soff = 0;
        self.dattr = 0;
        self.sattr = 0;
        self.nbytes = 0;
        self.slast = 0;
        self.daddr = 0;
        self.doff = 0;
        self.citer = 0;
        self.dlast_sga = 0;
        self.csr = 0;
        self.biter = 0;
    }
}

/// Each configuration mask is disjoint from the status bits and contained
/// in the configuration field.
pub proof fn lemma_csr_masks()
    by (bit_vector)
    ensures
        CSR_DREQ & CSR_START == 0,
        CSR_DREQ & CSR_ACTIVE == 0,
        CSR_DREQ & CSR_DONE == 0,
        CSR_DREQ | CSR_CONFIG_MASK == CSR_CONFIG_MASK,
        CSR_INTMAJOR & CSR_START == 0,
        CSR_INTMAJOR & CSR_ACTIVE == 0,
        CSR_INTMAJOR & CSR_DONE == 0,
        CSR_INTMAJOR | CSR_CONFIG_MASK == CSR_CONFIG_MASK,
        CSR_BWC_MASK & CSR_START == 0,
        CSR_BWC_MASK & CSR_ACTIVE == 0,
        CSR_BWC_MASK & CSR_DONE == 0,
        CSR_BWC_MASK | CSR_CONFIG_MASK == CSR_CONFIG_MASK,
{
}

/// Setting or clearing configuration bits leaves the status bits alone and
/// acts on the configured word exactly as on the raw word.
pub proof fn lemma_csr_config_bits(c: u16, mask: u16)
    by (bit_vector)
    requires
        mask & CSR_START == 0,
        mask & CSR_ACTIVE == 0,
        mask & CSR_DONE == 0,
        mask | CSR_CONFIG_MASK == CSR_CONFIG_MASK,
    ensures
        (c | mask) & CSR_START == c & CSR_START,
        (c | mask) & CSR_ACTIVE == c & CSR_ACTIVE,
        (c | mask) & CSR_DONE == c & CSR_DONE,
        (c & !mask) & CSR_START == c & CSR_START,
        (c & !mask) & CSR_ACTIVE == c & CSR_ACTIVE,
        (c & !mask) & CSR_DONE == c & CSR_DONE,
        (c | mask) & CSR_CONFIG_MASK == (c & CSR_CONFIG_MASK) | mask,
        (c & !mask) & CSR_CONFIG_MASK == (c & CSR_CONFIG_MASK) & !mask,
{
}

/// A bandwidth-control field value shifted into place stays inside the
/// configuration field and away from the status bits.
pub proof fn lemma_bwc_field(raw: u16)
    by (bit_vector)
    requires
        raw <= 3,
    ensures
        (raw << CSR_BWC_OFFSET) & CSR_START == 0,
        (raw << CSR_BWC_OFFSET) & CSR_ACTIVE == 0,
        (raw << CSR_BWC_OFFSET) & CSR_DONE == 0,
        (raw << CSR_BWC_OFFSET) | CSR_CONFIG_MASK == CSR_CONFIG_MASK,
{
}

/// The configured word keeps exactly the configuration bits: masking
/// changes no configuration bit and clears every status bit.
pub proof fn lemma_configured_bits(c: u16)
    by (bit_vector)
    ensures
        (c & CSR_CONFIG_MASK) & CSR_INTMAJOR == c & CSR_INTMAJOR,
        (c & CSR_CONFIG_MASK) & CSR_DREQ == c & CSR_DREQ,
        (c & CSR_CONFIG_MASK) & CSR_BWC_MASK == c & CSR_BWC_MASK,
        (c & CSR_CONFIG_MASK) & CSR_START == 0,
        (c & CSR_CONFIG_MASK) & CSR_DONE == 0,
        (c & CSR_CONFIG_MASK) & CSR_ACTIVE == 0,
{
}

/// Clearing the start bit leaves every other modeled bit as it was.
pub proof fn lemma_start_clear(c: u16)
    by (bit_vector)
    ensures
        (c & !CSR_START) & CSR_START == 0,
        (c & !CSR_START) & CSR_DONE == c & CSR_DONE,
        (c & !CSR_START) & CSR_ACTIVE == c & CSR_ACTIVE,
        (c & !CSR_START) & CSR_CONFIG_MASK == c & CSR_CONFIG_MASK,
{
}

/// Throttles the bus bandwidth consumed by the DMA engine by inserting stall
/// cycles between element transfers. Available on the generations that keep
/// bandwidth control in the descriptor's control/status word.
#[derive(Debug, Clone, Copy, PartialEq, Eq, Structural)]
pub enum BandwidthControl {
    /// The engine stalls for 4 cycles after each read/write.
    Stall4Cycles,
    /// The engine stalls for 8 cycles after each read/write.
    Stall8Cycles,
}

impl BandwidthControl {
    /// The raw bandwidth-control field value: no stalls when disabled.
    pub open spec fn raw_spec(bwc: Option<BandwidthControl>) -> u16 {
        match bwc {
            None => 0,
            Some(BandwidthControl::Stall4Cycles) => 2,
            Some(BandwidthControl::Stall8Cycles) => 3,
        }
    }

    /// Encodes an optional bandwidth control as the raw field value;
    /// `None` means no stalls.
    pub fn raw(bwc: Option<BandwidthControl>) -> (r: u16)
        ensures
            r == Self::raw_spec(bwc),
    {
        match bwc {
            None => 0,
            Some(BandwidthControl::Stall4Cycles) => 2,
            Some(BandwidthControl::Stall8Cycles) => 3,
        }
    }
}

} // verus!
