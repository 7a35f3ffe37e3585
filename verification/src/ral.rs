//! Register-level model of the DMA controller family.
//!
//! Each submodule describes one hardware block as plain data: the transfer
//! control descriptor, the channel multiplexer, and the three controller
//! generations. The driver logic in the rest of the crate is specified and
//! verified against these models; a hardware-facing build writes the same
//! values through volatile register cells.

pub mod dmamux;
pub mod edma;
pub mod edma3;
pub mod edma4;
pub mod tcd;
