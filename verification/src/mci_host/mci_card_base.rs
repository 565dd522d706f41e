//! State common to every kind of card.

use vstd::prelude::*;

use super::MCIHost;
use crate::osa::pool_buffer::PoolBuffer;
use crate::regs::RegisterIo;

verus! {

/// State common to every kind of card: the host, the internal buffer and
/// the card's address, operation conditions, clock and block size.
pub struct MCICardBase<B: RegisterIo> {
    pub host: Option<MCIHost<B>>,
    pub is_host_ready: bool,
    pub no_interal_align: bool,
    pub internal_buffer: PoolBuffer,
    /// Card clock, in Hz.
    pub bus_clk_hz: u32,
    pub relative_address: u32,
    pub ocr: u32,
    /// Block size, in bytes.
    pub block_size: u32,
}

impl<B: RegisterIo> MCICardBase<B> {
    /// A card with internal buffer `buffer`, no host, and everything else
    /// zero or off.
    pub fn from_buffer(buffer: PoolBuffer) -> (r: Self)
        ensures
            r.host is None,
            !r.is_host_ready,
            !r.no_interal_align,
            r.internal_buffer == buffer,
            r.bus_clk_hz == 0,
            r.relative_address == 0,
            r.ocr == 0,
            r.block_size == 0,
    {
        MCICardBase {
            host: None,
            is_host_ready: false,
            no_interal_align: false,
            internal_buffer: buffer,
            bus_clk_hz: 0,
            relative_address: 0,
            ocr: 0,
            block_size: 0,
        }
    }

    /// The card's block size in bytes.
    pub fn block_size(&self) -> (r: u32)
        ensures
            r == self.block_size,
    {
        self.block_size
    }
}

} // verus!
