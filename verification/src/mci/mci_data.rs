//! The data part of a controller transfer.

use vstd::prelude::*;

verus! {

/// Data of a transfer: the words moved and the block geometry.
#[derive(Debug, Clone)]
pub struct MCIData {
    pub buf: Option<Vec<u32>>,
    pub buf_dma: usize,
    pub blksz: u32,
    pub blkcnt: u32,
    pub datalen: u32,
}

impl MCIData {
    /// No buffer and every size zero.
    pub fn new() -> (r: Self)
        ensures
            r.buf is None,
            r.buf_dma == 0,
            r.blksz == 0,
            r.blkcnt == 0,
            r.datalen == 0,
    {
        MCIData { buf: None, buf_dma: 0, blksz: 0, blkcnt: 0, datalen: 0 }
    }

    /// Block size in bytes.
    pub fn blksz(&self) -> (r: u32)
        ensures
            r == self.blksz,
    {
        self.blksz
    }

    /// Set the block size.
    pub fn blksz_set(&mut self, blksz: u32)
        ensures
            final(self).blksz == blksz,
            final(self).blkcnt == old(self).blkcnt,
            final(self).datalen == old(self).datalen,
            final(self).buf == old(self).buf,
            final(self).buf_dma == old(self).buf_dma,
    {
        self.blksz = blksz
    }

    /// Number of blocks.
    pub fn blkcnt(&self) -> (r: u32)
        ensures
            r == self.blkcnt,
    {
        self.blkcnt
    }

    /// Set the number of blocks.
    pub fn blkcnt_set(&mut self, blkcnt: u32)
        ensures
            final(self).blkcnt == blkcnt,
            final(self).blksz == old(self).blksz,
            final(self).datalen == old(self).datalen,
            final(self).buf == old(self).buf,
            final(self).buf_dma == old(self).buf_dma,
    {
        self.blkcnt = blkcnt
    }

    /// Number of bytes.
    pub fn datalen(&self) -> (r: u32)
        ensures
            r == self.datalen,
    {
        self.datalen
    }

    /// Set the number of bytes.
    pub fn datalen_set(&mut self, datalen: u32)
        ensures
            final(self).datalen == datalen,
            final(self).blksz == old(self).blksz,
            final(self).blkcnt == old(self).blkcnt,
            final(self).buf == old(self).buf,
            final(self).buf_dma == old(self).buf_dma,
    {
        self.datalen = datalen
    }

    /// The words of the transfer, if any.
    pub fn buf(&self) -> (r: Option<&Vec<u32>>)
        ensures
            r matches Some(b) ==> self.buf == Some(*b),
            r is None <==> self.buf is None,
    {
        self.buf.as_ref()
    }

    /// Replace the words of the transfer.
    pub fn buf_set(&mut self, buf: Option<Vec<u32>>)
        ensures
            final(self).buf == buf,
            final(self).blksz == old(self).blksz,
            final(self).blkcnt == old(self).blkcnt,
            final(self).datalen == old(self).datalen,
            final(self).buf_dma == old(self).buf_dma,
    {
        self.buf = buf
    }

    /// Bus address of the DMA buffer.
    pub fn buf_dma(&self) -> (r: usize)
        ensures
            r == self.buf_dma,
    {
        self.buf_dma
    }

    /// Set the bus address of the DMA buffer.
    pub fn buf_dma_set(&mut self, buf_dma: usize)
        ensures
            final(self).buf_dma == buf_dma,
            final(self).blksz == old(self).blksz,
            final(self).blkcnt == old(self).blkcnt,
            final(self).datalen == old(self).datalen,
            final(self).buf == old(self).buf,
    {
        self.buf_dma = buf_dma;
    }
}

} // verus!
