//! The internal DMA engine's descriptor chain.

use vstd::prelude::*;

use super::consts::{
    FSDIF_IDMAC_DES0_CH, FSDIF_IDMAC_DES0_ER, FSDIF_IDMAC_DES0_FD, FSDIF_IDMAC_DES0_LD,
    FSDIF_IDMAC_DES0_OWN,
};
use super::err::MCIError;
use super::mci_data::MCIData;
use super::consts::MCIIntrType;
use super::regs::{MCIBlkSiz, MCIBytCnt, MCIDMACIntEn, MCIDescListAddrH, MCIDescListAddrL, MCIIntMask};
use super::MCI;
use crate::regs::{RegAccess, RegisterIo};

verus! {

/// Size in bytes of one descriptor in memory.
pub const DESC_SIZE: u64 = 32;

/// One descriptor of the DMA engine's chain.
#[derive(Debug, Clone, Copy, PartialEq, Eq, Structural)]
pub struct FSdifIDmaDesc {
    pub attribute: u32,
    pub non1: u32,
    pub len: u32,
    pub non2: u32,
    pub addr_lo: u32,
    pub addr_hi: u32,
    pub desc_lo: u32,
    pub desc_hi: u32,
}

/// The descriptor with every word zero.
pub open spec fn zero_desc() -> FSdifIDmaDesc {
    FSdifIDmaDesc { attribute: 0, non1: 0, len: 0, non2: 0, addr_lo: 0, addr_hi: 0, desc_lo: 0, desc_hi: 0 }
}

impl FSdifIDmaDesc {
    /// The descriptor with every word zero.
    pub fn new() -> (r: Self)
        ensures
            r == zero_desc(),
    {
        FSdifIDmaDesc { attribute: 0, non1: 0, len: 0, non2: 0, addr_lo: 0, addr_hi: 0, desc_lo: 0, desc_hi: 0 }
    }
}

/// The descriptor chain: the descriptors, the bus address of the first one
/// (the others follow it, `DESC_SIZE` bytes apart), how many there are,
/// and how many bytes one descriptor may describe.
pub struct FSdifIDmaDescList {
    pub descs: Vec<FSdifIDmaDesc>,
    pub first_desc_dma: u64,
    pub desc_num: u32,
    pub desc_trans_sz: u32,
}

/// Number of descriptors a transfer of `len` bytes takes when one
/// descriptor describes at most `sz` bytes.
pub open spec fn descs_needed(len: int, sz: int) -> int {
    if len > sz {
        len / sz + if len % sz == 0 { 0int } else { 1int }
    } else {
        1
    }
}

/// The smaller of two integers.
pub open spec fn min(a: int, b: int) -> int {
    if a <= b { a } else { b }
}

/// Attribute word of descriptor `i` of a chain of `count`.
pub open spec fn desc_attribute(i: int, count: int) -> u32 {
    (FSDIF_IDMAC_DES0_CH | FSDIF_IDMAC_DES0_OWN) | (if i == 0 { FSDIF_IDMAC_DES0_FD } else { 0 })
        | (if i == count - 1 { FSDIF_IDMAC_DES0_LD | FSDIF_IDMAC_DES0_ER } else { 0 })
}

/// Descriptor `i` of a chain of `count` for `blkcnt` blocks of `blksz`
/// bytes at bus address `buf`, with `per_desc` blocks per descriptor and
/// the chain at bus address `first`: it covers the blocks from
/// `min(i * per_desc, blkcnt)` on, at most `per_desc` of them, and points
/// to the next descriptor (none after the last).
pub open spec fn desc_spec(i: int, count: int, blkcnt: int, per_desc: int, blksz: int, buf: u64, first: u64) -> FSdifIDmaDesc {
    let done = min(i * per_desc, blkcnt);
    let start = (buf + done * blksz) as u64;
    let blocks = min(blkcnt - done, per_desc);
    let next: u64 = if i == count - 1 { 0 } else { (first + (i + 1) * DESC_SIZE) as u64 };
    FSdifIDmaDesc {
        attribute: desc_attribute(i, count),
        non1: 0,
        len: (blocks * blksz) as u32,
        non2: 0,
        addr_lo: (start & 0xFFFF_FFFF) as u32,
        addr_hi: ((start >> 32u64) & 0xFFFF_FFFF) as u32,
        desc_lo: (next & 0xFFFF_FFFF) as u32,
        desc_hi: ((next >> 32u64) & 0xFFFF_FFFF) as u32,
    }
}

/// The chain `l` is `l0` filled for `blkcnt` blocks of `blksz` bytes at
/// bus address `buf`, with outcome `r` (see [`FSdifIDmaDescList::setup`]).
pub open spec fn chain_filled(l0: FSdifIDmaDescList, l: FSdifIDmaDescList, blksz: u32, blkcnt: u32, buf: u64, r: Result<u32, MCIError>) -> bool {
    let count = descs_needed(blkcnt * blksz, l0.desc_trans_sz as int);
    let per_desc = l0.desc_trans_sz / blksz;
    &&& count > l0.desc_num ==> r == Err::<u32, MCIError>(MCIError::ShortBuf) && l.descs@ == l0.descs@
    &&& count <= l0.desc_num && buf % (blksz as u64) != 0 ==> r == Err::<u32, MCIError>(MCIError::DmaBufUnalign)
    &&& count <= l0.desc_num && buf % (blksz as u64) == 0 && count > 1
        && l0.first_desc_dma % DESC_SIZE != 0 ==> r == Err::<u32, MCIError>(MCIError::DmaBufUnalign)
    &&& count <= l0.desc_num && buf % (blksz as u64) == 0
        && (count == 1 || l0.first_desc_dma % DESC_SIZE == 0) ==> {
        &&& r == Ok::<u32, MCIError>(count as u32)
        &&& forall|i: int| 0 <= i < count ==> l.descs@[i] == desc_spec(i, count, blkcnt as int,
            per_desc as int, blksz as int, buf, l0.first_desc_dma)
        &&& forall|i: int| count <= i < l0.desc_num ==> l.descs@[i] == zero_desc()
    }
}

/// The writes that put descriptor `d` in memory at bus address `addr`: its
/// eight words, in order, 4 bytes apart.
pub open spec fn desc_writes(addr: u64, d: FSdifIDmaDesc) -> Seq<RegAccess> {
    seq![
        RegAccess::MemWrite(addr, d.attribute),
        RegAccess::MemWrite((addr + 4) as u64, d.non1),
        RegAccess::MemWrite((addr + 8) as u64, d.len),
        RegAccess::MemWrite((addr + 12) as u64, d.non2),
        RegAccess::MemWrite((addr + 16) as u64, d.addr_lo),
        RegAccess::MemWrite((addr + 20) as u64, d.addr_hi),
        RegAccess::MemWrite((addr + 24) as u64, d.desc_lo),
        RegAccess::MemWrite((addr + 28) as u64, d.desc_hi),
    ]
}

/// The writes that put the descriptors `descs` in memory one after the
/// other from bus address `first`, `DESC_SIZE` bytes apart.
pub open spec fn chain_writes(first: u64, descs: Seq<FSdifIDmaDesc>) -> Seq<RegAccess>
    decreases descs.len(),
{
    if descs.len() == 0 {
        Seq::empty()
    } else {
        chain_writes(first, descs.drop_last())
            + desc_writes((first + (descs.len() - 1) * DESC_SIZE) as u64, descs.last())
    }
}

/// The outcome of filling a chain for `blkcnt` blocks of `blksz` bytes,
/// with the number of descriptors it takes in place of nothing.
pub open spec fn outcome_of(r: Result<(), MCIError>, l0: FSdifIDmaDescList, blksz: u32, blkcnt: u32) -> Result<u32, MCIError> {
    match r {
        Ok(_) => Ok(descs_needed(blkcnt * blksz, l0.desc_trans_sz as int) as u32),
        Err(e) => Err(e),
    }
}

impl FSdifIDmaDescList {
    /// The chain is consistent: one descriptor per count.
    pub open spec fn wf(&self) -> bool {
        self.descs.len() == self.desc_num
    }

    /// An empty chain.
    pub fn new() -> (r: Self)
        ensures
            r.wf(),
            r.descs@.len() == 0,
            r.first_desc_dma == 0,
            r.desc_num == 0,
            r.desc_trans_sz == 0,
    {
        FSdifIDmaDescList { descs: Vec::new(), first_desc_dma: 0, desc_num: 0, desc_trans_sz: 0 }
    }

    /// A chain of `desc_num` zero descriptors at bus address
    /// `first_desc_dma`, each describing at most `desc_trans_sz` bytes.
    pub fn with_descriptors(first_desc_dma: u64, desc_num: u32, desc_trans_sz: u32) -> (r: Self)
        ensures
            r.wf(),
            r.first_desc_dma == first_desc_dma,
            r.desc_num == desc_num,
            r.desc_trans_sz == desc_trans_sz,
            forall|i: int| 0 <= i < desc_num ==> r.descs@[i] == zero_desc(),
    {
        let mut descs: Vec<FSdifIDmaDesc> = Vec::new();
        let mut i: u32 = 0;
        while i < desc_num
            invariant
                i <= desc_num,
                descs@.len() == i,
                forall|j: int| 0 <= j < i ==> descs@[j] == zero_desc(),
            decreases desc_num - i,
        {
            descs.push(FSdifIDmaDesc::new());
            i = i + 1;
        }
        FSdifIDmaDescList { descs, first_desc_dma, desc_num, desc_trans_sz }
    }

    /// Fill the chain for a transfer of `blkcnt` blocks of `blksz` bytes at
    /// bus address `buf_dma`, and give the number of descriptors used.
    ///
    /// Too few descriptors: `ShortBuf`, the chain unchanged. A buffer not
    /// aligned to the block size, or a chain of more than one descriptor
    /// not aligned to `DESC_SIZE`: `DmaBufUnalign`. On success the first
    /// `descs_needed` descriptors are those of `desc_spec` and the rest
    /// are zero.
    pub fn setup(&mut self, blksz: u32, blkcnt: u32, buf_dma: u64) -> (r: Result<u32, MCIError>)
        requires
            old(self).wf(),
            blksz > 0,
            old(self).desc_trans_sz > 0 || blkcnt * blksz == 0,
            blkcnt * blksz <= u32::MAX,
            buf_dma + blkcnt * blksz <= u64::MAX,
            old(self).first_desc_dma + (old(self).desc_num + 1) * DESC_SIZE <= u64::MAX,
        ensures
            final(self).wf(),
            final(self).desc_num == old(self).desc_num,
            final(self).first_desc_dma == old(self).first_desc_dma,
            final(self).desc_trans_sz == old(self).desc_trans_sz,
            chain_filled(*old(self), *final(self), blksz, blkcnt, buf_dma, r),
    {
        let desc_trans_sz = self.desc_trans_sz;
        let desc_blocks = desc_trans_sz / blksz;
        let mut remain_blocks = blkcnt;
        let mut buf_addr: u64 = buf_dma;
        let data_len = blkcnt * blksz;
        let mut desc_num: u32 = 1;
        if data_len > desc_trans_sz {
            desc_num = data_len / desc_trans_sz;
            proof {
                lemma_quotient_room(data_len as int, desc_trans_sz as int);
            }
            desc_num = desc_num + if data_len % desc_trans_sz == 0 { 0 } else { 1 };
        }
        if desc_num > self.desc_num {
            return Err(MCIError::ShortBuf);
        }
        let ghost count = desc_num as int;
        let ghost old_num = self.desc_num;
        let ghost first = self.first_desc_dma;
        // clear the whole chain
        let mut k: usize = 0;
        while k < self.descs.len()
            invariant
                self.wf(),
                self.desc_num == old_num,
                old_num == old(self).desc_num,
                self.first_desc_dma == first,
                first == old(self).first_desc_dma,
                self.desc_trans_sz == desc_trans_sz,
                desc_trans_sz == old(self).desc_trans_sz,
                k <= self.descs@.len(),
                forall|j: int| 0 <= j < k ==> self.descs@[j] == zero_desc(),
            decreases self.descs@.len() - k,
        {
            self.descs.set(k, FSdifIDmaDesc::new());
            k = k + 1;
        }
        let mut i: u32 = 0;
        while i < desc_num
            invariant
                self.wf(),
                self.desc_num == old_num,
                old_num == old(self).desc_num,
                self.first_desc_dma == first,
                first == old(self).first_desc_dma,
                self.desc_trans_sz == desc_trans_sz,
                desc_trans_sz == old(self).desc_trans_sz,
                desc_blocks == desc_trans_sz / blksz,
                blksz > 0,
                count == desc_num,
                desc_num >= 1,
                desc_num <= old_num,
                count == descs_needed(blkcnt * blksz, desc_trans_sz as int),
                i <= desc_num,
                i > 0 ==> buf_dma % (blksz as u64) == 0,
                i > 0 && count > 1 ==> first % DESC_SIZE == 0,
                remain_blocks == blkcnt - min(i * desc_blocks, blkcnt as int),
                buf_addr == buf_dma + min(i * desc_blocks, blkcnt as int) * blksz,
                blkcnt * blksz <= u32::MAX,
                buf_dma + blkcnt * blksz <= u64::MAX,
                first + (old_num + 1) * DESC_SIZE <= u64::MAX,
                forall|j: int| 0 <= j < i ==> self.descs@[j] == desc_spec(j, count, blkcnt as int,
                    desc_blocks as int, blksz as int, buf_dma, first),
                forall|j: int| i <= j < old_num ==> self.descs@[j] == zero_desc(),
            decreases desc_num - i,
        {
            let ghost done = min(i * desc_blocks, blkcnt as int);
            let trans_blocks = if remain_blocks <= desc_blocks { remain_blocks } else { desc_blocks };
            let is_first = i == 0;
            let is_last = desc_num - 1 == i;
            let mut attribute = FSDIF_IDMAC_DES0_CH | FSDIF_IDMAC_DES0_OWN;
            if is_first {
                attribute = attribute | FSDIF_IDMAC_DES0_FD;
            } else {
                attribute = attribute | 0;
            }
            if is_last {
                attribute = attribute | (FSDIF_IDMAC_DES0_LD | FSDIF_IDMAC_DES0_ER);
            } else {
                attribute = attribute | 0;
            }
            proof {
                lemma_min_step(i as int, desc_blocks as int, blkcnt as int);
                lemma_mul_le(trans_blocks as int, blkcnt as int, blksz as int);
                lemma_mul_le(done + trans_blocks, blkcnt as int, blksz as int);
                lemma_mul_distrib(done, trans_blocks as int, blksz as int);
            }
            let len = trans_blocks * blksz;
            if buf_addr % (blksz as u64) != 0 {
                proof {
                    if i != 0 {
                        lemma_aligned_step(buf_dma as int, done, blksz as int);
                    }
                }
                return Err(MCIError::DmaBufUnalign);
            }
            let next_desc_addr: u64 = if is_last { 0 } else { self.first_desc_dma + (i as u64 + 1) * DESC_SIZE };
            proof {
                if !is_last {
                    lemma_desc_addr_align(first as int, i as int);
                }
            }
            if next_desc_addr % DESC_SIZE != 0 {
                return Err(MCIError::DmaBufUnalign);
            }
            let desc = FSdifIDmaDesc {
                attribute,
                non1: 0,
                len,
                non2: 0,
                addr_lo: (buf_addr & 0xFFFF_FFFF) as u32,
                addr_hi: ((buf_addr >> 32u64) & 0xFFFF_FFFF) as u32,
                desc_lo: (next_desc_addr & 0xFFFF_FFFF) as u32,
                desc_hi: ((next_desc_addr >> 32u64) & 0xFFFF_FFFF) as u32,
            };
            assert(desc == desc_spec(i as int, count, blkcnt as int, desc_blocks as int, blksz as int, buf_dma, first));
            self.descs.set(i as usize, desc);
            buf_addr = buf_addr + len as u64;
            remain_blocks = remain_blocks - trans_blocks;
            i = i + 1;
        }
        Ok(desc_num)
    }
}

proof fn lemma_quotient_room(len: int, sz: int)
    requires
        0 < sz < len <= u32::MAX,
    ensures
        len % sz != 0 ==> len / sz + 1 <= u32::MAX,
        len / sz <= u32::MAX,
        len / sz >= 1,
{
    assert(len / sz >= 1) by (nonlinear_arith)
        requires
            0 < sz < len,
    ;
    assert(len / sz <= len) by (nonlinear_arith)
        requires
            0 < sz,
            0 <= len,
    ;
    if len % sz != 0 {
        assert(sz >= 2);
        assert(len / sz <= len / 2) by (nonlinear_arith)
            requires
                2 <= sz,
                0 <= len,
        ;
    }
}

proof fn lemma_mul_le(a: int, b: int, c: int)
    requires
        0 <= a <= b,
        0 <= c,
    ensures
        a * c <= b * c,
{
    assert(a * c <= b * c) by (nonlinear_arith)
        requires
            0 <= a <= b,
            0 <= c,
    ;
}

proof fn lemma_mul_distrib(a: int, b: int, c: int)
    ensures
        (a + b) * c == a * c + b * c,
{
    assert((a + b) * c == a * c + b * c) by (nonlinear_arith);
}

proof fn lemma_desc_addr_align(first: int, i: int)
    ensures
        (first + (i + 1) * 32) % 32 == first % 32,
{
    assert((first + (i + 1) * 32) % 32 == first % 32) by (nonlinear_arith);
}

proof fn lemma_min_step(i: int, per: int, n: int)
    requires
        0 <= i,
        0 <= per,
        0 <= n,
    ensures
        min((i + 1) * per, n) == min(i * per, n) + min(n - min(i * per, n), per),
{
    assert((i + 1) * per == i * per + per) by (nonlinear_arith);
}

proof fn lemma_aligned_step(b: int, done: int, blksz: int)
    requires
        blksz > 0,
        b % blksz == 0,
        0 <= done,
    ensures
        (b + done * blksz) % blksz == 0,
{
    let k = b / blksz;
    vstd::arithmetic::div_mod::lemma_fundamental_div_mod(b, blksz);
    assert(b + done * blksz == (k + done) * blksz) by (nonlinear_arith)
        requires
            b == blksz * k,
    ;
    vstd::arithmetic::div_mod::lemma_mod_multiples_basic(k + done, blksz);
}

impl<B: RegisterIo> MCI<B> {
    /// Put descriptor `d` in memory at bus address `addr`.
    fn desc_write(&mut self, addr: u64, d: FSdifIDmaDesc)
        requires
            addr + DESC_SIZE <= u64::MAX,
        ensures
            final(self).window().trace() == old(self).window().trace() + desc_writes(addr, d),
            final(self).window().base() == old(self).window().base(),
            *final(self) == (MCI { reg: final(self).reg, ..*old(self) }),
    {
        self.reg.write_mem(addr, d.attribute);
        self.reg.write_mem(addr + 4, d.non1);
        self.reg.write_mem(addr + 8, d.len);
        self.reg.write_mem(addr + 12, d.non2);
        self.reg.write_mem(addr + 16, d.addr_lo);
        self.reg.write_mem(addr + 20, d.addr_hi);
        self.reg.write_mem(addr + 24, d.desc_lo);
        self.reg.write_mem(addr + 28, d.desc_hi);
        assert(self.window().trace() =~= old(self).window().trace() + desc_writes(addr, d));
    }

    /// Put every descriptor of the chain in memory at the chain's bus
    /// address, where the DMA engine reads them.
    fn chain_write(&mut self)
        requires
            old(self).desc_list.wf(),
            old(self).desc_list.first_desc_dma + (old(self).desc_list.desc_num + 1) * DESC_SIZE <= u64::MAX,
        ensures
            final(self).window().trace() == old(self).window().trace()
                + chain_writes(old(self).desc_list.first_desc_dma, old(self).desc_list.descs@),
            final(self).window().base() == old(self).window().base(),
            *final(self) == (MCI { reg: final(self).reg, ..*old(self) }),
    {
        let first = self.desc_list.first_desc_dma;
        let n = self.desc_list.descs.len();
        let ghost t0 = self.window().trace();
        let mut i: usize = 0;
        assert(old(self).desc_list.descs@.take(0) =~= Seq::<FSdifIDmaDesc>::empty());
        assert(t0 + Seq::<RegAccess>::empty() =~= t0);
        while i < n
            invariant
                n == old(self).desc_list.descs@.len(),
                n == old(self).desc_list.desc_num,
                i <= n,
                first == old(self).desc_list.first_desc_dma,
                first + (n + 1) * DESC_SIZE <= u64::MAX,
                t0 == old(self).window().trace(),
                self.window().trace() == t0 + chain_writes(first, old(self).desc_list.descs@.take(i as int)),
                self.window().base() == old(self).window().base(),
                *self == (MCI { reg: self.reg, ..*old(self) }),
            decreases n - i,
        {
            proof {
                vstd::arithmetic::mul::lemma_mul_inequality(i as int + 1, n as int + 1, 32);
            }
            let addr = first + (i as u64) * DESC_SIZE;
            let d = self.desc_list.descs[i];
            self.desc_write(addr, d);
            proof {
                let s = old(self).desc_list.descs@;
                assert(s.take(i as int + 1).drop_last() =~= s.take(i as int));
                assert(s.take(i as int + 1).last() == s[i as int]);
                assert(self.window().trace() =~= t0 + chain_writes(first, s.take(i as int + 1)));
            }
            i = i + 1;
        }
        assert(old(self).desc_list.descs@.take(n as int) =~= old(self).desc_list.descs@);
    }

    /// Fill the descriptor chain for the data's blocks at its bus address
    /// (see `FSdifIDmaDescList::setup`) and, once it is filled, put it in
    /// memory at its bus address, every descriptor, the unused ones zero.
    /// A misaligned address found while filling (`DmaBufUnalign`) still puts
    /// the chain, as far as it got, in memory; too few descriptors
    /// (`ShortBuf`) writes nothing.
    pub fn setup_dma_descriptor(&mut self, data: &MCIData) -> (r: Result<(), MCIError>)
        requires
            old(self).desc_list.wf(),
            data.blksz > 0,
            old(self).desc_list.desc_trans_sz > 0 || data.blkcnt * data.blksz == 0,
            data.blkcnt * data.blksz <= u32::MAX,
            data.buf_dma + data.blkcnt * data.blksz <= u64::MAX,
            old(self).desc_list.first_desc_dma + (old(self).desc_list.desc_num + 1) * DESC_SIZE <= u64::MAX,
        ensures
            final(self).desc_list.wf(),
            final(self).desc_list.first_desc_dma == old(self).desc_list.first_desc_dma,
            final(self).desc_list.desc_num == old(self).desc_list.desc_num,
            final(self).desc_list.desc_trans_sz == old(self).desc_list.desc_trans_sz,
            chain_filled(old(self).desc_list, final(self).desc_list, data.blksz, data.blkcnt, data.buf_dma as u64,
                outcome_of(r, old(self).desc_list, data.blksz, data.blkcnt)),
            r.is_ok() ==> final(self).window().trace() == old(self).window().trace()
                + chain_writes(old(self).desc_list.first_desc_dma, final(self).desc_list.descs@),
            r == Err::<(), MCIError>(MCIError::DmaBufUnalign) ==> final(self).window().trace() == old(self).window().trace()
                + chain_writes(old(self).desc_list.first_desc_dma, final(self).desc_list.descs@),
            r.is_err() && r != Err::<(), MCIError>(MCIError::DmaBufUnalign) ==> final(self).window().trace() == old(self).window().trace(),
            final(self).window().base() == old(self).window().base(),
            final(self).config == old(self).config,
            final(self).is_ready == old(self).is_ready,
            final(self).prev_cmd == old(self).prev_cmd,
            final(self).curr_timing == old(self).curr_timing,
    {
        match self.desc_list.setup(data.blksz, data.blkcnt, data.buf_dma as u64) {
            Ok(_) => {
                self.chain_write();
                Ok(())
            },
            Err(MCIError::DmaBufUnalign) => {
                // The chain was cleared and partly filled before the
                // misaligned address turned up; memory holds it as it is.
                self.chain_write();
                Err(MCIError::DmaBufUnalign)
            },
            Err(e) => Err(e),
        }
    }

    /// Prepare a DMA transfer: enable the data and DMA interrupts, fill the
    /// descriptor chain, and program the chain's address, the byte count
    /// and the block size.
    pub fn dma_transfer_data(&mut self, data: &MCIData) -> (r: Result<(), MCIError>)
        requires
            old(self).desc_list.wf(),
            data.blksz > 0,
            old(self).desc_list.desc_trans_sz > 0 || data.blkcnt * data.blksz == 0,
            data.blkcnt * data.blksz <= u32::MAX,
            data.buf_dma + data.blkcnt * data.blksz <= u64::MAX,
            old(self).desc_list.first_desc_dma + (old(self).desc_list.desc_num + 1) * DESC_SIZE <= u64::MAX,
        ensures
            final(self).desc_list.wf(),
            chain_filled(old(self).desc_list, final(self).desc_list, data.blksz, data.blkcnt, data.buf_dma as u64,
                outcome_of(r, old(self).desc_list, data.blksz, data.blkcnt)),
            r.is_ok() ==> ({
                let t = final(self).window().trace();
                let first = old(self).desc_list.first_desc_dma;
                &&& t.len() >= 4
                &&& t[t.len() - 4] == RegAccess::Write(MCIDescListAddrH::REG, (first >> 32u64) as u32)
                &&& t[t.len() - 3] == RegAccess::Write(MCIDescListAddrL::REG, first as u32)
                &&& t[t.len() - 2] == RegAccess::Write(MCIBytCnt::REG, (data.blkcnt * data.blksz) as u32)
                &&& t[t.len() - 1] == RegAccess::Write(MCIBlkSiz::REG, data.blksz)
            }),
            final(self).config == old(self).config,
            final(self).is_ready == old(self).is_ready,
            final(self).window().base() == old(self).window().base(),
    {
        self.interrupt_mask_set(MCIIntrType::GeneralIntr, MCIIntMask::INTS_DATA_MASK, true);
        self.interrupt_mask_set(MCIIntrType::DmaIntr, MCIDMACIntEn::INTS_MASK, true);
        self.setup_dma_descriptor(data)?;
        let data_len = data.blkcnt * data.blksz;
        let first = self.desc_list.first_desc_dma;
        self.descriptor_set(first);
        self.trans_bytes_set(data_len);
        self.blksize_set(data.blksz);
        Ok(())
    }
}

} // verus!
