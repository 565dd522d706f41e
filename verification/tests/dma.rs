use std::cell::RefCell;
use std::rc::Rc;

use phytium_mci::mci::consts::{
    FSDIF_IDMAC_DES0_CH, FSDIF_IDMAC_DES0_ER, FSDIF_IDMAC_DES0_FD, FSDIF_IDMAC_DES0_LD, FSDIF_IDMAC_DES0_OWN,
};
use phytium_mci::mci::err::MCIError;
use phytium_mci::mci::mci_config::MCIConfig;
use phytium_mci::mci::mci_data::MCIData;
use phytium_mci::mci::mci_dma::{FSdifIDmaDesc, FSdifIDmaDescList};
use phytium_mci::mci::regs::{MCIBlkSiz, MCIBytCnt, MCIDescListAddrH, MCIDescListAddrL};
use phytium_mci::mci::MCI;
use phytium_mci::regs::RegisterIo;
use phytium_mci::Kernel;

/// Registers that read as zero and remember the writes made to them, and
/// the writes made to memory.
#[derive(Clone)]
struct Writes(Rc<RefCell<Vec<(u32, u32)>>>, Rc<RefCell<Vec<(u64, u32)>>>);

impl Kernel for Writes {
    fn sleep(_duration: core::time::Duration) {}
}

impl RegisterIo for Writes {
    fn read_32(&self, _offset: u32) -> u32 {
        0
    }
    fn write_32(&self, offset: u32, value: u32) {
        self.0.borrow_mut().push((offset, value));
    }
    fn write_mem_32(&self, addr: u64, value: u32) {
        self.1.borrow_mut().push((addr, value));
    }
}

fn controller(first_desc: u64, descs: u32) -> (MCI<Writes>, Writes) {
    let io = Writes(Rc::new(RefCell::new(Vec::new())), Rc::new(RefCell::new(Vec::new())));
    let mut mci = MCI::new(MCIConfig::new(0x2800_0000), io.clone());
    mci.desc_list = FSdifIDmaDescList::with_descriptors(first_desc, descs, 512);
    (mci, io)
}

fn data(blksz: u32, blkcnt: u32, buf_dma: usize) -> MCIData {
    let mut d = MCIData::new();
    d.blksz = blksz;
    d.blkcnt = blkcnt;
    d.datalen = blksz * blkcnt;
    d.buf_dma = buf_dma;
    d
}

#[test]
fn chain_of_three_descriptors() {
    let (mut mci, _) = controller(0x2000, 4);
    assert_eq!(mci.setup_dma_descriptor(&data(512, 3, 0x1_0000)), Ok(()));
    let d = &mci.desc_list.descs;
    let base = FSDIF_IDMAC_DES0_CH | FSDIF_IDMAC_DES0_OWN;
    assert_eq!(d[0].attribute, base | FSDIF_IDMAC_DES0_FD);
    assert_eq!(d[1].attribute, base);
    assert_eq!(d[2].attribute, base | FSDIF_IDMAC_DES0_LD | FSDIF_IDMAC_DES0_ER);
    assert_eq!((d[0].addr_lo, d[1].addr_lo, d[2].addr_lo), (0x1_0000, 0x1_0200, 0x1_0400));
    assert_eq!((d[0].desc_lo, d[1].desc_lo, d[2].desc_lo), (0x2020, 0x2040, 0));
    assert!(d.iter().take(3).all(|x| x.len == 512 && x.addr_hi == 0 && x.desc_hi == 0));
    assert_eq!(d[3], FSdifIDmaDesc::new());
}

#[test]
fn one_descriptor_needs_no_aligned_chain() {
    let (mut mci, _) = controller(0x2004, 1);
    assert_eq!(mci.setup_dma_descriptor(&data(256, 2, 0x3000)), Ok(()));
    let d = mci.desc_list.descs[0];
    assert_eq!(d.attribute, FSDIF_IDMAC_DES0_CH | FSDIF_IDMAC_DES0_OWN | FSDIF_IDMAC_DES0_FD
        | FSDIF_IDMAC_DES0_LD | FSDIF_IDMAC_DES0_ER);
    assert_eq!((d.len, d.addr_lo, d.desc_lo), (512, 0x3000, 0));
}

#[test]
fn chain_too_short() {
    let (mut mci, _) = controller(0x2000, 2);
    assert_eq!(mci.setup_dma_descriptor(&data(512, 3, 0x1_0000)), Err(MCIError::ShortBuf));
    assert!(mci.desc_list.descs.iter().all(|x| *x == FSdifIDmaDesc::new()));
}

#[test]
fn unaligned_buffer_or_chain() {
    let (mut mci, _) = controller(0x2000, 4);
    assert_eq!(mci.setup_dma_descriptor(&data(512, 2, 0x1_0100)), Err(MCIError::DmaBufUnalign));
    let (mut mci, _) = controller(0x2010, 4);
    assert_eq!(mci.setup_dma_descriptor(&data(512, 2, 0x1_0000)), Err(MCIError::DmaBufUnalign));
}

#[test]
fn dma_transfer_programs_chain_and_sizes() {
    let (mut mci, io) = controller(0x1_2345_6000, 4);
    assert_eq!(mci.dma_transfer_data(&data(512, 2, 0x8000)), Ok(()));
    let writes = io.0.borrow().clone();
    let n = writes.len();
    assert!(n >= 4);
    assert_eq!(writes[n - 4], (MCIDescListAddrH::REG, 0x1));
    assert_eq!(writes[n - 3], (MCIDescListAddrL::REG, 0x2345_6000));
    assert_eq!(writes[n - 2], (MCIBytCnt::REG, 1024));
    assert_eq!(writes[n - 1], (MCIBlkSiz::REG, 512));
}

#[test]
fn chain_is_put_in_memory() {
    let (mut mci, io) = controller(0x2000, 4);
    assert_eq!(mci.setup_dma_descriptor(&data(512, 3, 0x1_0000)), Ok(()));
    let mem = io.1.borrow();
    assert_eq!(mem.len(), 4 * 8);
    let base = FSDIF_IDMAC_DES0_CH | FSDIF_IDMAC_DES0_OWN;
    assert_eq!(mem[0], (0x2000, base | FSDIF_IDMAC_DES0_FD));
    assert_eq!(mem[2], (0x2008, 512));
    assert_eq!(mem[4], (0x2010, 0x1_0000));
    assert_eq!(mem[6], (0x2018, 0x2020));
    assert_eq!(mem[8], (0x2020, base));
    assert_eq!(mem[12], (0x2030, 0x1_0200));
    assert_eq!(mem[16], (0x2040, base | FSDIF_IDMAC_DES0_LD | FSDIF_IDMAC_DES0_ER));
    assert_eq!(mem[22], (0x2058, 0));
    assert!(mem[24..].iter().enumerate().all(|(k, &(a, v))| a == 0x2060 + 4 * k as u64 && v == 0));
}

#[test]
fn refused_chain_is_not_written() {
    let (mut mci, io) = controller(0x2000, 2);
    assert_eq!(mci.setup_dma_descriptor(&data(512, 3, 0x1_0000)), Err(MCIError::ShortBuf));
    assert!(io.1.borrow().is_empty());
}

#[test]
fn empty_transfer_needs_no_descriptor_size() {
    let io = Writes(Rc::new(RefCell::new(Vec::new())), Rc::new(RefCell::new(Vec::new())));
    let mut mci = MCI::new(MCIConfig::new(0x2800_0000), io.clone());
    mci.desc_list = FSdifIDmaDescList::with_descriptors(0x2000, 2, 0);
    assert_eq!(mci.setup_dma_descriptor(&data(512, 0, 0x1_0000)), Ok(()));
    let d = &mci.desc_list.descs;
    assert_eq!(d[0].len, 0);
    assert_eq!(d[0].attribute & FSDIF_IDMAC_DES0_LD, FSDIF_IDMAC_DES0_LD);
    assert_eq!(io.1.borrow().len(), 2 * 8);
}

#[test]
fn misaligned_buffer_leaves_a_cleared_chain_in_memory() {
    let (mut mci, io) = controller(0x2000, 2);
    assert_eq!(mci.setup_dma_descriptor(&data(512, 1, 0x1_0001)), Err(MCIError::DmaBufUnalign));
    let mem = io.1.borrow();
    assert_eq!(mem.len(), 2 * 8);
    assert!(mem.iter().all(|&(_, v)| v == 0));
}
