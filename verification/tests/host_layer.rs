use std::cell::RefCell;
use std::collections::HashMap;
use std::rc::Rc;

use phytium_mci::mci::consts::MCICmdFlag;
use phytium_mci::mci_host::constants::{MCIHostBusWdith, MCIHostDataPacketFormat, MCIHostResponseType};
use phytium_mci::mci_host::err::MCIHostError;
use phytium_mci::mci_host::mci_host_config::{MCIHostCardType, MCIHostConfig, MCIHostEndianMode};
use phytium_mci::mci_host::mci_host_transfer::{MCIHostCmd, MCIHostData, MCIHostTransfer};
use phytium_mci::mci_host::mci_sdif::consts::SDStatus;
use phytium_mci::mci_host::mci_sdif::sdif_device::SDIFDev;
use phytium_mci::mci_host::MCIHost;
use phytium_mci::osa::err::FMempError;
use phytium_mci::osa::pool_buffer::PoolBuffer;
use phytium_mci::osa::semaphore::Semaphore;
use phytium_mci::regs::RegisterIo;
use phytium_mci::Kernel;

#[derive(Clone)]
struct Mem(Rc<RefCell<HashMap<u32, u32>>>);

impl Kernel for Mem {
    fn sleep(_duration: core::time::Duration) {}
}

impl RegisterIo for Mem {
    fn read_32(&self, offset: u32) -> u32 {
        *self.0.borrow().get(&offset).unwrap_or(&0)
    }
    fn write_32(&self, offset: u32, value: u32) {
        self.0.borrow_mut().insert(offset, value);
    }    fn write_mem_32(&self, _addr: u64, _value: u32) {}
}

fn mem() -> Mem {
    Mem(Rc::new(RefCell::new(HashMap::new())))
}

fn command(index: u32, argument: u32, rt: MCIHostResponseType) -> MCIHostCmd {
    let mut c = MCIHostCmd::new();
    c.index_set(index);
    c.argument_set(argument);
    c.response_type_set(rt);
    c
}

#[test]
fn command_flags_of_go_idle() {
    let mut t = MCIHostTransfer::new();
    t.set_cmd(Some(command(0, 0, MCIHostResponseType::NoResponse)));
    let c = SDIFDev::<Mem>::convert_command_info(&mut t);
    assert_eq!(c.flag, MCICmdFlag::NEED_INIT);
    assert_eq!(c.cmdidx, 0);
    assert!(c.data.is_none());
}

#[test]
fn command_flags_of_long_and_ocr_responses() {
    let mut t = MCIHostTransfer::new();
    t.set_cmd(Some(command(2, 0, MCIHostResponseType::R2)));
    let c = SDIFDev::<Mem>::convert_command_info(&mut t);
    assert_eq!(c.flag, MCICmdFlag::EXP_RESP | MCICmdFlag::EXP_LONG_RESP | MCICmdFlag::NEED_RESP_CRC);
    let mut t = MCIHostTransfer::new();
    t.set_cmd(Some(command(41, 0x40FF_8000, MCIHostResponseType::R3)));
    let c = SDIFDev::<Mem>::convert_command_info(&mut t);
    assert_eq!(c.flag, MCICmdFlag::EXP_RESP);
    assert_eq!(c.cmdarg, 0x40FF_8000);
}

#[test]
fn command_flags_of_abort_and_voltage_switch() {
    let mut t = MCIHostTransfer::new();
    t.set_cmd(Some(command(15, 0, MCIHostResponseType::NoResponse)));
    assert_eq!(SDIFDev::<Mem>::convert_command_info(&mut t).flag, MCICmdFlag::ABORT);
    // SDIO direct write to the abort register (address 6).
    let mut t = MCIHostTransfer::new();
    t.set_cmd(Some(command(52, 6 << 9, MCIHostResponseType::R5)));
    assert_eq!(
        SDIFDev::<Mem>::convert_command_info(&mut t).flag,
        MCICmdFlag::ABORT | MCICmdFlag::EXP_RESP | MCICmdFlag::NEED_RESP_CRC
    );
    let mut t = MCIHostTransfer::new();
    t.set_cmd(Some(command(11, 0, MCIHostResponseType::R1)));
    assert_eq!(
        SDIFDev::<Mem>::convert_command_info(&mut t).flag,
        MCICmdFlag::SWITCH_VOLTAGE | MCICmdFlag::EXP_RESP | MCICmdFlag::NEED_RESP_CRC
    );
}

#[test]
fn command_data_moves_out_of_the_transfer() {
    let mut t = MCIHostTransfer::new();
    t.set_cmd(Some(command(18, 100, MCIHostResponseType::R1)));
    let mut d = MCIHostData::new();
    d.block_size_set(512);
    d.block_count_set(3);
    d.rx_data_set(Some(vec![0; 384]));
    t.set_data(Some(d));
    let c = SDIFDev::<Mem>::convert_command_info(&mut t);
    assert_eq!(c.flag & (MCICmdFlag::EXP_DATA | MCICmdFlag::READ_DATA | MCICmdFlag::WRITE_DATA), MCICmdFlag::EXP_DATA | MCICmdFlag::READ_DATA);
    let data = c.data.unwrap();
    assert_eq!((data.blksz, data.blkcnt, data.datalen), (512, 3, 1536));
    assert_eq!(data.buf.unwrap().len(), 384);
    assert!(t.data().unwrap().rx_data().is_none());

    let mut t = MCIHostTransfer::new();
    t.set_cmd(Some(command(24, 0, MCIHostResponseType::R1)));
    let mut d = MCIHostData::new();
    d.block_size_set(512);
    d.block_count_set(1);
    d.tx_data_set(Some(vec![7; 128]));
    t.set_data(Some(d));
    let c = SDIFDev::<Mem>::convert_command_info(&mut t);
    assert_eq!(c.flag & (MCICmdFlag::READ_DATA | MCICmdFlag::WRITE_DATA), MCICmdFlag::WRITE_DATA);
    assert_eq!(c.data.unwrap().buf.unwrap(), vec![7; 128]);
    assert!(t.data().unwrap().tx_data().is_none());
}

#[test]
fn little_endian_conversion() {
    let mut v = vec![0x1122_3344, 0x5566_7788, 0x99AA_BBCC];
    let _ = SDIFDev::<Mem>::convert_data_to_little_endian(&mut v, 2, MCIHostDataPacketFormat::MSBFirst, MCIHostEndianMode::Little);
    assert_eq!(v, vec![0x4433_2211, 0x8877_6655, 0x99AA_BBCC]);
    let mut w = vec![0x1122_3344];
    let _ = SDIFDev::<Mem>::convert_data_to_little_endian(&mut w, 5, MCIHostDataPacketFormat::LSBFirst, MCIHostEndianMode::HalfWordBig);
    assert_eq!(w, vec![0x3344_1122]);
    let mut x = vec![0x1122_3344];
    let _ = SDIFDev::<Mem>::convert_data_to_little_endian(&mut x, 1, MCIHostDataPacketFormat::LSBFirst, MCIHostEndianMode::Little);
    assert_eq!(x, vec![0x1122_3344]);
    // Converting twice gives the words back.
    let _ = SDIFDev::<Mem>::convert_data_to_little_endian(&mut v, 2, MCIHostDataPacketFormat::MSBFirst, MCIHostEndianMode::Little);
    assert_eq!(v, vec![0x1122_3344, 0x5566_7788, 0x99AA_BBCC]);
}

#[test]
fn transfer_without_command_is_refused() {
    let mut dev = SDIFDev::new(0x2800_0000, mem());
    let mut t = MCIHostTransfer::new();
    assert_eq!(dev.transfer_function(&mut t), Err(MCIHostError::NoData));
    assert_eq!(dev.pre_command(&t), Err(MCIHostError::NoData));
}

#[test]
fn transfer_on_controller_not_set_up_fails() {
    let mut dev = SDIFDev::new(0x2800_0000, mem());
    let mut t = MCIHostTransfer::new();
    t.set_cmd(Some(command(13, 0, MCIHostResponseType::R1)));
    assert_eq!(dev.transfer_function(&mut t), Err(MCIHostError::NoData));
    assert_eq!(t.cmd().unwrap().response(), &[0, 0, 0, 0]);
}

#[test]
fn host_commands_fail_without_controller() {
    let dev = SDIFDev::new(0x2800_0000, mem());
    let mut host = MCIHost::new(dev, MCIHostConfig::new());
    assert_eq!(host.go_idle(), Err(MCIHostError::TransferFailed));
    assert_eq!(host.card_select(1, true), Err(MCIHostError::TransferFailed));
    assert_eq!(host.application_command_send(1), Err(MCIHostError::TransferFailed));
    assert_eq!(host.card_detect_status_polling(phytium_mci::mci_host::mci_sdif::consts::SDStatus::Inserted), Err(MCIHostError::NoData));
    assert_eq!(host.card_clock_set(0), 0);
}

#[test]
fn host_configuration_defaults() {
    let c = MCIHostConfig::new();
    assert_eq!(c.max_trans_size, 512 * 1024);
    assert_eq!(c.def_block_size, 512);
    assert_eq!(c.card_clock, 50_000_000);
    assert_eq!(c.endian_mode, MCIHostEndianMode::Little);
    assert_eq!(c.card_type, MCIHostCardType::MicroSD);
}

#[test]
fn pool_buffer_copy_and_read_back() {
    let mut b = PoolBuffer::new(16, 4).unwrap();
    assert_eq!(b.size(), 16);
    assert_eq!(b.to_vec(), Ok(vec![0, 0, 0, 0]));
    assert_eq!(b.copy_from_slice(&[0x0403_0201, 0x0807_0605]), Ok(()));
    assert_eq!(b.to_vec_in_len(2), Ok(vec![0x0403_0201, 0x0807_0605]));
    assert_eq!(b.to_vec(), Ok(vec![0x0403_0201, 0x0807_0605, 0, 0]));
    assert!(b.copy_from_slice(&[1, 2, 3, 4, 5]).is_err());
    assert_eq!(b.to_vec_in_len(5), Err(FMempError::NotEnoughSpace));
    b.clear();
    assert_eq!(b.to_vec(), Ok(vec![0, 0, 0, 0]));
    let odd = PoolBuffer::new(6, 4).unwrap();
    assert_eq!(odd.to_vec(), Err(FMempError::SizeNotAligned));
}

#[test]
fn semaphore_counts() {
    let mut s = Semaphore::new(1);
    s.down();
    assert_eq!(s.count(), 0);
    s.up();
    s.up();
    assert_eq!(s.count(), 2);
    let mut m = Semaphore::new(isize::MAX);
    m.up();
    assert_eq!(m.count(), isize::MIN);
}

#[test]
fn slot_bus_width_and_busy_line() {
    let m = mem();
    let mut dev = SDIFDev::new(0x2800_0000, m.clone());
    // The detect bit reads 0: a card is in.
    assert_eq!(dev.card_detect_status(), SDStatus::Inserted);
    m.write_32(0x50, 1);
    assert_eq!(dev.card_detect_status(), SDStatus::Removed);
    dev.card_bus_width_set(MCIHostBusWdith::Bit4);
    assert_eq!(m.read_32(0x18), 0x1);
    dev.card_bus_width_set(MCIHostBusWdith::Bit8);
    assert_eq!(m.read_32(0x18), 0x10000);
    dev.card_bus_width_set(MCIHostBusWdith::Bit1);
    assert_eq!(m.read_32(0x18), 0);
    assert!(!dev.card_is_busy());
    assert!(dev.get_signal_line_status(0));
    m.write_32(0x48, 0x200);
    assert!(dev.card_is_busy());
    assert!(!dev.get_signal_line_status(0));
}
