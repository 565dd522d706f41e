use std::cell::RefCell;
use std::collections::HashMap;
use std::rc::Rc;

use phytium_mci::iopad::constants::{
    FioPadDelay, FioPadDelayDir, FioPadDelayType, FioPadDrive, FioPadFunc, FioPadPull, FIOPAD_AJ49_REG0_OFFSET,
    FIOPAD_AJ49_REG1_OFFSET,
};
use phytium_mci::iopad::err::FioPadError;
use phytium_mci::iopad::IoPad;
use phytium_mci::mci::consts::{MCICmdFlag, MCITransMode};
use phytium_mci::mci::err::MCIError;
use phytium_mci::mci::mci_cmddata::MCICmdData;
use phytium_mci::mci::mci_config::MCIConfig;
use phytium_mci::mci::MCI;
use phytium_mci::regs::{genmask, genmask_ull, get_reg32_bits, set_reg32_bits, Reg, RegisterIo};
use phytium_mci::tools::{swap_half_word_byte_sequence_u32, swap_word_byte_sequence_u32};
use phytium_mci::Kernel;

#[derive(Clone)]
struct Mem(Rc<RefCell<HashMap<u32, u32>>>);

impl Mem {
    fn new() -> Self {
        Mem(Rc::new(RefCell::new(HashMap::new())))
    }
    fn get(&self, off: u32) -> u32 {
        *self.0.borrow().get(&off).unwrap_or(&0)
    }
}

impl Kernel for Mem {
    fn sleep(_duration: core::time::Duration) {}
}

impl RegisterIo for Mem {
    fn read_32(&self, offset: u32) -> u32 {
        self.get(offset)
    }
    fn write_32(&self, offset: u32, value: u32) {
        self.0.borrow_mut().insert(offset, value);
    }    fn write_mem_32(&self, _addr: u64, _value: u32) {}
}

#[test]
fn byte_order_helpers() {
    assert_eq!(swap_half_word_byte_sequence_u32(0x1234_5678), 0x5678_1234);
    assert_eq!(swap_word_byte_sequence_u32(0x1234_5678), 0x7856_3412);
    // Each is its own inverse.
    let v = 0xDEAD_BEEF;
    assert_eq!(swap_word_byte_sequence_u32(swap_word_byte_sequence_u32(v)), v);
    assert_eq!(swap_half_word_byte_sequence_u32(swap_half_word_byte_sequence_u32(v)), v);
}

#[test]
fn masks_and_fields() {
    assert_eq!(genmask(7, 4), 0xF0);
    assert_eq!(genmask(31, 0), 0xFFFF_FFFF);
    assert_eq!(genmask_ull(39, 32), 0xFF_0000_0000);
    assert_eq!(get_reg32_bits(0xABCD, 11, 8), 0xB);
    assert_eq!(set_reg32_bits(0x5, 6, 4), 0x50);
    // Setting then getting a field gives the value back.
    assert_eq!(get_reg32_bits(set_reg32_bits(0x3, 9, 8), 9, 8), 0x3);
}

#[test]
fn register_window_reads_and_writes() {
    let mem = Mem::new();
    let mut reg = Reg::new(0x1000, mem.clone());
    assert_eq!(reg.get_base_addr(), 0x1000);
    reg.write_reg(0x10, 0xF0F0);
    assert_eq!(reg.read_reg(0x10), 0xF0F0);
    reg.modify_reg(0x10, 0xF000, 0x000F);
    assert_eq!(mem.get(0x10), 0x00FF);
    reg.set_reg(0x10, 0x100);
    reg.clear_reg(0x10, 0x1);
    assert_eq!(reg.read_32(0x10), 0x01FE);
    reg.write_32(0x14, 7);
    assert_eq!(mem.get(0x14), 7);
}

#[test]
fn register_poll_succeeds_and_times_out() {
    let mem = Mem::new();
    let mut reg = Reg::new(0, mem.clone());
    mem.write_32(0x8, 0x4);
    let ok: Result<(), MCIError> = reg.retry_for(0x8, 0x4, 0x4, true, Some(3));
    assert_eq!(ok, Ok(()));
    let timeout: Result<(), MCIError> = reg.retry_for(0x8, 0x1, 0x1, true, Some(3));
    assert_eq!(timeout, Err(MCIError::Timeout));
    let waited: Result<(), FioPadError> = reg.wait_for(0x8, 0x4, 0, false, core::time::Duration::from_micros(1), Some(2));
    assert_eq!(waited, Ok(()));
}

#[test]
fn pad_configuration_round_trip() {
    let mem = Mem::new();
    let mut pad = IoPad::new(0x32B3_0000, mem.clone());
    let reg = FIOPAD_AJ49_REG0_OFFSET;
    pad.config_set(reg, FioPadFunc::Func5, FioPadPull::PullUp, FioPadDrive::Drv9);
    assert_eq!(pad.config_get(reg), Ok((FioPadFunc::Func5, FioPadPull::PullUp, FioPadDrive::Drv9)));
    assert_eq!(mem.get(reg), 5 | (9 << 4) | (2 << 8));
    // Setting a function replaces the previous one and keeps the rest.
    pad.func_set(reg, FioPadFunc::Func2);
    assert_eq!(pad.func_get(reg), FioPadFunc::Func2);
    assert_eq!(pad.drive_get(reg), FioPadDrive::Drv9);
    // Pull-down then pull-up reads back as pull-up.
    pad.pull_set(reg, FioPadPull::PullDown);
    pad.pull_set(reg, FioPadPull::PullUp);
    assert_eq!(pad.pull_get(reg), Ok(FioPadPull::PullUp));
    pad.drive_set(reg, FioPadDrive::Drv2);
    assert_eq!(pad.drive_get(reg), FioPadDrive::Drv2);
    pad.config_set(reg, FioPadFunc::Func1, FioPadPull::PullDown, FioPadDrive::Drv4);
    assert_eq!(pad.config_get(reg), Ok((FioPadFunc::Func1, FioPadPull::PullDown, FioPadDrive::Drv4)));
}

#[test]
fn pad_reserved_pull_is_an_error() {
    let mem = Mem::new();
    let mut pad = IoPad::new(0x32B3_0000, mem.clone());
    let reg = FIOPAD_AJ49_REG0_OFFSET;
    mem.write_32(reg, 3 << 8);
    assert_eq!(pad.pull_get(reg), Err(FioPadError::InvalParam));
}

#[test]
fn pad_delay_round_trip() {
    let mem = Mem::new();
    let mut pad = IoPad::new(0x32B3_0000, mem.clone());
    let reg = FIOPAD_AJ49_REG1_OFFSET;
    pad.delay_set(reg, FioPadDelayDir::OutputDelay, FioPadDelayType::DelayCoarseTuning, FioPadDelay::Delay3);
    pad.delay_set(reg, FioPadDelayDir::InputDelay, FioPadDelayType::DelayFineTuning, FioPadDelay::Delay6);
    assert_eq!(pad.delay_get(reg, FioPadDelayDir::OutputDelay, FioPadDelayType::DelayCoarseTuning), FioPadDelay::Delay3);
    assert_eq!(pad.delay_get(reg, FioPadDelayDir::InputDelay, FioPadDelayType::DelayFineTuning), FioPadDelay::Delay6);
    pad.delay_enable_set(reg, FioPadDelayDir::OutputDelay, true);
    assert_eq!(mem.get(reg) & 0x100, 0x100);
    // A new delay replaces the old one.
    pad.delay_set(reg, FioPadDelayDir::OutputDelay, FioPadDelayType::DelayCoarseTuning, FioPadDelay::Delay4);
    assert_eq!(pad.delay_get(reg, FioPadDelayDir::OutputDelay, FioPadDelayType::DelayCoarseTuning), FioPadDelay::Delay4);
    assert_eq!(pad.delay_get(reg, FioPadDelayDir::InputDelay, FioPadDelayType::DelayFineTuning), FioPadDelay::Delay6);
}

#[test]
fn controller_not_ready_refuses_transfers() {
    let mem = Mem::new();
    let mut mci = MCI::new(MCIConfig::new(0x2800_0000), mem);
    let mut cmd = MCICmdData::new();
    cmd.cmdidx = 17;
    cmd.flag = MCICmdFlag::EXP_RESP;
    assert_eq!(mci.pio_transfer(&mut cmd), Err(MCIError::NotInit));
    assert_eq!(mci.poll_wait_pio_end(&cmd), Err(MCIError::NotInit));
    assert_eq!(mci.cmd_response_get(&mut cmd), Err(MCIError::NotInit));
    assert_eq!(mci.restart(), Err(MCIError::NotInit));
}

#[test]
fn controller_in_dma_mode_refuses_pio() {
    let mem = Mem::new();
    let mut config = MCIConfig::new(0x2800_0000);
    config.trans_mode = MCITransMode::DMA;
    let mut mci = MCI::new(config, mem);
    mci.is_ready = true;
    let mut cmd = MCICmdData::new();
    assert_eq!(mci.pio_transfer(&mut cmd), Err(MCIError::InvalidState));
    assert_eq!(mci.poll_wait_pio_end(&cmd), Err(MCIError::InvalidState));
}

#[test]
fn clock_without_timing_is_refused() {
    let mem = Mem::new();
    let mut mci = MCI::new(MCIConfig::new(0x2800_0000), mem);
    assert_eq!(mci.clk_freq_set(208_000_000), Err(MCIError::InvalidTiming));
    // Removable cards have no 26 MHz timing.
    assert_eq!(mci.clk_freq_set(26_000_000), Err(MCIError::InvalidTiming));
}

#[test]
fn controller_reports_card_and_busy_bits() {
    let mem = Mem::new();
    let mut mci = MCI::new(MCIConfig::new(0x2800_0000), mem.clone());
    assert!(mci.check_if_card_exist());
    mem.write_32(0x50, 1);
    assert!(!mci.check_if_card_exist());
    mem.write_32(0x48, 0x200);
    assert!(mci.check_if_card_busy());
}
