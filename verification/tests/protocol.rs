use phytium_mci::mci_host::constants::{MCIHostBusWdith, MCIHostCurrentState};
use phytium_mci::mci_host::err::MCIHostError;
use phytium_mci::mci_host::sd::constants::{SdCardFlag, SdGroupNum, SdSwitchMode, SdTimingFuncNum};
use phytium_mci::mci_host::sd::protocol::{
    block_address, bus_width_argument, card_flags_from_ocr, card_status_of, check_block_size,
    check_function_available, check_function_switched, next_chunk, power_delay, switch_argument,
};

#[test]
fn switch_argument_check_high_speed() {
    // Check mode, group 0 function 1: every other group keeps 0xF.
    assert_eq!(switch_argument(SdSwitchMode::Check, SdGroupNum::TimingMode, SdTimingFuncNum::SDR25HighSpeed), 0x00FF_FFF1);
}

#[test]
fn switch_argument_set_mode_sets_bit_31() {
    assert_eq!(switch_argument(SdSwitchMode::SetFunction, SdGroupNum::TimingMode, SdTimingFuncNum::SDR104), 0x80FF_FFF3);
    assert_eq!(switch_argument(SdSwitchMode::SetFunction, SdGroupNum::CurrentLimit, SdTimingFuncNum::SDR50), 0x80FF_2FFF);
}

#[test]
fn card_status_idle_only_when_ready_and_not_programming() {
    assert_eq!(card_status_of(0x900), MCIHostError::CardStatusIdle);
    // Programming state (7).
    assert_eq!(card_status_of(0x100 | (7 << 9)), MCIHostError::CardStatusBusy);
    // Not ready for data.
    assert_eq!(card_status_of(4 << 9), MCIHostError::CardStatusBusy);
}

#[test]
fn current_state_decoding() {
    assert_eq!(MCIHostCurrentState::current_state(4 << 9), MCIHostCurrentState::Transfer);
    assert_eq!(MCIHostCurrentState::current_state(8 << 9), MCIHostCurrentState::Disconnect);
    // Unassigned codes read as idle.
    assert_eq!(MCIHostCurrentState::current_state(12 << 9), MCIHostCurrentState::Idle);
}

#[test]
fn block_size_rules() {
    let hc = SdCardFlag::SupportHighCapacity;
    assert!(check_block_size(hc, 512, 512, 4096));
    assert!(!check_block_size(hc, 256, 512, 4096));
    assert!(check_block_size(0, 256, 512, 4096));
    assert!(!check_block_size(0, 1024, 512, 4096));
    assert!(!check_block_size(0, 510, 512, 4096));
    assert!(!check_block_size(0, 512, 1024, 256));
}

#[test]
fn block_address_by_capacity() {
    assert_eq!(block_address(SdCardFlag::SupportHighCapacity, 1000, 512), 1000);
    assert_eq!(block_address(0, 1000, 512), 512_000);
    // Byte addresses wrap at 32 bits.
    assert_eq!(block_address(0, 0x0080_0001, 512), 0x200);
}

#[test]
fn ocr_flags_accumulate() {
    let f = card_flags_from_ocr(0xC0FF_8000, SdCardFlag::SupportSdhc);
    assert_eq!(f, SdCardFlag::SupportSdhc | SdCardFlag::SupportHighCapacity);
    let g = card_flags_from_ocr(0x8100_0000, 0);
    assert_eq!(g, SdCardFlag::SupportVoltage180v);
}

#[test]
fn bus_width_arguments() {
    assert_eq!(bus_width_argument(MCIHostBusWdith::Bit1), Ok(0));
    assert_eq!(bus_width_argument(MCIHostBusWdith::Bit4), Ok(2));
    assert_eq!(bus_width_argument(MCIHostBusWdith::Bit8), Err(MCIHostError::InvalidArgument));
}

#[test]
fn power_delays() {
    assert_eq!(power_delay(true, 0, 0), 400);
    assert_eq!(power_delay(false, 0, 0), 100);
    assert_eq!(power_delay(true, 5, 7), 5);
    assert_eq!(power_delay(false, 5, 7), 7);
}

#[test]
fn chunks_cover_the_transfer() {
    assert_eq!(next_chunk(2500, 1024), (1024, 1476));
    assert_eq!(next_chunk(1024, 1024), (1024, 0));
    assert_eq!(next_chunk(3, 1024), (3, 0));
    let mut left = 2500u32;
    let mut total = 0u32;
    while left != 0 {
        let (n, rest) = next_chunk(left, 1024);
        assert!(n > 0 && n <= 1024);
        total += n;
        left = rest;
    }
    assert_eq!(total, 2500);
}

#[test]
fn function_status_checks() {
    let st = [0x0064_8001u32, 0x8001_8001, 0x8001_8001, 0x8003_0000, 0x0100_0000];
    assert!(check_function_available(&st, SdGroupNum::TimingMode, SdTimingFuncNum::SDR25HighSpeed));
    assert!(!check_function_available(&st, SdGroupNum::TimingMode, SdTimingFuncNum::SDR50));
    assert!(check_function_switched(&st, SdGroupNum::TimingMode, SdTimingFuncNum::SDR25HighSpeed));
    assert!(!check_function_switched(&st, SdGroupNum::TimingMode, SdTimingFuncNum::SDR12Default));
}
