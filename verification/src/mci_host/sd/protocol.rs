//! The decisions of the SD protocol that depend on values alone: command
//! arguments, what a response means, which parameters a card takes.

use vstd::prelude::*;

use super::constants::{
    group_num, timing_func_num, SdCardFlag, SdGroupNum, SdSwitchMode, SdTimingFuncNum, SD_POWER_OFF_DELAY_MS,
    SD_POWER_ON_DELAY_MS,
};
use crate::mci_host::constants::{
    current_state_spec, MCIHostBusWdith, MCIHostCardStatusFlag, MCIHostCurrentState, MCIHostOCR,
};
use crate::mci_host::err::MCIHostError;

verus! {

/// What a send-status response says: the card is idle when it is ready for
/// data and not programming, and busy otherwise.
pub open spec fn card_status_spec(resp0: u32) -> MCIHostError {
    if resp0 & MCIHostCardStatusFlag::READY_FOR_DATA != 0 && current_state_spec(resp0) != MCIHostCurrentState::Programming {
        MCIHostError::CardStatusIdle
    } else {
        MCIHostError::CardStatusBusy
    }
}

/// What a send-status response says (see [`card_status_spec`]).
pub fn card_status_of(resp0: u32) -> (r: MCIHostError)
    ensures
        r == card_status_spec(resp0),
{
    if resp0 & MCIHostCardStatusFlag::READY_FOR_DATA != 0
        && MCIHostCurrentState::current_state(resp0) != MCIHostCurrentState::Programming {
        MCIHostError::CardStatusIdle
    } else {
        MCIHostError::CardStatusBusy
    }
}

/// The argument of the switch-function command: the mode in bit 31, and
/// in the 4-bit field of every function group 0xF (keep the current
/// function) except in group `group`'s field, which holds `func`.
pub open spec fn switch_argument_spec(mode: SdSwitchMode, group: SdGroupNum, func: SdTimingFuncNum) -> u32 {
    let m: u32 = if mode == SdSwitchMode::SetFunction { 0x8000_0000 } else { 0 };
    let g = group_num(group);
    ((m | 0x00FF_FFFFu32) & !(0xFu32 << (g * 4) as u32)) | (timing_func_num(func) << (g * 4) as u32)
}

/// The argument of the switch-function command (see
/// [`switch_argument_spec`]).
pub fn switch_argument(mode: SdSwitchMode, group: SdGroupNum, func: SdTimingFuncNum) -> (r: u32)
    ensures
        r == switch_argument_spec(mode, group, func),
{
    let m: u32 = match mode {
        SdSwitchMode::SetFunction => 0x8000_0000,
        SdSwitchMode::Check => 0,
    };
    let g = group.num();
    let mut arg = m | 0x00FF_FFFF;
    arg = arg & !(0xF << (g * 4));
    arg = arg | (func.num() << (g * 4));
    arg
}

/// The field of group `g` in the switch argument is `f` and every other
/// group field is 0xF.
pub proof fn lemma_switch_argument_fields(mode: SdSwitchMode, group: SdGroupNum, func: SdTimingFuncNum)
    ensures
        ({
            let a = switch_argument_spec(mode, group, func);
            let g = group_num(group);
            &&& (a >> (g * 4) as u32) & 0xF == timing_func_num(func)
            &&& forall|h: u32| h < 6 && h != g ==> #[trigger] ((a >> (h * 4)) & 0xF) == 0xF
            &&& (a >> 31u32 == 1) <==> mode == SdSwitchMode::SetFunction
            &&& (a >> 24u32) & 0x7F == 0
        }),
{
    let m: u32 = if mode == SdSwitchMode::SetFunction { 0x8000_0000 } else { 0 };
    let g = group_num(group);
    let f = timing_func_num(func);
    assert(g < 4 && f < 5);
    let a = switch_argument_spec(mode, group, func);
    assert(a == ((m | 0x00FF_FFFFu32) & !(0xFu32 << (g * 4) as u32)) | (f << (g * 4) as u32));
    assert(((((m | 0x00FF_FFFFu32) & !(0xFu32 << (g * 4) as u32)) | (f << (g * 4) as u32)) >> (g * 4) as u32) & 0xF == f) by (bit_vector)
        requires g < 4, f < 5;
    assert forall|h: u32| h < 6 && h != g implies #[trigger] ((a >> (h * 4)) & 0xF) == 0xF by {
        assert(((((m | 0x00FF_FFFFu32) & !(0xFu32 << (g * 4) as u32)) | (f << (g * 4) as u32)) >> (h * 4)) & 0xF == 0xF) by (bit_vector)
            requires g < 4, f < 5, h < 6, h != g;
    }
    assert((((((m | 0x00FF_FFFFu32) & !(0xFu32 << (g * 4) as u32)) | (f << (g * 4) as u32)) >> 31u32 == 1) <==> m == 0x8000_0000u32)
        && (((((m | 0x00FF_FFFFu32) & !(0xFu32 << (g * 4) as u32)) | (f << (g * 4) as u32)) >> 24u32) & 0x7F == 0)) by (bit_vector)
        requires g < 4, f < 5, m == 0 || m == 0x8000_0000u32;
}

/// The support bits of function group `g` in a switch-function status
/// (words in little-endian order, word 0 the most significant).
pub open spec fn func_group_bits(st: Seq<u32>, g: int) -> u16 {
    if g == 0 {
        (st[3] >> 16u32) as u16
    } else if g == 1 {
        st[2] as u16
    } else if g == 2 {
        (st[2] >> 16u32) as u16
    } else if g == 3 {
        st[1] as u16
    } else if g == 4 {
        (st[1] >> 16u32) as u16
    } else {
        st[0] as u16
    }
}

/// The function-selection bits (bits 379..376 and on) of a switch-function
/// status.
pub open spec fn func_selection(st: Seq<u32>) -> u32 {
    ((st[3] & 0xFFu32) << 8u32) | (st[4] >> 24u32)
}

/// The status of a check says that function `func` of group `group` is
/// supported and can be switched to.
pub open spec fn function_available(st: Seq<u32>, group: SdGroupNum, func: SdTimingFuncNum) -> bool {
    &&& func_group_bits(st, group_num(group) as int) & (1u16 << timing_func_num(func) as u16) != 0
    &&& (func_selection(st) >> (group_num(group) * 4) as u32) & 0xF == timing_func_num(func)
}

/// The status of a switch says that group `group` now runs function `func`.
pub open spec fn function_switched(st: Seq<u32>, group: SdGroupNum, func: SdTimingFuncNum) -> bool {
    (func_selection(st) >> (group_num(group) * 4) as u32) & 0xF == timing_func_num(func)
}

/// Whether a checked status allows the function (see
/// [`function_available`]).
pub fn check_function_available(st: &[u32], group: SdGroupNum, func: SdTimingFuncNum) -> (r: bool)
    requires
        st@.len() >= 5,
    ensures
        r == function_available(st@, group, func),
{
    let g = group.num();
    let bits: u16 = if g == 0 {
        (st[3] >> 16) as u16
    } else if g == 1 {
        st[2] as u16
    } else if g == 2 {
        (st[2] >> 16) as u16
    } else {
        st[1] as u16
    };
    let sel = ((st[3] & 0xFF) << 8) | (st[4] >> 24);
    (bits & (1u16 << (func.num() as u16)) != 0) && ((sel >> (g * 4)) & 0xF) == func.num()
}

/// Whether a switch status shows the function selected (see
/// [`function_switched`]).
pub fn check_function_switched(st: &[u32], group: SdGroupNum, func: SdTimingFuncNum) -> (r: bool)
    requires
        st@.len() >= 5,
    ensures
        r == function_switched(st@, group, func),
{
    let sel = ((st[3] & 0xFF) << 8) | (st[4] >> 24);
    ((sel >> (group.num() * 4)) & 0xF) == func.num()
}

/// A card takes blocks of `block_size` bytes for reading and writing: 512
/// bytes for high-capacity cards, no larger than the card's and the host's
/// block size, and a multiple of 4.
pub open spec fn block_size_supported(card_flags: u32, block_size: u32, card_block_size: u32, host_max_block_size: u32) -> bool {
    &&& !(card_flags & SdCardFlag::SupportHighCapacity != 0 && block_size != 512)
    &&& block_size <= card_block_size
    &&& block_size <= host_max_block_size
    &&& block_size % 4 == 0
}

/// Whether the card takes the block size (see [`block_size_supported`]).
pub fn check_block_size(card_flags: u32, block_size: u32, card_block_size: u32, host_max_block_size: u32) -> (r: bool)
    ensures
        r == block_size_supported(card_flags, block_size, card_block_size, host_max_block_size),
{
    !((card_flags & SdCardFlag::SupportHighCapacity != 0 && block_size != 512) || block_size > card_block_size
        || block_size > host_max_block_size || block_size % 4 != 0)
}

/// The address argument of a block read or write: the block number on
/// high-capacity cards, the byte address (modulo 2^32) on others.
pub open spec fn block_address_spec(card_flags: u32, start_block: u32, block_size: u32) -> u32 {
    if card_flags & SdCardFlag::SupportHighCapacity != 0 {
        start_block
    } else {
        ((start_block as int * block_size as int) % 0x1_0000_0000) as u32
    }
}

/// The address argument of a block read or write (see
/// [`block_address_spec`]).
pub fn block_address(card_flags: u32, start_block: u32, block_size: u32) -> (r: u32)
    ensures
        r == block_address_spec(card_flags, start_block, block_size),
{
    if card_flags & SdCardFlag::SupportHighCapacity != 0 {
        start_block
    } else {
        start_block.wrapping_mul(block_size)
    }
}

/// The card flags after an operation-conditions response `ocr` that shows
/// the card powered up: high capacity and 1.8 V signalling are added where
/// the response announces them.
pub open spec fn ocr_card_flags(ocr: u32, flags: u32) -> u32 {
    flags | (if ocr & MCIHostOCR::HOST_CAPACITY_SUPPORT_FLAG != 0 { SdCardFlag::SupportHighCapacity } else { 0 })
        | (if ocr & MCIHostOCR::SWITCH_18_ACCEPT_FLAG != 0 { SdCardFlag::SupportVoltage180v } else { 0 })
}

/// The card flags after an operation-conditions response (see
/// [`ocr_card_flags`]).
pub fn card_flags_from_ocr(ocr: u32, flags: u32) -> (r: u32)
    ensures
        r == ocr_card_flags(ocr, flags),
{
    let hc: u32 = if ocr & MCIHostOCR::HOST_CAPACITY_SUPPORT_FLAG != 0 { SdCardFlag::SupportHighCapacity } else { 0 };
    let v18: u32 = if ocr & MCIHostOCR::SWITCH_18_ACCEPT_FLAG != 0 { SdCardFlag::SupportVoltage180v } else { 0 };
    flags | hc | v18
}

/// The card flags only grow: an operation-conditions response and a
/// configuration register add flags and never clear one.
pub proof fn lemma_card_flags_grow(ocr: u32, scr: super::scr::SdScr, flags: u32)
    ensures
        ocr_card_flags(ocr, flags) & flags == flags,
        super::scr::scr_card_flags(scr, flags) & flags == flags,
{
    let a: u32 = if ocr & MCIHostOCR::HOST_CAPACITY_SUPPORT_FLAG != 0 { SdCardFlag::SupportHighCapacity } else { 0 };
    let b: u32 = if ocr & MCIHostOCR::SWITCH_18_ACCEPT_FLAG != 0 { SdCardFlag::SupportVoltage180v } else { 0 };
    assert((flags | a | b) & flags == flags) by (bit_vector);
    let c: u32 = if scr.sd_bus_widths & 0x4 != 0 { SdCardFlag::Support4BitWidth } else { 0 };
    let d: u32 = if scr.command_support & 0x1 != 0 { SdCardFlag::SupportSpeedClassControlCmd } else { 0 };
    let e: u32 = if scr.command_support & 0x2 != 0 { SdCardFlag::SupportSetBlockCountCmd } else { 0 };
    assert((flags | c | d | e) & flags == flags) by (bit_vector);
}

/// The argument of the set-bus-width application command: 0 for one data
/// line, 2 for four; eight lines: `InvalidArgument`.
pub open spec fn bus_width_argument_spec(width: MCIHostBusWdith) -> Result<u32, MCIHostError> {
    match width {
        MCIHostBusWdith::Bit1 => Ok(0),
        MCIHostBusWdith::Bit4 => Ok(2),
        MCIHostBusWdith::Bit8 => Err(MCIHostError::InvalidArgument),
    }
}

/// The argument of the set-bus-width application command (see
/// [`bus_width_argument_spec`]).
pub fn bus_width_argument(width: MCIHostBusWdith) -> (r: Result<u32, MCIHostError>)
    ensures
        r == bus_width_argument_spec(width),
{
    match width {
        MCIHostBusWdith::Bit1 => Ok(0),
        MCIHostBusWdith::Bit4 => Ok(2),
        MCIHostBusWdith::Bit8 => Err(MCIHostError::InvalidArgument),
    }
}

/// The wait after switching the card's power, in ms: the user's when set
/// (non-zero), else 400 ms after powering on and 100 ms after powering off.
pub open spec fn power_delay_spec(enable: bool, on_delay_ms: u32, off_delay_ms: u32) -> u32 {
    if enable {
        if on_delay_ms == 0 { SD_POWER_ON_DELAY_MS } else { on_delay_ms }
    } else {
        if off_delay_ms == 0 { SD_POWER_OFF_DELAY_MS } else { off_delay_ms }
    }
}

/// The wait after switching the card's power (see [`power_delay_spec`]).
pub fn power_delay(enable: bool, on_delay_ms: u32, off_delay_ms: u32) -> (r: u32)
    ensures
        r == power_delay_spec(enable, on_delay_ms, off_delay_ms),
{
    let (user_delay, default_delay) = if enable {
        (on_delay_ms, SD_POWER_ON_DELAY_MS)
    } else {
        (off_delay_ms, SD_POWER_OFF_DELAY_MS)
    };
    if user_delay == 0 { default_delay } else { user_delay }
}

/// The next piece of a transfer of `left` blocks in pieces of at most
/// `max` blocks: its size and the blocks left after it.
pub open spec fn next_chunk_spec(left: u32, max: u32) -> (u32, u32) {
    if left > max { (max, (left - max) as u32) } else { (left, 0) }
}

/// The next piece of a transfer (see [`next_chunk_spec`]).
pub fn next_chunk(left: u32, max: u32) -> (r: (u32, u32))
    ensures
        r == next_chunk_spec(left, max),
{
    if left > max { (max, left - max) } else { (left, 0) }
}

/// Pieces of at most `max` (positive) blocks cover a transfer exactly:
/// each piece is positive and at most `max`, and the pieces shrink what is
/// left by their size.
pub proof fn lemma_chunk_progress(left: u32, max: u32)
    requires
        left > 0,
        max > 0,
    ensures
        ({
            let (n, rest) = next_chunk_spec(left, max);
            &&& 0 < n <= max
            &&& n + rest == left
            &&& rest < left
        }),
{
}

} // verus!
