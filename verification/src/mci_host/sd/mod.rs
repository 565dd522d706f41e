//! SD cards: registers, identification and data transfer.

use vstd::prelude::*;

pub mod cid;
pub mod constants;
pub mod csd;
pub mod io_voltage;
pub mod scr;
pub mod status;
pub mod usr_param;
pub mod protocol;

use cid::{cid_of, SdCid};
use constants::{
    SdAppCmd, SdCardFlag, SdCmd, SdDriverStrength, SdGroupNum, SdIoVoltageCtrlType, SdMaxCurrent,
    SdSpecificationVersion, SdSwitchMode, SdTimingFuncNum, SdTimingMode, SD_CARD_ACCESS_WAIT_IDLE_TIMEOUT,
    SD_CLOCK_100MHZ, SD_CLOCK_208MHZ, SD_CLOCK_25MHZ, SD_CLOCK_50MHZ, SD_CMD13_RETRY_TIMES,
};
use csd::{csd_capacity, csd_in_range, csd_of, csd_zero, lemma_csd_of_in_range, SdCardCmdClass, SdCsd};
use io_voltage::SdIoVoltage;
use protocol::{
    block_address, bus_width_argument, card_flags_from_ocr, card_status_of, check_block_size,
    check_function_available, check_function_switched, lemma_chunk_progress, next_chunk, power_delay, switch_argument,
};
use scr::{scr_card_flags, scr_of, scr_version, scr_zero, SdScr};
use status::SdStatus;
use usr_param::SdUsrParam;

use crate::mci_host::constants::{
    MCIHostBusWdith, MCIHostCapability, MCIHostCapabilityExt, MCIHostCardStatusFlag, MCIHostCmdType,
    MCIHostCommonCmd, MCIHostDataPacketFormat, MCIHostDetectCardType, MCIHostOCR, MCIHostOperationVoltage,
    MCIHostResponseType, MCI_HOST_CLOCK_400KHZ, MCI_HOST_DEFAULT_BLOCK_SIZE, MCI_HOST_MAX_BLOCK_LENGTH,
    MCI_HOST_MAX_CMD_RETRIES, SZ_1G,
};
use crate::mci_host::err::{is_error, MCIHostError, MCIHostStatus};
use crate::mci_host::mci_card_base::MCICardBase;
use crate::mci_host::mci_host_card_detect::MCIHostCardDetect;
use crate::mci_host::mci_host_config::{MCIHostConfig, MCIHostType};
use crate::mci_host::mci_host_transfer::{MCIHostCmd, MCIHostData, MCIHostTransfer};
use crate::mci_host::mci_sdif::consts::SDStatus;
use crate::mci_host::mci_sdif::sdif_device::{
    command_flags, data_handed_over, data_kept, log_extends, no_buffers, handed_at, needs_block_count, record_of, rx_sized, sent_of, auto_stop_of, transfer_well_formed, CommandRecord,
    SDIFDev,
};
use crate::mci_host::{app_outcome, r1_outcome, ran_outcome};
use crate::mci_host::MCIHost;
use crate::osa::pool_buffer::{lemma_copy_then_read, words_of, PoolBuffer};
use crate::regs::RegisterIo;
use crate::tools::swap_word_byte_sequence_u32;

verus! {

/// After a transfer, `c` still holds command `c0`: the same index,
/// argument, kinds and flags, and the same response words when none was
/// expected.
pub open spec fn same_command(c0: MCIHostCmd, c: Option<MCIHostCmd>) -> bool {
    &&& c is Some
    &&& c->0.index == c0.index
    &&& c->0.argument == c0.argument
    &&& c->0.response_type == c0.response_type
    &&& c->0.cmd_type == c0.cmd_type
    &&& c->0.response_error_flags == c0.response_error_flags
    &&& c->0.flags == c0.flags
    &&& c0.response_type == MCIHostResponseType::NoResponse ==> c->0.response == c0.response
}

/// The log `l1` ends with command `c0` run to the end with data `d0`,
/// leaving transfer `t`.
pub open spec fn ran_to_end(l0: Seq<CommandRecord>, l1: Seq<CommandRecord>, c0: MCIHostCmd, d0: Option<MCIHostData>, t: MCIHostTransfer) -> bool {
    &&& l1.len() > l0.len()
    &&& l1.last() == record_of(c0, d0, true, t)
}

/// `log` holds, from a position from `from` on, what a transfer of `count`
/// blocks with command `index`, argument `arg`, response kind `rt`, the
/// words `sent` and the automatic stop asked for or not hands to the card
/// (see `handed_at`), whatever its outcome.
pub open spec fn handed(log: Seq<CommandRecord>, from: int, index: u32, arg: u32, sent: Option<Seq<u32>>,
    rt: MCIHostResponseType, auto_stop: bool, count: u32) -> bool {
    exists|at: int| from <= at && #[trigger] handed_blocks(log, at, index, arg, sent, rt, auto_stop, count)
}

/// A switch status as the card sent it, with its first five words put in
/// little-endian order for a host in `endian` mode.
pub open spec fn le_status(raw: Seq<u32>, endian: crate::mci_host::mci_host_config::MCIHostEndianMode) -> Seq<u32> {
    Seq::new(raw.len(), |i: int| if i < 5 {
        crate::mci_host::mci_sdif::sdif_device::to_little_endian(raw[i], endian, MCIHostDataPacketFormat::MSBFirst)
    } else {
        raw[i]
    })
}

/// `log` holds at `at` a successful check (switch command 6 in check mode)
/// of function `func` of group `group` whose status, read in `endian`
/// mode, says the function is not available.
pub open spec fn check_refused(log: Seq<CommandRecord>, at: int, endian: crate::mci_host::mci_host_config::MCIHostEndianMode, group: SdGroupNum, func: SdTimingFuncNum) -> bool {
    &&& 0 <= at < log.len()
    &&& log[at].index == 6 && log[at].ok
    &&& log[at].argument == protocol::switch_argument_spec(SdSwitchMode::Check, group, func)
    &&& log[at].received matches Some(raw) && raw.len() >= 5
        && !protocol::function_available(le_status(raw, endian), group, func)
}

/// `log` holds, at a position from `from` on, a successful command 13 to
/// the card at `rca` whose status says the card is ready for data and not
/// programming.
pub open spec fn card_said_idle(log: Seq<CommandRecord>, from: int, rca: u32) -> bool {
    exists|i: int| from <= i < log.len() && #[trigger] idle_answer(log[i], rca)
}

/// A successful command 13 to the card at `rca` whose status says the card
/// is ready for data and not programming.
pub open spec fn idle_answer(rec: CommandRecord, rca: u32) -> bool {
    &&& rec.index == 13 && rec.ok && rec.argument == rca << 16
    &&& protocol::card_status_spec(rec.response[0]) == MCIHostError::CardStatusIdle
}

/// A log that grows keeps the card's answer that it was idle.
proof fn lemma_idle_kept(l1: Seq<CommandRecord>, l2: Seq<CommandRecord>, from: int, rca: u32)
    requires
        log_extends(l1, l2),
        0 <= from,
        card_said_idle(l1, from, rca),
    ensures
        card_said_idle(l2, from, rca),
{
    let i = choose|i: int| from <= i < l1.len() && #[trigger] idle_answer(l1[i], rca);
    assert(l2[i] == l1[i]);
    assert(idle_answer(l2[i], rca));
}

/// What a transfer of `count` blocks hands to the card, recorded in `log`
/// from position `at` on (see `handed_at`).
pub open spec fn handed_blocks(log: Seq<CommandRecord>, at: int, index: u32, arg: u32, sent: Option<Seq<u32>>,
    rt: MCIHostResponseType, auto_stop: bool, count: u32) -> bool {
    handed_at(log, at, index, arg, sent, rt, auto_stop, count, count > 1)
}

/// The words `lo * 128 .. hi * 128` of `buf` are what a successful read
/// command (17 for one block, 18 for more) of blocks `start + lo` on
/// returned, as recorded in `log` at a position from `from` on.
pub open spec fn piece_read(log: Seq<CommandRecord>, from: int, flags: u32, start: u32, lo: int, hi: int, buf: Seq<u32>) -> bool {
    exists|i: int| from <= i < log.len() && #[trigger] log[i].ok
        && log[i].index == (if hi - lo == 1 { 17u32 } else { 18u32 })
        && log[i].argument == protocol::block_address_spec(flags, (start + lo) as u32, 512)
        && log[i].received == Some(buf.subrange(lo * 128, hi * 128))
}

/// The words `lo * 128 .. hi * 128` of `buf` were sent by a successful
/// write command (24 for one block, 25 for more) to blocks `start + lo` on,
/// as recorded in `log` at a position from `from` on.
pub open spec fn piece_written(log: Seq<CommandRecord>, from: int, flags: u32, start: u32, lo: int, hi: int, buf: Seq<u32>) -> bool {
    exists|i: int| from <= i < log.len() && #[trigger] log[i].ok
        && log[i].index == (if hi - lo == 1 { 24u32 } else { 25u32 })
        && log[i].argument == protocol::block_address_spec(flags, (start + lo) as u32, 512)
        && log[i].sent == Some(buf.subrange(lo * 128, hi * 128))
}

/// The read of the piece of `n` blocks from block `start + lo` failed on
/// the card's side: either the wait for the card to be idle before it
/// failed (the last outcome in `idle` is a failure), or the read was handed
/// to the card (see `handed`) in `log` from position `from` on.
pub open spec fn piece_read_failed(log: Seq<CommandRecord>, from: int, flags: u32, start: u32, lo: int, n: int, idle: Seq<bool>) -> bool {
    ||| idle.len() > 0 && !idle.last()
    ||| handed(log, from, if n == 1 { 17u32 } else { 18u32 }, protocol::block_address_spec(flags, (start + lo) as u32, 512), None,
        MCIHostResponseType::R1, true, n as u32)
}

/// The write of the piece of `n` blocks of `buf` from its block `lo` on,
/// to block `start + lo` on, failed on the card's side: either the wait for
/// the card to be idle before it failed (the last outcome in `idle` is a
/// failure), or the write was handed to the card with the piece's words
/// (see `handed`) in `log` from position `from` on.
pub open spec fn piece_write_failed(log: Seq<CommandRecord>, from: int, flags: u32, start: u32, lo: int, n: int,
    buf: Seq<u32>, idle: Seq<bool>) -> bool {
    ||| idle.len() > 0 && !idle.last()
    ||| handed(log, from, if n == 1 { 24u32 } else { 25u32 }, protocol::block_address_spec(flags, (start + lo) as u32, 512),
        Some(buf.subrange(lo * 128, (lo + n) * 128)), MCIHostResponseType::R1, false, n as u32)
}

/// `bounds` cuts blocks `0 .. total` into consecutive pieces of at most
/// `max` blocks: it starts at 0, ends at `total` and rises by 1 to `max`
/// at each step.
pub open spec fn pieces_cover(bounds: Seq<int>, total: int, max: int) -> bool {
    &&& bounds.len() >= 1
    &&& bounds[0] == 0
    &&& bounds.last() == total
    &&& forall|k: int| 0 <= k < bounds.len() - 1 ==> bounds[k] < #[trigger] bounds[k + 1] <= bounds[k] + max
}

/// Every bound of a cover lies between 0 and its total.
proof fn lemma_bounds_within(bounds: Seq<int>, total: int, max: int, k: int)
    requires
        pieces_cover(bounds, total, max),
        0 <= k < bounds.len() - 1,
    ensures
        0 <= bounds[k] < bounds[k + 1] <= total,
    decreases bounds.len() - k,
{
    if k + 1 < bounds.len() - 1 {
        lemma_bounds_within(bounds, total, max, k + 1);
    } else {
        assert(bounds[k + 1] == bounds.last());
    }
    lemma_bounds_nonneg(bounds, total, max, k);
}

/// The bounds of a cover are not negative.
proof fn lemma_bounds_nonneg(bounds: Seq<int>, total: int, max: int, k: int)
    requires
        pieces_cover(bounds, total, max),
        0 <= k < bounds.len(),
    ensures
        0 <= bounds[k],
    decreases k,
{
    if k > 0 {
        lemma_bounds_nonneg(bounds, total, max, k - 1);
        assert(bounds[k - 1] < bounds[(k - 1) + 1]);
    }
}

/// A successful command 8 whose check pattern came back.
pub open spec fn cmd8_ok(rec: CommandRecord) -> bool {
    rec.index == 8 && rec.ok && rec.response[0] & 0xFF == 0xAA
}

/// `log` holds a successful command 8 at a position from `from` to `to`.
pub open spec fn cmd8_seen(log: Seq<CommandRecord>, from: int, to: int) -> bool {
    exists|j: int| from <= j < to && #[trigger] cmd8_ok(log[j])
}

/// The 3.3 V ranges that every operation conditions request names.
pub open spec fn ocr_ranges() -> u32 {
    MCIHostOCR::VDD_29_30 | MCIHostOCR::VDD_32_33 | MCIHostOCR::VDD_33_34
}

/// An argument of application command 41: the 3.3 V ranges; the 1.8 V
/// request exactly when `wants_1v8`; the high-capacity flag where the card
/// answered command 8 (`sdhc`).
pub open spec fn acmd41_arg_ok(arg: u32, wants_1v8: bool, sdhc: bool) -> bool {
    &&& arg & ocr_ranges() == ocr_ranges()
    &&& (arg & MCIHostOCR::SWITCH_18_REQUEST_FLAG != 0) == wants_1v8
    &&& sdhc ==> arg & MCIHostOCR::CARD_CAPACITY_SUPPORT_FLAG != 0
}

/// Every command 41 in `log` from `from` on has an argument that fits
/// (see `acmd41_arg_ok`), given the commands 8 before it.
pub open spec fn acmd41_args_ok(log: Seq<CommandRecord>, from: int, wants_1v8: bool) -> bool {
    forall|i: int| from <= i < log.len() && (#[trigger] log[i]).index == 41
        ==> acmd41_arg_ok(log[i].argument, wants_1v8, cmd8_seen(log, from, i))
}

/// Extending a log keeps whether a command 8 was seen before a position
/// it already had.
proof fn lemma_cmd8_seen_extends(l1: Seq<CommandRecord>, l2: Seq<CommandRecord>, from: int, to: int)
    requires
        log_extends(l1, l2),
        0 <= from,
        to <= l1.len(),
    ensures
        cmd8_seen(l1, from, to) == cmd8_seen(l2, from, to),
{
    if cmd8_seen(l1, from, to) {
        let j = choose|j: int| from <= j < to && #[trigger] cmd8_ok(l1[j]);
        assert(l2[j] == l1[j]);
    }
    if cmd8_seen(l2, from, to) {
        let j = choose|j: int| from <= j < to && #[trigger] cmd8_ok(l2[j]);
        assert(l2[j] == l1[j]);
    }
}

/// A successful command 8 seen up to `to` was seen up to `mid` or after.
proof fn lemma_cmd8_seen_split(log: Seq<CommandRecord>, from: int, mid: int, to: int)
    requires
        from <= mid <= to,
    ensures
        cmd8_seen(log, from, to) == (cmd8_seen(log, from, mid) || cmd8_seen(log, mid, to)),
{
    if cmd8_seen(log, from, to) {
        let j = choose|j: int| from <= j < to && #[trigger] cmd8_ok(log[j]);
        if j < mid {
            assert(cmd8_seen(log, from, mid));
        } else {
            assert(cmd8_seen(log, mid, to));
        }
    }
    if cmd8_seen(log, from, mid) {
        let j = choose|j: int| from <= j < mid && #[trigger] cmd8_ok(log[j]);
        assert(cmd8_seen(log, from, to));
    }
    if cmd8_seen(log, mid, to) {
        let j = choose|j: int| mid <= j < to && #[trigger] cmd8_ok(log[j]);
        assert(cmd8_seen(log, from, to));
    }
}

/// Records added to a log that are no successful command 8, and whose
/// commands 41 carry `arg`, a fitting argument, keep every command 41
/// fitting and add no command 8 seen.
proof fn lemma_acmd41_step(l1: Seq<CommandRecord>, l2: Seq<CommandRecord>, from: int, wants_1v8: bool, arg: u32)
    requires
        log_extends(l1, l2),
        0 <= from <= l1.len(),
        acmd41_args_ok(l1, from, wants_1v8),
        acmd41_arg_ok(arg, wants_1v8, cmd8_seen(l1, from, l1.len() as int)),
        forall|i: int| l1.len() <= i < l2.len() ==> !cmd8_ok(#[trigger] l2[i]) && (l2[i].index == 41 ==> l2[i].argument == arg),
    ensures
        acmd41_args_ok(l2, from, wants_1v8),
        cmd8_seen(l2, from, l2.len() as int) == cmd8_seen(l1, from, l1.len() as int),
{
    lemma_cmd8_seen_extends(l1, l2, from, l1.len() as int);
    assert(!cmd8_seen(l2, l1.len() as int, l2.len() as int)) by {
        if cmd8_seen(l2, l1.len() as int, l2.len() as int) {
            let j = choose|j: int| l1.len() <= j < l2.len() && #[trigger] cmd8_ok(l2[j]);
            assert(!cmd8_ok(l2[j]));
        }
    }
    lemma_cmd8_seen_split(l2, from, l1.len() as int, l2.len() as int);
    assert forall|i: int| from <= i < l2.len() && (#[trigger] l2[i]).index == 41
        implies acmd41_arg_ok(l2[i].argument, wants_1v8, cmd8_seen(l2, from, i)) by {
        if i < l1.len() {
            assert(l2[i] == l1[i]);
            lemma_cmd8_seen_extends(l1, l2, from, i);
        } else {
            lemma_cmd8_seen_split(l2, from, l1.len() as int, i);
            assert(!cmd8_seen(l2, l1.len() as int, i)) by {
                if cmd8_seen(l2, l1.len() as int, i) {
                    let j = choose|j: int| l1.len() <= j < i && #[trigger] cmd8_ok(l2[j]);
                    assert(!cmd8_ok(l2[j]));
                }
            }
        }
    }
}

/// Records added to a log that are all commands 8 keep every command 41
/// fitting.
proof fn lemma_acmd41_cmd8_step(l1: Seq<CommandRecord>, l2: Seq<CommandRecord>, from: int, wants_1v8: bool)
    requires
        log_extends(l1, l2),
        0 <= from <= l1.len(),
        acmd41_args_ok(l1, from, wants_1v8),
        forall|i: int| l1.len() <= i < l2.len() ==> (#[trigger] l2[i]).index == 8,
    ensures
        acmd41_args_ok(l2, from, wants_1v8),
        cmd8_seen(l2, from, l2.len() as int) == (cmd8_seen(l1, from, l1.len() as int) || cmd8_seen(l2, l1.len() as int, l2.len() as int)),
{
    lemma_cmd8_seen_extends(l1, l2, from, l1.len() as int);
    lemma_cmd8_seen_split(l2, from, l1.len() as int, l2.len() as int);
    assert forall|i: int| from <= i < l2.len() && (#[trigger] l2[i]).index == 41
        implies acmd41_arg_ok(l2[i].argument, wants_1v8, cmd8_seen(l2, from, i)) by {
        assert(i < l1.len());
        assert(l2[i] == l1[i]);
        lemma_cmd8_seen_extends(l1, l2, from, i);
    }
}

/// The first argument of application command 41 fits: the 3.3 V ranges,
/// with the 1.8 V request where it is wanted.
proof fn lemma_acmd41_arg_first(wants_1v8: bool)
    ensures
        acmd41_arg_ok(
            if wants_1v8 { ocr_ranges() | MCIHostOCR::SWITCH_18_REQUEST_FLAG } else { ocr_ranges() },
            wants_1v8,
            false,
        ),
{
    assert(ocr_ranges() == 0x0032_0000u32
        && 0x0032_0000u32 & 0x0032_0000u32 == 0x0032_0000u32 && 0x0032_0000u32 & 0x0100_0000u32 == 0
        && (0x0032_0000u32 | 0x0100_0000u32) & 0x0032_0000u32 == 0x0032_0000u32
        && (0x0032_0000u32 | 0x0100_0000u32) & 0x0100_0000u32 != 0) by (bit_vector);
}

/// Setting the high-capacity flag keeps an argument fitting and makes it
/// fit a card that answered command 8.
proof fn lemma_acmd41_arg_sdhc(arg: u32, wants_1v8: bool, sdhc: bool)
    requires
        acmd41_arg_ok(arg, wants_1v8, sdhc),
    ensures
        acmd41_arg_ok(arg | MCIHostOCR::CARD_CAPACITY_SUPPORT_FLAG, wants_1v8, true),
{
    assert(ocr_ranges() == 0x0032_0000u32
        && (arg & 0x0032_0000u32 == 0x0032_0000u32 ==> (arg | 0x4000_0000u32) & 0x0032_0000u32 == 0x0032_0000u32)
        && (((arg | 0x4000_0000u32) & 0x0100_0000u32 != 0) == (arg & 0x0100_0000u32 != 0))
        && (arg | 0x4000_0000u32) & 0x4000_0000u32 != 0) by (bit_vector);
}

/// Flags that already hold what one operation-conditions answer announces
/// still hold it after another answer's flags, or the high-capacity card
/// flag, are added.
proof fn lemma_ocr_flags_absorbed(o1: u32, o2: u32, f: u32)
    requires
        protocol::ocr_card_flags(o1, f) == f,
    ensures
        protocol::ocr_card_flags(o1, protocol::ocr_card_flags(o2, f)) == protocol::ocr_card_flags(o2, f),
        protocol::ocr_card_flags(o1, f | SdCardFlag::SupportSdhc) == f | SdCardFlag::SupportSdhc,
{
    let a1: u32 = if o1 & 0x4000_0000u32 != 0 { 2u32 } else { 0u32 };
    let b1: u32 = if o1 & 0x0100_0000u32 != 0 { 0x20u32 } else { 0u32 };
    let a2: u32 = if o2 & 0x4000_0000u32 != 0 { 2u32 } else { 0u32 };
    let b2: u32 = if o2 & 0x0100_0000u32 != 0 { 0x20u32 } else { 0u32 };
    assert(f | a1 | b1 == f ==> (f | a2 | b2) | a1 | b1 == f | a2 | b2 && (f | 8u32) | a1 | b1 == f | 8u32) by (bit_vector);
}

/// Adding what an operation-conditions answer announces twice adds it once.
proof fn lemma_ocr_flags_idempotent(o: u32, f: u32)
    ensures
        protocol::ocr_card_flags(o, protocol::ocr_card_flags(o, f)) == protocol::ocr_card_flags(o, f),
{
    let a: u32 = if o & 0x4000_0000u32 != 0 { 2u32 } else { 0u32 };
    let b: u32 = if o & 0x0100_0000u32 != 0 { 0x20u32 } else { 0u32 };
    assert((f | a | b) | a | b == f | a | b) by (bit_vector);
}

/// The card flags hold what every powered-up answer to application command
/// 41 in `log` from `from` on announces (see `ocr_card_flags`).
pub open spec fn ocr_flags_kept(log: Seq<CommandRecord>, from: int, flags: u32) -> bool {
    forall|k: int| from <= k < log.len() && (#[trigger] log[k]).index == 41 && log[k].ok
        && log[k].response[0] & MCIHostOCR::POWER_UP_BUSY_FLAG != 0
        ==> protocol::ocr_card_flags(log[k].response[0], flags) == flags
}

/// Records other than application command 41 added to a log keep the
/// card flags holding what the answers announce.
proof fn lemma_ocr_flags_extend(l1: Seq<CommandRecord>, l2: Seq<CommandRecord>, from: int, flags: u32)
    requires
        log_extends(l1, l2),
        0 <= from,
        ocr_flags_kept(l1, from, flags),
        forall|k: int| l1.len() <= k < l2.len() ==> (#[trigger] l2[k]).index != 41,
    ensures
        ocr_flags_kept(l2, from, flags),
{
    assert forall|k: int| from <= k < l2.len() && (#[trigger] l2[k]).index == 41 && l2[k].ok
        && l2[k].response[0] & MCIHostOCR::POWER_UP_BUSY_FLAG != 0
        implies protocol::ocr_card_flags(l2[k].response[0], flags) == flags by {
        if k >= l1.len() {
            assert(l2[k].index != 41);
        } else {
            assert(l2[k] == l1[k]);
        }
    }
}

/// The register trace `t` ends with the card-detect poll's reads, none of
/// which shows the slot in state `wanted` (see `detect_missed_at`).
pub open spec fn detect_missed_last(t: Seq<crate::regs::RegAccess>, wanted: SDStatus) -> bool {
    crate::mci_host::mci_sdif::sdif_device::detect_missed_at(t,
        t.len() - crate::mci_host::mci_sdif::sdif_device::detect_reads(), wanted)
}

/// The clock a high-speed card runs at: the user's highest frequency, or
/// 50 MHz when that is lower.
pub open spec fn high_speed_clock(max_freq: u32) -> u32 {
    if max_freq >= SD_CLOCK_50MHZ { max_freq } else { SD_CLOCK_50MHZ }
}

/// The timing the 1.8 V selection starts from: the current one, or SDR104
/// for the default timing.
pub open spec fn uhs_start(t: SdTimingMode) -> SdTimingMode {
    if t == SdTimingMode::SDR12DefaultMode { SdTimingMode::SDR104Mode } else { t }
}

/// The switch function of a UHS timing.
pub open spec fn uhs_func(t: SdTimingMode) -> SdTimingFuncNum {
    if t == SdTimingMode::SDR104Mode {
        SdTimingFuncNum::SDR104
    } else if t == SdTimingMode::SDR50Mode {
        SdTimingFuncNum::SDR50
    } else {
        SdTimingFuncNum::SDR25HighSpeed
    }
}

/// `log` holds, from position `from` on, a successful write command
/// `index` with argument `arg` that sent `words`.
pub open spec fn wrote(log: Seq<CommandRecord>, from: int, index: u32, arg: u32, words: Seq<u32>) -> bool {
    exists|i: int| from <= i < log.len() && #[trigger] log[i].index == index && log[i].ok && log[i].argument == arg
        && log[i].sent == Some(words)
}

/// A buffer of `len` zero words.
pub fn zeroed(len: usize) -> (v: Vec<u32>)
    ensures
        v@ == Seq::new(len as nat, |i: int| 0u32),
{
    let mut v: Vec<u32> = Vec::new();
    let mut i: usize = 0;
    while i < len
        invariant
            i <= len,
            v@ == Seq::new(i as nat, |j: int| 0u32),
        decreases len - i,
    {
        v.push(0);
        i = i + 1;
        assert(v@ =~= Seq::new(i as nat, |j: int| 0u32));
    }
    v
}

/// Whether the controller can take the transfer (see
/// `transfer_well_formed`).
pub fn transfer_ready(t: &MCIHostTransfer) -> (r: bool)
    ensures
        r == transfer_well_formed(*t),
{
    if t.cmd.is_none() {
        return false;
    }
    match t.data {
        Some(ref d) => (d.rx_data.is_some() || d.tx_data.is_some())
            && (d.block_size as u32).checked_mul(d.block_count).is_some(),
        None => true,
    }
}

/// How fast the bus runs, in the unit that reads best.
#[derive(Debug, Clone, Copy, PartialEq, Eq, Structural)]
pub enum BusSpeed {
    MHz(u32),
    KHz(u32),
    Hz(u32),
}

/// The name of a card's timing, as the summary shows it.
#[derive(Debug, Clone, Copy, PartialEq, Eq, Structural)]
pub enum TimingName {
    DefaultSpeed,
    SDR12,
    HighSpeed,
    SDR25,
    SDR50,
    SDR104,
    DDR50,
    /// A timing with no name at the card's voltage.
    Unnamed,
}

/// What a card summary shows.
#[derive(Debug, Clone, Copy)]
pub struct SdCardSummary {
    pub name: [u8; 5],
    pub version: SdSpecificationVersion,
    pub sdhc: bool,
    pub sdxc: bool,
    /// Capacity in whole GiB.
    pub size_gb: u64,
    pub bus_speed: BusSpeed,
    pub voltage: MCIHostOperationVoltage,
    pub timing: TimingName,
    pub max_current: SdMaxCurrent,
    pub driver_strength: SdDriverStrength,
}

/// The bus speed of a clock of `hz` Hz: in MHz above 1 MHz, in kHz above
/// 1 kHz, else in Hz (whole units, rounded down).
pub open spec fn bus_speed_of(hz: u32) -> BusSpeed {
    if hz > 1_000_000 {
        BusSpeed::MHz(hz / 1_000_000)
    } else if hz > 1000 {
        BusSpeed::KHz(hz / 1000)
    } else {
        BusSpeed::Hz(hz)
    }
}

/// The name of timing `t` at voltage `v`: the default and high-speed
/// timings are named after their 3.3 V or 1.8 V variant and have no name
/// at other voltages.
pub open spec fn timing_name_of(t: SdTimingMode, v: MCIHostOperationVoltage) -> TimingName {
    match t {
        SdTimingMode::SDR12DefaultMode => if v == MCIHostOperationVoltage::Voltage330V {
            TimingName::DefaultSpeed
        } else if v == MCIHostOperationVoltage::Voltage180V {
            TimingName::SDR12
        } else {
            TimingName::Unnamed
        },
        SdTimingMode::SDR25HighSpeedMode => if v == MCIHostOperationVoltage::Voltage330V {
            TimingName::HighSpeed
        } else if v == MCIHostOperationVoltage::Voltage180V {
            TimingName::SDR25
        } else {
            TimingName::Unnamed
        },
        SdTimingMode::SDR50Mode => TimingName::SDR50,
        SdTimingMode::SDR104Mode => TimingName::SDR104,
        SdTimingMode::DDR50Mode => TimingName::DDR50,
    }
}

/// The capability bits the SDIF host announces for the user.
pub const SDIF_USER_CAPABILITY: u32 = 0x2 | 0x40 | 0x80 | 0x200 | 0x400 | 0x800 | 0x1_0000 | 0x2_0000 | 0x1;

/// An SD card on a host.
pub struct SdCard<B: RegisterIo> {
    pub base: MCICardBase<B>,
    pub usr_param: SdUsrParam,
    pub version: SdSpecificationVersion,
    /// Card flags (see `SdCardFlag`).
    pub flags: u32,
    pub block_count: u32,
    pub current_timing: SdTimingMode,
    pub driver_strength: SdDriverStrength,
    pub max_current: SdMaxCurrent,
    pub operation_voltage: MCIHostOperationVoltage,
    pub cid: SdCid,
    pub csd: SdCsd,
    pub scr: SdScr,
    pub stat: SdStatus,
    pub detections: DetectLog,
}

/// The outcomes of the waits a card made, in order: of its card-detect
/// polls, whether each found the slot as it waited for; of its waits for
/// the card to be idle, whether each found it idle. Only the card adds to
/// it.
pub struct DetectLog {
    outcomes: Ghost<Seq<bool>>,
    idle: Ghost<Seq<bool>>,
}

impl DetectLog {
    /// The outcomes of the card-detect polls.
    pub closed spec fn outcomes(&self) -> Seq<bool> {
        self.outcomes@
    }

    /// The outcomes of the waits for the card to be idle.
    pub closed spec fn idle_outcomes(&self) -> Seq<bool> {
        self.idle@
    }
}

impl<B: RegisterIo> SdCard<B> {
    /// The outcomes of the card-detect polls made so far (see `DetectLog`).
    pub open spec fn detected(&self) -> Seq<bool> {
        self.detections.outcomes()
    }

    /// The outcomes of the waits for the card to be idle made so far (see
    /// `DetectLog`).
    pub open spec fn idle_waited(&self) -> Seq<bool> {
        self.detections.idle_outcomes()
    }

    /// The card's state is consistent: the host's transfers fit in 32-bit
    /// byte counts and the decoded registers lie in range.
    pub open spec fn wf(&self) -> bool {
        &&& self.base.host matches Some(h) ==> h.max_block_count <= 0x7F_FFFF
        &&& self.base.is_host_ready ==> (self.base.host matches Some(h) && h.dev.hc.is_ready)
        &&& csd_in_range(self.csd)
    }

    /// The commands the card's host ran.
    pub open spec fn commands(&self) -> Seq<CommandRecord> {
        match self.base.host {
            Some(h) => h.dev.history(),
            None => Seq::empty(),
        }
    }

    /// The last command the card's host ran.
    pub open spec fn last_command(&self) -> CommandRecord {
        self.commands().last()
    }

    /// `other` is this card after its host ran one more command without
    /// data: `index` with `argument` and the flags of response kind `rt`.
    pub open spec fn ran_one(&self, other: &Self, index: u32, argument: u32, rt: MCIHostResponseType) -> bool {
        &&& other.commands().len() == self.commands().len() + 1
        &&& log_extends(self.commands(), other.commands())
        &&& other.last_command().index == index
        &&& other.last_command().argument == argument
        &&& other.last_command().flag == command_flags(index, argument, rt, None)
    }

    /// `other` is this card after an operation that keeps the host and the
    /// user settings.
    pub open spec fn kept(&self, other: &Self) -> bool {
        &&& self.kept_host(other)
        &&& other.detected() == self.detected()
        &&& self.idle_waited().len() <= other.idle_waited().len()
        &&& forall|i: int| 0 <= i < self.idle_waited().len() ==> #[trigger] other.idle_waited()[i] == self.idle_waited()[i]
    }

    /// `other` is this card after an operation that keeps the host and the
    /// user settings, whatever it did to the record of detections.
    pub open spec fn kept_host(&self, other: &Self) -> bool {
        &&& other.wf()
        &&& log_extends(self.commands(), other.commands())
        &&& other.usr_param == self.usr_param
        &&& other.base.is_host_ready == self.base.is_host_ready
        &&& other.base.host is Some <==> self.base.host is Some
        &&& self.base.host matches Some(h) ==> (other.base.host matches Some(h2) && {
            &&& h2.config == h.config
            &&& h2.capability == h.capability
            &&& h2.max_block_count == h.max_block_count
            &&& h2.max_block_size == h.max_block_size
            &&& h2.card_detect == h.card_detect
            &&& h2.dev.hc.window().base() == h.dev.hc.window().base()
            &&& h2.dev.hc.is_ready == h.dev.hc.is_ready
        })
    }

    /// The card's identity came from the card, in commands of its log from
    /// position `from` on: the CID from a command 2, the relative address
    /// from a command 3, the CSD (over `csd0`) from a command 9 to that
    /// address and the SCR (over `scr0`) from a command 51, each
    /// successful.
    pub open spec fn identified(&self, from: int, csd0: SdCsd, scr0: SdScr) -> bool {
        let log = self.commands();
        &&& exists|i: int| from <= i < log.len() && #[trigger] log[i].index == 2 && log[i].ok
            && self.cid == cid_of(log[i].response@)
        &&& exists|i: int| from <= i < log.len() && #[trigger] log[i].index == 3 && log[i].ok
            && self.base.relative_address == log[i].response[0] >> 16
        &&& exists|i: int| from <= i < log.len() && #[trigger] log[i].index == 9 && log[i].ok
            && log[i].argument == self.base.relative_address << 16
            && self.csd == csd_of(csd0, log[i].response@)
        &&& exists|i: int| from <= i < log.len() && #[trigger] log[i].index == 51 && log[i].ok
            && (log[i].received matches Some(raw) && raw.len() >= 2 && self.scr == scr_of(scr0, seq![
                crate::mci_host::mci_sdif::sdif_device::to_little_endian(raw[0], self.base.host->0.config.endian_mode, MCIHostDataPacketFormat::MSBFirst),
                crate::mci_host::mci_sdif::sdif_device::to_little_endian(raw[1], self.base.host->0.config.endian_mode, MCIHostDataPacketFormat::MSBFirst)]))
    }

    /// The most blocks the card's host moves in one transfer (0 without a
    /// host).
    pub open spec fn host_max_blocks(&self) -> int {
        if self.base.host is Some { self.base.host->0.max_block_count as int } else { 0 }
    }

    /// `other` has this card's identity: its CID, relative address and CSD.
    pub open spec fn ids_kept(&self, other: &Self) -> bool {
        &&& other.cid == self.cid
        &&& other.base.relative_address == self.base.relative_address
        &&& other.csd == self.csd
    }

    /// `other` is this card with only the host changed.
    pub open spec fn host_only(&self, other: &Self) -> bool {
        *other == (SdCard { base: MCICardBase { host: other.base.host, ..self.base }, ..*self })
    }

    /// The card's block size in bytes.
    pub fn block_size(&self) -> (r: u32)
        ensures
            r == self.base.block_size,
    {
        self.base.block_size()
    }

    /// The card's number of blocks.
    pub fn block_count(&self) -> (r: u32)
        ensures
            r == self.block_count,
    {
        self.block_count
    }

    /// A card on `base` that knows nothing yet: version 1.0, no flags, no
    /// blocks, default timing at 3.3 V, driver type B, 200 mA, empty
    /// registers and default user settings.
    pub fn from_base(base: MCICardBase<B>) -> (r: Self)
        ensures
            r.base == base,
            r.usr_param == SdUsrParam::new_spec(),
            r.version == SdSpecificationVersion::Version1_0,
            r.flags == 0,
            r.block_count == 0,
            r.current_timing == SdTimingMode::SDR12DefaultMode,
            r.driver_strength == SdDriverStrength::TypeB,
            r.max_current == SdMaxCurrent::Limit200mA,
            r.operation_voltage == MCIHostOperationVoltage::Voltage330V,
            r.csd == csd_zero(),
            r.scr == scr_zero(),
            csd_in_range(r.csd),
            r.detected() == Seq::<bool>::empty(),
    {
        SdCard {
            base,
            usr_param: SdUsrParam::new(),
            version: SdSpecificationVersion::Version1_0,
            flags: 0,
            block_count: 0,
            current_timing: SdTimingMode::SDR12DefaultMode,
            driver_strength: SdDriverStrength::TypeB,
            max_current: SdMaxCurrent::Limit200mA,
            operation_voltage: MCIHostOperationVoltage::Voltage330V,
            cid: SdCid::new(),
            csd: SdCsd::new(),
            scr: SdScr::new(),
            stat: SdStatus::new(),
            detections: DetectLog { outcomes: Ghost(Seq::empty()), idle: Ghost(Seq::empty()) },
        }
    }

    /// Configure the card and its host for the SDIF controller: card
    /// detection by the host with 10 ms debouncing, default power delays,
    /// the SDIF capabilities for the user, the host's voltage and speed
    /// capabilities (UHS: 3.3 V, 1.8 V, high speed, SDR104, SDR50; else
    /// 3.3 V, and high speed from a 50 MHz card clock on), the card clock
    /// as highest frequency, transfers of up to `max_trans_size /
    /// def_block_size` blocks of up to 4096 bytes, and a 1.2 GHz source
    /// clock. No host: `HostNotReady`, after the user settings.
    pub fn sdif_config(&mut self) -> (r: MCIHostStatus)
        requires
            old(self).base.is_host_ready ==> (old(self).base.host matches Some(h) && h.dev.hc.is_ready),
            old(self).base.host matches Some(h) ==> h.config.def_block_size as u32 != 0
                && (h.config.max_trans_size as u32) / (h.config.def_block_size as u32) <= 0x7F_FFFF,
            csd_in_range(old(self).csd),
        ensures
            final(self).wf(),
            final(self).usr_param.power_on_delay_ms == 0,
            final(self).usr_param.power_off_delay_ms == 0,
            final(self).usr_param.capability == SDIF_USER_CAPABILITY,
            !final(self).base.no_interal_align,
            old(self).base.host is None <==> r == Err::<(), MCIHostError>(MCIHostError::HostNotReady),
            final(self).csd == old(self).csd,
            final(self).scr == old(self).scr,
            final(self).detected() == old(self).detected(),
            r.is_ok() ==> (final(self).base.host matches Some(h) && old(self).base.host matches Some(h0) && {
                let cd = MCIHostCardDetect { typ: MCIHostDetectCardType::ByHostCD, cd_debounce_ms: 10 };
                &&& final(self).usr_param.card_detect == Some(cd)
                &&& h.card_detect == Some(cd)
                &&& final(self).usr_param.max_freq == h0.config.card_clock
                &&& h0.config.is_uhs_card ==> final(self).usr_param.io_voltage == Some(SdIoVoltage { typ: SdIoVoltageCtrlType::ByHost })
                    && h.capability == (MCIHostCapability::VOLTAGE_3V3 | MCIHostCapability::VOLTAGE_1V8
                        | MCIHostCapability::HIGH_SPEED | MCIHostCapability::SDR104 | MCIHostCapability::SDR50)
                &&& !h0.config.is_uhs_card ==> final(self).usr_param.io_voltage is None
                    && h.capability == (MCIHostCapability::VOLTAGE_3V3
                        | (if h0.config.card_clock >= SD_CLOCK_50MHZ { MCIHostCapability::HIGH_SPEED } else { 0 }))
                &&& h.max_block_count == (h0.config.max_trans_size as u32) / (h0.config.def_block_size as u32)
                &&& h.max_block_size == MCI_HOST_MAX_BLOCK_LENGTH
                &&& h.source_clock_hz == 1_200_000_000
                &&& h.config == h0.config
                &&& h.dev == h0.dev
            }),
    {
        let card_cd = MCIHostCardDetect { typ: MCIHostDetectCardType::ByHostCD, cd_debounce_ms: 10 };
        self.usr_param.power_off_delay_ms = 0;
        self.usr_param.power_on_delay_ms = 0;
        let capability = MCIHostCapability::SUSPEND_RESUME | MCIHostCapability::BIT4_DATA_WIDTH
            | MCIHostCapability::BIT8_DATA_WIDTH | MCIHostCapability::DETECT_CARD_BY_DATA3
            | MCIHostCapability::DETECT_CARD_BY_CD | MCIHostCapability::AUTO_CMD12 | MCIHostCapability::DRIVER_TYPE_C
            | MCIHostCapability::SET_CURRENT;
        self.usr_param.capability = capability | MCIHostCapabilityExt::BIT8_WIDTH;
        self.base.no_interal_align = false;
        match self.base.host {
            Some(ref mut host) => {
                if host.config.is_uhs_card {
                    self.usr_param.io_voltage = Some(SdIoVoltage { typ: SdIoVoltageCtrlType::ByHost });
                    host.capability = MCIHostCapability::VOLTAGE_3V3 | MCIHostCapability::VOLTAGE_1V8
                        | MCIHostCapability::HIGH_SPEED | MCIHostCapability::SDR104 | MCIHostCapability::SDR50;
                } else {
                    self.usr_param.io_voltage = None;
                    let hs: u32 = if host.config.card_clock >= SD_CLOCK_50MHZ { MCIHostCapability::HIGH_SPEED } else { 0 };
                    host.capability = MCIHostCapability::VOLTAGE_3V3 | hs;
                }
                self.usr_param.max_freq = host.config.card_clock;
                self.usr_param.card_detect = Some(card_cd);
                host.max_block_count = (host.config.max_trans_size as u32) / (host.config.def_block_size as u32);
                host.max_block_size = MCI_HOST_MAX_BLOCK_LENGTH;
                host.source_clock_hz = 1_200_000_000;
                host.card_detect = Some(card_cd);
                Ok(())
            },
            None => Err(MCIHostError::HostNotReady),
        }
    }

    /// Configuration for SDMMC hosts, which need none.
    pub fn sdmmc_config(&self) -> (r: MCIHostStatus)
        ensures
            r is Ok,
    {
        Ok(())
    }

    /// A card on the SDIF controller at `addr`, reached through `io`,
    /// configured and initialised. Initialisation failing: its error.
    pub fn new(addr: usize, io: B) -> (r: Result<Self, MCIHostError>)
        ensures
            r matches Ok(card) ==> card.wf() && card.base.is_host_ready && (card.base.host matches Some(h)
                && h.dev.hc.window().base() == addr && h.dev.hc.is_ready && h.max_block_count == 1024),
            r matches Ok(card) ==> card.identified(0, csd_zero(), scr_zero()),
            r matches Ok(card) ==> card.detected() == seq![true],
            r matches Err(e) ==> e == MCIHostError::Fail || e == MCIHostError::HostNotReady
                || e == MCIHostError::CardDetectFailed || e == MCIHostError::CardInitFailed,
    {
        let config = MCIHostConfig::new();
        let internal_buffer = match PoolBuffer::new(config.max_trans_size, config.def_block_size) {
            Ok(b) => b,
            Err(_) => return Err(MCIHostError::Fail),
        };
        let base = MCICardBase::from_buffer(internal_buffer);
        let sdif_device = SDIFDev::new(addr, io);
        let host = MCIHost::new(sdif_device, config);
        let host_type = host.config.host_type;
        let mut sd_card = SdCard::from_base(base);
        sd_card.base.host = Some(host);
        assert((config.max_trans_size as u32) / (config.def_block_size as u32) == 1024) by (nonlinear_arith)
            requires config.max_trans_size == 1024 * 512, config.def_block_size == 512;
        if host_type == MCIHostType::SDIF {
            if sd_card.sdif_config().is_err() {
                return Err(MCIHostError::HostNotReady);
            }
        } else {
            if sd_card.sdmmc_config().is_err() {
                return Err(MCIHostError::HostNotReady);
            }
        }
        match sd_card.init(addr) {
            Ok(_) => Ok(sd_card),
            Err(e) => Err(e),
        }
    }

    /// Initialise the host (or restart it when it is ready), wait for a
    /// card and identify it. The host's outcome is returned; no card:
    /// `CardDetectFailed`; identification failing: `CardInitFailed`. The
    /// card-detect poll's outcome is recorded (see `detected`): only a poll
    /// that found the card lets identification start.
    pub fn init(&mut self, addr: usize) -> (r: MCIHostStatus)
        requires
            old(self).wf(),
            old(self).base.host matches Some(h) ==> h.dev.hc.window().base() == addr,
        ensures
            final(self).wf(),
            old(self).base.host is None ==> r == Err::<(), MCIHostError>(MCIHostError::HostNotReady),
            r.is_ok() ==> final(self).base.is_host_ready,
            final(self).base.host is Some <==> old(self).base.host is Some,
            old(self).base.host matches Some(h) ==> (final(self).base.host matches Some(h2)
                && h2.dev.hc.window().base() == h.dev.hc.window().base() && h2.max_block_count == h.max_block_count),
            r.is_err() ==> r == Err::<(), MCIHostError>(MCIHostError::HostNotReady) || r == Err::<(), MCIHostError>(MCIHostError::Fail)
                || r == Err::<(), MCIHostError>(MCIHostError::CardDetectFailed)
                || r == Err::<(), MCIHostError>(MCIHostError::CardInitFailed),
            old(self).usr_param.card_detect is None ==> r.is_err(),
            old(self).usr_param.card_detect matches Some(cd) && cd.typ == MCIHostDetectCardType::ByGpioCD ==> r.is_err(),
            r.is_ok() ==> final(self).identified(old(self).commands().len() as int, old(self).csd, old(self).scr),
            r == Err::<(), MCIHostError>(MCIHostError::HostNotReady) || r == Err::<(), MCIHostError>(MCIHostError::Fail)
                || r == Err::<(), MCIHostError>(MCIHostError::CardDetectFailed)
                ==> final(self).commands() == old(self).commands(),
            r == Err::<(), MCIHostError>(MCIHostError::CardDetectFailed) || r == Err::<(), MCIHostError>(MCIHostError::CardInitFailed)
                ==> final(self).base.is_host_ready,
            r == Err::<(), MCIHostError>(MCIHostError::HostNotReady) || r == Err::<(), MCIHostError>(MCIHostError::Fail)
                ==> final(self).detected() == old(self).detected(),
            r == Err::<(), MCIHostError>(MCIHostError::CardDetectFailed) ==> final(self).detected() == old(self).detected().push(false),
            r.is_ok() || r == Err::<(), MCIHostError>(MCIHostError::CardInitFailed)
                ==> final(self).detected() == old(self).detected().push(true),
            r == Err::<(), MCIHostError>(MCIHostError::CardDetectFailed)
                && (old(self).usr_param.card_detect matches Some(cd) && cd.typ != MCIHostDetectCardType::ByGpioCD)
                && (old(self).base.host matches Some(h) && h.card_detect is Some)
                ==> detect_missed_last(final(self).base.host->0.dev.hc.window().trace(), SDStatus::Inserted),
            r == Err::<(), MCIHostError>(MCIHostError::CardInitFailed) ==> final(self).commands().len() > old(self).commands().len()
                && final(self).commands()[old(self).commands().len() as int].index == 0,
    {
        let status = if !self.base.is_host_ready {
            self.host_init(addr)
        } else {
            self.host_do_reset()
        };
        if status.is_ok() {
            if self.polling_card_insert(SDStatus::Inserted).is_err() {
                return Err(MCIHostError::CardDetectFailed);
            } else {
                if self.card_init().is_err() {
                    return Err(MCIHostError::CardInitFailed);
                }
            }
        }
        status
    }

    /// Restart the host. No host: `HostNotReady`; the restart failing:
    /// `Fail`.
    pub fn deinit(&mut self) -> (r: MCIHostStatus)
        requires
            old(self).wf(),
        ensures
            old(self).kept(final(self)),
            old(self).host_only(final(self)),
            old(self).base.host is None ==> r == Err::<(), MCIHostError>(MCIHostError::HostNotReady),
            old(self).base.host is Some && r.is_err() ==> r == Err::<(), MCIHostError>(MCIHostError::Fail),
    {
        match self.base.host {
            Some(ref mut host) => {
                if host.reset().is_err() {
                    return Err(MCIHostError::Fail);
                }
                Ok(())
            },
            None => Err(MCIHostError::HostNotReady),
        }
    }

    fn card_init(&mut self) -> (r: MCIHostStatus)
        requires
            old(self).wf(),
        ensures
            old(self).kept(final(self)),
            old(self).base.host is Some ==> final(self).commands().len() > old(self).commands().len()
                && final(self).commands()[old(self).commands().len() as int].index == 0,
            r.is_ok() ==> final(self).identified(old(self).commands().len() as int, old(self).csd, old(self).scr),
    {
        self.card_power_set(true)?;
        self.card_init_proc()?;
        Ok(())
    }

    /// Identify the card and bring it to its fastest timing: 1-bit bus at
    /// 400 kHz, voltage probe, CID, relative address, CSD, selection,
    /// 25 MHz, SCR, 4-bit bus where the card has it, block length, timing.
    /// Each step's failure has its own error.
    fn card_init_proc(&mut self) -> (r: MCIHostStatus)
        requires
            old(self).wf(),
        ensures
            old(self).kept(final(self)),
            old(self).base.host is Some ==> final(self).commands().len() > old(self).commands().len()
                && final(self).commands()[old(self).commands().len() as int].index == 0,
            old(self).base.host is None ==> r == Err::<(), MCIHostError>(MCIHostError::HostNotReady),
            r.is_err() ==> r == Err::<(), MCIHostError>(MCIHostError::HostNotReady)
                || r == Err::<(), MCIHostError>(MCIHostError::SwitchVoltageFail)
                || r == Err::<(), MCIHostError>(MCIHostError::AllSendCidFailed)
                || r == Err::<(), MCIHostError>(MCIHostError::SendRelativeAddressFailed)
                || r == Err::<(), MCIHostError>(MCIHostError::SendCsdFailed)
                || r == Err::<(), MCIHostError>(MCIHostError::SelectCardFailed)
                || r == Err::<(), MCIHostError>(MCIHostError::SendScrFailed)
                || r == Err::<(), MCIHostError>(MCIHostError::SetDataBusWidthFailed)
                || r == Err::<(), MCIHostError>(MCIHostError::SetCardBlockSizeFailed)
                || r == Err::<(), MCIHostError>(MCIHostError::SwitchBusTimingFailed),
            r.is_ok() ==> final(self).identified(old(self).commands().len() as int, old(self).csd, old(self).scr),
    {
        self.flags = 0;
        match self.base.host {
            Some(ref mut host) => {
                host.card_bus_width_set(MCIHostBusWdith::Bit1);
                self.base.bus_clk_hz = host.card_clock_set(MCI_HOST_CLOCK_400KHZ);
            },
            None => return Err(MCIHostError::HostNotReady),
        }
        if self.bus_voltage_prob().is_err() {
            return Err(MCIHostError::SwitchVoltageFail);
        }
        if self.all_cid_send().is_err() {
            return Err(MCIHostError::AllSendCidFailed);
        }
        let ghost i_cid = self.commands().len() - 1;
        let ghost s_cid = *self;
        if self.rca_send().is_err() {
            return Err(MCIHostError::SendRelativeAddressFailed);
        }
        let ghost i_rca = self.commands().len() - 1;
        let ghost s_rca = *self;
        if self.csd_send().is_err() {
            return Err(MCIHostError::SendCsdFailed);
        }
        let ghost i_csd = self.commands().len() - 1;
        let ghost s_csd = *self;
        if self.card_select(true).is_err() {
            return Err(MCIHostError::SelectCardFailed);
        }
        match self.base.host {
            Some(ref mut host) => {
                self.base.bus_clk_hz = host.card_clock_set(SD_CLOCK_25MHZ);
            },
            None => return Err(MCIHostError::HostNotReady),
        }
        if self.scr_send().is_err() {
            return Err(MCIHostError::SendScrFailed);
        }
        let ghost i_scr = self.commands().len() - 1;
        let ghost s_scr = *self;
        if self.flags & SdCardFlag::Support4BitWidth != 0 {
            if self.data_bus_width_set(MCIHostBusWdith::Bit4).is_err() {
                return Err(MCIHostError::SetDataBusWidthFailed);
            }
            match self.base.host {
                Some(ref mut host) => host.card_bus_width_set(MCIHostBusWdith::Bit4),
                None => return Err(MCIHostError::HostNotReady),
            }
        }
        if self.status_read().is_err() {
            return Err(MCIHostError::SendScrFailed);
        }
        let bs = self.base.block_size;
        if self.block_size_set(bs).is_err() {
            return Err(MCIHostError::SetCardBlockSizeFailed);
        }
        if self.bus_timing_select().is_err() {
            return Err(MCIHostError::SwitchBusTimingFailed);
        }
        proof {
            let log = self.commands();
            assert(log[i_cid] == s_cid.commands()[i_cid]);
            assert(log[i_rca] == s_rca.commands()[i_rca]);
            assert(log[i_csd] == s_csd.commands()[i_csd]);
            assert(log[i_scr] == s_scr.commands()[i_scr]);
        }
        Ok(())
    }

    /// The first argument of the operation conditions handshake: 3.3 V
    /// ranges, plus the 1.8 V request when the user lets the host switch
    /// voltage and the host has 1.8 V with an UHS timing.
    pub open spec fn wants_1v8(&self) -> bool {
        &&& self.usr_param.io_voltage matches Some(v) && v.typ != SdIoVoltageCtrlType::NotSupport
        &&& self.base.host matches Some(h) && h.capability & MCIHostCapability::VOLTAGE_1V8 != 0
            && (h.capability & MCIHostCapability::SDR104 != 0 || h.capability & MCIHostCapability::SDR50 != 0
                || h.capability & MCIHostCapability::DDR_MODE != 0)
    }

    /// Probe the bus voltage: reset the card, find out whether it is a
    /// high-capacity card (command 8), hand it the operation conditions
    /// (application command 41) and switch to 1.8 V where card and host
    /// agree. Operates at 3.3 V unless the switch succeeded. A card that
    /// answered command 8 is marked `SupportSdhc`; the flags hold what its
    /// powered-up answer to command 41 announces (high capacity, 1.8 V).
    fn bus_voltage_prob(&mut self) -> (r: MCIHostStatus)
        requires
            old(self).wf(),
        ensures
            old(self).kept(final(self)),
            old(self).base.host is Some ==> final(self).commands().len() > old(self).commands().len()
                && final(self).commands()[old(self).commands().len() as int].index == 0,
            final(self).scr == old(self).scr,
            old(self).ids_kept(final(self)),
            old(self).base.host is None ==> r is Err,
            r.is_ok() ==> final(self).operation_voltage == MCIHostOperationVoltage::Voltage330V
                || final(self).operation_voltage == MCIHostOperationVoltage::Voltage180V,
            r.is_err() ==> r == Err::<(), MCIHostError>(MCIHostError::HostNotReady)
                || r == Err::<(), MCIHostError>(MCIHostError::GoIdleFailed)
                || r == Err::<(), MCIHostError>(MCIHostError::HandShakeOperationConditionFailed),
            r.is_ok() && final(self).operation_voltage == MCIHostOperationVoltage::Voltage180V
                ==> final(self).flags & SdCardFlag::SupportVoltage180v != 0,
            r.is_ok() && (old(self).usr_param.io_voltage matches Some(v) && v.typ == SdIoVoltageCtrlType::NotSupport)
                ==> final(self).operation_voltage == MCIHostOperationVoltage::Voltage330V,
            acmd41_args_ok(final(self).commands(), old(self).commands().len() as int, old(self).wants_1v8()),
            cmd8_seen(final(self).commands(), old(self).commands().len() as int, final(self).commands().len() as int)
                ==> final(self).flags & SdCardFlag::SupportSdhc != 0,
            ocr_flags_kept(final(self).commands(), old(self).commands().len() as int, final(self).flags),
    {
        let ghost from = old(self).commands().len() as int;
        let ghost wants = old(self).wants_1v8();
        let mut acmd41_argument: u32 = MCIHostOCR::VDD_29_30 | MCIHostOCR::VDD_32_33 | MCIHostOCR::VDD_33_34;
        proof {
            lemma_acmd41_arg_first(wants);
        }
        let io_typ = match self.usr_param.io_voltage {
            Some(v) => v.typ,
            None => SdIoVoltageCtrlType::NotSupport,
        };
        if io_typ != SdIoVoltageCtrlType::NotSupport {
            let capability = match self.base.host {
                Some(ref h) => h.capability,
                None => return Err(MCIHostError::HostNotReady),
            };
            if capability & MCIHostCapability::VOLTAGE_1V8 != 0 && (capability & MCIHostCapability::SDR104 != 0
                || capability & MCIHostCapability::SDR50 != 0 || capability & MCIHostCapability::DDR_MODE != 0) {
                acmd41_argument = acmd41_argument | MCIHostOCR::SWITCH_18_REQUEST_FLAG;
                if self.switch_io_voltage(MCIHostOperationVoltage::Voltage330V).is_ok() {
                    self.card_power_set(false)?;
                    self.card_power_set(true)?;
                }
            }
        }
        self.operation_voltage = MCIHostOperationVoltage::Voltage330V;
        if self.base.host.is_none() {
            return Err(MCIHostError::HostNotReady);
        }
        let ghost mut started = false;
        loop
            invariant
                from == old(self).commands().len(),
                wants == old(self).wants_1v8(),
                acmd41_args_ok(self.commands(), from, wants),
                acmd41_arg_ok(acmd41_argument, wants, cmd8_seen(self.commands(), from, self.commands().len() as int)),
                cmd8_seen(self.commands(), from, self.commands().len() as int) ==> self.flags & SdCardFlag::SupportSdhc != 0,
                ocr_flags_kept(self.commands(), from, self.flags),
                old(self).kept(self),
                old(self).ids_kept(self),
                !started ==> self.commands() == old(self).commands(),
                started ==> self.commands().len() > old(self).commands().len()
                    && self.commands()[old(self).commands().len() as int].index == 0,
                self.scr == old(self).scr,
                self.base.host is Some,
                self.operation_voltage == MCIHostOperationVoltage::Voltage330V,
            ensures
                started,
            decreases (if self.flags & SdCardFlag::SupportVoltage180v != 0 { 1int } else { 0int }),
        {
            let ghost l0 = self.commands();
            let first = self.go_idle();
            proof {
                started = true;
                lemma_acmd41_step(l0, self.commands(), from, wants, acmd41_argument);
                lemma_ocr_flags_extend(l0, self.commands(), from, self.flags);
            }
            if first.is_err() {
                return Err(MCIHostError::GoIdleFailed);
            }
            let ghost l1 = self.commands();
            let cond = self.interface_condition_send();
            proof {
                lemma_acmd41_cmd8_step(l1, self.commands(), from, wants);
                lemma_ocr_flags_extend(l1, self.commands(), from, self.flags);
            }
            if cond.is_ok() {
                proof {
                    lemma_acmd41_arg_sdhc(acmd41_argument, wants, cmd8_seen(l1, from, l1.len() as int));
                }
                acmd41_argument = acmd41_argument | MCIHostOCR::CARD_CAPACITY_SUPPORT_FLAG;
                let f0 = self.flags;
                let nf = f0 | SdCardFlag::SupportSdhc;
                assert(nf & 8 != 0) by (bit_vector)
                    requires nf == f0 | 8u32;
                proof {
                    let log = self.commands();
                    assert forall|k: int| from <= k < log.len() && (#[trigger] log[k]).index == 41 && log[k].ok
                        && log[k].response[0] & MCIHostOCR::POWER_UP_BUSY_FLAG != 0
                        implies protocol::ocr_card_flags(log[k].response[0], nf) == nf by {
                        lemma_ocr_flags_absorbed(log[k].response[0], 0, f0);
                    }
                }
                self.flags = nf;
            } else {
                let ghost l2 = self.commands();
                let again = self.go_idle();
                proof {
                    lemma_acmd41_step(l2, self.commands(), from, wants, acmd41_argument);
                    lemma_ocr_flags_extend(l2, self.commands(), from, self.flags);
                }
                if again.is_err() {
                    return Err(MCIHostError::GoIdleFailed);
                }
            }
            let ghost l3 = self.commands();
            let ghost f3 = self.flags;
            let handshake = self.application_opration_condition_send(acmd41_argument);
            proof {
                lemma_acmd41_step(l3, self.commands(), from, wants, acmd41_argument);
                if self.flags != f3 {
                    protocol::lemma_card_flags_grow(self.last_command().response[0], self.scr, f3);
                }
                let f = self.flags;
                assert(f & f3 == f3 && f3 & 8 != 0 ==> f & 8 != 0) by (bit_vector);
                let log = self.commands();
                assert forall|k: int| from <= k < log.len() && (#[trigger] log[k]).index == 41 && log[k].ok
                    && log[k].response[0] & MCIHostOCR::POWER_UP_BUSY_FLAG != 0
                    implies protocol::ocr_card_flags(log[k].response[0], f) == f by {
                    if k < l3.len() {
                        assert(log[k] == l3[k]);
                        if f != f3 {
                            lemma_ocr_flags_absorbed(log[k].response[0], self.last_command().response[0], f3);
                        }
                    } else {
                        lemma_ocr_flags_idempotent(log[k].response[0], f3);
                    }
                }
            }
            if handshake.is_err() {
                return Err(MCIHostError::HandShakeOperationConditionFailed);
            }
            if self.flags & SdCardFlag::SupportVoltage180v != 0 {
                let not_supported = match self.usr_param.io_voltage {
                    Some(v) => v.typ == SdIoVoltageCtrlType::NotSupport,
                    None => false,
                };
                if not_supported {
                    break;
                }
                let ghost l4 = self.commands();
                let switched = self.voltage_switch(MCIHostOperationVoltage::Voltage180V);
                proof {
                    lemma_acmd41_step(l4, self.commands(), from, wants, acmd41_argument);
                    lemma_ocr_flags_extend(l4, self.commands(), from, self.flags);
                }
                match switched {
                    Err(MCIHostError::SwitchVoltageFail) => {
                        break;
                    },
                    Err(MCIHostError::SwitchVoltage18VFail33VSuccess) => {
                        acmd41_argument = acmd41_argument & !MCIHostOCR::SWITCH_18_REQUEST_FLAG;
                        let f0 = self.flags;
                        let nf = f0 & !SdCardFlag::SupportVoltage180v;
                        assert(nf & 0x20 == 0) by (bit_vector)
                            requires nf == f0 & !0x20u32;
                        self.flags = nf;
                        continue;
                    },
                    _ => {
                        self.operation_voltage = MCIHostOperationVoltage::Voltage180V;
                        return Ok(());
                    },
                }
            }
            break;
        }
        Ok(())
    }

    /// Switch the signalling voltage the way the user chose: no voltage
    /// control: `Fail`; not supported: `NotSupportYet`; by the host: the
    /// host switches; by GPIO: nothing this driver can do.
    fn switch_io_voltage(&mut self, voltage: MCIHostOperationVoltage) -> (r: MCIHostStatus)
        requires
            old(self).wf(),
        ensures
            old(self).kept(final(self)),
            old(self).host_only(final(self)),
            final(self).flags == old(self).flags,
            final(self).commands() == old(self).commands(),
            old(self).usr_param.io_voltage is None ==> r == Err::<(), MCIHostError>(MCIHostError::Fail),
            old(self).usr_param.io_voltage matches Some(v) && v.typ == SdIoVoltageCtrlType::NotSupport
                ==> r == Err::<(), MCIHostError>(MCIHostError::NotSupportYet),
            old(self).usr_param.io_voltage matches Some(v) && v.typ == SdIoVoltageCtrlType::ByGpio ==> r is Ok,
            old(self).usr_param.io_voltage matches Some(v) && v.typ == SdIoVoltageCtrlType::ByHost
                ==> (r is Ok <==> old(self).base.host is Some),
    {
        let typ = match self.usr_param.io_voltage {
            Some(v) => v.typ,
            None => return Err(MCIHostError::Fail),
        };
        if typ == SdIoVoltageCtrlType::NotSupport {
            return Err(MCIHostError::NotSupportYet);
        }
        if typ == SdIoVoltageCtrlType::ByHost {
            match self.base.host {
                Some(ref mut host) => {
                    let _ = host.switch_to_voltage(voltage);
                },
                None => return Err(MCIHostError::HostNotReady),
            }
        }
        Ok(())
    }

    /// Set up the host's device at `addr` unless it is ready, and mark the
    /// host ready. No host or no detection settings: `HostNotReady`; the
    /// device not coming up: `Fail`.
    fn host_init(&mut self, addr: usize) -> (r: MCIHostStatus)
        requires
            old(self).wf(),
            old(self).base.host matches Some(h) ==> h.dev.hc.window().base() == addr,
        ensures
            final(self).wf(),
            final(self).usr_param == old(self).usr_param,
            final(self).base.host is Some <==> old(self).base.host is Some,
            old(self).base.host matches Some(h) ==> (final(self).base.host matches Some(h2)
                && h2.dev.hc.window().base() == h.dev.hc.window().base() && h2.max_block_count == h.max_block_count
                && h2.card_detect == h.card_detect && h2.config == h.config && h2.capability == h.capability
                && h2.max_block_size == h.max_block_size),
            old(self).base.host is None ==> r == Err::<(), MCIHostError>(MCIHostError::HostNotReady),
            r.is_ok() ==> final(self).base.is_host_ready,
            r.is_err() ==> final(self).base.is_host_ready == old(self).base.is_host_ready,
            r.is_err() ==> r == Err::<(), MCIHostError>(MCIHostError::HostNotReady) || r == Err::<(), MCIHostError>(MCIHostError::Fail),
            old(self).usr_param.card_detect is None ==> r.is_err(),
            final(self).commands() == old(self).commands(),
            old(self).ids_kept(final(self)),
            final(self).scr == old(self).scr,
            final(self).detected() == old(self).detected(),
    {
        match self.base.host {
            Some(ref mut host) => {
                if !self.base.is_host_ready {
                    if host.init(addr).is_err() {
                        return Err(MCIHostError::Fail);
                    }
                }
            },
            None => return Err(MCIHostError::HostNotReady),
        }
        if self.usr_param.card_detect.is_none() {
            return Err(MCIHostError::HostNotReady);
        }
        self.base.is_host_ready = true;
        Ok(())
    }

    fn host_do_reset(&mut self) -> (r: MCIHostStatus)
        requires
            old(self).wf(),
        ensures
            old(self).kept(final(self)),
            old(self).host_only(final(self)),
            final(self).commands() == old(self).commands(),
            old(self).base.host is None ==> r == Err::<(), MCIHostError>(MCIHostError::HostNotReady),
            r.is_err() ==> r == Err::<(), MCIHostError>(MCIHostError::HostNotReady) || r == Err::<(), MCIHostError>(MCIHostError::Fail),
    {
        match self.base.host {
            Some(ref mut host) => host.reset(),
            None => Err(MCIHostError::HostNotReady),
        }
    }

    /// Power the card on or off (the SDIF host has no power switch) and
    /// wait the power delay (see `power_delay_spec`). No host:
    /// `HostNotReady`.
    fn card_power_set(&mut self, enable: bool) -> (r: MCIHostStatus)
        requires
            old(self).wf(),
        ensures
            *final(self) == *old(self),
            old(self).base.host is None <==> r == Err::<(), MCIHostError>(MCIHostError::HostNotReady),
            old(self).base.host is Some <==> r is Ok,
    {
        if self.base.host.is_none() {
            return Err(MCIHostError::HostNotReady);
        }
        let delay = power_delay(enable, self.usr_param.power_on_delay_ms, self.usr_param.power_off_delay_ms);
        B::sleep(crate::millis(delay as u64));
        Ok(())
    }

    /// Wait for the card to be in state `status`. No detection settings or
    /// no host: `HostNotReady`; detection by GPIO, which needs a detection
    /// function this driver does not have: `Fail`; host not ready: `Fail`;
    /// the card not getting there: `Fail`.
    fn polling_card_insert(&mut self, status: SDStatus) -> (r: MCIHostStatus)
        requires
            old(self).wf(),
        ensures
            old(self).kept_host(final(self)),
            *final(self) == (SdCard { base: MCICardBase { host: final(self).base.host, ..old(self).base },
                detections: final(self).detections, ..*old(self) }),
            final(self).detected() == old(self).detected().push(r.is_ok()),
            final(self).idle_waited() == old(self).idle_waited(),
            final(self).commands() == old(self).commands(),
            old(self).usr_param.card_detect is None ==> r == Err::<(), MCIHostError>(MCIHostError::HostNotReady),
            old(self).usr_param.card_detect matches Some(cd) && cd.typ == MCIHostDetectCardType::ByGpioCD
                ==> r == Err::<(), MCIHostError>(MCIHostError::Fail),
            r.is_err() ==> r == Err::<(), MCIHostError>(MCIHostError::Fail) || r == Err::<(), MCIHostError>(MCIHostError::HostNotReady),
            r.is_err() && (old(self).usr_param.card_detect matches Some(cd) && cd.typ != MCIHostDetectCardType::ByGpioCD)
                && old(self).base.is_host_ready && (old(self).base.host matches Some(h) && h.card_detect is Some)
                ==> detect_missed_last(final(self).base.host->0.dev.hc.window().trace(), status),
    {
        let r = self.card_insert_poll(status);
        let ghost outcomes = self.detections.outcomes@.push(r.is_ok());
        let ghost idle = self.detections.idle@;
        self.detections = DetectLog { outcomes: Ghost(outcomes), idle: Ghost(idle) };
        r
    }

    /// The card-detect poll of [`SdCard::polling_card_insert`], without its
    /// record.
    fn card_insert_poll(&mut self, status: SDStatus) -> (r: MCIHostStatus)
        requires
            old(self).wf(),
        ensures
            old(self).kept(final(self)),
            old(self).host_only(final(self)),
            final(self).commands() == old(self).commands(),
            old(self).usr_param.card_detect is None ==> r == Err::<(), MCIHostError>(MCIHostError::HostNotReady),
            old(self).usr_param.card_detect matches Some(cd) && cd.typ == MCIHostDetectCardType::ByGpioCD
                ==> r == Err::<(), MCIHostError>(MCIHostError::Fail),
            r.is_err() ==> r == Err::<(), MCIHostError>(MCIHostError::Fail) || r == Err::<(), MCIHostError>(MCIHostError::HostNotReady),
            r.is_err() && (old(self).usr_param.card_detect matches Some(cd) && cd.typ != MCIHostDetectCardType::ByGpioCD)
                && old(self).base.is_host_ready && (old(self).base.host matches Some(h) && h.card_detect is Some)
                ==> detect_missed_last(final(self).base.host->0.dev.hc.window().trace(), status),
    {
        let cd = match self.usr_param.card_detect {
            Some(cd) => cd,
            None => return Err(MCIHostError::HostNotReady),
        };
        if cd.typ == MCIHostDetectCardType::ByGpioCD {
            return Err(MCIHostError::Fail);
        }
        if !self.base.is_host_ready {
            return Err(MCIHostError::Fail);
        }
        match self.base.host {
            Some(ref mut host) => {
                if host.card_detect_status_polling(status).is_err() {
                    return Err(MCIHostError::Fail);
                }
            },
            None => return Err(MCIHostError::HostNotReady),
        }
        Ok(())
    }

    /// Wait until the card is idle, for at most `timeout_ms` ms in steps of
    /// 125 µs: `CardStatusIdle` once it is, `CardStatusBusy` when the time
    /// is up. A step in which the data line is free but the card reports
    /// busy uses up its 125 µs too.
    fn polling_card_status_busy(&mut self, timeout_ms: u32) -> (r: MCIHostStatus)
        requires
            old(self).wf(),
            timeout_ms <= 4_294_967,
        ensures
            old(self).kept(final(self)),
            *final(self) == (SdCard { base: MCICardBase { host: final(self).base.host, ..old(self).base },
                detections: final(self).detections, ..*old(self) }),
            final(self).idle_waited() == old(self).idle_waited().push(r == Err::<(), MCIHostError>(MCIHostError::CardStatusIdle)),
            r == Err::<(), MCIHostError>(MCIHostError::CardStatusIdle) || r == Err::<(), MCIHostError>(MCIHostError::CardStatusBusy)
                || r == Err::<(), MCIHostError>(MCIHostError::HostNotReady),
            old(self).base.host is None && timeout_ms > 0 ==> r == Err::<(), MCIHostError>(MCIHostError::HostNotReady),
            timeout_ms == 0 ==> r == Err::<(), MCIHostError>(MCIHostError::CardStatusBusy) && final(self).base.host == old(self).base.host,
            r == Err::<(), MCIHostError>(MCIHostError::CardStatusIdle) ==> card_said_idle(final(self).commands(),
                old(self).commands().len() as int, old(self).base.relative_address),
            forall|i: int| old(self).commands().len() <= i < final(self).commands().len()
                ==> (#[trigger] final(self).commands()[i]).index == 13
                    && final(self).commands()[i].argument == old(self).base.relative_address << 16,
            r != Err::<(), MCIHostError>(MCIHostError::CardStatusIdle) ==> forall|i: int|
                old(self).commands().len() <= i < final(self).commands().len()
                ==> !idle_answer(#[trigger] final(self).commands()[i], old(self).base.relative_address),
    {
        let r = self.card_idle_wait(timeout_ms);
        let ghost outcomes = self.detections.outcomes@;
        let ghost idle = self.detections.idle@.push(r == Err::<(), MCIHostError>(MCIHostError::CardStatusIdle));
        self.detections = DetectLog { outcomes: Ghost(outcomes), idle: Ghost(idle) };
        r
    }

    /// The wait of [`SdCard::polling_card_status_busy`], without its
    /// record.
    fn card_idle_wait(&mut self, timeout_ms: u32) -> (r: MCIHostStatus)
        requires
            old(self).wf(),
            timeout_ms <= 4_294_967,
        ensures
            old(self).kept(final(self)),
            old(self).host_only(final(self)),
            r == Err::<(), MCIHostError>(MCIHostError::CardStatusIdle) || r == Err::<(), MCIHostError>(MCIHostError::CardStatusBusy)
                || r == Err::<(), MCIHostError>(MCIHostError::HostNotReady),
            old(self).base.host is None && timeout_ms > 0 ==> r == Err::<(), MCIHostError>(MCIHostError::HostNotReady),
            timeout_ms == 0 ==> r == Err::<(), MCIHostError>(MCIHostError::CardStatusBusy) && *final(self) == *old(self),
            r == Err::<(), MCIHostError>(MCIHostError::CardStatusIdle) ==> card_said_idle(final(self).commands(),
                old(self).commands().len() as int, old(self).base.relative_address),
            forall|i: int| old(self).commands().len() <= i < final(self).commands().len()
                ==> (#[trigger] final(self).commands()[i]).index == 13
                    && final(self).commands()[i].argument == old(self).base.relative_address << 16,
            r != Err::<(), MCIHostError>(MCIHostError::CardStatusIdle) ==> forall|i: int|
                old(self).commands().len() <= i < final(self).commands().len()
                ==> !idle_answer(#[trigger] final(self).commands()[i], old(self).base.relative_address),
    {
        let mut status_timeout_us: u32 = timeout_ms * 1000;
        while status_timeout_us > 0
            invariant
                old(self).kept(self),
                old(self).host_only(self),
                old(self).base.host is None ==> *self == *old(self),
                self.base.relative_address == old(self).base.relative_address,
                forall|i: int| old(self).commands().len() <= i < self.commands().len()
                    ==> (#[trigger] self.commands()[i]).index == 13
                        && self.commands()[i].argument == old(self).base.relative_address << 16
                        && !idle_answer(self.commands()[i], old(self).base.relative_address),
                timeout_ms > 0 && old(self).base.host is None ==> status_timeout_us > 0,
                status_timeout_us <= timeout_ms * 1000,
                timeout_ms == 0 ==> *self == *old(self),
            decreases status_timeout_us,
        {
            let busy = match self.base.host {
                Some(ref mut host) => host.card_is_busy(),
                None => return Err(MCIHostError::HostNotReady),
            };
            if !busy {
                let status = self.card_status_send();
                if is_error(&status, MCIHostError::CardStatusIdle) {
                    proof {
                        let i = self.commands().len() - 1;
                        assert(self.commands()[i] == self.last_command());
                        assert(idle_answer(self.commands()[i], old(self).base.relative_address));
                        assert(card_said_idle(self.commands(), old(self).commands().len() as int, old(self).base.relative_address));
                    }
                    return Err(MCIHostError::CardStatusIdle);
                }
            } else {
                B::sleep(crate::micros(125));
            }
            status_timeout_us = if status_timeout_us > 125 { status_timeout_us - 125 } else { 0 };
        }
        Err(MCIHostError::CardStatusBusy)
    }

    /// Ask the card how many blocks the last write stored (application
    /// command 22), after waiting for it to be idle. The count is taken
    /// from the response word in reversed byte order. Not idle:
    /// `WaitWriteCompleteFailed`; the application command failing:
    /// `SendApplicationCommandFailed`; a response with error bits: the
    /// transfer's outcome, with `blocks` unchanged.
    fn write_successful_block_send(&mut self, blocks: &mut u32) -> (r: MCIHostStatus)
        requires
            old(self).wf(),
        ensures
            old(self).kept(final(self)),
            final(self).flags == old(self).flags,
            final(self).base.block_size == old(self).base.block_size,
            r.is_err() ==> *final(blocks) == *old(blocks),
            r.is_err() ==> r == Err::<(), MCIHostError>(MCIHostError::WaitWriteCompleteFailed)
                || r == Err::<(), MCIHostError>(MCIHostError::SendApplicationCommandFailed)
                || r == Err::<(), MCIHostError>(MCIHostError::HostNotReady)
                || r == Err::<(), MCIHostError>(MCIHostError::TransferFailed)
                || r == Err::<(), MCIHostError>(MCIHostError::TuningFail),
            old(self).base.host is None ==> r == Err::<(), MCIHostError>(MCIHostError::WaitWriteCompleteFailed),
            r.is_ok() ==> final(self).commands().len() > old(self).commands().len(),
            r.is_ok() ==> *final(blocks) == 0 || *final(blocks) == *old(blocks) || ({
                let rec = final(self).last_command();
                &&& final(self).commands().len() > old(self).commands().len()
                &&& rec.index == 22 && rec.ok
                &&& *final(blocks) == crate::tools::bytes_reversed(rec.response[0])
            }),
    {
        if !is_error(&self.polling_card_status_busy(SD_CARD_ACCESS_WAIT_IDLE_TIMEOUT), MCIHostError::CardStatusIdle) {
            return Err(MCIHostError::WaitWriteCompleteFailed);
        }
        let rca = self.base.relative_address;
        if self.application_cmd_send(rca).is_err() {
            return Err(MCIHostError::SendApplicationCommandFailed);
        }
        let mut command = MCIHostCmd::new();
        command.index = SdAppCmd::SendNumberWriteBlocks.index();
        command.response_type = MCIHostResponseType::R1;
        let mut data = MCIHostData::new();
        data.block_size = 4;
        data.block_count = 1;
        data.rx_data = Some(vec![0u32; 4]);
        let mut content = MCIHostTransfer { data: Some(data), cmd: Some(command) };
        let result = self.transfer(&mut content, 3);
        let resp0 = match content.cmd {
            Some(ref c) => c.response[0],
            None => 0,
        };
        if result.is_err() || resp0 & MCIHostCardStatusFlag::ALL_ERROR_FLAG != 0 {
            return result;
        }
        proof {
            assert(crate::tools::bytes_reversed(0) == 0) by (bit_vector);
        }
        *blocks = swap_word_byte_sequence_u32(resp0);
        Ok(())
    }

    /// Bring the card to its fastest timing. At 3.3 V: high speed, with the
    /// clock at the larger of the user's highest frequency and 50 MHz; a
    /// card without the switch command or without high speed stays at its
    /// timing, with success; a failing switch fails the selection. At 1.8 V:
    /// SDR104, SDR50 or high
    /// speed, the first the host and the card take, each with its clock;
    /// none: default timing. SDR50 and SDR104 are then tuned (`TuningFail`).
    fn bus_timing_select(&mut self) -> (r: MCIHostStatus)
        requires
            old(self).wf(),
        ensures
            old(self).kept(final(self)),
            old(self).ids_kept(final(self)),
            final(self).scr == old(self).scr,
            old(self).operation_voltage != MCIHostOperationVoltage::Voltage180V && r.is_ok() ==> ({
                let rec = final(self).last_command();
                ||| final(self).current_timing == SdTimingMode::SDR25HighSpeedMode
                    && final(self).commands().len() > old(self).commands().len()
                    && rec.index == 6 && rec.ok
                    && rec.argument == protocol::switch_argument_spec(SdSwitchMode::SetFunction, SdGroupNum::TimingMode,
                        SdTimingFuncNum::SDR25HighSpeed)
                    && (final(self).base.bus_clk_hz == high_speed_clock(old(self).usr_param.max_freq)
                        || final(self).base.bus_clk_hz == old(self).base.host->0.curr_clock_freq)
                    && final(self).base.bus_clk_hz == final(self).base.host->0.curr_clock_freq
                ||| final(self).current_timing == old(self).current_timing
                    && final(self).base.bus_clk_hz == old(self).base.bus_clk_hz
                    && (!old(self).switch_supported() || check_refused(final(self).commands(), old(self).commands().len() as int,
                        old(self).base.host->0.config.endian_mode, SdGroupNum::TimingMode, SdTimingFuncNum::SDR25HighSpeed))
            }),
            old(self).operation_voltage != MCIHostOperationVoltage::Voltage180V && old(self).switch_supported()
                && old(self).base.host is Some && !final(self).commands()[old(self).commands().len() as int].ok ==> r.is_err(),
            old(self).operation_voltage != MCIHostOperationVoltage::Voltage180V && r.is_err() ==> (
                r == Err::<(), MCIHostError>(MCIHostError::TransferFailed)
                || r == Err::<(), MCIHostError>(MCIHostError::HostNotReady)
                || r == Err::<(), MCIHostError>(MCIHostError::SwitchFailed)),
            r.is_err() ==> r == Err::<(), MCIHostError>(MCIHostError::TransferFailed)
                || r == Err::<(), MCIHostError>(MCIHostError::HostNotReady)
                || r == Err::<(), MCIHostError>(MCIHostError::SwitchFailed)
                || r == Err::<(), MCIHostError>(MCIHostError::TuningFail),
            old(self).operation_voltage != MCIHostOperationVoltage::Voltage180V && !old(self).switch_supported()
                ==> r is Ok && *final(self) == *old(self),
            old(self).operation_voltage == MCIHostOperationVoltage::Voltage180V && r.is_ok()
                && (final(self).current_timing == SdTimingMode::SDR25HighSpeedMode
                || (old(self).base.host matches Some(h) && (
                    (final(self).current_timing == SdTimingMode::SDR104Mode && h.capability & MCIHostCapability::SDR104 != 0)
                    || (final(self).current_timing == SdTimingMode::SDR50Mode && h.capability & MCIHostCapability::SDR50 != 0)))) ==> ({
                let rec = final(self).last_command();
                &&& final(self).commands().len() > old(self).commands().len()
                &&& rec.index == 6 && rec.ok
                &&& rec.argument == protocol::switch_argument_spec(SdSwitchMode::SetFunction, SdGroupNum::TimingMode,
                    uhs_func(final(self).current_timing))
            }),
    {
        if self.operation_voltage != MCIHostOperationVoltage::Voltage180V {
            match self.func_select(SdGroupNum::TimingMode, SdTimingFuncNum::SDR25HighSpeed) {
                Ok(_) => {
                    let target = if self.usr_param.max_freq >= SD_CLOCK_50MHZ { self.usr_param.max_freq } else { SD_CLOCK_50MHZ };
                    match self.base.host {
                        Some(ref mut host) => {
                            self.current_timing = SdTimingMode::SDR25HighSpeedMode;
                            self.base.bus_clk_hz = host.card_clock_set(target);
                        },
                        None => return Err(MCIHostError::HostNotReady),
                    }
                },
                Err(err) => {
                    if err == MCIHostError::CardNotSupport {
                        // No switch command or no high speed: stay at the
                        // current timing.
                        return Ok(());
                    }
                    return Err(err);
                },
            }
        } else {
            self.uhs_timing_select()?;
        }
        if self.current_timing == SdTimingMode::SDR50Mode || self.current_timing == SdTimingMode::SDR104Mode {
            if self.execute_tuning().is_err() {
                return Err(MCIHostError::TuningFail);
            }
        }
        Ok(())
    }

    /// The 1.8 V part of [`SdCard::bus_timing_select`]: try SDR104, SDR50
    /// and high speed in turn (from the current timing on, default timing
    /// starting at SDR104) and keep the first that works.
    fn uhs_timing_select(&mut self) -> (r: MCIHostStatus)
        requires
            old(self).wf(),
        ensures
            old(self).kept(final(self)),
            old(self).ids_kept(final(self)),
            final(self).scr == old(self).scr,
            r.is_err() ==> r == Err::<(), MCIHostError>(MCIHostError::HostNotReady),
            old(self).base.host is None && (uhs_start(old(self).current_timing) == SdTimingMode::SDR104Mode
                || uhs_start(old(self).current_timing) == SdTimingMode::SDR50Mode) ==> r == Err::<(), MCIHostError>(MCIHostError::HostNotReady),
            old(self).base.host is Some && old(self).switch_supported() && uhs_start(old(self).current_timing) == SdTimingMode::SDR25HighSpeedMode
                ==> final(self).commands().len() > old(self).commands().len(),
            r.is_ok() && (final(self).current_timing == SdTimingMode::SDR25HighSpeedMode
                || (old(self).base.host matches Some(h) && (
                    (final(self).current_timing == SdTimingMode::SDR104Mode && h.capability & MCIHostCapability::SDR104 != 0)
                    || (final(self).current_timing == SdTimingMode::SDR50Mode && h.capability & MCIHostCapability::SDR50 != 0)))) ==> ({
                let rec = final(self).last_command();
                &&& final(self).commands().len() > old(self).commands().len()
                &&& rec.index == 6 && rec.ok
                &&& rec.argument == protocol::switch_argument_spec(SdSwitchMode::SetFunction, SdGroupNum::TimingMode,
                    uhs_func(final(self).current_timing))
            }),
    {
        if self.current_timing == SdTimingMode::SDR12DefaultMode {
            self.current_timing = SdTimingMode::SDR104Mode;
        }
        if self.current_timing == SdTimingMode::SDR104Mode {
            let cap = match self.base.host {
                Some(ref h) => h.capability,
                None => return Err(MCIHostError::HostNotReady),
            };
            if cap & MCIHostCapability::SDR104 != 0 {
                match self.func_select(SdGroupNum::TimingMode, SdTimingFuncNum::SDR104) {
                    Ok(_) => {
                        match self.base.host {
                            Some(ref mut host) => {
                                self.current_timing = SdTimingMode::SDR104Mode;
                                self.base.bus_clk_hz = host.card_clock_set(SD_CLOCK_208MHZ);
                            },
                            None => return Err(MCIHostError::HostNotReady),
                        }
                        return Ok(());
                    },
                    Err(_) => {
                        self.current_timing = SdTimingMode::SDR50Mode;
                    },
                }
            }
        }
        if self.current_timing == SdTimingMode::SDR50Mode {
            let cap = match self.base.host {
                Some(ref h) => h.capability,
                None => return Err(MCIHostError::HostNotReady),
            };
            if cap & MCIHostCapability::SDR50 != 0 {
                match self.func_select(SdGroupNum::TimingMode, SdTimingFuncNum::SDR50) {
                    Ok(_) => {
                        match self.base.host {
                            Some(ref mut host) => {
                                self.current_timing = SdTimingMode::SDR50Mode;
                                self.base.bus_clk_hz = host.card_clock_set(SD_CLOCK_100MHZ);
                            },
                            None => return Err(MCIHostError::HostNotReady),
                        }
                        return Ok(());
                    },
                    Err(_) => {
                        self.current_timing = SdTimingMode::SDR25HighSpeedMode;
                    },
                }
            }
        }
        if self.current_timing == SdTimingMode::SDR25HighSpeedMode {
            match self.func_select(SdGroupNum::TimingMode, SdTimingFuncNum::SDR25HighSpeed) {
                Ok(_) => {
                    match self.base.host {
                        Some(ref mut host) => {
                            self.current_timing = SdTimingMode::SDR25HighSpeedMode;
                            self.base.bus_clk_hz = host.card_clock_set(SD_CLOCK_50MHZ);
                        },
                        None => return Err(MCIHostError::HostNotReady),
                    }
                    return Ok(());
                },
                Err(_) => {
                    self.current_timing = SdTimingMode::SDR12DefaultMode;
                },
            }
        }
        Ok(())
    }

    /// The card takes the switch-function command: it follows version 1.1
    /// or later and has the switch command class.
    pub open spec fn switch_supported(&self) -> bool {
        self.version != SdSpecificationVersion::Version1_0
            && self.csd.card_command_classes & SdCardCmdClass::Switch != 0
    }

    /// Switch function group `group` to function `func`: check that the
    /// card supports it (status bits in little-endian order, see
    /// `function_available`), then switch and check the switch took (see
    /// `function_switched`).
    ///
    /// Errors: no switch command (`CardNotSupport`, nothing sent), a
    /// command failing or a short status (`TransferFailed`), the function
    /// not available (`CardNotSupport`), not switched (`SwitchFailed`).
    fn func_select(&mut self, group: SdGroupNum, func: SdTimingFuncNum) -> (r: MCIHostStatus)
        requires
            old(self).wf(),
        ensures
            old(self).kept(final(self)),
            old(self).host_only(final(self)),
            old(self).base.host matches Some(h) ==> final(self).base.host->0.curr_clock_freq == h.curr_clock_freq,
            !old(self).switch_supported() ==> r == Err::<(), MCIHostError>(MCIHostError::CardNotSupport) && *final(self) == *old(self),
            old(self).switch_supported() && old(self).base.host is Some ==> final(self).commands().len() > old(self).commands().len(),
            r.is_err() ==> r == Err::<(), MCIHostError>(MCIHostError::CardNotSupport)
                || r == Err::<(), MCIHostError>(MCIHostError::TransferFailed)
                || r == Err::<(), MCIHostError>(MCIHostError::HostNotReady)
                || r == Err::<(), MCIHostError>(MCIHostError::SwitchFailed),
            old(self).switch_supported() && old(self).base.host is Some ==> ({
                let rec = final(self).commands()[old(self).commands().len() as int];
                &&& rec.index == 6 && rec.argument == protocol::switch_argument_spec(SdSwitchMode::Check, group, func)
                &&& !rec.ok ==> r == Err::<(), MCIHostError>(MCIHostError::TransferFailed)
            }),
            r == Err::<(), MCIHostError>(MCIHostError::CardNotSupport) && old(self).switch_supported()
                ==> check_refused(final(self).commands(), old(self).commands().len() as int,
                    old(self).base.host->0.config.endian_mode, group, func),
            r.is_ok() ==> ({
                let rec = final(self).last_command();
                let endian = old(self).base.host->0.config.endian_mode;
                &&& final(self).commands().len() > old(self).commands().len()
                &&& rec.index == 6 && rec.ok
                &&& rec.argument == protocol::switch_argument_spec(SdSwitchMode::SetFunction, group, func)
                &&& rec.received matches Some(raw) && raw.len() >= 5 && protocol::function_switched(seq![raw[0], raw[1], raw[2],
                    crate::mci_host::mci_sdif::sdif_device::to_little_endian(raw[3], endian, MCIHostDataPacketFormat::MSBFirst),
                    crate::mci_host::mci_sdif::sdif_device::to_little_endian(raw[4], endian, MCIHostDataPacketFormat::MSBFirst)],
                    group, func)
            }),
    {
        if self.version.code() <= SdSpecificationVersion::Version1_0.code()
            || self.csd.card_command_classes & SdCardCmdClass::Switch == 0 {
            return Err(MCIHostError::CardNotSupport);
        }
        let mut func_status = match self.func_swtich(SdSwitchMode::Check, group, func) {
            Some(status) => status,
            None => return Err(MCIHostError::TransferFailed),
        };
        let endian = match self.base.host {
            Some(ref h) => h.config.endian_mode,
            None => return Err(MCIHostError::HostNotReady),
        };
        let ghost raw = func_status@;
        let _ = SDIFDev::<B>::convert_data_to_little_endian(&mut func_status, 5, MCIHostDataPacketFormat::MSBFirst, endian);
        if func_status.len() < 5 {
            return Err(MCIHostError::TransferFailed);
        }
        if !check_function_available(func_status.as_slice(), group, func) {
            proof {
                assert(func_status@ =~= le_status(raw, endian));
                assert(self.commands()[old(self).commands().len() as int] == self.last_command());
            }
            return Err(MCIHostError::CardNotSupport);
        }
        let func_status = match self.func_swtich(SdSwitchMode::SetFunction, group, func) {
            Some(status) => status,
            None => return Err(MCIHostError::TransferFailed),
        };
        if func_status.len() < 5 {
            return Err(MCIHostError::TransferFailed);
        }
        let mut tail: Vec<u32> = Vec::new();
        tail.push(func_status[3]);
        tail.push(func_status[4]);
        let _ = SDIFDev::<B>::convert_data_to_little_endian(&mut tail, 2, MCIHostDataPacketFormat::MSBFirst, endian);
        let mut converted: Vec<u32> = Vec::new();
        converted.push(func_status[0]);
        converted.push(func_status[1]);
        converted.push(func_status[2]);
        converted.push(tail[0]);
        converted.push(tail[1]);
        if !check_function_switched(converted.as_slice(), group, func) {
            return Err(MCIHostError::SwitchFailed);
        }
        proof {
            let raw = func_status@;
            assert(converted@ =~= seq![raw[0], raw[1], raw[2],
                crate::mci_host::mci_sdif::sdif_device::to_little_endian(raw[3], endian, MCIHostDataPacketFormat::MSBFirst),
                crate::mci_host::mci_sdif::sdif_device::to_little_endian(raw[4], endian, MCIHostDataPacketFormat::MSBFirst)]);
        }
        Ok(())
    }

    /// Sampling tuning (none needed on this host). No host: `HostNotReady`.
    fn execute_tuning(&mut self) -> (r: MCIHostStatus)
        requires
            old(self).wf(),
        ensures
            *final(self) == *old(self),
            r.is_ok() <==> old(self).base.host is Some,
    {
        match self.base.host {
            Some(ref mut host) => {
                let mut buffer = vec![0u32; 64];
                host.dev.execute_tuning(SdCmd::SendTuningBlock.index(), &mut buffer, 64)
            },
            None => Err(MCIHostError::HostNotReady),
        }
    }

    /// Read `block_count` blocks of 512 bytes, from block `start_block` on,
    /// into `buffer` (emptied first), in pieces of at most the host's
    /// largest transfer, each from the block that follows the previous
    /// piece. On success `buffer` holds `block_count * 128` words, each
    /// piece what the card returned for it (see `piece_read`); on failure
    /// it holds the pieces read before, and the failing piece either found
    /// the card not idle or was handed to it (see `piece_read_failed`). A
    /// piece failing: `TransferFailed`; no host: `HostNotReady`.
    #[verifier::spinoff_prover]
    #[verifier::rlimit(50)]
    pub fn read_blocks(&mut self, buffer: &mut Vec<u32>, start_block: u32, block_count: u32) -> (r: MCIHostStatus)
        requires
            old(self).wf(),
            start_block + block_count <= u32::MAX,
        ensures
            old(self).kept(final(self)),
            r.is_err() ==> r == Err::<(), MCIHostError>(MCIHostError::TransferFailed)
                || r == Err::<(), MCIHostError>(MCIHostError::HostNotReady),
            block_count == 0 ==> r is Ok && final(buffer)@.len() == 0,
            block_count > 0 && old(self).base.host is None ==> r == Err::<(), MCIHostError>(MCIHostError::HostNotReady),
            r.is_ok() ==> final(buffer)@.len() == block_count * 128,
            r.is_err() ==> final(buffer)@.len() < block_count * 128 && final(buffer)@.len() % 128 == 0,
            r.is_err() ==> exists|bounds: Seq<int>, done: int| #[trigger] pieces_cover(bounds, done, old(self).host_max_blocks())
                && final(buffer)@.len() == done * 128
                && forall|k: int| 0 <= k < bounds.len() - 1 ==> piece_read(final(self).commands(), old(self).commands().len() as int,
                    old(self).flags, start_block, #[trigger] bounds[k], bounds[k + 1], final(buffer)@)
                && (old(self).base.host matches Some(h) && h.max_block_count > 0
                    && protocol::block_size_supported(old(self).flags, 512, old(self).base.block_size, h.max_block_size)
                    ==> piece_read_failed(final(self).commands(), old(self).commands().len() as int, old(self).flags, start_block,
                        done, protocol::next_chunk_spec((block_count - done) as u32, old(self).base.host->0.max_block_count).0 as int, final(self).idle_waited())),
            r.is_ok() ==> exists|bounds: Seq<int>| #[trigger] pieces_cover(bounds, block_count as int,
                old(self).host_max_blocks())
                && forall|k: int| 0 <= k < bounds.len() - 1 ==> piece_read(final(self).commands(), old(self).commands().len() as int,
                    old(self).flags, start_block, #[trigger] bounds[k], bounds[k + 1], final(buffer)@),
    {
        buffer.clear();
        let mut block_left = block_count;
        let ghost from = old(self).commands().len() as int;
        let ghost maxc: int = old(self).host_max_blocks();
        let ghost mut bounds: Seq<int> = seq![0int];
        while block_left != 0
            invariant
                old(self).kept(self),
                self.flags == old(self).flags,
                block_left <= block_count,
                start_block + block_count <= u32::MAX,
                buffer@.len() == (block_count - block_left) * 128,
                from == old(self).commands().len(),
                maxc == old(self).host_max_blocks(),
                block_left == block_count ==> *self == *old(self),
                self.base.block_size == old(self).base.block_size,
                pieces_cover(bounds, (block_count - block_left) as int, maxc),
                forall|k: int| 0 <= k < bounds.len() - 1 ==> piece_read(self.commands(), from, old(self).flags, start_block,
                    #[trigger] bounds[k], bounds[k + 1], buffer@),
            decreases block_left,
        {
            let max = match self.base.host {
                Some(ref h) => h.max_block_count,
                None => return Err(MCIHostError::HostNotReady),
            };
            if max == 0 {
                return Err(MCIHostError::TransferFailed);
            }
            let (n, rest) = next_chunk(block_left, max);
            proof {
                lemma_chunk_progress(block_left, max);
            }
            let done = block_count - block_left;
            let ghost buf_before = buffer@;
            let ghost log_before = self.commands();
            let ghost bounds_before = bounds;
            let len = n * MCI_HOST_DEFAULT_BLOCK_SIZE / 4;
            let mut once_buffer = vec![0u32; len as usize];
            if self.read(&mut once_buffer, start_block + done, MCI_HOST_DEFAULT_BLOCK_SIZE, n).is_err() {
                proof {
                    let log_after = self.commands();
                    let idx: u32 = if n == 1 { 17u32 } else { 18u32 };
                    let arg = protocol::block_address_spec(old(self).flags, (start_block + done) as u32, 512);
                    if handed(log_after, log_before.len() as int, idx, arg, None, MCIHostResponseType::R1, true, n) {
                        let at = choose|at: int| log_before.len() <= at
                            && #[trigger] handed_blocks(log_after, at, idx, arg, None, MCIHostResponseType::R1, true, n);
                        assert(handed_blocks(log_after, at, idx, arg, None, MCIHostResponseType::R1, true, n));
                    }
                    assert forall|k: int| 0 <= k < bounds.len() - 1 implies piece_read(log_after, from, old(self).flags, start_block,
                        #[trigger] bounds[k], bounds[k + 1], buffer@) by {
                        let a = bounds[k];
                        let b = bounds[k + 1];
                        let w = choose|w: int| from <= w < log_before.len() && #[trigger] log_before[w].ok
                            && log_before[w].index == (if b - a == 1 { 17u32 } else { 18u32 })
                            && log_before[w].argument == protocol::block_address_spec(old(self).flags, (start_block + a) as u32, 512)
                            && log_before[w].received == Some(buf_before.subrange(a * 128, b * 128));
                        assert(log_after[w] == log_before[w]);
                    }
                    assert(pieces_cover(bounds, done as int, maxc));
                }
                return Err(MCIHostError::TransferFailed);
            }
            block_left = rest;
            let mut i: usize = 0;
            while i < once_buffer.len()
                invariant
                    i <= once_buffer@.len(),
                    buffer@ == buf_before + once_buffer@.subrange(0, i as int),
                decreases once_buffer@.len() - i,
            {
                buffer.push(once_buffer[i]);
                i = i + 1;
                assert(buffer@ =~= buf_before + once_buffer@.subrange(0, i as int));
            }
            proof {
                assert(once_buffer@.subrange(0, once_buffer@.len() as int) =~= once_buffer@);
                let log_after = self.commands();
                let lo = done as int;
                let hi = done + n;
                assert forall|k: int| 0 <= k < bounds_before.len() - 1 implies piece_read(log_after, from, old(self).flags, start_block,
                    #[trigger] bounds_before[k], bounds_before[k + 1], buffer@) by {
                    let a = bounds_before[k];
                    let b = bounds_before[k + 1];
                    lemma_bounds_within(bounds_before, (block_count - block_left - n) as int, maxc, k);
                    assert(buffer@.subrange(a * 128, b * 128) =~= buf_before.subrange(a * 128, b * 128));
                    let w = choose|w: int| from <= w < log_before.len() && #[trigger] log_before[w].ok
                        && log_before[w].index == (if b - a == 1 { 17u32 } else { 18u32 })
                        && log_before[w].argument == protocol::block_address_spec(old(self).flags, (start_block + a) as u32, 512)
                        && log_before[w].received == Some(buf_before.subrange(a * 128, b * 128));
                    assert(log_after[w] == log_before[w]);
                }
                let w = log_after.len() - 1;
                assert(buffer@.subrange(lo * 128, hi * 128) =~= once_buffer@);
                assert(log_after[w].ok);
                assert(piece_read(log_after, from, old(self).flags, start_block, lo, hi, buffer@));
                bounds = bounds_before.push(hi);
                assert forall|k: int| 0 <= k < bounds.len() - 1 implies piece_read(log_after, from, old(self).flags, start_block,
                    #[trigger] bounds[k], bounds[k + 1], buffer@) by {
                    if k < bounds_before.len() - 1 {
                        assert(bounds[k] == bounds_before[k] && bounds[k + 1] == bounds_before[k + 1]);
                    } else {
                        assert(bounds[k] == lo && bounds[k + 1] == hi);
                    }
                }
            }
        }
        Ok(())
    }

    /// Write `block_count` blocks of 512 bytes from `buffer` starting at
    /// block `start_block`, in pieces of at most the host's largest
    /// transfer, each at the block that follows the previous piece; each
    /// piece written is recorded with its words (see `piece_written`), on
    /// failure those before the failing one, which either found the card
    /// not idle or was handed to it (see `piece_write_failed`). A piece
    /// failing:
    /// `TransferFailed`; no host: `HostNotReady`.
    #[verifier::spinoff_prover]
    #[verifier::rlimit(50)]
    pub fn write_blocks(&mut self, buffer: &Vec<u32>, start_block: u32, block_count: u32) -> (r: MCIHostStatus)
        requires
            old(self).wf(),
            block_count <= 0x7F_FFFF,
            buffer@.len() >= block_count * 128,
            start_block + block_count <= u32::MAX,
        ensures
            old(self).kept(final(self)),
            r.is_err() ==> r == Err::<(), MCIHostError>(MCIHostError::TransferFailed)
                || r == Err::<(), MCIHostError>(MCIHostError::HostNotReady),
            block_count == 0 ==> r is Ok && *final(self) == *old(self),
            block_count > 0 && old(self).base.host is None ==> r == Err::<(), MCIHostError>(MCIHostError::HostNotReady)
                && *final(self) == *old(self),
            block_count > 0 && (old(self).base.host matches Some(h) && (h.max_block_count == 0
                || !protocol::block_size_supported(old(self).flags, 512, old(self).base.block_size, h.max_block_size)))
                ==> r == Err::<(), MCIHostError>(MCIHostError::TransferFailed) && *final(self) == *old(self),
            block_count > 0 && r.is_ok() ==> final(self).commands().len() > old(self).commands().len(),
            r.is_err() ==> exists|bounds: Seq<int>, done: int| #[trigger] pieces_cover(bounds, done, old(self).host_max_blocks())
                && done < block_count
                && forall|k: int| 0 <= k < bounds.len() - 1 ==> piece_written(final(self).commands(), old(self).commands().len() as int,
                    old(self).flags, start_block, #[trigger] bounds[k], bounds[k + 1], buffer@)
                && (old(self).base.host matches Some(h) && h.max_block_count > 0
                    && protocol::block_size_supported(old(self).flags, 512, old(self).base.block_size, h.max_block_size)
                    ==> piece_write_failed(final(self).commands(), old(self).commands().len() as int, old(self).flags, start_block,
                        done, protocol::next_chunk_spec((block_count - done) as u32, old(self).base.host->0.max_block_count).0 as int,
                        buffer@, final(self).idle_waited())),
            r.is_ok() ==> exists|bounds: Seq<int>| #[trigger] pieces_cover(bounds, block_count as int, old(self).host_max_blocks())
                && forall|k: int| 0 <= k < bounds.len() - 1 ==> piece_written(final(self).commands(), old(self).commands().len() as int,
                    old(self).flags, start_block, #[trigger] bounds[k], bounds[k + 1], buffer@),
    {
        let mut block_left = block_count;
        let mut block_written_one_time: u32 = 0;
        let ghost from = old(self).commands().len() as int;
        let ghost maxc: int = old(self).host_max_blocks();
        let ghost mut bounds: Seq<int> = seq![0int];
        while block_left != 0
            invariant
                old(self).kept(self),
                self.flags == old(self).flags,
                from == old(self).commands().len(),
                maxc == old(self).host_max_blocks(),
                pieces_cover(bounds, (block_count - block_left) as int, maxc),
                forall|k: int| 0 <= k < bounds.len() - 1 ==> piece_written(self.commands(), from, old(self).flags, start_block,
                    #[trigger] bounds[k], bounds[k + 1], buffer@),
                block_left == block_count ==> *self == *old(self),
                self.base.block_size == old(self).base.block_size,
                block_left < block_count ==> self.commands().len() > old(self).commands().len(),
                (old(self).base.host matches Some(h) && (h.max_block_count == 0
                    || !protocol::block_size_supported(old(self).flags, 512, old(self).base.block_size, h.max_block_size)))
                    ==> block_left == block_count,
                block_left <= block_count,
                block_count <= 0x7F_FFFF,
                buffer@.len() >= block_count * 128,
                start_block + block_count <= u32::MAX,
                block_count == 0 ==> *self == *old(self),
            decreases block_left,
        {
            let max = match self.base.host {
                Some(ref h) => h.max_block_count,
                None => return Err(MCIHostError::HostNotReady),
            };
            if max == 0 {
                return Err(MCIHostError::TransferFailed);
            }
            let (n, _) = next_chunk(block_left, max);
            let start_addr = (block_count - block_left) * MCI_HOST_DEFAULT_BLOCK_SIZE / 4;
            let end_addr = start_addr + n * MCI_HOST_DEFAULT_BLOCK_SIZE / 4;
            let mut once_buffer: Vec<u32> = Vec::new();
            let mut i: u32 = start_addr;
            while i < end_addr
                invariant
                    start_addr <= i <= end_addr,
                    end_addr as int <= buffer@.len(),
                    once_buffer@ == buffer@.subrange(start_addr as int, i as int),
                decreases end_addr - i,
            {
                once_buffer.push(buffer[i as usize]);
                i = i + 1;
                assert(once_buffer@ =~= buffer@.subrange(start_addr as int, i as int));
            }
            let ghost log_before = self.commands();
            let ghost bounds_before = bounds;
            let ghost lo = (block_count - block_left) as int;
            proof {
                lemma_chunk_progress(block_left, max);
            }
            if self.write(&once_buffer, start_block + block_count - block_left, MCI_HOST_DEFAULT_BLOCK_SIZE, n,
                &mut block_written_one_time).is_err() {
                proof {
                    let log_after = self.commands();
                    let idx: u32 = if n == 1 { 24u32 } else { 25u32 };
                    let arg = protocol::block_address_spec(old(self).flags, (start_block + lo) as u32, 512);
                    let words = Some(buffer@.subrange(lo * 128, (lo + n) * 128));
                    assert(once_buffer@ =~= buffer@.subrange(lo * 128, (lo + n) * 128));
                    if handed(log_after, log_before.len() as int, idx, arg, words, MCIHostResponseType::R1, false, n) {
                        let at = choose|at: int| log_before.len() <= at
                            && #[trigger] handed_blocks(log_after, at, idx, arg, words, MCIHostResponseType::R1, false, n);
                        assert(handed_blocks(log_after, at, idx, arg, words, MCIHostResponseType::R1, false, n));
                    }
                    assert forall|k: int| 0 <= k < bounds.len() - 1 implies piece_written(log_after, from, old(self).flags, start_block,
                        #[trigger] bounds[k], bounds[k + 1], buffer@) by {
                        let a = bounds[k];
                        let b = bounds[k + 1];
                        let w = choose|w: int| from <= w < log_before.len() && #[trigger] log_before[w].ok
                            && log_before[w].index == (if b - a == 1 { 24u32 } else { 25u32 })
                            && log_before[w].argument == protocol::block_address_spec(old(self).flags, (start_block + a) as u32, 512)
                            && log_before[w].sent == Some(buffer@.subrange(a * 128, b * 128));
                        assert(log_after[w] == log_before[w]);
                    }
                    assert(pieces_cover(bounds, lo, maxc));
                }
                return Err(MCIHostError::TransferFailed);
            }
            block_left = block_left - n;
            proof {
                let log_after = self.commands();
                let hi = lo + n;
                assert forall|k: int| 0 <= k < bounds_before.len() - 1 implies piece_written(log_after, from, old(self).flags, start_block,
                    #[trigger] bounds_before[k], bounds_before[k + 1], buffer@) by {
                    let a = bounds_before[k];
                    let b = bounds_before[k + 1];
                    let w = choose|w: int| from <= w < log_before.len() && #[trigger] log_before[w].ok
                        && log_before[w].index == (if b - a == 1 { 24u32 } else { 25u32 })
                        && log_before[w].argument == protocol::block_address_spec(old(self).flags, (start_block + a) as u32, 512)
                        && log_before[w].sent == Some(buffer@.subrange(a * 128, b * 128));
                    assert(log_after[w] == log_before[w]);
                }
                assert(once_buffer@ =~= buffer@.subrange(lo * 128, hi * 128));
                let w = choose|w: int| log_before.len() <= w < log_after.len() && #[trigger] log_after[w].index
                    == (if n == 1 { 24u32 } else { 25u32 }) && log_after[w].ok
                    && log_after[w].argument == protocol::block_address_spec(old(self).flags, (start_block + lo) as u32, 512)
                    && log_after[w].sent == Some(once_buffer@);
                assert(piece_written(log_after, from, old(self).flags, start_block, lo, hi, buffer@));
                bounds = bounds_before.push(hi);
                assert forall|k: int| 0 <= k < bounds.len() - 1 implies piece_written(log_after, from, old(self).flags, start_block,
                    #[trigger] bounds[k], bounds[k + 1], buffer@) by {
                    if k < bounds_before.len() - 1 {
                        assert(bounds[k] == bounds_before[k] && bounds[k + 1] == bounds_before[k + 1]);
                    } else {
                        assert(bounds[k] == lo && bounds[k + 1] == hi);
                    }
                }
            }
        }
        Ok(())
    }

    /// Run a transfer, retrying up to `retry` more times: a failed data
    /// transfer is stopped (command 12) and the card waited for
    /// (`TransferFailed` when it stays busy); SDR50 and SDR104 cards are
    /// re-tuned, up to three times, when the retries are used up or the
    /// card asks for it (`TuningFail` when that fails). Success only when an
    /// attempt succeeded; `TransferFailed` when the attempts run out.
    fn transfer(&mut self, content: &mut MCIHostTransfer, retry: u32) -> (r: MCIHostStatus)
        requires
            old(self).wf(),
            transfer_well_formed(*old(content)),
            old(content).data matches Some(d) ==> !(d.rx_data is Some && d.tx_data is Some),
        ensures
            old(self).kept(final(self)),
            data_kept(old(content).data, final(content).data),
            rx_sized(old(content).data) && r.is_ok() ==> rx_sized(final(content).data) || no_buffers(final(content).data),
            final(self).flags == old(self).flags,
            same_command(old(content).cmd->0, final(content).cmd),
            r.is_ok() ==> ran_to_end(old(self).commands(), final(self).commands(), old(content).cmd->0, old(content).data, *final(content)),
            r.is_err() ==> final(content).data == old(content).data || no_buffers(final(content).data)
                || old(content).data is None,
            r.is_err() ==> r == Err::<(), MCIHostError>(MCIHostError::HostNotReady)
                || r == Err::<(), MCIHostError>(MCIHostError::TransferFailed)
                || r == Err::<(), MCIHostError>(MCIHostError::TuningFail),
            old(self).base.host is None ==> r == Err::<(), MCIHostError>(MCIHostError::HostNotReady),
            r.is_ok() ==> final(self).commands().len() > old(self).commands().len(),
            old(self).base.host is Some ==> final(self).commands().len() > old(self).commands().len(),
            final(self).base.block_size == old(self).base.block_size,
            old(self).base.host is Some ==> handed_at(final(self).commands(), old(self).commands().len() as int,
                old(content).cmd->0.index, old(content).cmd->0.argument, sent_of(old(content).data),
                old(content).cmd->0.response_type, auto_stop_of(old(content).data),
                old(content).data->0.block_count, needs_block_count(*old(content))),
    {
        let mut retry = retry;
        let mut retuning_count: u32 = 3;
        let ghost c0 = old(content).cmd->0;
        let ghost d0 = old(content).data;
        let mut done = false;
        let ghost mut attempted = false;
        loop
            invariant_except_break
                !done,
            invariant
                attempted ==> self.commands().len() > old(self).commands().len(),
                self.base.block_size == old(self).base.block_size,
                attempted ==> handed_at(self.commands(), old(self).commands().len() as int, c0.index, c0.argument,
                    sent_of(d0), c0.response_type, auto_stop_of(d0), d0->0.block_count, needs_block_count(*old(content))),
                !attempted ==> *self == *old(self) && *content == *old(content),
                transfer_well_formed(*old(content)),
                old(self).kept(self),
                data_kept(old(content).data, content.data),
                rx_sized(d0) && done ==> rx_sized(content.data),
                self.flags == old(self).flags,
                same_command(c0, content.cmd),
                content.data matches Some(d) ==> (d.block_size as u32) * d.block_count <= u32::MAX,
                c0 == old(content).cmd->0,
                d0 == old(content).data,
                d0 matches Some(d) ==> !(d.rx_data is Some && d.tx_data is Some),
                !done ==> content.data == d0 || no_buffers(content.data),
                !done ==> content.cmd == Some(c0),
                done ==> ran_to_end(old(self).commands(), self.commands(), c0, d0, *content),
            ensures
                attempted,
                done,
            decreases retry + retuning_count,
        {
            if !transfer_ready(content) {
                // A buffer the previous attempt did not hand back.
                return Err(MCIHostError::TransferFailed);
            }
            let status = match self.base.host {
                Some(ref mut host) => host.transfer(content),
                None => return Err(MCIHostError::HostNotReady),
            };
            proof {
                attempted = true;
            }
            if status.is_ok() {
                done = true;
                break;
            }
            if content.data.is_some() {
                let _ = self.transmission_stop();
                if !is_error(&self.polling_card_status_busy(SD_CARD_ACCESS_WAIT_IDLE_TIMEOUT), MCIHostError::CardStatusIdle) {
                    return Err(MCIHostError::TransferFailed);
                }
            }
            if retry == 0 || is_error(&status, MCIHostError::ReTuningRequest) {
                if self.current_timing == SdTimingMode::SDR104Mode || self.current_timing == SdTimingMode::SDR50Mode {
                    if retuning_count == 0 {
                        return Err(MCIHostError::TransferFailed);
                    }
                    retuning_count = retuning_count - 1;
                    if self.execute_tuning().is_err() {
                        return Err(MCIHostError::TuningFail);
                    } else {
                        continue;
                    }
                } else if retry == 0 {
                    return Err(MCIHostError::TransferFailed);
                }
            }
            retry = retry - 1;
        }
        Ok(())
    }

    /// Command 0. No host: `HostNotReady`.
    fn go_idle(&mut self) -> (r: MCIHostStatus)
        requires
            old(self).wf(),
        ensures
            old(self).kept(final(self)),
            old(self).base.host is None ==> r == Err::<(), MCIHostError>(MCIHostError::HostNotReady),
            old(self).base.host is Some ==> old(self).ran_one(final(self), 0, 0, MCIHostResponseType::NoResponse)
                && r == ran_outcome(final(self).last_command()),
            old(self).host_only(final(self)),
    {
        match self.base.host {
            Some(ref mut host) => host.go_idle(),
            None => Err(MCIHostError::HostNotReady),
        }
    }

    /// Send a command without data to the host; its outcome and response.
    fn simple_command(&mut self, index: u32, argument: u32, response_type: MCIHostResponseType, cmd_type: MCIHostCmdType) -> (r: (MCIHostStatus, [u32; 4]))
        requires
            old(self).wf(),
        ensures
            old(self).kept(final(self)),
            old(self).host_only(final(self)),
            old(self).base.host is None ==> r.0 == Err::<(), MCIHostError>(MCIHostError::HostNotReady),
            old(self).base.host is Some ==> old(self).ran_one(final(self), index, argument, response_type)
                && r.0.is_ok() == final(self).last_command().ok && r.1 == final(self).last_command().response,
            old(self).base.host is Some && r.0.is_err() ==> crate::mci_host::mci_sdif::sdif_device::transfer_error(r.0),
    {
        let mut command = MCIHostCmd::new();
        command.index = index;
        command.argument = argument;
        command.response_type = response_type;
        command.cmd_type = cmd_type;
        let mut content = MCIHostTransfer { data: None, cmd: Some(command) };
        let err = match self.base.host {
            Some(ref mut host) => host.transfer(&mut content),
            None => return (Err(MCIHostError::HostNotReady), [0, 0, 0, 0]),
        };
        let resp = match content.cmd {
            Some(ref c) => c.response,
            None => [0, 0, 0, 0],
        };
        (err, resp)
    }

    /// Command 2: read the identification register through the internal
    /// buffer and decode it. Failures: the transfer's error; a buffer too
    /// small for the register: `Fail`.
    fn all_cid_send(&mut self) -> (r: MCIHostStatus)
        requires
            old(self).wf(),
        ensures
            old(self).kept(final(self)),
            final(self).scr == old(self).scr,
            final(self).base.relative_address == old(self).base.relative_address && final(self).csd == old(self).csd,
            old(self).base.host is Some ==> log_extends(old(self).commands(), final(self).commands())
                && final(self).commands().len() == old(self).commands().len() + 1
                && final(self).last_command().index == 2,
            r.is_ok() ==> final(self).last_command().ok && final(self).cid == cid_of(final(self).last_command().response@),
            r.is_ok() ==> exists|resp: Seq<u32>| resp.len() == 4 && final(self).cid == cid_of(resp),
    {
        let (err, response) = self.simple_command(MCIHostCommonCmd::AllSendCid.index(), 0, MCIHostResponseType::R2, MCIHostCmdType::Normal);
        err?;
        let raw = match self.through_internal_buffer(&response) {
            Some(raw) => raw,
            None => return Err(MCIHostError::Fail),
        };
        self.decode_cid(raw.as_slice());
        Ok(())
    }

    /// Store the response words in the internal buffer (cleared first) and
    /// read them back; `None` when the buffer is too small.
    fn through_internal_buffer(&mut self, response: &[u32; 4]) -> (r: Option<Vec<u32>>)
        requires
            old(self).wf(),
        ensures
            old(self).kept(final(self)),
            final(self).scr == old(self).scr,
            r matches Some(v) ==> v@ == response@,
            final(self).base.host == old(self).base.host,
            final(self).cid == old(self).cid && final(self).csd == old(self).csd && final(self).flags == old(self).flags,
            final(self).block_count == old(self).block_count && final(self).base.block_size == old(self).base.block_size,
            final(self).base.relative_address == old(self).base.relative_address,
            r is Some <==> old(self).base.internal_buffer.contents().len() >= 16,
    {
        self.base.internal_buffer.clear();
        let ghost before = self.base.internal_buffer.contents();
        if self.base.internal_buffer.copy_from_slice(response.as_slice()).is_err() {
            return None;
        }
        proof {
            lemma_copy_then_read(before, self.base.internal_buffer.contents(), response@);
        }
        match self.base.internal_buffer.to_vec_in_len(4) {
            Ok(v) => Some(v),
            Err(_) => None,
        }
    }

    /// Command 3: the card's new relative address (the upper half of the
    /// response). Failure: the transfer's error, with the address kept.
    fn rca_send(&mut self) -> (r: MCIHostStatus)
        requires
            old(self).wf(),
        ensures
            old(self).kept(final(self)),
            final(self).scr == old(self).scr,
            final(self).cid == old(self).cid && final(self).csd == old(self).csd,
            r.is_err() ==> final(self).base.relative_address == old(self).base.relative_address,
            old(self).base.host is Some ==> old(self).ran_one(final(self), 3, 0, MCIHostResponseType::R6),
            r.is_ok() ==> final(self).last_command().ok
                && final(self).base.relative_address == final(self).last_command().response[0] >> 16,
    {
        let (err, response) = self.simple_command(SdCmd::SendRelativeAddress.index(), 0, MCIHostResponseType::R6, MCIHostCmdType::Normal);
        err?;
        self.base.relative_address = response[0] >> 16;
        Ok(())
    }

    /// Command 6 in mode `mode` for function `num` of group `group` (see
    /// `switch_argument_spec`), reading the 64-byte status; `None` when the
    /// command fails or no status came back.
    fn func_swtich(&mut self, mode: SdSwitchMode, group: SdGroupNum, num: SdTimingFuncNum) -> (r: Option<Vec<u32>>)
        requires
            old(self).wf(),
        ensures
            old(self).kept(final(self)),
            old(self).host_only(final(self)),
            old(self).base.host matches Some(h) ==> final(self).base.host->0.curr_clock_freq == h.curr_clock_freq,
            final(self).version == old(self).version && final(self).csd == old(self).csd,
            old(self).base.host is None ==> r is None,
            old(self).base.host is Some ==> ({
                let rec = final(self).last_command();
                &&& final(self).commands().len() == old(self).commands().len() + 1
                &&& rec.index == 6 && rec.argument == protocol::switch_argument_spec(mode, group, num)
                &&& (r is Some <==> rec.ok && rec.received is Some)
            }),
            r matches Some(v) ==> ({
                let rec = final(self).last_command();
                &&& final(self).commands().len() > old(self).commands().len()
                &&& rec.index == 6 && rec.argument == protocol::switch_argument_spec(mode, group, num) && rec.ok
                &&& rec.received == Some(v@)
            }),
    {
        let mut command = MCIHostCmd::new();
        command.index = SdCmd::Switch.index();
        command.argument = switch_argument(mode, group, num);
        command.response_type = MCIHostResponseType::R1;
        let mut data = MCIHostData::new();
        data.block_size = 64;
        data.block_count = 1;
        data.rx_data = Some(vec![0u32; 64]);
        let mut content = MCIHostTransfer { data: Some(data), cmd: Some(command) };
        let err = match self.base.host {
            Some(ref mut host) => host.transfer(&mut content),
            None => return None,
        };
        if err.is_err() {
            return None;
        }
        match content.data {
            Some(ref mut d) => d.rx_data_take(),
            None => None,
        }
    }

    /// Command 7: select the card at its relative address, or deselect.
    fn card_select(&mut self, is_selected: bool) -> (r: MCIHostStatus)
        requires
            old(self).wf(),
        ensures
            old(self).kept(final(self)),
            old(self).host_only(final(self)),
            old(self).base.host is Some ==> old(self).ran_one(final(self), 7,
                if is_selected { old(self).base.relative_address << 16 } else { 0 },
                if is_selected { MCIHostResponseType::R1 } else { MCIHostResponseType::NoResponse })
                && r == r1_outcome(final(self).last_command()),
            final(self).flags == old(self).flags,
    {
        let rca = self.base.relative_address;
        match self.base.host {
            Some(ref mut host) => host.card_select(rca, is_selected),
            None => Err(MCIHostError::HostNotReady),
        }
    }

    /// Command 8 with the 2.7-3.6 V range and check pattern 0xAA, tried up
    /// to eleven times while it fails. The card not echoing the pattern:
    /// `CardNotSupport`; every try failing: the last error.
    fn interface_condition_send(&mut self) -> (r: MCIHostStatus)
        requires
            old(self).wf(),
        ensures
            old(self).kept(final(self)),
            old(self).host_only(final(self)),
            r.is_ok() ==> ({
                let rec = final(self).last_command();
                &&& rec.index == 8 && rec.argument == 0x1AA && rec.ok
                &&& rec.response[0] & 0xFF == 0xAA
            }),
            r == Err::<(), MCIHostError>(MCIHostError::CardNotSupport) ==> ({
                let rec = final(self).last_command();
                &&& rec.index == 8 && rec.argument == 0x1AA && rec.ok
                &&& rec.response[0] & 0xFF != 0xAA
            }),
            final(self).flags == old(self).flags,
            forall|i: int| old(self).commands().len() <= i < final(self).commands().len()
                ==> (#[trigger] final(self).commands()[i]).index == 8,
            r.is_ok() <==> cmd8_seen(final(self).commands(), old(self).commands().len() as int, final(self).commands().len() as int),
    {
        let mut command = MCIHostCmd::new();
        command.index = SdCmd::SendInterfaceCondition.index();
        command.argument = 0x1AA;
        command.response_type = MCIHostResponseType::R7;
        let mut content = MCIHostTransfer { data: None, cmd: Some(command) };
        let mut i = MCI_HOST_MAX_CMD_RETRIES;
        loop
            invariant
                old(self).kept(self),
                old(self).host_only(self),
                content.data is None,
                content.cmd is Some,
                content.cmd->0.index == 8 && content.cmd->0.argument == 0x1AA,
                content.cmd->0.response_type == MCIHostResponseType::R7,
                (self.commands().len() > old(self).commands().len() && self.last_command().index == 8
                    && self.last_command().argument == 0x1AA) || i == MCI_HOST_MAX_CMD_RETRIES,
                forall|k: int| old(self).commands().len() <= k < self.commands().len()
                    ==> (#[trigger] self.commands()[k]).index == 8 && !self.commands()[k].ok,
            decreases i,
        {
            let ghost l0 = self.commands();
            let err = match self.base.host {
                Some(ref mut host) => host.transfer(&mut content),
                None => return Err(MCIHostError::HostNotReady),
            };
            proof {
                let l1 = self.commands();
                assert(l1 == l0.push(l1.last()));
                assert forall|k: int| old(self).commands().len() <= k < l1.len()
                    implies (#[trigger] l1[k]).index == 8 && (l1[k].ok ==> k == l1.len() - 1) by {
                    if k < l0.len() {
                        assert(l1[k] == l0[k]);
                    }
                }
                if cmd8_seen(l1, old(self).commands().len() as int, l1.len() as int) {
                    let j = choose|j: int| old(self).commands().len() <= j < l1.len() && #[trigger] cmd8_ok(l1[j]);
                    assert(j == l1.len() - 1);
                }
                if err.is_ok() && content.cmd->0.response[0] & 0xFF == 0xAA {
                    assert(cmd8_ok(l1[l1.len() - 1]));
                }
            }
            match err {
                Err(e) => {
                    if i == 0 {
                        return Err(e);
                    }
                },
                Ok(_) => {
                    let resp0 = match content.cmd {
                        Some(ref c) => c.response[0],
                        None => 0,
                    };
                    if resp0 & 0xFF != 0xAA {
                        return Err(MCIHostError::CardNotSupport);
                    }
                    return Ok(());
                },
            }
            i = i - 1;
        }
    }

    /// Command 9: read the card specific data through the internal buffer
    /// and decode it. Failures: the transfer's error; a buffer too small:
    /// `Fail`.
    fn csd_send(&mut self) -> (r: MCIHostStatus)
        requires
            old(self).wf(),
        ensures
            old(self).kept(final(self)),
            final(self).scr == old(self).scr,
            final(self).cid == old(self).cid && final(self).base.relative_address == old(self).base.relative_address,
            old(self).base.host is None ==> r == Err::<(), MCIHostError>(MCIHostError::HostNotReady) && *final(self) == *old(self),
            old(self).base.host is Some ==> ({
                let rec = final(self).last_command();
                &&& final(self).commands().len() == old(self).commands().len() + 1
                &&& rec.index == 9 && rec.argument == old(self).base.relative_address << 16
                &&& (r is Ok <==> rec.ok && old(self).base.internal_buffer.contents().len() >= 16)
                &&& (rec.ok && r.is_err() ==> r == Err::<(), MCIHostError>(MCIHostError::Fail))
                &&& (!rec.ok ==> crate::mci_host::mci_sdif::sdif_device::transfer_error(r))
            }),
            r.is_ok() ==> ({
                let rec = final(self).last_command();
                &&& final(self).commands().len() > old(self).commands().len()
                &&& rec.index == 9 && rec.argument == old(self).base.relative_address << 16 && rec.ok
                &&& final(self).csd == csd_of(old(self).csd, rec.response@)
                &&& (final(self).block_count, final(self).base.block_size, final(self).flags)
                    == csd_capacity(final(self).csd, old(self).block_count, old(self).base.block_size, old(self).flags)
            }),
    {
        let rca = self.base.relative_address;
        let (err, response) = self.simple_command(MCIHostCommonCmd::SendCsd.index(), rca << 16, MCIHostResponseType::R2, MCIHostCmdType::Normal);
        err?;
        let raw = match self.through_internal_buffer(&response) {
            Some(raw) => raw,
            None => return Err(MCIHostError::Fail),
        };
        self.decode_csd(raw.as_slice());
        Ok(())
    }

    /// Command 11: switch the card to `voltage` signalling. The card must
    /// pull its lines low (within 1 ms: `CardStatusBusy` otherwise); the
    /// clock is stopped, the host switches, the clock restarts, and the
    /// card must release its lines (`SwitchVoltageFail` otherwise, and
    /// when the host cannot switch).
    fn voltage_switch(&mut self, voltage: MCIHostOperationVoltage) -> (r: MCIHostStatus)
        requires
            old(self).wf(),
        ensures
            old(self).kept(final(self)),
            old(self).host_only(final(self)),
            r != Err::<(), MCIHostError>(MCIHostError::SwitchVoltage18VFail33VSuccess),
            final(self).flags == old(self).flags,
            r.is_err() ==> r == Err::<(), MCIHostError>(MCIHostError::TransferFailed)
                || r == Err::<(), MCIHostError>(MCIHostError::CardStatusBusy)
                || r == Err::<(), MCIHostError>(MCIHostError::SwitchVoltageFail),
            old(self).base.host is None ==> r == Err::<(), MCIHostError>(MCIHostError::TransferFailed) && *final(self) == *old(self),
            old(self).base.host is Some ==> ({
                let rec = final(self).commands()[old(self).commands().len() as int];
                &&& final(self).commands().len() == old(self).commands().len() + 1
                &&& rec.index == 11 && rec.argument == 0
                &&& (r == Err::<(), MCIHostError>(MCIHostError::TransferFailed) <==> !rec.ok)
            }),
    {
        let (err, _) = self.simple_command(SdCmd::VoltageSwitch.index(), 0, MCIHostResponseType::R1, MCIHostCmdType::Normal);
        if err.is_err() {
            return Err(MCIHostError::TransferFailed);
        }
        match self.base.host {
            Some(ref mut host) => {
                if !host.card_is_busy() {
                    B::sleep(crate::millis(1));
                    if !host.card_is_busy() {
                        return Err(MCIHostError::CardStatusBusy);
                    }
                }
                let _ = host.card_clock_set(0);
            },
            None => return Err(MCIHostError::HostNotReady),
        }
        if is_error(&self.switch_io_voltage(voltage), MCIHostError::NotSupportYet) {
            return Err(MCIHostError::SwitchVoltageFail);
        }
        B::sleep(crate::millis(10));
        let clk = self.base.bus_clk_hz;
        match self.base.host {
            Some(ref mut host) => {
                let _ = host.card_clock_set(clk);
                B::sleep(crate::millis(1));
                if host.card_is_busy() {
                    return Err(MCIHostError::SwitchVoltageFail);
                }
            },
            None => return Err(MCIHostError::HostNotReady),
        }
        Ok(())
    }

    /// Command 12 (abort, R1b). Failure: `TransferFailed`.
    fn transmission_stop(&mut self) -> (r: MCIHostStatus)
        requires
            old(self).wf(),
        ensures
            old(self).kept(final(self)),
            old(self).host_only(final(self)),
            old(self).base.host is Some ==> old(self).ran_one(final(self), 12, 0, MCIHostResponseType::R1b)
                && r == ran_outcome(final(self).last_command()),
            final(self).flags == old(self).flags,
    {
        let (err, _) = self.simple_command(MCIHostCommonCmd::StopTransmission.index(), 0, MCIHostResponseType::R1b, MCIHostCmdType::Abort);
        if err.is_err() {
            return Err(MCIHostError::TransferFailed);
        }
        Ok(())
    }

    /// Command 13, tried up to ten times while it fails: the first answer
    /// decides (see `card_status_spec`); every try failing: `Ok`.
    fn card_status_send(&mut self) -> (r: MCIHostStatus)
        requires
            old(self).wf(),
        ensures
            old(self).kept(final(self)),
            old(self).host_only(final(self)),
            r.is_err() && r != Err::<(), MCIHostError>(MCIHostError::HostNotReady) ==> ({
                let rec = final(self).last_command();
                &&& final(self).commands().len() > old(self).commands().len()
                &&& rec.index == 13
                &&& rec.argument == old(self).base.relative_address << 16
                &&& rec.ok
                &&& r == Err::<(), MCIHostError>(protocol::card_status_spec(rec.response[0]))
            }),
            final(self).flags == old(self).flags,
            r is Ok || r == Err::<(), MCIHostError>(MCIHostError::CardStatusIdle)
                || r == Err::<(), MCIHostError>(MCIHostError::CardStatusBusy)
                || r == Err::<(), MCIHostError>(MCIHostError::HostNotReady),
            old(self).base.host is None <==> r == Err::<(), MCIHostError>(MCIHostError::HostNotReady),
            r is Ok ==> ({
                let log = final(self).commands();
                let from = old(self).commands().len() as int;
                &&& log.len() == from + SD_CMD13_RETRY_TIMES
                &&& forall|i: int| from <= i < log.len() ==> (#[trigger] log[i]).index == 13 && !log[i].ok
                    && log[i].argument == old(self).base.relative_address << 16
            }),
            forall|i: int| old(self).commands().len() <= i < final(self).commands().len()
                ==> (#[trigger] final(self).commands()[i]).index == 13
                    && final(self).commands()[i].argument == old(self).base.relative_address << 16,
            r != Err::<(), MCIHostError>(MCIHostError::CardStatusIdle) ==> forall|i: int|
                old(self).commands().len() <= i < final(self).commands().len()
                ==> !idle_answer(#[trigger] final(self).commands()[i], old(self).base.relative_address),
    {
        let rca = self.base.relative_address;
        let mut retry = SD_CMD13_RETRY_TIMES;
        while retry > 0
            invariant
                old(self).kept(self),
                old(self).host_only(self),
                rca == old(self).base.relative_address,
                retry <= SD_CMD13_RETRY_TIMES,
                old(self).base.host is None ==> *self == *old(self),
                ({
                    let log = self.commands();
                    let from = old(self).commands().len() as int;
                    &&& log.len() == from + (SD_CMD13_RETRY_TIMES - retry)
                    &&& forall|i: int| from <= i < log.len() ==> (#[trigger] log[i]).index == 13 && !log[i].ok
                        && log[i].argument == rca << 16
                }),
            decreases retry,
        {
            let (err, response) = self.simple_command(MCIHostCommonCmd::SendStatus.index(), rca << 16, MCIHostResponseType::R1, MCIHostCmdType::Normal);
            if is_error(&err, MCIHostError::HostNotReady) {
                return err;
            }
            if err.is_err() {
                retry = retry - 1;
                continue;
            }
            proof {
                let log = self.commands();
                assert(log[log.len() - 1] == self.last_command());
            }
            return Err(card_status_of(response[0]));
        }
        Ok(())
    }

    /// Command 16.
    fn block_size_set(&mut self, block_size: u32) -> (r: MCIHostStatus)
        requires
            old(self).wf(),
        ensures
            old(self).kept(final(self)),
            old(self).host_only(final(self)),
            old(self).base.host is Some ==> old(self).ran_one(final(self), 16, block_size, MCIHostResponseType::R1)
                && r == r1_outcome(final(self).last_command()),
    {
        match self.base.host {
            Some(ref mut host) => host.block_size_set(block_size),
            None => Err(MCIHostError::HostNotReady),
        }
    }

    /// Commands 17 and 18: read `block_count` blocks of `block_size` bytes
    /// from `start_block` (see `block_address_spec`) into `buffer`, after
    /// waiting for the card to be idle.
    ///
    /// Errors: a block size the card or host does not take
    /// (`CardNotSupport`, nothing sent; see `block_size_supported`), no
    /// host (`HostNotReady`), the card not idle (`PollingCardIdleFailed`:
    /// only status commands sent, none answering idle), the transfer's
    /// error, no data back (`TransferFailed`). The read command goes with
    /// an R1 response and asks for the automatic stop.
    fn read(&mut self, buffer: &mut Vec<u32>, start_block: u32, block_size: u32, block_count: u32) -> (r: MCIHostStatus)
        requires
            old(self).wf(),
            block_size * block_count <= u32::MAX,
        ensures
            old(self).kept(final(self)),
            old(self).base.host matches Some(h) && !protocol::block_size_supported(old(self).flags, block_size, old(self).base.block_size, h.max_block_size)
                ==> r == Err::<(), MCIHostError>(MCIHostError::CardNotSupport) && *final(self) == *old(self),
            r.is_err() ==> final(buffer)@ == old(buffer)@,
            r.is_ok() ==> final(buffer)@.len() == block_size * block_count / 4,
            final(self).base.block_size == old(self).base.block_size,
            final(self).flags == old(self).flags,
            r.is_ok() ==> ({
                let rec = final(self).last_command();
                &&& final(self).commands().len() > old(self).commands().len()
                &&& rec.index == (if block_count == 1 { 17u32 } else { 18u32 })
                &&& rec.argument == protocol::block_address_spec(old(self).flags, start_block, block_size)
                &&& rec.ok && rec.received == Some(final(buffer)@)
            }),
            r.is_err() ==> r == Err::<(), MCIHostError>(MCIHostError::CardNotSupport)
                || r == Err::<(), MCIHostError>(MCIHostError::HostNotReady)
                || r == Err::<(), MCIHostError>(MCIHostError::PollingCardIdleFailed)
                || r == Err::<(), MCIHostError>(MCIHostError::TransferFailed)
                || r == Err::<(), MCIHostError>(MCIHostError::TuningFail),
            old(self).base.host is None ==> r.is_err() && *final(self) == *old(self),
            old(self).base.host matches Some(h) && protocol::block_size_supported(old(self).flags, block_size, old(self).base.block_size, h.max_block_size)
                && r != Err::<(), MCIHostError>(MCIHostError::PollingCardIdleFailed)
                ==> final(self).commands().len() > old(self).commands().len(),
            old(self).base.host matches Some(h) && protocol::block_size_supported(old(self).flags, block_size, old(self).base.block_size, h.max_block_size)
                && r != Err::<(), MCIHostError>(MCIHostError::PollingCardIdleFailed)
                ==> handed(final(self).commands(), old(self).commands().len() as int, if block_count == 1 { 17u32 } else { 18u32 },
                    protocol::block_address_spec(old(self).flags, start_block, block_size), None, MCIHostResponseType::R1, true, block_count)
                && card_said_idle(final(self).commands(), old(self).commands().len() as int, old(self).base.relative_address),
            r == Err::<(), MCIHostError>(MCIHostError::PollingCardIdleFailed) ==> forall|i: int|
                old(self).commands().len() <= i < final(self).commands().len()
                ==> (#[trigger] final(self).commands()[i]).index == 13
                    && !idle_answer(final(self).commands()[i], old(self).base.relative_address),
            r == Err::<(), MCIHostError>(MCIHostError::PollingCardIdleFailed)
                ==> final(self).idle_waited() == old(self).idle_waited().push(false),
            old(self).base.host matches Some(h) && protocol::block_size_supported(old(self).flags, block_size, old(self).base.block_size, h.max_block_size)
                && r != Err::<(), MCIHostError>(MCIHostError::PollingCardIdleFailed)
                ==> final(self).idle_waited().len() > old(self).idle_waited().len()
                    && final(self).idle_waited()[old(self).idle_waited().len() as int],
    {
        let max_bs = match self.base.host {
            Some(ref h) => h.max_block_size,
            None => {
                if (self.flags & SdCardFlag::SupportHighCapacity != 0 && block_size != 512) || block_size > self.base.block_size {
                    return Err(MCIHostError::CardNotSupport);
                }
                return Err(MCIHostError::HostNotReady);
            },
        };
        if !check_block_size(self.flags, block_size, self.base.block_size, max_bs) {
            return Err(MCIHostError::CardNotSupport);
        }
        if !is_error(&self.polling_card_status_busy(SD_CARD_ACCESS_WAIT_IDLE_TIMEOUT), MCIHostError::CardStatusIdle) {
            return Err(MCIHostError::PollingCardIdleFailed);
        }
        let mut command = MCIHostCmd::new();
        command.index = if block_count == 1 {
            MCIHostCommonCmd::ReadSingleBlock.index()
        } else {
            MCIHostCommonCmd::ReadMultipleBlock.index()
        };
        command.argument = block_address(self.flags, start_block, block_size);
        command.response_type = MCIHostResponseType::R1;
        command.response_error_flags = MCIHostCardStatusFlag::ALL_ERROR_FLAG;
        let mut data = MCIHostData::new();
        data.block_size = block_size as usize;
        data.block_count = block_count;
        let len = block_size * block_count / 4;
        data.rx_data = Some(zeroed(len as usize));
        data.enable_auto_command12 = true;
        let mut context = MCIHostTransfer { data: Some(data), cmd: Some(command) };
        let ghost log0 = self.commands();
        let outcome = self.transfer(&mut context, 3);
        proof {
            assert(handed_blocks(self.commands(), log0.len() as int, if block_count == 1 { 17u32 } else { 18u32 },
                protocol::block_address_spec(old(self).flags, start_block, block_size), None, MCIHostResponseType::R1, true, block_count));
            lemma_idle_kept(log0, self.commands(), old(self).commands().len() as int, old(self).base.relative_address);
        }
        outcome?;
        let rx = match context.data {
            Some(ref mut d) => d.rx_data_take(),
            None => None,
        };
        match rx {
            Some(v) => {
                *buffer = v;
                Ok(())
            },
            None => Err(MCIHostError::TransferFailed),
        }
    }

    /// Command 19: run the tuning and keep its block in the internal
    /// buffer. The buffer too small: `Fail`; otherwise the tuning's
    /// outcome.
    fn tuning_execute(&mut self) -> (r: MCIHostStatus)
        requires
            old(self).wf(),
        ensures
            old(self).kept(final(self)),
            old(self).base.internal_buffer.contents().len() < 256 ==> r == Err::<(), MCIHostError>(MCIHostError::Fail),
            old(self).base.internal_buffer.contents().len() >= 256 ==> (r is Ok <==> old(self).base.host is Some)
                && (old(self).base.host is None ==> r == Err::<(), MCIHostError>(MCIHostError::HostNotReady)),
            final(self).base.internal_buffer.contents().len() == old(self).base.internal_buffer.contents().len(),
    {
        let mut buffer = vec![0u32; 64];
        let status = match self.base.host {
            Some(ref mut host) => host.dev.execute_tuning(SdCmd::SendTuningBlock.index(), &mut buffer, 64),
            None => Err(MCIHostError::HostNotReady),
        };
        self.base.internal_buffer.clear();
        if self.base.internal_buffer.copy_from_slice(buffer.as_slice()).is_err() {
            return Err(MCIHostError::Fail);
        }
        status
    }

    /// Commands 24 and 25: write `block_count` blocks of `block_size` bytes
    /// from `buffer` at `start_block` (see `block_address_spec`), after
    /// waiting for the card to be idle, then ask the card how many blocks
    /// it stored (`written_blocks`, first set to `block_count`).
    ///
    /// Errors: a block size the card or host does not take
    /// (`CardNotSupport`, nothing sent), no host (`HostNotReady`), the card
    /// not idle (`PollingCardIdleFailed`: only status commands sent, none
    /// answering idle), the transfer's or the count's error, no block
    /// stored (`TransferFailed`). The write command goes with an R1
    /// response.
    pub fn write(&mut self, buffer: &[u32], start_block: u32, block_size: u32, block_count: u32, written_blocks: &mut u32) -> (r: MCIHostStatus)
        requires
            old(self).wf(),
            block_size * block_count <= u32::MAX,
        ensures
            old(self).kept(final(self)),
            final(self).flags == old(self).flags,
            final(self).base.block_size == old(self).base.block_size,
            old(self).base.host matches Some(h) && !protocol::block_size_supported(old(self).flags, block_size, old(self).base.block_size, h.max_block_size)
                ==> r == Err::<(), MCIHostError>(MCIHostError::CardNotSupport) && *final(self) == *old(self)
                && *final(written_blocks) == *old(written_blocks),
            r.is_ok() ==> final(self).commands().len() > old(self).commands().len(),
            r.is_ok() ==> wrote(final(self).commands(), old(self).commands().len() as int, if block_count == 1 { 24u32 } else { 25u32 },
                protocol::block_address_spec(old(self).flags, start_block, block_size), buffer@),
            r.is_err() ==> r == Err::<(), MCIHostError>(MCIHostError::CardNotSupport)
                || r == Err::<(), MCIHostError>(MCIHostError::HostNotReady)
                || r == Err::<(), MCIHostError>(MCIHostError::PollingCardIdleFailed)
                || r == Err::<(), MCIHostError>(MCIHostError::TransferFailed)
                || r == Err::<(), MCIHostError>(MCIHostError::TuningFail)
                || r == Err::<(), MCIHostError>(MCIHostError::WaitWriteCompleteFailed)
                || r == Err::<(), MCIHostError>(MCIHostError::SendApplicationCommandFailed),
            old(self).base.host is None ==> r.is_err() && *final(self) == *old(self),
            old(self).base.host matches Some(h) && protocol::block_size_supported(old(self).flags, block_size, old(self).base.block_size, h.max_block_size)
                && r != Err::<(), MCIHostError>(MCIHostError::PollingCardIdleFailed)
                ==> final(self).commands().len() > old(self).commands().len(),
            old(self).base.host matches Some(h) && protocol::block_size_supported(old(self).flags, block_size, old(self).base.block_size, h.max_block_size)
                && r != Err::<(), MCIHostError>(MCIHostError::PollingCardIdleFailed)
                ==> handed(final(self).commands(), old(self).commands().len() as int, if block_count == 1 { 24u32 } else { 25u32 },
                    protocol::block_address_spec(old(self).flags, start_block, block_size), Some(buffer@), MCIHostResponseType::R1, false, block_count)
                && card_said_idle(final(self).commands(), old(self).commands().len() as int, old(self).base.relative_address),
            r == Err::<(), MCIHostError>(MCIHostError::PollingCardIdleFailed) ==> forall|i: int|
                old(self).commands().len() <= i < final(self).commands().len()
                ==> (#[trigger] final(self).commands()[i]).index == 13
                    && !idle_answer(final(self).commands()[i], old(self).base.relative_address),
            r == Err::<(), MCIHostError>(MCIHostError::PollingCardIdleFailed)
                ==> final(self).idle_waited() == old(self).idle_waited().push(false),
            old(self).base.host matches Some(h) && protocol::block_size_supported(old(self).flags, block_size, old(self).base.block_size, h.max_block_size)
                && r != Err::<(), MCIHostError>(MCIHostError::PollingCardIdleFailed)
                ==> final(self).idle_waited().len() > old(self).idle_waited().len()
                    && final(self).idle_waited()[old(self).idle_waited().len() as int],
            r.is_ok() ==> *final(written_blocks) != 0 && (*final(written_blocks) == block_count || {
                let rec = final(self).last_command();
                &&& final(self).commands().len() > old(self).commands().len()
                &&& rec.index == 22 && rec.ok
                &&& *final(written_blocks) == crate::tools::bytes_reversed(rec.response[0])
            }),
    {
        let max_bs = match self.base.host {
            Some(ref h) => h.max_block_size,
            None => {
                if (self.flags & SdCardFlag::SupportHighCapacity != 0 && block_size != 512) || block_size > self.base.block_size {
                    return Err(MCIHostError::CardNotSupport);
                }
                return Err(MCIHostError::HostNotReady);
            },
        };
        if !check_block_size(self.flags, block_size, self.base.block_size, max_bs) {
            return Err(MCIHostError::CardNotSupport);
        }
        if !is_error(&self.polling_card_status_busy(SD_CARD_ACCESS_WAIT_IDLE_TIMEOUT), MCIHostError::CardStatusIdle) {
            return Err(MCIHostError::PollingCardIdleFailed);
        }
        let mut command = MCIHostCmd::new();
        command.response_type = MCIHostResponseType::R1;
        command.response_error_flags = MCIHostCardStatusFlag::ALL_ERROR_FLAG;
        command.index = if block_count == 1 {
            MCIHostCommonCmd::WriteSingleBlock.index()
        } else {
            MCIHostCommonCmd::WriteMultipleBlock.index()
        };
        command.argument = block_address(self.flags, start_block, block_size);
        let mut data = MCIHostData::new();
        data.enable_auto_command12 = false;
        data.block_size = block_size as usize;
        data.block_count = block_count;
        let mut tx: Vec<u32> = Vec::new();
        let mut i: usize = 0;
        while i < buffer.len()
            invariant
                i <= buffer@.len(),
                tx@ == buffer@.subrange(0, i as int),
            decreases buffer@.len() - i,
        {
            tx.push(buffer[i]);
            i = i + 1;
            assert(tx@ =~= buffer@.subrange(0, i as int));
        }
        assert(tx@ =~= buffer@);
        data.tx_data = Some(tx);
        *written_blocks = block_count;
        let mut content = MCIHostTransfer { data: Some(data), cmd: Some(command) };
        let ghost c0 = content.cmd->0;
        let ghost log0 = self.commands();
        let outcome = self.transfer(&mut content, 3);
        proof {
            assert(handed_blocks(self.commands(), log0.len() as int, if block_count == 1 { 24u32 } else { 25u32 },
                protocol::block_address_spec(old(self).flags, start_block, block_size), Some(buffer@), MCIHostResponseType::R1, false, block_count));
            lemma_idle_kept(log0, self.commands(), old(self).commands().len() as int, old(self).base.relative_address);
        }
        outcome?;
        let ghost log1 = self.commands();
        proof {
            let i = log1.len() - 1;
            assert(log1[i].sent == Some(buffer@));
            assert(log1[i].ok && log1[i].index == c0.index && log1[i].argument == c0.argument);
            assert(old(self).commands().len() <= log0.len() < log1.len());
        }
        let ghost log_w = self.commands();
        let sent = self.write_successful_block_send(written_blocks);
        proof {
            assert(handed_blocks(self.commands(), log0.len() as int, if block_count == 1 { 24u32 } else { 25u32 },
                protocol::block_address_spec(old(self).flags, start_block, block_size), Some(buffer@), MCIHostResponseType::R1, false, block_count));
            lemma_idle_kept(log_w, self.commands(), old(self).commands().len() as int, old(self).base.relative_address);
        }
        sent?;
        if *written_blocks == 0 {
            return Err(MCIHostError::TransferFailed);
        }
        proof {
            let log = self.commands();
            let i = log1.len() - 1;
            assert(log[i] == log1[i]);
            assert(wrote(log, old(self).commands().len() as int, c0.index, c0.argument, buffer@));
        }
        Ok(())
    }

    /// Command 55 for the card at `relative_address`.
    fn application_cmd_send(&mut self, relative_address: u32) -> (r: MCIHostStatus)
        requires
            old(self).wf(),
        ensures
            old(self).kept(final(self)),
            old(self).host_only(final(self)),
            old(self).base.host is Some ==> old(self).ran_one(final(self), 55, relative_address << 16, MCIHostResponseType::R1)
                && r == app_outcome(final(self).last_command()),
            old(self).base.host is None ==> r == Err::<(), MCIHostError>(MCIHostError::HostNotReady) && *final(self) == *old(self),
            final(self).flags == old(self).flags,
    {
        match self.base.host {
            Some(ref mut host) => host.application_command_send(relative_address),
            None => Err(MCIHostError::HostNotReady),
        }
    }

    /// Application command 6: set the card's bus width (see
    /// `bus_width_argument_spec`). Errors: the application command failing
    /// (`SendApplicationCommandFailed`), eight lines (`InvalidArgument`),
    /// the command failing (`TransferFailed`).
    fn data_bus_width_set(&mut self, width: MCIHostBusWdith) -> (r: MCIHostStatus)
        requires
            old(self).wf(),
        ensures
            old(self).kept(final(self)),
            old(self).host_only(final(self)),
            width == MCIHostBusWdith::Bit8 ==> r.is_err(),
            old(self).base.host is None ==> r == Err::<(), MCIHostError>(MCIHostError::SendApplicationCommandFailed)
                && *final(self) == *old(self),
            old(self).base.host is Some ==> ({
                let log = final(self).commands();
                let n = old(self).commands().len() as int;
                let app = log[n];
                &&& log.len() > n
                &&& app.index == 55 && app.argument == old(self).base.relative_address << 16
                &&& (r == Err::<(), MCIHostError>(MCIHostError::SendApplicationCommandFailed) <==> app_outcome(app).is_err())
                &&& app_outcome(app).is_err() ==> log.len() == n + 1
                &&& app_outcome(app) is Ok && width == MCIHostBusWdith::Bit8
                    ==> r == Err::<(), MCIHostError>(MCIHostError::InvalidArgument) && log.len() == n + 1
                &&& app_outcome(app) is Ok && width != MCIHostBusWdith::Bit8 ==> log.len() == n + 2
                    && log[n + 1].index == 6 && (r is Ok <==> log[n + 1].ok)
                    && (r.is_err() ==> r == Err::<(), MCIHostError>(MCIHostError::TransferFailed))
            }),
            r.is_ok() ==> ({
                let rec = final(self).last_command();
                &&& rec.index == 6 && rec.ok
                &&& protocol::bus_width_argument_spec(width) == Ok::<u32, MCIHostError>(rec.argument)
            }),
            final(self).flags == old(self).flags,
    {
        let rca = self.base.relative_address;
        if self.application_cmd_send(rca).is_err() {
            return Err(MCIHostError::SendApplicationCommandFailed);
        }
        if self.base.host.is_none() {
            return Err(MCIHostError::HostNotReady);
        }
        let arg = bus_width_argument(width)?;
        let (err, _) = self.simple_command(SdAppCmd::SetBusWdith.index(), arg, MCIHostResponseType::R1, MCIHostCmdType::Normal);
        if err.is_err() {
            return Err(MCIHostError::TransferFailed);
        }
        Ok(())
    }

    /// Application command 13 (SD status); not read by this driver.
    fn status_read(&mut self) -> (r: MCIHostStatus)
        ensures
            r is Ok,
            *final(self) == *old(self),
    {
        Ok(())
    }

    /// Application command 41 with `argument`, tried up to ten times (10
    /// ms apart) until the card reports that it powered up; then its
    /// capacity and 1.8 V flags are taken (see `ocr_card_flags`) and its
    /// operation conditions kept. A failed command 41: `TransferFailed`.
    /// A card that never powers up: `Ok` with nothing taken.
    fn application_opration_condition_send(&mut self, argument: u32) -> (r: MCIHostStatus)
        requires
            old(self).wf(),
        ensures
            old(self).kept(final(self)),
            final(self).scr == old(self).scr,
            old(self).ids_kept(final(self)),
            final(self).operation_voltage == old(self).operation_voltage,
            final(self).current_timing == old(self).current_timing,
            final(self).flags == old(self).flags || ({
                let rec = final(self).last_command();
                &&& rec.index == 41 && rec.argument == argument && rec.ok
                &&& rec.response[0] & MCIHostOCR::POWER_UP_BUSY_FLAG != 0
                &&& final(self).base.ocr == rec.response[0]
                &&& final(self).flags == protocol::ocr_card_flags(rec.response[0], old(self).flags)
            }),
            r.is_err() ==> r == Err::<(), MCIHostError>(MCIHostError::TransferFailed) && ({
                let rec = final(self).last_command();
                &&& final(self).commands().len() > old(self).commands().len()
                &&& rec.index == 41 && rec.argument == argument && !rec.ok
            }),
            old(self).base.host is None ==> r is Ok && *final(self) == *old(self),
            old(self).base.host is Some ==> final(self).commands().len() > old(self).commands().len(),
            forall|k: int| old(self).commands().len() <= k < final(self).commands().len()
                ==> (#[trigger] final(self).commands()[k]).index == 55
                    || (final(self).commands()[k].index == 41 && final(self).commands()[k].argument == argument),
            forall|k: int| old(self).commands().len() <= k < final(self).commands().len()
                && (#[trigger] final(self).commands()[k]).index == 41 && final(self).commands()[k].ok
                && final(self).commands()[k].response[0] & MCIHostOCR::POWER_UP_BUSY_FLAG != 0
                ==> final(self).flags == protocol::ocr_card_flags(final(self).commands()[k].response[0], old(self).flags),
    {
        let mut i = MCI_HOST_MAX_CMD_RETRIES;
        while i > 0
            invariant
                old(self).kept(self),
                old(self).host_only(self),
                i <= MCI_HOST_MAX_CMD_RETRIES,
                old(self).base.host is None ==> *self == *old(self),
                old(self).base.host is Some && i < MCI_HOST_MAX_CMD_RETRIES ==> self.commands().len() > old(self).commands().len(),
                forall|k: int| old(self).commands().len() <= k < self.commands().len()
                    ==> (#[trigger] self.commands()[k]).index == 55
                        || (self.commands()[k].index == 41 && self.commands()[k].argument == argument),
                forall|k: int| old(self).commands().len() <= k < self.commands().len()
                    && (#[trigger] self.commands()[k]).index == 41 && self.commands()[k].ok
                    ==> self.commands()[k].response[0] & MCIHostOCR::POWER_UP_BUSY_FLAG == 0,
                self.flags == old(self).flags,
            decreases i,
        {
            if self.application_cmd_send(0).is_err() {
                i = i - 1;
                continue;
            }
            let (err, response) = self.simple_command(SdAppCmd::SendOperationCondition.index(), argument, MCIHostResponseType::R3, MCIHostCmdType::Normal);
            if err.is_err() {
                return Err(MCIHostError::TransferFailed);
            }
            let resp0 = response[0];
            if resp0 & MCIHostOCR::POWER_UP_BUSY_FLAG != 0 {
                self.flags = card_flags_from_ocr(resp0, self.flags);
                self.base.ocr = resp0;
                return Ok(());
            }
            i = i - 1;
            B::sleep(crate::millis(10));
        }
        Ok(())
    }

    /// Application command 51: read the SD configuration register (8
    /// bytes, most significant bit first), convert it to little-endian
    /// order and decode it. Errors: the application command failing
    /// (`SendApplicationCommandFailed`), the transfer's error, no data
    /// back (`TransferFailed`).
    fn scr_send(&mut self) -> (r: MCIHostStatus)
        requires
            old(self).wf(),
        ensures
            old(self).kept(final(self)),
            old(self).ids_kept(final(self)),
            old(self).base.host is None ==> r == Err::<(), MCIHostError>(MCIHostError::SendApplicationCommandFailed)
                && *final(self) == *old(self),
            old(self).base.host is Some ==> ({
                let log = final(self).commands();
                let n = old(self).commands().len() as int;
                let app = log[n];
                &&& log.len() > n
                &&& app.index == 55 && app.argument == old(self).base.relative_address << 16
                &&& (r == Err::<(), MCIHostError>(MCIHostError::SendApplicationCommandFailed) <==> app_outcome(app).is_err())
                &&& app_outcome(app) is Ok ==> log.len() > n + 1
            }),
            r.is_err() ==> r == Err::<(), MCIHostError>(MCIHostError::SendApplicationCommandFailed)
                || crate::mci_host::mci_sdif::sdif_device::transfer_error(r),
            r.is_ok() ==> ({
                let rec = final(self).last_command();
                let endian = old(self).base.host->0.config.endian_mode;
                &&& final(self).commands().len() > old(self).commands().len()
                &&& rec.index == 51 && rec.ok
                &&& rec.received matches Some(raw) && raw.len() >= 2
                    && final(self).scr == scr_of(old(self).scr, seq![
                        crate::mci_host::mci_sdif::sdif_device::to_little_endian(raw[0], endian, MCIHostDataPacketFormat::MSBFirst),
                        crate::mci_host::mci_sdif::sdif_device::to_little_endian(raw[1], endian, MCIHostDataPacketFormat::MSBFirst)])
            }),
    {
        let rca = self.base.relative_address;
        if self.application_cmd_send(rca).is_err() {
            return Err(MCIHostError::SendApplicationCommandFailed);
        }
        let mut command = MCIHostCmd::new();
        command.index = SdAppCmd::SendScr.index();
        command.response_type = MCIHostResponseType::R1;
        let mut data = MCIHostData::new();
        data.block_size = 8;
        data.block_count = 1;
        data.rx_data = Some(vec![0u32; 8]);
        let mut content = MCIHostTransfer { data: Some(data), cmd: Some(command) };
        let (err, endian) = match self.base.host {
            Some(ref mut host) => (host.transfer(&mut content), host.config.endian_mode),
            None => return Err(MCIHostError::HostNotReady),
        };
        err?;
        let mut raw = match content.data {
            Some(ref mut d) => match d.rx_data_take() {
                Some(v) => v,
                None => return Err(MCIHostError::TransferFailed),
            },
            None => return Err(MCIHostError::TransferFailed),
        };
        let ghost received = raw@;
        let _ = SDIFDev::<B>::convert_data_to_little_endian(&mut raw, 2, MCIHostDataPacketFormat::MSBFirst, endian);
        if raw.len() < 2 {
            return Err(MCIHostError::TransferFailed);
        }
        let ghost scr0 = self.scr;
        self.decode_scr(raw.as_slice());
        proof {
            let w = seq![
                crate::mci_host::mci_sdif::sdif_device::to_little_endian(received[0], endian, MCIHostDataPacketFormat::MSBFirst),
                crate::mci_host::mci_sdif::sdif_device::to_little_endian(received[1], endian, MCIHostDataPacketFormat::MSBFirst)];
            assert(raw@[0] == w[0] && raw@[1] == w[1]);
            assert(scr_of(scr0, raw@) == scr_of(scr0, w));
        }
        Ok(())
    }

    /// Decode the identification register from the four response words.
    fn decode_cid(&mut self, raw: &[u32])
        requires
            old(self).wf(),
            raw@.len() >= 4,
        ensures
            old(self).kept(final(self)),
            *final(self) == (SdCard { cid: cid_of(raw@), ..*old(self) }),
    {
        self.cid = SdCid::decode(raw);
    }

    /// Decode the card specific data from the four response words and take
    /// the card's capacity from it (see `csd_of` and `csd_capacity`).
    fn decode_csd(&mut self, raw: &[u32])
        requires
            old(self).wf(),
            raw@.len() >= 4,
        ensures
            old(self).kept(final(self)),
            final(self).scr == old(self).scr,
            final(self).cid == old(self).cid && final(self).base.relative_address == old(self).base.relative_address,
            final(self).csd == csd_of(old(self).csd, raw@),
            final(self).base.host == old(self).base.host,
            (final(self).block_count, final(self).base.block_size, final(self).flags)
                == csd_capacity(final(self).csd, old(self).block_count, old(self).base.block_size, old(self).flags),
    {
        proof {
            lemma_csd_of_in_range(self.csd, raw@);
        }
        self.csd.decode(raw);
        let (bc, bs, flags) = self.csd.capacity(self.block_count, self.base.block_size, self.flags);
        self.block_count = bc;
        self.base.block_size = bs;
        self.flags = flags;
    }

    /// Decode the SD configuration register from its two words and take the
    /// specification version and card flags from it (see `scr_of`,
    /// `scr_version` and `scr_card_flags`).
    fn decode_scr(&mut self, raw: &[u32])
        requires
            old(self).wf(),
            raw@.len() >= 2,
        ensures
            old(self).kept(final(self)),
            old(self).ids_kept(final(self)),
            final(self).scr == scr_of(old(self).scr, raw@),
            final(self).base.host == old(self).base.host,
            final(self).version == scr_version(final(self).scr, old(self).version),
            final(self).flags == scr_card_flags(final(self).scr, old(self).flags),
    {
        self.scr.decode(raw);
        self.version = self.scr.version(self.version);
        self.flags = self.scr.card_flags(self.flags);
    }

    /// What the card summary shows: product name, version, SDHC and SDXC,
    /// capacity in GiB, bus speed, voltage, timing, current limit and
    /// driver type.
    pub fn card_dump(&self) -> (r: SdCardSummary)
        ensures
            r.name == self.cid.product_name,
            r.version == self.version,
            r.sdhc == (self.flags & SdCardFlag::SupportSdhc != 0),
            r.sdxc == (self.flags & SdCardFlag::SupportSdxc != 0),
            r.size_gb == (self.block_count as int * self.base.block_size as int) / (SZ_1G as int),
            r.bus_speed == bus_speed_of(self.base.bus_clk_hz),
            r.voltage == self.operation_voltage,
            r.timing == timing_name_of(self.current_timing, self.operation_voltage),
            r.max_current == self.max_current,
            r.driver_strength == self.driver_strength,
    {
        let hz = self.base.bus_clk_hz;
        let bus_speed = if hz > 1_000_000 {
            BusSpeed::MHz(hz / 1_000_000)
        } else if hz > 1000 {
            BusSpeed::KHz(hz / 1000)
        } else {
            BusSpeed::Hz(hz)
        };
        let v = self.operation_voltage;
        let timing = match self.current_timing {
            SdTimingMode::SDR12DefaultMode => if v == MCIHostOperationVoltage::Voltage330V {
                TimingName::DefaultSpeed
            } else if v == MCIHostOperationVoltage::Voltage180V {
                TimingName::SDR12
            } else {
                TimingName::Unnamed
            },
            SdTimingMode::SDR25HighSpeedMode => if v == MCIHostOperationVoltage::Voltage330V {
                TimingName::HighSpeed
            } else if v == MCIHostOperationVoltage::Voltage180V {
                TimingName::SDR25
            } else {
                TimingName::Unnamed
            },
            SdTimingMode::SDR50Mode => TimingName::SDR50,
            SdTimingMode::SDR104Mode => TimingName::SDR104,
            SdTimingMode::DDR50Mode => TimingName::DDR50,
        };
        let bc = self.block_count as u64;
        let bs = self.base.block_size as u64;
        assert(bc * bs <= 0xFFFF_FFFF * 0xFFFF_FFFF) by (nonlinear_arith)
            requires bc <= 0xFFFF_FFFF, bs <= 0xFFFF_FFFF;
        let bytes: u64 = bc * bs;
        SdCardSummary {
            name: self.cid.product_name,
            version: self.version,
            sdhc: self.flags & SdCardFlag::SupportSdhc != 0,
            sdxc: self.flags & SdCardFlag::SupportSdxc != 0,
            size_gb: bytes / SZ_1G,
            bus_speed,
            voltage: v,
            timing,
            max_current: self.max_current,
            driver_strength: self.driver_strength,
        }
    }
}

} // verus!
