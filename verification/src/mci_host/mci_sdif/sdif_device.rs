//! The SDIF controller serving as the card host's device: turning host
//! transfers into controller commands and running them by programmed I/O.

use vstd::prelude::*;

use super::consts::SDStatus;
use crate::mci::consts::{MCICmdFlag, MCIIntrType};
use crate::mci::mci_cmddata::MCICmdData;
use crate::mci::mci_config::MCIConfig;
use crate::mci::mci_data::MCIData;
use crate::mci::regs::MCIIntMask;
use crate::mci::MCI;
use crate::mci_host::constants::{
    bus_width_lines, MCIHostBusWdith, MCIHostCardStatusFlag, MCIHostCommonCmd, MCIHostDataPacketFormat,
    MCIHostResponseType,
};
use crate::mci_host::err::{MCIHostError, MCIHostStatus};
use crate::mci_host::mci_host_config::{MCIHostCardType, MCIHostEndianMode};
use crate::mci_host::mci_host_transfer::{MCIHostCmd, MCIHostData, MCIHostTransfer};
use crate::regs::RegisterIo;
use crate::tools::{
    bytes_reversed, half_words_swapped, lemma_byte_reverse_involutive, lemma_half_word_swap_involutive,
    swap_half_word_byte_sequence_u32, swap_word_byte_sequence_u32,
};

verus! {

/// The controller flags of a command with index `index`, argument `arg`,
/// response kind `rt` and data `data`: initialisation for command 0, abort
/// for command 15 and for an SDIO direct write to the abort register,
/// response expected (long for R2, CRC-checked except for R3 and R4),
/// voltage switch for command 11, and data expected, read when there is a
/// receive buffer and written otherwise.
pub open spec fn command_flags(index: u32, arg: u32, rt: MCIHostResponseType, data: Option<MCIHostData>) -> u32 {
    (if index == 0 { MCICmdFlag::NEED_INIT } else { 0 })
    | (if index == 15 || (index == 52 && ((arg >> 9u32) & 0x1FFFFu32) == 6) { MCICmdFlag::ABORT } else { 0 })
    | (if rt != MCIHostResponseType::NoResponse { MCICmdFlag::EXP_RESP } else { 0 })
    | (if rt == MCIHostResponseType::R2 { MCICmdFlag::EXP_LONG_RESP } else { 0 })
    | (if rt != MCIHostResponseType::NoResponse && rt != MCIHostResponseType::R3 && rt != MCIHostResponseType::R4 {
        MCICmdFlag::NEED_RESP_CRC
    } else {
        0
    })
    | (if index == 11 { MCICmdFlag::SWITCH_VOLTAGE } else { 0 })
    | (match data {
        Some(d) => MCICmdFlag::EXP_DATA | (if d.rx_data is Some { MCICmdFlag::READ_DATA } else { MCICmdFlag::WRITE_DATA }),
        None => 0,
    })
}

/// The response bits of the command flags follow the response kind alone.
proof fn lemma_command_flags_response(index: u32, arg: u32, rt: MCIHostResponseType, data: Option<MCIHostData>)
    ensures
        (command_flags(index, arg, rt, data) & MCICmdFlag::EXP_RESP == MCICmdFlag::EXP_RESP) <==> rt != MCIHostResponseType::NoResponse,
        (command_flags(index, arg, rt, data) & MCICmdFlag::EXP_LONG_RESP == MCICmdFlag::EXP_LONG_RESP) <==> rt == MCIHostResponseType::R2,
{
    let a: u32 = if index == 0 { MCICmdFlag::NEED_INIT } else { 0 };
    let b: u32 = if index == 15 || (index == 52 && ((arg >> 9u32) & 0x1FFFFu32) == 6) { MCICmdFlag::ABORT } else { 0 };
    let c: u32 = if rt != MCIHostResponseType::NoResponse { MCICmdFlag::EXP_RESP } else { 0 };
    let d: u32 = if rt == MCIHostResponseType::R2 { MCICmdFlag::EXP_LONG_RESP } else { 0 };
    let e: u32 = if rt != MCIHostResponseType::NoResponse && rt != MCIHostResponseType::R3 && rt != MCIHostResponseType::R4 {
        MCICmdFlag::NEED_RESP_CRC
    } else {
        0
    };
    let f: u32 = if index == 11 { MCICmdFlag::SWITCH_VOLTAGE } else { 0 };
    let g: u32 = match data {
        Some(dd) => MCICmdFlag::EXP_DATA | (if dd.rx_data is Some { MCICmdFlag::READ_DATA } else { MCICmdFlag::WRITE_DATA }),
        None => 0,
    };
    assert(0x10u32 | 0x40u32 == 0x50u32 && 0x10u32 | 0x20u32 == 0x30u32) by (bit_vector);
    assert(command_flags(index, arg, rt, data) == a | b | c | d | e | f | g);
    assert((((a | b | c | d | e | f | g) & 2 == 2) <==> c == 2) && (((a | b | c | d | e | f | g) & 4 == 4) <==> d == 4)) by (bit_vector)
        requires
            a == 0 || a == 1,
            b == 0 || b == 0x400,
            c == 0 || c == 2,
            d == 0 || d == 4,
            e == 0 || e == 8,
            f == 0 || f == 0x200,
            g == 0 || g == 0x30 || g == 0x50;
}

/// The controller data of host data: the receive buffer if there is one,
/// else the transmit buffer, with the block geometry and their product as
/// the length.
pub open spec fn command_data(d: MCIHostData) -> MCIData {
    MCIData {
        buf: if d.rx_data is Some { d.rx_data } else { d.tx_data },
        buf_dma: 0,
        blksz: d.block_size as u32,
        blkcnt: d.block_count,
        datalen: ((d.block_size as u32) * d.block_count) as u32,
    }
}

/// The host data after its buffer has been handed to the controller.
pub open spec fn data_handed_over(d: MCIHostData) -> MCIHostData {
    if d.rx_data is Some {
        MCIHostData { rx_data: None, ..d }
    } else {
        MCIHostData { tx_data: None, ..d }
    }
}

/// A transfer the controller can take: a command, and data with a buffer
/// whose length fits in 32 bits.
pub open spec fn transfer_well_formed(t: MCIHostTransfer) -> bool {
    &&& t.cmd is Some
    &&& t.data matches Some(d) ==> (d.rx_data is Some || d.tx_data is Some)
        && (d.block_size as u32) * d.block_count <= u32::MAX
}

/// A word in little-endian order, given the host's byte order and the bit
/// order of the packet it came in.
pub open spec fn to_little_endian(v: u32, mode: MCIHostEndianMode, format: MCIHostDataPacketFormat) -> u32 {
    match (mode, format) {
        (MCIHostEndianMode::Little, MCIHostDataPacketFormat::MSBFirst) => bytes_reversed(v),
        (MCIHostEndianMode::Big, MCIHostDataPacketFormat::LSBFirst) => bytes_reversed(v),
        (MCIHostEndianMode::HalfWordBig, _) => half_words_swapped(v),
        _ => v,
    }
}

/// Converting a word to little-endian order twice gives it back: each
/// conversion exchanges bytes or half-words, or leaves the word.
pub proof fn lemma_to_little_endian_involutive(v: u32, mode: MCIHostEndianMode, format: MCIHostDataPacketFormat)
    ensures
        to_little_endian(to_little_endian(v, mode, format), mode, format) == v,
{
    lemma_byte_reverse_involutive(v);
    lemma_half_word_swap_involutive(v);
}

/// The flags of a command that carries data ask for data, and for exactly
/// one direction: reading when the data has a receive buffer, writing
/// otherwise; a command without data asks for neither.
pub proof fn lemma_command_flags_direction(index: u32, arg: u32, rt: MCIHostResponseType, data: Option<MCIHostData>)
    ensures
        ({
            let f = command_flags(index, arg, rt, data);
            &&& (f & MCICmdFlag::EXP_DATA != 0) <==> data is Some
            &&& (f & MCICmdFlag::READ_DATA != 0) <==> (data matches Some(d) && d.rx_data is Some)
            &&& (f & MCICmdFlag::WRITE_DATA != 0) <==> (data matches Some(d) && d.rx_data is None)
        }),
{
    let b1 = index == 0;
    let b2 = index == 15 || (index == 52 && ((arg >> 9u32) & 0x1FFFFu32) == 6);
    let b3 = rt != MCIHostResponseType::NoResponse;
    let b4 = rt == MCIHostResponseType::R2;
    let b5 = rt != MCIHostResponseType::NoResponse && rt != MCIHostResponseType::R3 && rt != MCIHostResponseType::R4;
    let b6 = index == 11;
    let has = data is Some;
    let rd = data matches Some(d) && d.rx_data is Some;
    let f = command_flags(index, arg, rt, data);
    assert(f == (if b1 { 0x1u32 } else { 0 }) | (if b2 { 0x400u32 } else { 0 }) | (if b3 { 0x2u32 } else { 0 })
        | (if b4 { 0x4u32 } else { 0 }) | (if b5 { 0x8u32 } else { 0 }) | (if b6 { 0x200u32 } else { 0 })
        | (if has { 0x10u32 | (if rd { 0x40u32 } else { 0x20u32 }) } else { 0 }));
    assert(({
        let g = (if b1 { 0x1u32 } else { 0 }) | (if b2 { 0x400u32 } else { 0 }) | (if b3 { 0x2u32 } else { 0 })
            | (if b4 { 0x4u32 } else { 0 }) | (if b5 { 0x8u32 } else { 0 }) | (if b6 { 0x200u32 } else { 0 })
            | (if has { 0x10u32 | (if rd { 0x40u32 } else { 0x20u32 }) } else { 0 });
        &&& (g & 0x10 != 0) <==> has
        &&& (g & 0x40 != 0) <==> (has && rd)
        &&& (g & 0x20 != 0) <==> (has && !rd)
    })) by (bit_vector);
}

/// A command the device ran: what it handed to the controller and what
/// came back.
pub struct CommandRecord {
    pub index: u32,
    pub argument: u32,
    pub flag: u32,
    /// The controller ran the command and returned its response.
    pub ok: bool,
    /// The response words the transfer holds afterwards.
    pub response: [u32; 4],
    /// The words the transfer's receive buffer holds afterwards.
    pub received: Option<Seq<u32>>,
    /// The words handed to the controller to write.
    pub sent: Option<Seq<u32>>,
    /// The response kind the command was sent with.
    pub response_type: MCIHostResponseType,
    /// The data asked for the stop command (12) to follow it by itself.
    pub auto_stop: bool,
}

/// The record of running command `c0` with data `d0`, ending with transfer
/// `t`.
pub open spec fn record_of(c0: MCIHostCmd, d0: Option<MCIHostData>, ok: bool, t: MCIHostTransfer) -> CommandRecord {
    CommandRecord {
        index: c0.index,
        argument: c0.argument,
        flag: command_flags(c0.index, c0.argument, c0.response_type, d0),
        ok,
        response: t.cmd->0.response,
        received: match t.data {
            Some(d) => match d.rx_data {
                Some(v) => Some(v@),
                None => None,
            },
            None => None,
        },
        sent: sent_of(d0),
        response_type: c0.response_type,
        auto_stop: auto_stop_of(d0),
    }
}

/// Whether data `d0` asks for the stop command to follow by itself.
pub open spec fn auto_stop_of(d0: Option<MCIHostData>) -> bool {
    match d0 {
        Some(d) => d.enable_auto_command12,
        None => false,
    }
}

/// The words that data `d0` hands to the controller to write: its transmit
/// buffer, unless it has a receive buffer.
pub open spec fn sent_of(d0: Option<MCIHostData>) -> Option<Seq<u32>> {
    match d0 {
        Some(d) => if d.rx_data is Some {
            None
        } else {
            match d.tx_data {
                Some(v) => Some(v@),
                None => None,
            }
        },
        None => None,
    }
}

/// What a transfer hands to the card, recorded in `log` from position `at`
/// on, whatever its outcome: command `index` with argument `arg`, response
/// kind `rt`, the words `sent` and the automatic stop asked for or not
/// (`auto_stop`); for a transfer of several blocks (`multi`), first the
/// block count command with `count`, and the data command only when that
/// one succeeded without an error bit.
pub open spec fn handed_at(log: Seq<CommandRecord>, at: int, index: u32, arg: u32, sent: Option<Seq<u32>>,
    rt: MCIHostResponseType, auto_stop: bool, count: u32, multi: bool) -> bool {
    if multi {
        &&& 0 <= at < log.len() && log[at].index == 23 && log[at].argument == count
        &&& log[at].ok && crate::mci_host::r1_clean(log[at].response[0]) ==> at + 1 < log.len()
            && log[at + 1].index == index && log[at + 1].argument == arg && log[at + 1].sent == sent
            && log[at + 1].response_type == rt && log[at + 1].auto_stop == auto_stop
    } else {
        &&& 0 <= at < log.len() && log[at].index == index && log[at].argument == arg && log[at].sent == sent
        &&& log[at].response_type == rt && log[at].auto_stop == auto_stop
    }
}

/// The data has neither a receive nor a transmit buffer.
pub open spec fn no_buffers(d: Option<MCIHostData>) -> bool {
    d matches Some(x) && x.rx_data is None && x.tx_data is None
}

/// `l2` is `l1` followed by more records.
pub open spec fn log_extends(l1: Seq<CommandRecord>, l2: Seq<CommandRecord>) -> bool {
    &&& l1.len() <= l2.len()
    &&& forall|i: int| 0 <= i < l1.len() ==> #[trigger] l2[i] == l1[i]
}

/// The commands a device ran. Only the device adds to it.
pub struct CommandLog {
    entries: Ghost<Seq<CommandRecord>>,
}

impl CommandLog {
    /// The records, oldest first.
    pub closed spec fn records(&self) -> Seq<CommandRecord> {
        self.entries@
    }
}

/// The SDIF device: a controller, and the commands it ran.
pub struct SDIFDev<B: RegisterIo> {
    pub hc: MCI<B>,
    pub log: CommandLog,
}

impl<B: RegisterIo> SDIFDev<B> {
    /// The commands the device ran, in order.
    pub open spec fn history(&self) -> Seq<CommandRecord> {
        self.log.records()
    }

    /// The device for the controller whose registers are at `addr`, reached
    /// through `io`; not set up yet.
    pub fn new(addr: usize, io: B) -> (r: Self)
        ensures
            r.hc.config == MCIConfig::new_spec(addr),
            r.hc.window().base() == addr,
            !r.hc.is_ready,
            r.history() == Seq::<CommandRecord>::empty(),
    {
        SDIFDev { hc: MCI::new(MCIConfig::new(addr), io), log: CommandLog { entries: Ghost(Seq::empty()) } }
    }

    /// Set up the controller with the configuration for `addr`. Fails
    /// (`Fail`) when the controller does not come up.
    pub fn do_init(&mut self, addr: usize) -> (r: MCIHostStatus)
        requires
            addr == old(self).hc.window().base(),
        ensures
            final(self).history() == old(self).history(),
            final(self).hc.window().base() == old(self).hc.window().base(),
            final(self).hc.config == MCIConfig::new_spec(addr),
            r.is_ok() <==> final(self).hc.is_ready,
            r.is_err() ==> r == Err::<(), MCIHostError>(MCIHostError::Fail),
    {
        let mci_config = MCIConfig::lookup_config(addr);
        if self.hc.config_init(&mci_config).is_err() {
            return Err(MCIHostError::Fail);
        }
        Ok(())
    }

    /// Set up the controller (see [`SDIFDev::do_init`]).
    pub fn init(&mut self, addr: usize) -> (r: MCIHostStatus)
        requires
            addr == old(self).hc.window().base(),
        ensures
            final(self).history() == old(self).history(),
            final(self).hc.window().base() == old(self).hc.window().base(),
            final(self).hc.config == MCIConfig::new_spec(addr),
            r.is_ok() <==> final(self).hc.is_ready,
            r.is_err() ==> r == Err::<(), MCIHostError>(MCIHostError::Fail),
    {
        self.do_init(addr)
    }

    /// Take the controller down.
    pub fn deinit(&mut self)
        ensures
            final(self).history() == old(self).history(),
            !final(self).hc.is_ready,
            final(self).hc.window().base() == old(self).hc.window().base(),
            final(self).hc.config == old(self).hc.config,
    {
        let _ = self.hc.config_deinit();
    }

    /// Restart the controller; `Fail` when it does not restart.
    pub fn reset(&mut self) -> (r: MCIHostStatus)
        ensures
            final(self).history() == old(self).history(),
            !old(self).hc.is_ready ==> r == Err::<(), MCIHostError>(MCIHostError::Fail),
            r.is_err() ==> r == Err::<(), MCIHostError>(MCIHostError::Fail),
            old(self).hc.is_ready ==> crate::mci::mci_transfer::ctrl_reset_started(old(self).hc.window().trace(),
                final(self).hc.window().trace(), crate::mci::regs::MCICtrl::FIFO_RESET),
            final(self).hc.is_ready == old(self).hc.is_ready,
            final(self).hc.window().base() == old(self).hc.window().base(),
            final(self).hc.config == old(self).hc.config,
    {
        match self.hc.restart() {
            Ok(_) => Ok(()),
            Err(_) => Err(MCIHostError::Fail),
        }
    }

    /// Sampling tuning; this controller needs none.
    pub fn execute_tuning(&self, tuning_cmd: u32, rev_buf: &mut Vec<u32>, block_size: u32) -> (r: MCIHostStatus)
        ensures
            r is Ok,
            final(rev_buf)@ == old(rev_buf)@,
    {
        Ok(())
    }

    /// The data lines are free: the busy bit of the status register, read
    /// once, is clear.
    pub fn get_signal_line_status(&mut self, signal_line: u32) -> (r: bool)
        ensures
            crate::regs::read_step(old(self).hc.window().trace(), final(self).hc.window().trace(), crate::mci::regs::MCIStatus::REG),
            r == (crate::regs::value_of(final(self).hc.window().trace().last()) & crate::mci::regs::MCIStatus::DATA_BUSY
                != crate::mci::regs::MCIStatus::DATA_BUSY),
            final(self).history() == old(self).history(),
            final(self).hc.is_ready == old(self).hc.is_ready,
            final(self).hc.window().base() == old(self).hc.window().base(),
            final(self).hc.config == old(self).hc.config,
    {
        !self.hc.check_if_card_busy()
    }

    /// Convert the first `word_size` words of `data` (as far as it goes)
    /// to little-endian order (see [`to_little_endian`]).
    pub fn convert_data_to_little_endian(data: &mut Vec<u32>, word_size: usize, format: MCIHostDataPacketFormat, endian_mode: MCIHostEndianMode) -> (r: MCIHostStatus)
        ensures
            r is Ok,
            final(data)@.len() == old(data)@.len(),
            forall|i: int| 0 <= i < old(data)@.len() ==> #[trigger] final(data)@[i] == if i < word_size {
                to_little_endian(old(data)@[i], endian_mode, format)
            } else {
                old(data)@[i]
            },
    {
        let n = if word_size < data.len() { word_size } else { data.len() };
        let mut i: usize = 0;
        while i < n
            invariant
                n <= old(data)@.len(),
                n == word_size || n == old(data)@.len(),
                i <= n,
                data@.len() == old(data)@.len(),
                forall|j: int| 0 <= j < old(data)@.len() ==> #[trigger] data@[j] == if j < i {
                    to_little_endian(old(data)@[j], endian_mode, format)
                } else {
                    old(data)@[j]
                },
            decreases n - i,
        {
            let v = data[i];
            let c = match (endian_mode, format) {
                (MCIHostEndianMode::Little, MCIHostDataPacketFormat::MSBFirst) => swap_word_byte_sequence_u32(v),
                (MCIHostEndianMode::Big, MCIHostDataPacketFormat::LSBFirst) => swap_word_byte_sequence_u32(v),
                (MCIHostEndianMode::HalfWordBig, _) => swap_half_word_byte_sequence_u32(v),
                _ => v,
            };
            data.set(i, c);
            i = i + 1;
        }
        Ok(())
    }

    /// Enable or disable the SDIO card interrupt; only SDIO cards have one.
    pub fn card_int_enable(&mut self, enable: bool, card_type: MCIHostCardType) -> (r: MCIHostStatus)
        ensures
            final(self).history() == old(self).history(),
            r is Ok,
            card_type != MCIHostCardType::SDIO ==> *final(self) == *old(self),
            card_type == MCIHostCardType::SDIO ==> crate::mci::mci_intr::mask_switched(old(self).hc.window().trace(),
                final(self).hc.window().trace(), MCIIntrType::GeneralIntr, MCIIntMask::SDIO_BIT, enable),
            final(self).hc.is_ready == old(self).hc.is_ready,
            final(self).hc.window().base() == old(self).hc.window().base(),
            final(self).hc.config == old(self).hc.config,
    {
        if card_type == MCIHostCardType::SDIO {
            self.hc.interrupt_mask_set(MCIIntrType::GeneralIntr, MCIIntMask::SDIO_BIT, enable);
        }
        Ok(())
    }

    /// Set the controller's data bus width: one write of the card type
    /// register (see [`bus_width_value`]).
    pub fn card_bus_width_set(&mut self, data_bus_width: MCIHostBusWdith)
        ensures
            crate::regs::write_step(old(self).hc.window().trace(), final(self).hc.window().trace(),
                crate::mci::regs::MCICType::REG, bus_width_value(data_bus_width)),
            final(self).history() == old(self).history(),
            final(self).hc.is_ready == old(self).hc.is_ready,
            final(self).hc.window().base() == old(self).hc.window().base(),
            final(self).hc.config == old(self).hc.config,
    {
        let lines = data_bus_width.lines();
        self.hc.bus_width_set(lines);
    }

    /// Whether a card sits in the slot: `Inserted` when the card-detect
    /// register, read once, has its detect bit clear.
    pub fn card_detect_status(&mut self) -> (r: SDStatus)
        ensures
            crate::regs::read_step(old(self).hc.window().trace(), final(self).hc.window().trace(), crate::mci::regs::MCICardDetect::REG),
            r == slot_seen(final(self).hc.window().trace()),
            final(self).history() == old(self).history(),
            final(self).hc.is_ready == old(self).hc.is_ready,
            final(self).hc.window().base() == old(self).hc.window().base(),
            final(self).hc.config == old(self).hc.config,
    {
        if self.hc.check_if_card_exist() {
            SDStatus::Inserted
        } else {
            SDStatus::Removed
        }
    }

    /// Wait, checking the slot up to 101 times and sleeping `debounce_ms`
    /// after each check, until the slot is in state `wait_card_status`;
    /// `Timeout` when it never is.
    pub fn card_detect_status_polling(&mut self, wait_card_status: SDStatus, debounce_ms: u32) -> (r: MCIHostStatus)
        ensures
            final(self).history() == old(self).history(),
            r.is_err() ==> r == Err::<(), MCIHostError>(MCIHostError::Timeout),
            r.is_ok() ==> crate::regs::is_read_of(final(self).hc.window().trace().last(), crate::mci::regs::MCICardDetect::REG)
                && slot_seen(final(self).hc.window().trace()) == wait_card_status,
            r.is_err() ==> crate::regs::extends(old(self).hc.window().trace(), final(self).hc.window().trace())
                && detect_missed_at(final(self).hc.window().trace(), old(self).hc.window().trace().len() as int, wait_card_status),
            final(self).hc.is_ready == old(self).hc.is_ready,
            final(self).hc.window().base() == old(self).hc.window().base(),
            final(self).hc.config == old(self).hc.config,
    {
        let mut retry_times: usize = 100;
        assert(old(self).hc.window().trace().subrange(0, old(self).hc.window().trace().len() as int) =~= old(self).hc.window().trace());
        loop
            invariant
                self.log == old(self).log,
                self.hc.is_ready == old(self).hc.is_ready,
                self.hc.window().base() == old(self).hc.window().base(),
                self.hc.config == old(self).hc.config,
                retry_times <= 100,
                crate::regs::extends(old(self).hc.window().trace(), self.hc.window().trace()),
                self.hc.window().trace().len() == old(self).hc.window().trace().len() + (100 - retry_times),
                forall|i: int| old(self).hc.window().trace().len() <= i < self.hc.window().trace().len()
                    ==> crate::regs::is_read_of(#[trigger] self.hc.window().trace()[i], crate::mci::regs::MCICardDetect::REG)
                        && slot_of(self.hc.window().trace()[i]) != wait_card_status,
            decreases retry_times,
        {
            let ghost t1 = self.hc.window().trace();
            let is_card_inserted = self.card_detect_status() == SDStatus::Inserted;
            proof {
                let t0 = old(self).hc.window().trace();
                let t2 = self.hc.window().trace();
                assert(t2.subrange(0, t0.len() as int) =~= t1.subrange(0, t0.len() as int));
                assert(t2[t2.len() - 1] == t2.last());
            }
            B::sleep(crate::millis(debounce_ms as u64));
            if wait_card_status == SDStatus::Inserted && is_card_inserted {
                return Ok(());
            }
            if wait_card_status == SDStatus::Removed && !is_card_inserted {
                return Ok(());
            }
            if retry_times == 0 {
                return Err(MCIHostError::Timeout);
            }
            retry_times = retry_times - 1;
        }
    }

    /// Set the card clock to `target_clock` when it is not already at it
    /// (`curr_clock_freq`); the clock afterwards: the target when the
    /// controller took it, else the current one.
    pub fn card_clock_set(&mut self, target_clock: u32, curr_clock_freq: u32) -> (r: u32)
        ensures
            final(self).history() == old(self).history(),
            r == target_clock || r == curr_clock_freq,
            curr_clock_freq == target_clock ==> *final(self) == *old(self),
            crate::mci::mci_transfer::timing_for_hz(target_clock, old(self).hc.config.non_removable) is None
                ==> r == curr_clock_freq,
            r != curr_clock_freq ==> crate::mci::mci_transfer::timing_for_hz(target_clock, old(self).hc.config.non_removable)
                == Some(final(self).hc.curr_timing),
            final(self).hc.is_ready == old(self).hc.is_ready,
            final(self).hc.window().base() == old(self).hc.window().base(),
            final(self).hc.config == old(self).hc.config,
    {
        if curr_clock_freq == target_clock {
            return curr_clock_freq;
        }
        if self.hc.clk_freq_set(target_clock).is_ok() {
            target_clock
        } else {
            curr_clock_freq
        }
    }

    /// Turn the card clock on or off (the clock-enable bit; see
    /// `MCI::clock_set`).
    pub fn force_clock_on(&mut self, enable: bool)
        ensures
            crate::mci::mci_hardware::bits_switched(old(self).hc.window().trace(), final(self).hc.window().trace(),
                crate::mci::regs::MCIClkEn::REG, crate::mci::regs::MCIClkEn::CCLK_ENABLE, enable),
            final(self).history() == old(self).history(),
            final(self).hc.is_ready == old(self).hc.is_ready,
            final(self).hc.window().base() == old(self).hc.window().base(),
            final(self).hc.config == old(self).hc.config,
    {
        self.hc.clock_set(enable);
    }

    /// The card holds its data line busy: the busy bit of the status
    /// register, read once.
    pub fn card_is_busy(&mut self) -> (r: bool)
        ensures
            crate::regs::read_step(old(self).hc.window().trace(), final(self).hc.window().trace(), crate::mci::regs::MCIStatus::REG),
            r == (crate::regs::value_of(final(self).hc.window().trace().last()) & crate::mci::regs::MCIStatus::DATA_BUSY
                == crate::mci::regs::MCIStatus::DATA_BUSY),
            final(self).history() == old(self).history(),
            final(self).hc.is_ready == old(self).hc.is_ready,
            final(self).hc.window().base() == old(self).hc.window().base(),
            final(self).hc.config == old(self).hc.config,
    {
        self.hc.check_if_card_busy()
    }

    /// The controller command for a host transfer: the command's index and
    /// argument with the flags of [`command_flags`], and the data of
    /// [`command_data`], whose buffer leaves the transfer.
    pub fn convert_command_info(in_trans: &mut MCIHostTransfer) -> (r: MCICmdData)
        requires
            transfer_well_formed(*old(in_trans)),
        ensures
            ({
                let c = old(in_trans).cmd->0;
                r == (MCICmdData {
                    cmdidx: c.index,
                    cmdarg: c.argument,
                    response: [0u32, 0, 0, 0],
                    flag: command_flags(c.index, c.argument, c.response_type, old(in_trans).data),
                    data: match old(in_trans).data {
                        Some(d) => Some(command_data(d)),
                        None => None,
                    },
                    success: false,
                })
            }),
            final(in_trans).cmd == old(in_trans).cmd,
            final(in_trans).data == match old(in_trans).data {
                Some(d) => Some(data_handed_over(d)),
                None => None,
            },
    {
        let in_cmd = match in_trans.cmd {
            Some(c) => c,
            None => {
                proof {
                    assert(false);
                }
                MCIHostCmd::new()
            },
        };
        let index = in_cmd.index;
        let arg = in_cmd.argument;
        let response_type = in_cmd.response_type;
        let f_init: u32 = if index == 0 { MCICmdFlag::NEED_INIT } else { 0 };
        let f_abort: u32 = if index == 15 || (index == 52 && ((arg >> 9) & 0x1FFFF) == 6) { MCICmdFlag::ABORT } else { 0 };
        let f_resp: u32 = if response_type != MCIHostResponseType::NoResponse { MCICmdFlag::EXP_RESP } else { 0 };
        let f_long: u32 = if response_type == MCIHostResponseType::R2 { MCICmdFlag::EXP_LONG_RESP } else { 0 };
        let f_crc: u32 = if response_type != MCIHostResponseType::NoResponse && response_type != MCIHostResponseType::R3
            && response_type != MCIHostResponseType::R4 {
            MCICmdFlag::NEED_RESP_CRC
        } else {
            0
        };
        let f_volt: u32 = if index == 11 { MCICmdFlag::SWITCH_VOLTAGE } else { 0 };
        let ghost old_data = in_trans.data;
        let (f_data, out_data): (u32, Option<MCIData>) = match in_trans.data {
            Some(ref mut in_data) => {
                let blksz = in_data.block_size as u32;
                let blkcnt = in_data.block_count;
                let (f, buf) = if in_data.rx_data.is_some() {
                    (MCICmdFlag::EXP_DATA | MCICmdFlag::READ_DATA, in_data.rx_data_take())
                } else {
                    (MCICmdFlag::EXP_DATA | MCICmdFlag::WRITE_DATA, in_data.tx_data_take())
                };
                (f, Some(MCIData { buf, buf_dma: 0, blksz, blkcnt, datalen: blksz * blkcnt }))
            },
            None => (0, None),
        };
        let flag = f_init | f_abort | f_resp | f_long | f_crc | f_volt | f_data;
        MCICmdData { cmdidx: index, cmdarg: arg, response: [0, 0, 0, 0], flag, data: out_data, success: false }
    }

    /// Run a command without its preparation: hand it to the controller,
    /// wait for its end and collect its response. The received data (the
    /// buffer the controller worked on) goes back to the transfer, and the
    /// response words to its command when one was expected.
    ///
    /// Errors: the controller does not start or finish the command
    /// (`NoData`), or returns no response (`Timeout`).
    fn command_run(&mut self, content: &mut MCIHostTransfer) -> (r: MCIHostStatus)
        requires
            transfer_well_formed(*old(content)),
        ensures
            r.is_err() ==> transfer_error(r),
            cmd_kept(old(content).cmd->0, final(content).cmd, r.is_err()),
            data_kept(old(content).data, final(content).data),
            rx_sized(old(content).data) && r.is_ok() ==> rx_sized(final(content).data),
            r.is_err() && old(content).data is Some ==> final(content).data == Some(data_handed_over(old(content).data->0)),
            final(self).history() == old(self).history().push(record_of(old(content).cmd->0, old(content).data, r.is_ok(), *final(content))),
            r.is_err() ==> r == Err::<(), MCIHostError>(MCIHostError::NoData),
            !old(self).hc.is_ready ==> r == Err::<(), MCIHostError>(MCIHostError::NoData),
            r.is_ok() ==> crate::mci::mci_cmd::response_collected(old(self).hc.window().trace(), final(self).hc.window().trace(),
                command_flags(old(content).cmd->0.index, old(content).cmd->0.argument, old(content).cmd->0.response_type, old(content).data),
                final(content).cmd->0.response@, old(content).cmd->0.response@),
            old(self).hc.window().trace().len() <= final(self).hc.window().trace().len(),
            final(self).hc.is_ready == old(self).hc.is_ready,
            final(self).hc.window().base() == old(self).hc.window().base(),
            final(self).hc.config == old(self).hc.config,
    {
        let ghost c0 = content.cmd->0;
        let ghost d0 = content.data;
        let r = self.command_exec(content);
        proof {
            self.log.entries@ = self.log.entries@.push(record_of(c0, d0, r.is_ok(), *content));
        }
        r
    }

    fn command_exec(&mut self, content: &mut MCIHostTransfer) -> (r: MCIHostStatus)
        requires
            transfer_well_formed(*old(content)),
        ensures
            r.is_err() ==> transfer_error(r),
            cmd_kept(old(content).cmd->0, final(content).cmd, r.is_err()),
            data_kept(old(content).data, final(content).data),
            rx_sized(old(content).data) && r.is_ok() ==> rx_sized(final(content).data),
            r.is_err() && old(content).data is Some ==> final(content).data == Some(data_handed_over(old(content).data->0)),
            r.is_ok() ==> crate::mci::mci_cmd::response_collected(old(self).hc.window().trace(), final(self).hc.window().trace(),
                command_flags(old(content).cmd->0.index, old(content).cmd->0.argument, old(content).cmd->0.response_type, old(content).data),
                final(content).cmd->0.response@, old(content).cmd->0.response@),
            final(self).history() == old(self).history(),
            r.is_err() ==> r == Err::<(), MCIHostError>(MCIHostError::NoData),
            !old(self).hc.is_ready ==> r == Err::<(), MCIHostError>(MCIHostError::NoData),
            old(self).hc.window().trace().len() <= final(self).hc.window().trace().len(),
            final(self).hc.is_ready == old(self).hc.is_ready,
            final(self).hc.window().base() == old(self).hc.window().base(),
            final(self).hc.config == old(self).hc.config,
    {
        proof {
            lemma_command_flags_response(old(content).cmd->0.index, old(content).cmd->0.argument,
                old(content).cmd->0.response_type, old(content).data);
        }
        let mut cmd_data = Self::convert_command_info(content);
        if self.hc.pio_transfer(&mut cmd_data).is_err() {
            return Err(MCIHostError::NoData);
        }
        if self.hc.poll_wait_pio_end(&cmd_data).is_err() {
            return Err(MCIHostError::NoData);
        }
        if self.hc.cmd_response_get(&mut cmd_data).is_err() {
            return Err(MCIHostError::Timeout);
        }
        match content.data {
            Some(ref mut in_data) => {
                let buf = match cmd_data.data {
                    Some(ref mut d) => d.buf.take(),
                    None => None,
                };
                match buf {
                    Some(b) => {
                        in_data.rx_data = Some(b);
                    },
                    None => {},
                }
            },
            None => {},
        }
        match content.cmd {
            Some(ref mut cmd) => {
                if cmd.response_type != MCIHostResponseType::NoResponse {
                    cmd.response = cmd_data.response;
                }
            },
            None => {},
        }
        Ok(())
    }

    /// Prepare a command: a multiple-block read or write of more than one
    /// block is announced with the block count (command 23), whose
    /// response must carry no error bit (`TransferFailed` otherwise).
    /// No command: `NoData`.
    pub fn pre_command(&mut self, content: &MCIHostTransfer) -> (r: MCIHostStatus)
        ensures
            content.cmd is None ==> r == Err::<(), MCIHostError>(MCIHostError::NoData) && *final(self) == *old(self),
            content.cmd is Some && !needs_block_count(*content) ==> r is Ok && *final(self) == *old(self),
            needs_block_count(*content) && r.is_err() ==> r == Err::<(), MCIHostError>(MCIHostError::TransferFailed),
            needs_block_count(*content) ==> ({
                let rec = final(self).history().last();
                &&& final(self).history().len() == old(self).history().len() + 1
                &&& log_extends(old(self).history(), final(self).history())
                &&& rec.index == 23
                &&& rec.argument == content.data->0.block_count
                &&& rec.flag == command_flags(23, content.data->0.block_count, MCIHostResponseType::R1, None)
                &&& (r.is_ok() <==> rec.ok && crate::mci_host::r1_clean(rec.response[0]))
            }),
            old(self).hc.window().trace().len() <= final(self).hc.window().trace().len(),
            final(self).hc.is_ready == old(self).hc.is_ready,
            final(self).hc.window().base() == old(self).hc.window().base(),
            final(self).hc.config == old(self).hc.config,
    {
        let cmd = match content.cmd {
            Some(ref c) => c,
            None => return Err(MCIHostError::NoData),
        };
        let data = match content.data {
            Some(ref d) => d,
            None => return Ok(()),
        };
        if cmd.index == MCIHostCommonCmd::ReadMultipleBlock.index() || cmd.index == MCIHostCommonCmd::WriteMultipleBlock.index() {
            let block_count = data.block_count;
            if block_count > 1 {
                let mut command = MCIHostCmd::new();
                command.index = MCIHostCommonCmd::SetBlockCount.index();
                command.argument = block_count;
                command.response_type = MCIHostResponseType::R1;
                let mut sub = MCIHostTransfer { data: None, cmd: Some(command) };
                let ghost log0 = self.log.entries@;
                let err = self.command_run(&mut sub);
                let resp0 = match sub.cmd {
                    Some(ref c) => c.response[0],
                    None => 0,
                };
                proof {
                    assert(self.log.entries@.subrange(0, log0.len() as int) =~= log0);
                    assert(resp0 == self.log.entries@.last().response[0]);
                }
                if err.is_err() || resp0 & MCIHostCardStatusFlag::ALL_ERROR_FLAG != 0 {
                    return Err(MCIHostError::TransferFailed);
                }
            }
        }
        Ok(())
    }

    /// Run a host transfer: prepare the command (see
    /// [`SDIFDev::pre_command`]), then run it.
    pub fn transfer_function(&mut self, content: &mut MCIHostTransfer) -> (r: MCIHostStatus)
        requires
            old(content).cmd is Some ==> transfer_well_formed(*old(content)),
        ensures
            r.is_err() ==> transfer_error(r),
            old(content).cmd is None ==> r == Err::<(), MCIHostError>(MCIHostError::NoData) && *final(content) == *old(content),
            old(content).cmd is Some ==> cmd_kept(old(content).cmd->0, final(content).cmd, r.is_err()),
            data_kept(old(content).data, final(content).data),
            rx_sized(old(content).data) && r.is_ok() ==> rx_sized(final(content).data),
            old(content).cmd is Some ==> final(self).history().len() > old(self).history().len(),
            old(content).cmd is Some && !needs_block_count(*old(content)) ==> final(self).history()
                == old(self).history().push(record_of(old(content).cmd->0, old(content).data, r.is_ok(), *final(content))),
            old(content).cmd is Some ==> handed_at(final(self).history(), old(self).history().len() as int, old(content).cmd->0.index,
                old(content).cmd->0.argument, sent_of(old(content).data), old(content).cmd->0.response_type, auto_stop_of(old(content).data),
                old(content).data->0.block_count, needs_block_count(*old(content))),
            log_extends(old(self).history(), final(self).history()),
            old(content).cmd is Some && old(content).data is None ==> final(self).history()
                == old(self).history().push(record_of(old(content).cmd->0, None, r.is_ok(), *final(content))),
            old(content).cmd is Some && r.is_ok() ==> final(self).history().len() > old(self).history().len()
                && final(self).history().last() == record_of(old(content).cmd->0, old(content).data, true, *final(content)),
            r.is_err() && old(content).data is Some ==> final(content).data == old(content).data
                || final(content).data == Some(data_handed_over(old(content).data->0)),
            r.is_err() ==> r == Err::<(), MCIHostError>(MCIHostError::NoData) || r == Err::<(), MCIHostError>(MCIHostError::TransferFailed),
            old(content).cmd is Some ==> (r == Err::<(), MCIHostError>(MCIHostError::TransferFailed) <==> needs_block_count(*old(content))
                && !(final(self).history()[old(self).history().len() as int].ok
                    && crate::mci_host::r1_clean(final(self).history()[old(self).history().len() as int].response[0]))),
            old(content).cmd is Some && !needs_block_count(*old(content)) && !old(self).hc.is_ready
                ==> r == Err::<(), MCIHostError>(MCIHostError::NoData),
            old(content).cmd is Some ==> ({
                &&& r.is_ok() ==> crate::mci::mci_cmd::response_collected(old(self).hc.window().trace(), final(self).hc.window().trace(),
                    command_flags(old(content).cmd->0.index, old(content).cmd->0.argument, old(content).cmd->0.response_type, old(content).data),
                    final(content).cmd->0.response@, old(content).cmd->0.response@)
            }),
            old(self).hc.window().trace().len() <= final(self).hc.window().trace().len(),
            final(self).hc.is_ready == old(self).hc.is_ready,
            final(self).hc.window().base() == old(self).hc.window().base(),
            final(self).hc.config == old(self).hc.config,
    {
        let ghost log0 = self.log.entries@;
        self.pre_command(content)?;
        let ghost log1 = self.log.entries@;
        let r = self.command_run(content);
        proof {
            assert(log1.subrange(0, log0.len() as int) =~= log0);
            assert(self.log.entries@.subrange(0, log1.len() as int) =~= log1);
            assert(self.log.entries@.subrange(0, log0.len() as int) =~= log0);
        }
        r
    }
}

/// After running, the transfer still holds command `c0`, with the response
/// words changed only when the command expects a response and ran.
pub open spec fn cmd_kept(c0: MCIHostCmd, c: Option<MCIHostCmd>, failed: bool) -> bool {
    &&& c is Some
    &&& c->0.index == c0.index
    &&& c->0.argument == c0.argument
    &&& c->0.response_type == c0.response_type
    &&& c->0.cmd_type == c0.cmd_type
    &&& c->0.response_error_flags == c0.response_error_flags
    &&& c->0.flags == c0.flags
    &&& (c0.response_type == MCIHostResponseType::NoResponse || failed) ==> c->0.response == c0.response
}

/// The data after running a transfer has the geometry it had before.
pub open spec fn data_kept(d0: Option<MCIHostData>, d: Option<MCIHostData>) -> bool {
    &&& d is Some <==> d0 is Some
    &&& d is Some ==> d->0.block_size == d0->0.block_size && d->0.block_count == d0->0.block_count
}

/// The slot state that the last access of `t`, a read of the card-detect
/// register, shows: a card is in when the detect bit is clear.
pub open spec fn slot_seen(t: Seq<crate::regs::RegAccess>) -> SDStatus {
    slot_of(t.last())
}

/// The slot state that access `a`, a read of the card-detect register,
/// shows: a card is in when the detect bit is clear.
pub open spec fn slot_of(a: crate::regs::RegAccess) -> SDStatus {
    if crate::regs::value_of(a) & crate::mci::regs::MCICardDetect::DETECTED != crate::mci::regs::MCICardDetect::DETECTED {
        SDStatus::Inserted
    } else {
        SDStatus::Removed
    }
}

/// How many times the card-detect poll reads the slot before it gives up.
pub open spec fn detect_reads() -> int {
    101
}

/// `t` holds from `at` on exactly the card-detect poll's reads, none of
/// which shows the slot in state `wanted`.
pub open spec fn detect_missed_at(t: Seq<crate::regs::RegAccess>, at: int, wanted: SDStatus) -> bool {
    &&& 0 <= at && t.len() == at + detect_reads()
    &&& forall|i: int| at <= i < t.len() ==> crate::regs::is_read_of(#[trigger] t[i], crate::mci::regs::MCICardDetect::REG)
        && slot_of(t[i]) != wanted
}

/// The card type register value for a data bus of width `w`.
pub open spec fn bus_width_value(w: MCIHostBusWdith) -> u32 {
    match w {
        MCIHostBusWdith::Bit1 => crate::mci::regs::MCICType::CARD0_WIDTH2_1BIT,
        MCIHostBusWdith::Bit4 => crate::mci::regs::MCICType::CARD0_WIDTH2_4BIT,
        MCIHostBusWdith::Bit8 => crate::mci::regs::MCICType::CARD0_WIDTH1_8BIT,
    }
}

/// Data to be received, with a buffer of as many words as the data's block
/// size and count give.
pub open spec fn rx_sized(d: Option<MCIHostData>) -> bool {
    &&& d is Some
    &&& d->0.rx_data is Some
    &&& d->0.rx_data->0@.len() == ((d->0.block_size as u32) * d->0.block_count) / 4
}

/// The errors a transfer reports.
pub open spec fn transfer_error(r: MCIHostStatus) -> bool {
    r == Err::<(), MCIHostError>(MCIHostError::NoData) || r == Err::<(), MCIHostError>(MCIHostError::Timeout)
        || r == Err::<(), MCIHostError>(MCIHostError::TransferFailed)
}

/// The transfer is a read or write of several blocks, which the block count
/// command announces.
pub open spec fn needs_block_count(t: MCIHostTransfer) -> bool {
    &&& t.cmd matches Some(c) && (c.index == 18 || c.index == 25)
    &&& t.data matches Some(d) && d.block_count > 1
}

} // verus!
