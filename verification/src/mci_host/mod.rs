//! The card host layer: commands and transfers on top of the controller,
//! and the SD card protocol.

use vstd::prelude::*;

pub mod constants;
pub mod err;
pub mod mci_host_card_detect;
pub mod mci_host_config;
pub mod mci_host_transfer;
pub mod mci_sdif;
pub mod sd;
pub mod mci_card_base;

use constants::{
    MCIHostCardStatusFlag, MCIHostCommonCmd, MCIHostDataPacketFormat, MCIHostOperationVoltage, MCIHostResponseType,
    MCIHostBusWdith,
};
use err::{MCIHostError, MCIHostStatus};
use mci_host_card_detect::MCIHostCardDetect;
use mci_host_config::MCIHostConfig;
use mci_host_transfer::{MCIHostCmd, MCIHostTransfer};
use mci_sdif::consts::SDStatus;
use mci_sdif::sdif_device::{command_flags, log_extends, transfer_well_formed, CommandRecord, SDIFDev};
use crate::regs::RegisterIo;

verus! {

/// The card host: the device and the host's current settings.
pub struct MCIHost<B: RegisterIo> {
    pub dev: SDIFDev<B>,
    pub config: MCIHostConfig,
    pub curr_voltage: MCIHostOperationVoltage,
    pub curr_bus_width: u32,
    /// Current card clock, in Hz.
    pub curr_clock_freq: u32,
    pub source_clock_hz: u32,
    /// Capability bits (see `MCIHostCapability`).
    pub capability: u32,
    /// Most blocks one transfer moves.
    pub max_block_count: u32,
    /// Largest block, in bytes.
    pub max_block_size: u32,
    pub tuning_type: u8,
    pub card_detect: Option<MCIHostCardDetect>,
}

/// An R1 response word without error bits.
pub open spec fn r1_clean(resp0: u32) -> bool {
    resp0 & MCIHostCardStatusFlag::ALL_ERROR_FLAG == 0
}

/// The outcome of a command that must run.
pub open spec fn ran_outcome(rec: CommandRecord) -> MCIHostStatus {
    if rec.ok { Ok(()) } else { Err(MCIHostError::TransferFailed) }
}

/// The outcome of a command with an R1 response: it ran and its status
/// carries no error bit.
pub open spec fn r1_outcome(rec: CommandRecord) -> MCIHostStatus {
    if rec.ok && r1_clean(rec.response[0]) { Ok(()) } else { Err(MCIHostError::TransferFailed) }
}

/// The outcome of an application command announcement: an R1 outcome,
/// and the card must confirm the application command.
pub open spec fn app_outcome(rec: CommandRecord) -> MCIHostStatus {
    if !(rec.ok && r1_clean(rec.response[0])) {
        Err(MCIHostError::TransferFailed)
    } else if rec.response[0] & MCIHostCardStatusFlag::APPLICATION_COMMAND == 0 {
        Err(MCIHostError::CardNotSupport)
    } else {
        Ok(())
    }
}

impl<B: RegisterIo> MCIHost<B> {
    /// `other` has the same settings as this host, and its controller is
    /// as ready as this one's, at the same place, with the same
    /// configuration.
    pub open spec fn same_settings(&self, other: &Self) -> bool {
        &&& other.config == self.config
        &&& other.curr_voltage == self.curr_voltage
        &&& other.curr_bus_width == self.curr_bus_width
        &&& other.curr_clock_freq == self.curr_clock_freq
        &&& other.source_clock_hz == self.source_clock_hz
        &&& other.capability == self.capability
        &&& other.max_block_count == self.max_block_count
        &&& other.max_block_size == self.max_block_size
        &&& other.tuning_type == self.tuning_type
        &&& other.card_detect == self.card_detect
        &&& other.dev.hc.is_ready == self.dev.hc.is_ready
        &&& other.dev.hc.window().base() == self.dev.hc.window().base()
        &&& other.dev.hc.config == self.dev.hc.config
        &&& log_extends(self.dev.history(), other.dev.history())
    }

    /// `other` is this host after running one more command without data:
    /// `index` with `argument` and the flags of response kind `rt`.
    pub open spec fn ran_one(&self, other: &Self, index: u32, argument: u32, rt: MCIHostResponseType) -> bool {
        &&& other.dev.history().len() == self.dev.history().len() + 1
        &&& log_extends(self.dev.history(), other.dev.history())
        &&& other.dev.history().last().index == index
        &&& other.dev.history().last().argument == argument
        &&& other.dev.history().last().flag == command_flags(index, argument, rt, None)
    }

    /// The last command the host ran.
    pub open spec fn last_command(&self) -> CommandRecord {
        self.dev.history().last()
    }

    /// A host on device `dev` with configuration `config`, with nothing
    /// chosen yet: no voltage, bus width, clock, capability or limits.
    pub fn new(dev: SDIFDev<B>, config: MCIHostConfig) -> (r: Self)
        ensures
            r.dev == dev,
            r.config == config,
            r.curr_voltage == MCIHostOperationVoltage::Unset,
            r.curr_bus_width == 0,
            r.curr_clock_freq == 0,
            r.source_clock_hz == 0,
            r.capability == 0,
            r.max_block_count == 0,
            r.max_block_size == 0,
            r.tuning_type == 0,
            r.card_detect is None,
    {
        MCIHost {
            dev,
            config,
            curr_voltage: MCIHostOperationVoltage::Unset,
            curr_bus_width: 0,
            curr_clock_freq: 0,
            source_clock_hz: 0,
            capability: 0,
            max_block_count: 0,
            max_block_size: 0,
            tuning_type: 0,
            card_detect: None,
        }
    }

    /// Run a transfer on the device (see `SDIFDev::transfer_function`).
    pub fn transfer(&mut self, content: &mut MCIHostTransfer) -> (r: MCIHostStatus)
        requires
            old(content).cmd is Some ==> transfer_well_formed(*old(content)),
        ensures
            r.is_err() ==> mci_sdif::sdif_device::transfer_error(r),
            old(self).same_settings(final(self)),
            old(content).cmd is None ==> r == Err::<(), MCIHostError>(MCIHostError::NoData) && *final(content) == *old(content),
            old(content).cmd is Some ==> mci_sdif::sdif_device::cmd_kept(old(content).cmd->0, final(content).cmd, r.is_err()),
            mci_sdif::sdif_device::data_kept(old(content).data, final(content).data),
            mci_sdif::sdif_device::rx_sized(old(content).data) && r.is_ok() ==> mci_sdif::sdif_device::rx_sized(final(content).data),
            old(content).cmd is Some ==> final(self).dev.history().len() > old(self).dev.history().len(),
            old(content).cmd is Some && !mci_sdif::sdif_device::needs_block_count(*old(content)) ==> final(self).dev.history()
                == old(self).dev.history().push(mci_sdif::sdif_device::record_of(old(content).cmd->0, old(content).data, r.is_ok(), *final(content))),
            old(content).cmd is Some && old(content).data is None ==> final(self).dev.history()
                == old(self).dev.history().push(mci_sdif::sdif_device::record_of(old(content).cmd->0, None, r.is_ok(), *final(content))),
            old(content).cmd is Some ==> mci_sdif::sdif_device::handed_at(final(self).dev.history(), old(self).dev.history().len() as int,
                old(content).cmd->0.index, old(content).cmd->0.argument, mci_sdif::sdif_device::sent_of(old(content).data),
                old(content).cmd->0.response_type, mci_sdif::sdif_device::auto_stop_of(old(content).data),
                old(content).data->0.block_count, mci_sdif::sdif_device::needs_block_count(*old(content))),
            old(content).cmd is Some && r.is_ok() ==> final(self).dev.history().len() > old(self).dev.history().len()
                && final(self).dev.history().last() == mci_sdif::sdif_device::record_of(old(content).cmd->0, old(content).data, true, *final(content)),
            r.is_err() && old(content).data is Some ==> final(content).data == old(content).data
                || final(content).data == Some(mci_sdif::sdif_device::data_handed_over(old(content).data->0)),
    {
        self.dev.transfer_function(content)
    }

    /// Send a command without data and return the outcome and the first
    /// response word (0 when there was none).
    fn command(&mut self, index: u32, argument: u32, response_type: MCIHostResponseType) -> (r: (MCIHostStatus, u32))
        ensures
            old(self).same_settings(final(self)),
            old(self).ran_one(final(self), index, argument, response_type),
            r.0.is_ok() == final(self).last_command().ok,
            r.1 == final(self).last_command().response[0],
            response_type == MCIHostResponseType::NoResponse ==> r.1 == 0,
    {
        let mut command = MCIHostCmd::new();
        command.index = index;
        command.argument = argument;
        command.response_type = response_type;
        let mut content = MCIHostTransfer { data: None, cmd: Some(command) };
        let ghost log0 = self.dev.history();
        let err = self.dev.transfer_function(&mut content);
        let resp0 = match content.cmd {
            Some(ref c) => c.response[0],
            None => 0,
        };
        proof {
            assert(self.dev.history().subrange(0, log0.len() as int) =~= log0);
        }
        (err, resp0)
    }

    /// Select the card at `relative_address` (command 7 with the address in
    /// the upper half of the argument and an R1 response) or deselect every
    /// card (argument 0, no response). A failed command or an error bit in
    /// the response: `TransferFailed`.
    pub fn card_select(&mut self, relative_address: u32, is_selected: bool) -> (r: MCIHostStatus)
        ensures
            old(self).same_settings(final(self)),
            old(self).ran_one(final(self), 7, if is_selected { relative_address << 16 } else { 0 },
                if is_selected { MCIHostResponseType::R1 } else { MCIHostResponseType::NoResponse }),
            r == r1_outcome(final(self).last_command()),
            r.is_err() ==> r == Err::<(), MCIHostError>(MCIHostError::TransferFailed),
    {
        let (err, resp0) = if is_selected {
            self.command(MCIHostCommonCmd::SelectCard.index(), relative_address << 16, MCIHostResponseType::R1)
        } else {
            self.command(MCIHostCommonCmd::SelectCard.index(), 0, MCIHostResponseType::NoResponse)
        };
        if err.is_err() || resp0 & MCIHostCardStatusFlag::ALL_ERROR_FLAG != 0 {
            return Err(MCIHostError::TransferFailed);
        }
        Ok(())
    }

    /// Announce an application command to the card at `relative_address`
    /// (command 55). A failed command or an error bit in the response:
    /// `TransferFailed`; a response without the application command bit:
    /// `CardNotSupport`.
    pub fn application_command_send(&mut self, relative_address: u32) -> (r: MCIHostStatus)
        ensures
            old(self).same_settings(final(self)),
            old(self).ran_one(final(self), 55, relative_address << 16, MCIHostResponseType::R1),
            r == app_outcome(final(self).last_command()),
            r.is_err() ==> r == Err::<(), MCIHostError>(MCIHostError::TransferFailed)
                || r == Err::<(), MCIHostError>(MCIHostError::CardNotSupport),
    {
        let (err, resp0) = self.command(MCIHostCommonCmd::ApplicationCommand.index(), relative_address << 16, MCIHostResponseType::R1);
        if err.is_err() || resp0 & MCIHostCardStatusFlag::ALL_ERROR_FLAG != 0 {
            return Err(MCIHostError::TransferFailed);
        }
        if resp0 & MCIHostCardStatusFlag::APPLICATION_COMMAND == 0 {
            return Err(MCIHostError::CardNotSupport);
        }
        Ok(())
    }

    /// Announce the block count of the next transfer (command 23). A failed
    /// command or an error bit in the response: `TransferFailed`.
    pub fn block_count_set(&mut self, block_count: u32) -> (r: MCIHostStatus)
        ensures
            old(self).same_settings(final(self)),
            old(self).ran_one(final(self), 23, block_count, MCIHostResponseType::R1),
            r == r1_outcome(final(self).last_command()),
            r.is_err() ==> r == Err::<(), MCIHostError>(MCIHostError::TransferFailed),
    {
        let (err, resp0) = self.command(MCIHostCommonCmd::SetBlockCount.index(), block_count, MCIHostResponseType::R1);
        if err.is_err() || resp0 & MCIHostCardStatusFlag::ALL_ERROR_FLAG != 0 {
            return Err(MCIHostError::TransferFailed);
        }
        Ok(())
    }

    /// Put the card into idle state (command 0). A failed command:
    /// `TransferFailed`.
    pub fn go_idle(&mut self) -> (r: MCIHostStatus)
        ensures
            old(self).same_settings(final(self)),
            old(self).ran_one(final(self), 0, 0, MCIHostResponseType::NoResponse),
            r == ran_outcome(final(self).last_command()),
            r.is_err() ==> r == Err::<(), MCIHostError>(MCIHostError::TransferFailed),
    {
        let (err, _) = self.command(MCIHostCommonCmd::GoIdleState.index(), 0, MCIHostResponseType::NoResponse);
        if err.is_err() {
            return Err(MCIHostError::TransferFailed);
        }
        Ok(())
    }

    /// Set the card's block length (command 16). A failed command or an
    /// error bit in the response: `TransferFailed`.
    pub fn block_size_set(&mut self, block_size: u32) -> (r: MCIHostStatus)
        ensures
            old(self).same_settings(final(self)),
            old(self).ran_one(final(self), 16, block_size, MCIHostResponseType::R1),
            r == r1_outcome(final(self).last_command()),
            r.is_err() ==> r == Err::<(), MCIHostError>(MCIHostError::TransferFailed),
    {
        let (err, resp0) = self.command(MCIHostCommonCmd::SetBlockLength.index(), block_size, MCIHostResponseType::R1);
        if err.is_err() || resp0 & MCIHostCardStatusFlag::ALL_ERROR_FLAG != 0 {
            return Err(MCIHostError::TransferFailed);
        }
        Ok(())
    }

    /// Put the card into inactive state (command 15). A failed command:
    /// `TransferFailed`.
    pub fn card_inactive_set(&mut self) -> (r: MCIHostStatus)
        ensures
            old(self).same_settings(final(self)),
            old(self).ran_one(final(self), 15, 0, MCIHostResponseType::NoResponse),
            r == ran_outcome(final(self).last_command()),
            r.is_err() ==> r == Err::<(), MCIHostError>(MCIHostError::TransferFailed),
    {
        let (err, _) = self.command(MCIHostCommonCmd::GoInactiveState.index(), 0, MCIHostResponseType::NoResponse);
        if err.is_err() {
            return Err(MCIHostError::TransferFailed);
        }
        Ok(())
    }

    /// Set up the device at `addr`.
    pub fn init(&mut self, addr: usize) -> (r: MCIHostStatus)
        requires
            addr == old(self).dev.hc.window().base(),
        ensures
            final(self).dev.history() == old(self).dev.history(),
            final(self).dev.hc.window().base() == old(self).dev.hc.window().base(),
            r.is_ok() <==> final(self).dev.hc.is_ready,
            final(self).config == old(self).config,
            final(self).capability == old(self).capability,
            final(self).max_block_count == old(self).max_block_count,
            final(self).max_block_size == old(self).max_block_size,
            final(self).curr_clock_freq == old(self).curr_clock_freq,
            final(self).card_detect == old(self).card_detect,
    {
        self.dev.init(addr)
    }

    /// Set the card clock to `target_clock` (see
    /// `SDIFDev::card_clock_set`) and return the clock it runs at.
    pub fn card_clock_set(&mut self, target_clock: u32) -> (r: u32)
        ensures
            final(self).dev.history() == old(self).dev.history(),
            r == final(self).curr_clock_freq,
            r == target_clock || r == old(self).curr_clock_freq,
            crate::mci::mci_transfer::timing_for_hz(target_clock, old(self).dev.hc.config.non_removable) is None
                ==> r == old(self).curr_clock_freq,
            r != old(self).curr_clock_freq ==> crate::mci::mci_transfer::timing_for_hz(target_clock, old(self).dev.hc.config.non_removable)
                == Some(final(self).dev.hc.curr_timing),
            final(self).config == old(self).config,
            final(self).capability == old(self).capability,
            final(self).max_block_count == old(self).max_block_count,
            final(self).max_block_size == old(self).max_block_size,
            final(self).card_detect == old(self).card_detect,
            final(self).curr_voltage == old(self).curr_voltage,
            final(self).dev.hc.is_ready == old(self).dev.hc.is_ready,
            final(self).dev.hc.window().base() == old(self).dev.hc.window().base(),
            final(self).dev.hc.config == old(self).dev.hc.config,
    {
        let f = self.dev.card_clock_set(target_clock, self.curr_clock_freq);
        self.curr_clock_freq = f;
        f
    }

    /// Switch the signalling voltage: 3.3 V and 3.0 V clear the 1.8 V
    /// setting, 1.8 V sets it; the host remembers the new voltage. No
    /// voltage changes nothing.
    pub fn switch_to_voltage(&mut self, voltage: MCIHostOperationVoltage) -> (r: MCIHostStatus)
        ensures
            final(self).dev.history() == old(self).dev.history(),
            r is Ok,
            voltage != MCIHostOperationVoltage::Unset ==> final(self).curr_voltage == voltage,
            voltage == MCIHostOperationVoltage::Unset ==> *final(self) == *old(self),
            final(self).config == old(self).config,
            final(self).capability == old(self).capability,
            final(self).max_block_count == old(self).max_block_count,
            final(self).max_block_size == old(self).max_block_size,
            final(self).card_detect == old(self).card_detect,
            final(self).curr_clock_freq == old(self).curr_clock_freq,
            final(self).dev.hc.is_ready == old(self).dev.hc.is_ready,
            final(self).dev.hc.window().base() == old(self).dev.hc.window().base(),
            final(self).dev.hc.config == old(self).dev.hc.config,
    {
        match voltage {
            MCIHostOperationVoltage::Voltage300V | MCIHostOperationVoltage::Voltage330V => {
                self.curr_voltage = voltage;
                self.dev.hc.voltage_1_8v_set(false);
            },
            MCIHostOperationVoltage::Voltage180V => {
                self.curr_voltage = voltage;
                self.dev.hc.voltage_1_8v_set(true);
            },
            MCIHostOperationVoltage::Unset => {},
        }
        Ok(())
    }

    /// Wait until the slot is in state `wait_card_status`, debouncing with
    /// the host's card detection settings. No settings: `NoData`; the slot
    /// never gets there: `Timeout`.
    pub fn card_detect_status_polling(&mut self, wait_card_status: SDStatus) -> (r: MCIHostStatus)
        ensures
            old(self).same_settings(final(self)),
            final(self).dev.history() == old(self).dev.history(),
            old(self).card_detect is None ==> r == Err::<(), MCIHostError>(MCIHostError::NoData),
            r.is_err() ==> r == Err::<(), MCIHostError>(MCIHostError::NoData) || r == Err::<(), MCIHostError>(MCIHostError::Timeout),
            r.is_ok() ==> crate::regs::is_read_of(final(self).dev.hc.window().trace().last(), crate::mci::regs::MCICardDetect::REG)
                && mci_sdif::sdif_device::slot_seen(final(self).dev.hc.window().trace()) == wait_card_status,
            old(self).card_detect is Some && r.is_err() ==> crate::regs::extends(old(self).dev.hc.window().trace(), final(self).dev.hc.window().trace())
                && mci_sdif::sdif_device::detect_missed_at(final(self).dev.hc.window().trace(),
                    old(self).dev.hc.window().trace().len() as int, wait_card_status),
    {
        let cd = match self.card_detect {
            Some(c) => c,
            None => return Err(MCIHostError::NoData),
        };
        self.dev.card_detect_status_polling(wait_card_status, cd.cd_debounce_ms)
    }

    /// The card holds its data line busy (see `SDIFDev::card_is_busy`).
    pub fn card_is_busy(&mut self) -> (r: bool)
        ensures
            old(self).same_settings(final(self)),
            final(self).dev.history() == old(self).dev.history(),
            crate::regs::read_step(old(self).dev.hc.window().trace(), final(self).dev.hc.window().trace(), crate::mci::regs::MCIStatus::REG),
            r == (crate::regs::value_of(final(self).dev.hc.window().trace().last()) & crate::mci::regs::MCIStatus::DATA_BUSY
                == crate::mci::regs::MCIStatus::DATA_BUSY),
    {
        self.dev.card_is_busy()
    }

    /// Set the width of the data bus (see `SDIFDev::card_bus_width_set`).
    pub fn card_bus_width_set(&mut self, width: MCIHostBusWdith)
        ensures
            old(self).same_settings(final(self)),
            final(self).dev.history() == old(self).dev.history(),
            crate::regs::write_step(old(self).dev.hc.window().trace(), final(self).dev.hc.window().trace(),
                crate::mci::regs::MCICType::REG, mci_sdif::sdif_device::bus_width_value(width)),
    {
        self.dev.card_bus_width_set(width)
    }

    /// Restart the device (see `SDIFDev::reset`).
    pub fn reset(&mut self) -> (r: MCIHostStatus)
        ensures
            old(self).same_settings(final(self)),
            final(self).dev.history() == old(self).dev.history(),
            r.is_err() ==> r == Err::<(), MCIHostError>(MCIHostError::Fail),
            !old(self).dev.hc.is_ready ==> r == Err::<(), MCIHostError>(MCIHostError::Fail),
            old(self).dev.hc.is_ready ==> crate::mci::mci_transfer::ctrl_reset_started(old(self).dev.hc.window().trace(),
                final(self).dev.hc.window().trace(), crate::mci::regs::MCICtrl::FIFO_RESET),
    {
        self.dev.reset()
    }
}

} // verus!
