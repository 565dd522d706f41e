//! Constants of the card host layer: command and response kinds, the
//! standard SD/MMC/SDIO command numbers, card status, OCR and host
//! capability bits, and sizes.

use vstd::prelude::*;

verus! {

/// Kind of a command.
#[derive(Debug, Clone, Copy, PartialEq, Eq, Structural)]
pub enum MCIHostCmdType {
    Normal,
    Suspend,
    Resume,
    Abort,
    Empty,
}

/// Kind of response a command expects.
#[derive(Debug, Clone, Copy, PartialEq, Eq, Structural)]
pub enum MCIHostResponseType {
    /// No response.
    NoResponse,
    R1,
    R1b,
    /// 136-bit response.
    R2,
    /// OCR response, without CRC.
    R3,
    R4,
    R5,
    R5b,
    R6,
    R7,
}

/// Bit order of a data packet.
#[derive(Debug, Clone, Copy, PartialEq, Eq, Structural)]
pub enum MCIHostDataPacketFormat {
    MSBFirst,
    LSBFirst,
}

/// Width of the data bus.
#[derive(Debug, Clone, Copy, PartialEq, Eq, Structural)]
pub enum MCIHostBusWdith {
    Bit1,
    Bit4,
    Bit8,
}

/// Number of data lines of a bus width.
pub open spec fn bus_width_lines(w: MCIHostBusWdith) -> u32 {
    match w {
        MCIHostBusWdith::Bit1 => 1,
        MCIHostBusWdith::Bit4 => 4,
        MCIHostBusWdith::Bit8 => 8,
    }
}

impl MCIHostBusWdith {
    /// Number of data lines.
    pub fn lines(self) -> (r: u32)
        ensures
            r == bus_width_lines(self),
    {
        match self {
            MCIHostBusWdith::Bit1 => 1,
            MCIHostBusWdith::Bit4 => 4,
            MCIHostBusWdith::Bit8 => 8,
        }
    }
}

/// Commands common to SD and MMC cards.
#[derive(Debug, Clone, Copy, PartialEq, Eq, Structural)]
pub enum MCIHostCommonCmd {
    GoIdleState,
    AllSendCid,
    SetDsr,
    SelectCard,
    SendCsd,
    SendCid,
    StopTransmission,
    SendStatus,
    GoInactiveState,
    SetBlockLength,
    ReadSingleBlock,
    ReadMultipleBlock,
    SetBlockCount,
    WriteSingleBlock,
    WriteMultipleBlock,
    ProgramCsd,
    SetWriteProtect,
    ClearWriteProtect,
    SendWriteProtect,
    Erase,
    LockUnlock,
    ApplicationCommand,
    GeneralCommand,
    ReadOcr,
}

/// Command index of a common command.
pub open spec fn common_cmd_index(c: MCIHostCommonCmd) -> u32 {
    match c {
        MCIHostCommonCmd::GoIdleState => 0,
        MCIHostCommonCmd::AllSendCid => 2,
        MCIHostCommonCmd::SetDsr => 4,
        MCIHostCommonCmd::SelectCard => 7,
        MCIHostCommonCmd::SendCsd => 9,
        MCIHostCommonCmd::SendCid => 10,
        MCIHostCommonCmd::StopTransmission => 12,
        MCIHostCommonCmd::SendStatus => 13,
        MCIHostCommonCmd::GoInactiveState => 15,
        MCIHostCommonCmd::SetBlockLength => 16,
        MCIHostCommonCmd::ReadSingleBlock => 17,
        MCIHostCommonCmd::ReadMultipleBlock => 18,
        MCIHostCommonCmd::SetBlockCount => 23,
        MCIHostCommonCmd::WriteSingleBlock => 24,
        MCIHostCommonCmd::WriteMultipleBlock => 25,
        MCIHostCommonCmd::ProgramCsd => 27,
        MCIHostCommonCmd::SetWriteProtect => 28,
        MCIHostCommonCmd::ClearWriteProtect => 29,
        MCIHostCommonCmd::SendWriteProtect => 30,
        MCIHostCommonCmd::Erase => 38,
        MCIHostCommonCmd::LockUnlock => 42,
        MCIHostCommonCmd::ApplicationCommand => 55,
        MCIHostCommonCmd::GeneralCommand => 56,
        MCIHostCommonCmd::ReadOcr => 58,
    }
}

impl MCIHostCommonCmd {
    /// The command index.
    pub fn index(self) -> (r: u32)
        ensures
            r == common_cmd_index(self),
    {
        match self {
            MCIHostCommonCmd::GoIdleState => 0,
            MCIHostCommonCmd::AllSendCid => 2,
            MCIHostCommonCmd::SetDsr => 4,
            MCIHostCommonCmd::SelectCard => 7,
            MCIHostCommonCmd::SendCsd => 9,
            MCIHostCommonCmd::SendCid => 10,
            MCIHostCommonCmd::StopTransmission => 12,
            MCIHostCommonCmd::SendStatus => 13,
            MCIHostCommonCmd::GoInactiveState => 15,
            MCIHostCommonCmd::SetBlockLength => 16,
            MCIHostCommonCmd::ReadSingleBlock => 17,
            MCIHostCommonCmd::ReadMultipleBlock => 18,
            MCIHostCommonCmd::SetBlockCount => 23,
            MCIHostCommonCmd::WriteSingleBlock => 24,
            MCIHostCommonCmd::WriteMultipleBlock => 25,
            MCIHostCommonCmd::ProgramCsd => 27,
            MCIHostCommonCmd::SetWriteProtect => 28,
            MCIHostCommonCmd::ClearWriteProtect => 29,
            MCIHostCommonCmd::SendWriteProtect => 30,
            MCIHostCommonCmd::Erase => 38,
            MCIHostCommonCmd::LockUnlock => 42,
            MCIHostCommonCmd::ApplicationCommand => 55,
            MCIHostCommonCmd::GeneralCommand => 56,
            MCIHostCommonCmd::ReadOcr => 58,
        }
    }
}

/// SDIO commands.
#[derive(Debug, Clone, Copy, PartialEq, Eq, Structural)]
pub enum MCISDIOCommand {
    SendRelativeAddress,
    SendOperationCondition,
    SendInterfaceCondition,
    RWIODirect,
    RWIODirectExtended,
}

/// Command index of an SDIO command.
pub open spec fn sdio_cmd_index(c: MCISDIOCommand) -> u32 {
    match c {
        MCISDIOCommand::SendRelativeAddress => 3,
        MCISDIOCommand::SendOperationCondition => 5,
        MCISDIOCommand::SendInterfaceCondition => 8,
        MCISDIOCommand::RWIODirect => 52,
        MCISDIOCommand::RWIODirectExtended => 53,
    }
}

impl MCISDIOCommand {
    /// The command index.
    pub fn index(self) -> (r: u32)
        ensures
            r == sdio_cmd_index(self),
    {
        match self {
            MCISDIOCommand::SendRelativeAddress => 3,
            MCISDIOCommand::SendOperationCondition => 5,
            MCISDIOCommand::SendInterfaceCondition => 8,
            MCISDIOCommand::RWIODirect => 52,
            MCISDIOCommand::RWIODirectExtended => 53,
        }
    }
}

/// Registers of the SDIO card common control register area.
#[derive(Debug, Clone, Copy, PartialEq, Eq, Structural)]
pub enum MCISDIOCCCRAddr {
    SDIOVer,
    SDVersion,
    IOEnable,
    IOReady,
    IOIntEnable,
    IOIntPending,
    IOAbort,
    BusInterface,
    CardCapability,
    CommonCISPointer,
    BusSuspend,
    FunctionSelect,
    ExecutionFlag,
    ReadyFlag,
    FN0BlockSizeLow,
    FN0BlockSizeHigh,
    PowerControl,
    BusSpeed,
    UHSITimingSupport,
    DriverStrength,
    InterruptExtension,
}

/// Address of a common control register.
pub open spec fn cccr_addr(a: MCISDIOCCCRAddr) -> u32 {
    match a {
        MCISDIOCCCRAddr::SDIOVer => 0x00,
        MCISDIOCCCRAddr::SDVersion => 0x01,
        MCISDIOCCCRAddr::IOEnable => 0x02,
        MCISDIOCCCRAddr::IOReady => 0x03,
        MCISDIOCCCRAddr::IOIntEnable => 0x04,
        MCISDIOCCCRAddr::IOIntPending => 0x05,
        MCISDIOCCCRAddr::IOAbort => 0x06,
        MCISDIOCCCRAddr::BusInterface => 0x07,
        MCISDIOCCCRAddr::CardCapability => 0x08,
        MCISDIOCCCRAddr::CommonCISPointer => 0x09,
        MCISDIOCCCRAddr::BusSuspend => 0x0C,
        MCISDIOCCCRAddr::FunctionSelect => 0x0D,
        MCISDIOCCCRAddr::ExecutionFlag => 0x0E,
        MCISDIOCCCRAddr::ReadyFlag => 0x0F,
        MCISDIOCCCRAddr::FN0BlockSizeLow => 0x10,
        MCISDIOCCCRAddr::FN0BlockSizeHigh => 0x11,
        MCISDIOCCCRAddr::PowerControl => 0x12,
        MCISDIOCCCRAddr::BusSpeed => 0x13,
        MCISDIOCCCRAddr::UHSITimingSupport => 0x14,
        MCISDIOCCCRAddr::DriverStrength => 0x15,
        MCISDIOCCCRAddr::InterruptExtension => 0x16,
    }
}

impl MCISDIOCCCRAddr {
    /// The register's address.
    pub fn addr(self) -> (r: u32)
        ensures
            r == cccr_addr(self),
    {
        match self {
            MCISDIOCCCRAddr::SDIOVer => 0x00,
            MCISDIOCCCRAddr::SDVersion => 0x01,
            MCISDIOCCCRAddr::IOEnable => 0x02,
            MCISDIOCCCRAddr::IOReady => 0x03,
            MCISDIOCCCRAddr::IOIntEnable => 0x04,
            MCISDIOCCCRAddr::IOIntPending => 0x05,
            MCISDIOCCCRAddr::IOAbort => 0x06,
            MCISDIOCCCRAddr::BusInterface => 0x07,
            MCISDIOCCCRAddr::CardCapability => 0x08,
            MCISDIOCCCRAddr::CommonCISPointer => 0x09,
            MCISDIOCCCRAddr::BusSuspend => 0x0C,
            MCISDIOCCCRAddr::FunctionSelect => 0x0D,
            MCISDIOCCCRAddr::ExecutionFlag => 0x0E,
            MCISDIOCCCRAddr::ReadyFlag => 0x0F,
            MCISDIOCCCRAddr::FN0BlockSizeLow => 0x10,
            MCISDIOCCCRAddr::FN0BlockSizeHigh => 0x11,
            MCISDIOCCCRAddr::PowerControl => 0x12,
            MCISDIOCCCRAddr::BusSpeed => 0x13,
            MCISDIOCCCRAddr::UHSITimingSupport => 0x14,
            MCISDIOCCCRAddr::DriverStrength => 0x15,
            MCISDIOCCCRAddr::InterruptExtension => 0x16,
        }
    }
}

/// Bits of the card status that an R1 response carries.
pub struct MCIHostCardStatusFlag;

impl MCIHostCardStatusFlag {
    pub const OUT_OF_RANGE: u32 = 0x8000_0000;
    pub const ADDRESS_ERROR: u32 = 0x4000_0000;
    pub const BLOCK_LENGTH_ERROR: u32 = 0x2000_0000;
    pub const ERASE_SEQUENCE_ERROR: u32 = 0x1000_0000;
    pub const ERASE_PARAMETER_ERROR: u32 = 0x0800_0000;
    pub const WRITE_PROTECT_VIOLATION: u32 = 0x0400_0000;
    pub const CARD_IS_LOCKED: u32 = 0x0200_0000;
    pub const LOCK_UNLOCK_FAILED: u32 = 0x0100_0000;
    pub const COMMAND_CRC_ERROR: u32 = 0x0080_0000;
    pub const ILLEGAL_COMMAND: u32 = 0x0040_0000;
    pub const CARD_ECC_FAILED: u32 = 0x0020_0000;
    pub const CARD_CONTROLLER_ERROR: u32 = 0x0010_0000;
    pub const ERROR: u32 = 0x0008_0000;
    pub const CID_CSD_OVERWRITE: u32 = 0x0001_0000;
    pub const WRITE_PROTECT_ERASE_SKIP: u32 = 0x0000_8000;
    pub const CARD_ECC_DISABLED: u32 = 0x0000_4000;
    pub const ERASE_RESET: u32 = 0x0000_2000;
    pub const READY_FOR_DATA: u32 = 0x0000_0100;
    pub const SWITCH_ERROR: u32 = 0x0000_0080;
    pub const APPLICATION_COMMAND: u32 = 0x0000_0020;
    pub const AUTHENTICATION_SEQUENCE_ERROR: u32 = 0x0000_0008;
    /// Every error bit.
    pub const ALL_ERROR_FLAG: u32 = 0xFFF9_0008;
}

/// State of a card, as the card status reports it.
#[derive(Debug, Clone, Copy, PartialEq, Eq, Structural)]
pub enum MCIHostCurrentState {
    Idle,
    Ready,
    Identification,
    Standby,
    Transfer,
    Data,
    Receive,
    Programming,
    Disconnect,
}

/// The state that bits 12..9 of a card status name; an unassigned code
/// reads as idle.
pub open spec fn current_state_spec(status: u32) -> MCIHostCurrentState {
    let code = (status & 0x1E00u32) >> 9u32;
    if code == 1 {
        MCIHostCurrentState::Ready
    } else if code == 2 {
        MCIHostCurrentState::Identification
    } else if code == 3 {
        MCIHostCurrentState::Standby
    } else if code == 4 {
        MCIHostCurrentState::Transfer
    } else if code == 5 {
        MCIHostCurrentState::Data
    } else if code == 6 {
        MCIHostCurrentState::Receive
    } else if code == 7 {
        MCIHostCurrentState::Programming
    } else if code == 8 {
        MCIHostCurrentState::Disconnect
    } else {
        MCIHostCurrentState::Idle
    }
}

impl MCIHostCurrentState {
    /// The state a card status reports.
    pub fn current_state(state: u32) -> (r: Self)
        ensures
            r == current_state_spec(state),
    {
        let code = (state & 0x1E00) >> 9;
        if code == 1 {
            MCIHostCurrentState::Ready
        } else if code == 2 {
            MCIHostCurrentState::Identification
        } else if code == 3 {
            MCIHostCurrentState::Standby
        } else if code == 4 {
            MCIHostCurrentState::Transfer
        } else if code == 5 {
            MCIHostCurrentState::Data
        } else if code == 6 {
            MCIHostCurrentState::Receive
        } else if code == 7 {
            MCIHostCurrentState::Programming
        } else if code == 8 {
            MCIHostCurrentState::Disconnect
        } else {
            MCIHostCurrentState::Idle
        }
    }
}

/// Signalling voltage of the card.
#[derive(Debug, Clone, Copy, PartialEq, Eq, Structural)]
pub enum MCIHostOperationVoltage {
    /// Not chosen yet.
    Unset,
    Voltage330V,
    Voltage300V,
    Voltage180V,
}

/// How the host learns that a card is present.
#[derive(Debug, Clone, Copy, PartialEq, Eq, Structural)]
pub enum MCIHostDetectCardType {
    ByGpioCD,
    ByHostCD,
    ByHostDATA3,
}

/// Clock during card identification, in Hz.
pub const MCI_HOST_CLOCK_400KHZ: u32 = 400_000;
/// Tries of a command that the card may not answer at once.
pub const MCI_HOST_MAX_CMD_RETRIES: u32 = 10;
/// Block size of data transfers, in bytes.
pub const MCI_HOST_DEFAULT_BLOCK_SIZE: u32 = 512;
/// Largest block the host moves, in bytes.
pub const MCI_HOST_MAX_BLOCK_LENGTH: u32 = 4096;

/// Bits of the operation conditions register.
pub struct MCIHostOCR;

impl MCIHostOCR {
    pub const POWER_UP_BUSY_FLAG: u32 = 0x8000_0000;
    pub const HOST_CAPACITY_SUPPORT_FLAG: u32 = 0x4000_0000;
    pub const CARD_CAPACITY_SUPPORT_FLAG: u32 = 0x4000_0000;
    pub const SWITCH_18_REQUEST_FLAG: u32 = 0x0100_0000;
    pub const SWITCH_18_ACCEPT_FLAG: u32 = 0x0100_0000;
    pub const VDD_27_28: u32 = 0x0000_8000;
    pub const VDD_28_29: u32 = 0x0001_0000;
    pub const VDD_29_30: u32 = 0x0002_0000;
    pub const VDD_30_31: u32 = 0x0004_0000;
    pub const VDD_31_32: u32 = 0x0008_0000;
    pub const VDD_32_33: u32 = 0x0010_0000;
    pub const VDD_33_34: u32 = 0x0020_0000;
    pub const VDD_34_35: u32 = 0x0040_0000;
    pub const VDD_35_36: u32 = 0x0080_0000;
}

/// Capability bits of a host.
pub struct MCIHostCapability;

impl MCIHostCapability {
    pub const HIGH_SPEED: u32 = 0x1;
    pub const SUSPEND_RESUME: u32 = 0x2;
    pub const VOLTAGE_3V3: u32 = 0x4;
    pub const VOLTAGE_3V0: u32 = 0x8;
    pub const VOLTAGE_1V8: u32 = 0x10;
    pub const VOLTAGE_1V2: u32 = 0x20;
    pub const BIT4_DATA_WIDTH: u32 = 0x40;
    pub const BIT8_DATA_WIDTH: u32 = 0x80;
    pub const DDR_MODE: u32 = 0x100;
    pub const DETECT_CARD_BY_DATA3: u32 = 0x200;
    pub const DETECT_CARD_BY_CD: u32 = 0x400;
    pub const AUTO_CMD12: u32 = 0x800;
    pub const SDR104: u32 = 0x1000;
    pub const SDR50: u32 = 0x2000;
    pub const HS200: u32 = 0x4000;
    pub const HS400: u32 = 0x8000;
    pub const DRIVER_TYPE_C: u32 = 0x1_0000;
    pub const SET_CURRENT: u32 = 0x2_0000;
}

/// Further capability bits of a host.
pub struct MCIHostCapabilityExt;

impl MCIHostCapabilityExt {
    pub const BIT8_WIDTH: u32 = 0x1;
}

pub const SZ_1: u64 = 0x00000001;
pub const SZ_2: u64 = 0x00000002;
pub const SZ_4: u64 = 0x00000004;
pub const SZ_8: u64 = 0x00000008;
pub const SZ_16: u64 = 0x00000010;
pub const SZ_32: u64 = 0x00000020;
pub const SZ_64: u64 = 0x00000040;
pub const SZ_128: u64 = 0x00000080;
pub const SZ_256: u64 = 0x00000100;
pub const SZ_512: u64 = 0x00000200;
pub const SZ_1K: u64 = 0x00000400;
pub const SZ_2K: u64 = 0x00000800;
pub const SZ_4K: u64 = 0x00001000;
pub const SZ_8K: u64 = 0x00002000;
pub const SZ_16K: u64 = 0x00004000;
pub const SZ_32K: u64 = 0x00008000;
pub const SZ_64K: u64 = 0x00010000;
pub const SZ_128K: u64 = 0x00020000;
pub const SZ_256K: u64 = 0x00040000;
pub const SZ_512K: u64 = 0x00080000;
pub const SZ_1M: u64 = 0x00100000;
pub const SZ_2M: u64 = 0x00200000;
pub const SZ_4M: u64 = 0x00400000;
pub const SZ_8M: u64 = 0x00800000;
pub const SZ_16M: u64 = 0x01000000;
pub const SZ_32M: u64 = 0x02000000;
pub const SZ_64M: u64 = 0x04000000;
pub const SZ_128M: u64 = 0x08000000;
pub const SZ_256M: u64 = 0x10000000;
pub const SZ_512M: u64 = 0x20000000;
pub const SZ_1G: u64 = 0x40000000;
pub const SZ_2G: u64 = 0x80000000;
pub const SZ_3G: u64 = 0xC0000000;
pub const SZ_4G: u64 = 0x100000000;
pub const SZ_8G: u64 = 0x200000000;

} // verus!
