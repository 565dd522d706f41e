//! Constants of SD cards: timing modes, commands, card flags, clocks.

use vstd::prelude::*;

verus! {

/// Bus timing mode.
#[derive(Debug, Clone, Copy, PartialEq, Eq, Structural)]
pub enum SdTimingMode {
    SDR12DefaultMode,
    SDR25HighSpeedMode,
    SDR50Mode,
    SDR104Mode,
    DDR50Mode,
}

/// Driver strength type.
#[derive(Debug, Clone, Copy, PartialEq, Eq, Structural)]
pub enum SdDriverStrength {
    TypeB,
    TypeA,
    TypeC,
    TypeD,
}

/// Current limit.
#[derive(Debug, Clone, Copy, PartialEq, Eq, Structural)]
pub enum SdMaxCurrent {
    Limit200mA,
    Limit400mA,
    Limit600mA,
    Limit800mA,
}

/// Who switches the signalling voltage.
#[derive(Debug, Clone, Copy, PartialEq, Eq, Structural)]
pub enum SdIoVoltageCtrlType {
    NotSupport,
    ByHost,
    ByGpio,
}

/// SD-specific commands.
#[derive(Debug, Clone, Copy, PartialEq, Eq, Structural)]
pub enum SdCmd {
    SendRelativeAddress,
    Switch,
    SendInterfaceCondition,
    VoltageSwitch,
    SpeedClassControl,
    SendTuningBlock,
    EraseWriteBlockStart,
    EraseWriteBlockEnd,
}

/// Command index of an SD command.
pub open spec fn sd_cmd_index(c: SdCmd) -> u32 {
    match c {
        SdCmd::SendRelativeAddress => 3,
        SdCmd::Switch => 6,
        SdCmd::SendInterfaceCondition => 8,
        SdCmd::VoltageSwitch => 11,
        SdCmd::SpeedClassControl => 20,
        SdCmd::SendTuningBlock => 19,
        SdCmd::EraseWriteBlockStart => 32,
        SdCmd::EraseWriteBlockEnd => 33,
    }
}

impl SdCmd {
    /// The command index.
    pub fn index(self) -> (r: u32)
        ensures
            r == sd_cmd_index(self),
    {
        match self {
            SdCmd::SendRelativeAddress => 3,
            SdCmd::Switch => 6,
            SdCmd::SendInterfaceCondition => 8,
            SdCmd::VoltageSwitch => 11,
            SdCmd::SpeedClassControl => 20,
            SdCmd::SendTuningBlock => 19,
            SdCmd::EraseWriteBlockStart => 32,
            SdCmd::EraseWriteBlockEnd => 33,
        }
    }
}

/// Application commands (sent after command 55).
#[derive(Debug, Clone, Copy, PartialEq, Eq, Structural)]
pub enum SdAppCmd {
    SetBusWdith,
    Status,
    SendNumberWriteBlocks,
    SetWriteBlockEraseCount,
    SendOperationCondition,
    SetClearCardDetect,
    SendScr,
}

/// Command index of an application command.
pub open spec fn sd_app_cmd_index(c: SdAppCmd) -> u32 {
    match c {
        SdAppCmd::SetBusWdith => 6,
        SdAppCmd::Status => 13,
        SdAppCmd::SendNumberWriteBlocks => 22,
        SdAppCmd::SetWriteBlockEraseCount => 23,
        SdAppCmd::SendOperationCondition => 41,
        SdAppCmd::SetClearCardDetect => 42,
        SdAppCmd::SendScr => 51,
    }
}

impl SdAppCmd {
    /// The command index.
    pub fn index(self) -> (r: u32)
        ensures
            r == sd_app_cmd_index(self),
    {
        match self {
            SdAppCmd::SetBusWdith => 6,
            SdAppCmd::Status => 13,
            SdAppCmd::SendNumberWriteBlocks => 22,
            SdAppCmd::SetWriteBlockEraseCount => 23,
            SdAppCmd::SendOperationCondition => 41,
            SdAppCmd::SetClearCardDetect => 42,
            SdAppCmd::SendScr => 51,
        }
    }
}

/// Mode of the switch-function command.
#[derive(Debug, Clone, Copy, PartialEq, Eq, Structural)]
pub enum SdSwitchMode {
    Check,
    SetFunction,
}

/// Function group of the switch-function command.
#[derive(Debug, Clone, Copy, PartialEq, Eq, Structural)]
pub enum SdGroupNum {
    TimingMode,
    CommandSystem,
    DriverStrength,
    CurrentLimit,
}

/// Number of a function group.
pub open spec fn group_num(g: SdGroupNum) -> u32 {
    match g {
        SdGroupNum::TimingMode => 0,
        SdGroupNum::CommandSystem => 1,
        SdGroupNum::DriverStrength => 2,
        SdGroupNum::CurrentLimit => 3,
    }
}

impl SdGroupNum {
    /// The group's number.
    pub fn num(self) -> (r: u32)
        ensures
            r == group_num(self),
    {
        match self {
            SdGroupNum::TimingMode => 0,
            SdGroupNum::CommandSystem => 1,
            SdGroupNum::DriverStrength => 2,
            SdGroupNum::CurrentLimit => 3,
        }
    }
}

/// Function of the timing group.
#[derive(Debug, Clone, Copy, PartialEq, Eq, Structural)]
pub enum SdTimingFuncNum {
    SDR12Default,
    SDR25HighSpeed,
    SDR50,
    SDR104,
    DDR50,
}

/// Number of a timing function.
pub open spec fn timing_func_num(f: SdTimingFuncNum) -> u32 {
    match f {
        SdTimingFuncNum::SDR12Default => 0,
        SdTimingFuncNum::SDR25HighSpeed => 1,
        SdTimingFuncNum::SDR50 => 2,
        SdTimingFuncNum::SDR104 => 3,
        SdTimingFuncNum::DDR50 => 4,
    }
}

impl SdTimingFuncNum {
    /// The function's number.
    pub fn num(self) -> (r: u32)
        ensures
            r == timing_func_num(self),
    {
        match self {
            SdTimingFuncNum::SDR12Default => 0,
            SdTimingFuncNum::SDR25HighSpeed => 1,
            SdTimingFuncNum::SDR50 => 2,
            SdTimingFuncNum::SDR104 => 3,
            SdTimingFuncNum::DDR50 => 4,
        }
    }
}

/// What a card supports.
pub struct SdCardFlag;

#[allow(non_upper_case_globals)]
impl SdCardFlag {
    pub const SupportHighCapacity: u32 = 0x2;
    pub const Support4BitWidth: u32 = 0x4;
    pub const SupportSdhc: u32 = 0x8;
    pub const SupportSdxc: u32 = 0x10;
    pub const SupportVoltage180v: u32 = 0x20;
    pub const SupportSetBlockCountCmd: u32 = 0x40;
    pub const SupportSpeedClassControlCmd: u32 = 0x80;
}

/// Version of the SD specification a card follows.
#[derive(Debug, Clone, Copy, PartialEq, Eq, Structural)]
pub enum SdSpecificationVersion {
    Version1_0,
    Version1_1,
    Version2_0,
    Version3_0,
}

/// Code of a specification version (one bit each).
pub open spec fn spec_version_code(v: SdSpecificationVersion) -> u32 {
    match v {
        SdSpecificationVersion::Version1_0 => 1,
        SdSpecificationVersion::Version1_1 => 2,
        SdSpecificationVersion::Version2_0 => 4,
        SdSpecificationVersion::Version3_0 => 8,
    }
}

impl SdSpecificationVersion {
    /// The version's code.
    pub fn code(self) -> (r: u32)
        ensures
            r == spec_version_code(self),
    {
        match self {
            SdSpecificationVersion::Version1_0 => 1,
            SdSpecificationVersion::Version1_1 => 2,
            SdSpecificationVersion::Version2_0 => 4,
            SdSpecificationVersion::Version3_0 => 8,
        }
    }
}

/// Wait after powering the card on, in ms.
pub const SD_POWER_ON_DELAY_MS: u32 = 400;
/// Wait after powering the card off, in ms.
pub const SD_POWER_OFF_DELAY_MS: u32 = 100;
pub const SD_CLOCK_25MHZ: u32 = 25_000_000;
pub const SD_CLOCK_50MHZ: u32 = 50_000_000;
pub const SD_CLOCK_100MHZ: u32 = 100_000_000;
pub const SD_CLOCK_208MHZ: u32 = 208_000_000;
/// Tries of the send-status command.
pub const SD_CMD13_RETRY_TIMES: u32 = 10;
/// Length of the product name in the CID.
pub const SD_PRODUCT_NAME_BYTES: usize = 5;
/// Most blocks one transfer moves.
pub const SD_MAX_RW_BLK: usize = 1024;
/// Block size, in bytes.
pub const SD_BLOCK_SIZE: usize = 512;
/// Time a card may stay busy before an access, in ms.
pub const SD_CARD_ACCESS_WAIT_IDLE_TIMEOUT: u32 = 600;

} // verus!
