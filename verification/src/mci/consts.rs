//! Constants of the MCI controller: register offsets, command flags,
//! transfer modes, clock speeds and DMA descriptor bits.

use vstd::prelude::*;

verus! {

/// Which of the two controllers.
#[derive(Debug, Clone, Copy, PartialEq, Eq, Structural)]
pub enum MCIId {
    MCI0,
    MCI1,
}

impl MCIId {
    /// The first controller.
    pub fn default() -> (r: Self)
        ensures
            r == MCIId::MCI0,
    {
        MCIId::MCI0
    }
}

/// FIFO depth of a controller, encoded as the bit that marks it in the card
/// threshold register.
#[derive(Debug, Clone, Copy, PartialEq, Eq, Structural)]
pub enum MCIFifoDepth {
    Depth8,
    Depth16,
    Depth32,
    Depth64,
    Depth128,
}

/// The bit position that encodes a FIFO depth.
pub open spec fn fifo_depth_code(d: MCIFifoDepth) -> u32 {
    match d {
        MCIFifoDepth::Depth8 => 23,
        MCIFifoDepth::Depth16 => 24,
        MCIFifoDepth::Depth32 => 25,
        MCIFifoDepth::Depth64 => 26,
        MCIFifoDepth::Depth128 => 27,
    }
}

impl MCIFifoDepth {
    /// The bit position that encodes the depth.
    pub fn code(self) -> (r: u32)
        ensures
            r == fifo_depth_code(self),
    {
        match self {
            MCIFifoDepth::Depth8 => 23,
            MCIFifoDepth::Depth16 => 24,
            MCIFifoDepth::Depth32 => 25,
            MCIFifoDepth::Depth64 => 26,
            MCIFifoDepth::Depth128 => 27,
        }
    }
}

/// Command flags: what a command needs from the controller.
pub struct MCICmdFlag;

impl MCICmdFlag {
    pub const NEED_INIT: u32 = 0x1;
    pub const EXP_RESP: u32 = 0x2;
    pub const EXP_LONG_RESP: u32 = 0x4;
    pub const NEED_RESP_CRC: u32 = 0x8;
    pub const EXP_DATA: u32 = 0x10;
    pub const WRITE_DATA: u32 = 0x20;
    pub const READ_DATA: u32 = 0x40;
    pub const NEED_AUTO_STOP: u32 = 0x80;
    pub const ADTC: u32 = 0x100;
    pub const SWITCH_VOLTAGE: u32 = 0x200;
    pub const ABORT: u32 = 0x400;
    pub const AUTO_CMD12: u32 = 0x800;
}

/// How data moves between the controller and memory.
#[derive(Debug, Clone, Copy, PartialEq, Eq, Structural)]
pub enum MCITransMode {
    DMA,
    PIO,
}

/// The two interrupt groups of the controller.
#[derive(Debug, Clone, Copy, PartialEq, Eq, Structural)]
pub enum MCIIntrType {
    GeneralIntr,
    DmaIntr,
}

/// Events the controller reports.
#[derive(Debug, Clone, Copy, PartialEq, Eq, Structural)]
pub enum FSdifEvtType {
    CardDetected,
    CmdDone,
    DataDone,
    SdioIrq,
    ErrOccured,
    NumOfEvt,
}

/// Kinds of event the controller reports.
#[derive(Debug, Clone, Copy, PartialEq, Eq, Structural)]
pub enum FsDifEvtType {
    CardDetected,
    CmdDone,
    DataDone,
    SdioIrq,
    ErrOccured,
    NumOfEvt,
}

/// Card clock speeds the controller has timing settings for.
#[derive(Debug, Clone, Copy, PartialEq, Eq, Structural)]
pub enum MCIClkSpeed {
    ClkSpeed400KHz,
    ClkSpeed25Mhz,
    ClkSpeed26Mhz,
    ClkSpeed50Mhz,
    ClkSpeed52Mhz,
    ClkSpeed66Mhz,
    ClkSpeed100Mhz,
}

/// The frequency of a clock speed in Hz.
pub open spec fn clk_speed_hz(s: MCIClkSpeed) -> u32 {
    match s {
        MCIClkSpeed::ClkSpeed400KHz => 400_000,
        MCIClkSpeed::ClkSpeed25Mhz => 25_000_000,
        MCIClkSpeed::ClkSpeed26Mhz => 26_000_000,
        MCIClkSpeed::ClkSpeed50Mhz => 50_000_000,
        MCIClkSpeed::ClkSpeed52Mhz => 52_000_000,
        MCIClkSpeed::ClkSpeed66Mhz => 66_000_000,
        MCIClkSpeed::ClkSpeed100Mhz => 100_000_000,
    }
}

/// The frequency names one of the clock speeds.
pub open spec fn is_clk_speed(hz: u32) -> bool {
    exists|s: MCIClkSpeed| clk_speed_hz(s) == hz
}

impl MCIClkSpeed {
    /// The clock speed of frequency `value` (in Hz).
    pub fn from(value: u32) -> (r: Self)
        requires
            value == 400_000 || value == 25_000_000 || value == 26_000_000 || value == 50_000_000
                || value == 52_000_000 || value == 66_000_000 || value == 100_000_000,
        ensures
            clk_speed_hz(r) == value,
    {
        if value == 400_000 {
            MCIClkSpeed::ClkSpeed400KHz
        } else if value == 25_000_000 {
            MCIClkSpeed::ClkSpeed25Mhz
        } else if value == 26_000_000 {
            MCIClkSpeed::ClkSpeed26Mhz
        } else if value == 50_000_000 {
            MCIClkSpeed::ClkSpeed50Mhz
        } else if value == 52_000_000 {
            MCIClkSpeed::ClkSpeed52Mhz
        } else if value == 66_000_000 {
            MCIClkSpeed::ClkSpeed66Mhz
        } else {
            MCIClkSpeed::ClkSpeed100Mhz
        }
    }

    /// The frequency in Hz.
    pub fn hz(self) -> (r: u32)
        ensures
            r == clk_speed_hz(self),
    {
        match self {
            MCIClkSpeed::ClkSpeed400KHz => 400_000,
            MCIClkSpeed::ClkSpeed25Mhz => 25_000_000,
            MCIClkSpeed::ClkSpeed26Mhz => 26_000_000,
            MCIClkSpeed::ClkSpeed50Mhz => 50_000_000,
            MCIClkSpeed::ClkSpeed52Mhz => 52_000_000,
            MCIClkSpeed::ClkSpeed66Mhz => 66_000_000,
            MCIClkSpeed::ClkSpeed100Mhz => 100_000_000,
        }
    }
}

/// Byte offset of a controller register.
pub const FSDIF_CNTRL_OFFSET: u32 = 0x00;
/// Byte offset of a controller register.
pub const FSDIF_PWREN_OFFSET: u32 = 0x04;
/// Byte offset of a controller register.
pub const FSDIF_CLKDIV_OFFSET: u32 = 0x08;
/// Byte offset of a controller register.
pub const FSDIF_CLKENA_OFFSET: u32 = 0x10;
/// Byte offset of a controller register.
pub const FSDIF_TMOUT_OFFSET: u32 = 0x14;
/// Byte offset of a controller register.
pub const FSDIF_CTYPE_OFFSET: u32 = 0x18;
/// Byte offset of a controller register.
pub const FSDIF_BLK_SIZ_OFFSET: u32 = 0x1C;
/// Byte offset of a controller register.
pub const FSDIF_BYT_CNT_OFFSET: u32 = 0x20;
/// Byte offset of a controller register.
pub const FSDIF_INT_MASK_OFFSET: u32 = 0x24;
/// Byte offset of a controller register.
pub const FSDIF_CMD_ARG_OFFSET: u32 = 0x28;
/// Byte offset of a controller register.
pub const FSDIF_CMD_OFFSET: u32 = 0x2C;
/// Byte offset of a controller register.
pub const FSDIF_RESP0_OFFSET: u32 = 0x30;
/// Byte offset of a controller register.
pub const FSDIF_RESP1_OFFSET: u32 = 0x34;
/// Byte offset of a controller register.
pub const FSDIF_RESP2_OFFSET: u32 = 0x38;
/// Byte offset of a controller register.
pub const FSDIF_RESP3_OFFSET: u32 = 0x3C;
/// Byte offset of a controller register.
pub const FSDIF_MASKED_INTS_OFFSET: u32 = 0x40;
/// Byte offset of a controller register.
pub const FSDIF_RAW_INTS_OFFSET: u32 = 0x44;
/// Byte offset of a controller register.
pub const FSDIF_STATUS_OFFSET: u32 = 0x48;
/// Byte offset of a controller register.
pub const FSDIF_FIFOTH_OFFSET: u32 = 0x4C;
/// Byte offset of a controller register.
pub const FSDIF_CARD_DETECT_OFFSET: u32 = 0x50;
/// Byte offset of a controller register.
pub const FSDIF_CARD_WRTPRT_OFFSET: u32 = 0x54;
/// Byte offset of a controller register.
pub const FSDIF_CKSTS_OFFSET: u32 = 0x58;
/// Byte offset of a controller register.
pub const FSDIF_TRAN_CARD_CNT_OFFSET: u32 = 0x5C;
/// Byte offset of a controller register.
pub const FSDIF_TRAN_FIFO_CNT_OFFSET: u32 = 0x60;
/// Byte offset of a controller register.
pub const FSDIF_DEBNCE_OFFSET: u32 = 0x64;
/// Byte offset of a controller register.
pub const FSDIF_UID_OFFSET: u32 = 0x68;
/// Byte offset of a controller register.
pub const FSDIF_VID_OFFSET: u32 = 0x6C;
/// Byte offset of a controller register.
pub const FSDIF_HWCONF_OFFSET: u32 = 0x70;
/// Byte offset of a controller register.
pub const FSDIF_UHS_REG_OFFSET: u32 = 0x74;
/// Byte offset of a controller register.
pub const FSDIF_CARD_RESET_OFFSET: u32 = 0x78;
/// Byte offset of a controller register.
pub const FSDIF_BUS_MODE_OFFSET: u32 = 0x80;
/// Byte offset of a controller register.
pub const FSDIF_DESC_LIST_ADDRL_OFFSET: u32 = 0x88;
/// Byte offset of a controller register.
pub const FSDIF_DESC_LIST_ADDRH_OFFSET: u32 = 0x8C;
/// Byte offset of a controller register.
pub const FSDIF_DMAC_STATUS_OFFSET: u32 = 0x90;
/// Byte offset of a controller register.
pub const FSDIF_DMAC_INT_EN_OFFSET: u32 = 0x94;
/// Byte offset of a controller register.
pub const FSDIF_CUR_DESC_ADDRL_OFFSET: u32 = 0x98;
/// Byte offset of a controller register.
pub const FSDIF_CUR_DESC_ADDRH_OFFSET: u32 = 0x9C;
/// Byte offset of a controller register.
pub const FSDIF_CUR_BUF_ADDRL_OFFSET: u32 = 0xA0;
/// Byte offset of a controller register.
pub const FSDIF_CUR_BUF_ADDRH_OFFSET: u32 = 0xA4;
/// Byte offset of a controller register.
pub const FSDIF_CARD_THRCTL_OFFSET: u32 = 0x100;
/// Byte offset of a controller register.
pub const FSDIF_CLK_SRC_OFFSET: u32 = 0x108;
/// Byte offset of a controller register.
pub const FSDIF_EMMC_DDR_REG_OFFSET: u32 = 0x10C;
/// Byte offset of a controller register.
pub const FSDIF_ENABLE_SHIFT_OFFSET: u32 = 0x110;
/// Byte offset of a controller register.
pub const FSDIF_DATA_OFFSET: u32 = 0x200;

/// Reads a poll makes before giving up.
pub const RETRIES_TIMEOUT: usize = 50000;
/// Milliseconds a command may take.
pub const COMMAND_TIMEOUT: u32 = 5000;
/// Microseconds between status polls.
pub const FSDIF_DELAY_US: u32 = 5;
/// Largest number of bytes the FIFO takes.
pub const MCI_MAX_FIFO_CNT: u32 = 0x800;
/// Retries of a command.
pub const FSL_SDMMC_MAX_CMD_RETRIES: u32 = 10;
/// Number of controller 0.
pub const FSDIF0_ID: u32 = 0;
/// Number of controller 1.
pub const FSDIF1_ID: u32 = 1;
/// Marker of an initialised component.
pub const FT_COMPONENT_IS_READY: u32 = 0x11111111;

/// Descriptor bit: disable the completion interrupt.
pub const FSDIF_IDMAC_DES0_DIC: u32 = 0x2;
/// Descriptor bit: last descriptor.
pub const FSDIF_IDMAC_DES0_LD: u32 = 0x4;
/// Descriptor bit: first descriptor.
pub const FSDIF_IDMAC_DES0_FD: u32 = 0x8;
/// Descriptor bit: the next descriptor's address is chained.
pub const FSDIF_IDMAC_DES0_CH: u32 = 0x10;
/// Descriptor bit: end of ring.
pub const FSDIF_IDMAC_DES0_ER: u32 = 0x20;
/// Descriptor bit: card error summary.
pub const FSDIF_IDMAC_DES0_CES: u32 = 0x40000000;
/// Descriptor bit: the descriptor belongs to the DMA engine.
pub const FSDIF_IDMAC_DES0_OWN: u32 = 0x80000000;
/// Largest buffer one descriptor describes.
pub const FSDIF_IDMAC_MAX_BUF_SIZE: u32 = 0x1000;

/// Number of event kinds.
pub const FSDIF_NUM_OF_EVT: usize = 5;
/// Offset of the scratch register used by the interrupt handler.
pub const TEMP_REGISTER_OFFSET: u32 = 0xFD0;

} // verus!
