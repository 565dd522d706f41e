//! Registers of the MCI controller: their offsets, the bits they define,
//! and helpers that build field values.

use vstd::prelude::*;

use super::consts::{fifo_depth_code, MCIFifoDepth};
use crate::regs::{field_get, field_set, get_reg32_bits, set_reg32_bits};

verus! {

/// Bits of the `FSDIF_CNTRL_OFFSET` register.
pub struct MCICtrl;

impl MCICtrl {
    /// Byte offset of the register.
    pub const REG: u32 = 0x00;
    /// Union of the bits the register defines.
    pub const DEFINED: u32 = 0x3ff0ff7;
    pub const CONTROLLER_RESET: u32 = 0x1;
    pub const FIFO_RESET: u32 = 0x2;
    pub const DMA_RESET: u32 = 0x4;
    pub const INT_ENABLE: u32 = 0x10;
    pub const DMA_ENABLE: u32 = 0x20;
    pub const READ_WAIT: u32 = 0x40;
    pub const SEND_IRQ_RESPONSE: u32 = 0x80;
    pub const ABORT_READ_DATA: u32 = 0x100;
    pub const SEND_CCSD: u32 = 0x200;
    pub const SEND_AUTO_STOP_CCSD: u32 = 0x400;
    pub const ENDIAN: u32 = 0x800;
    pub const CARD_VOLTAGE_A_MASK: u32 = 0xf0000;
    pub const CARD_VOLTAGE_B_MASK: u32 = 0xf00000;
    pub const ENABLE_OD_PULLUP: u32 = 0x1000000;
    pub const USE_INTERNAL_DMAC: u32 = 0x2000000;
}

/// Bits of the `FSDIF_PWREN_OFFSET` register.
pub struct MCIPwrEn;

impl MCIPwrEn {
    /// Byte offset of the register.
    pub const REG: u32 = 0x04;
    /// Union of the bits the register defines.
    pub const DEFINED: u32 = 0x1;
    pub const ENABLE: u32 = 0x1;
}

/// Bits of the `FSDIF_CLKDIV_OFFSET` register.
pub struct MCIClkDiv;

impl MCIClkDiv {
    /// Byte offset of the register.
    pub const REG: u32 = 0x08;
    /// Union of the bits the register defines.
    pub const DEFINED: u32 = 0xffffff;
    pub const CLK_DIVDER_BIT0: u32 = 0x1;
    pub const CLK_DIVDER_BIT1: u32 = 0x2;
    pub const CLK_DIVDER_BIT2: u32 = 0x4;
    pub const CLK_DIVDER_BIT3: u32 = 0x8;
    pub const CLK_DIVDER_BIT4: u32 = 0x10;
    pub const CLK_DIVDER_BIT5: u32 = 0x20;
    pub const CLK_DIVDER_BIT6: u32 = 0x40;
    pub const CLK_DIVDER_BIT7: u32 = 0x80;
    pub const CLK_DRV_BIT0: u32 = 0x100;
    pub const CLK_DRV_BIT1: u32 = 0x200;
    pub const CLK_DRV_BIT2: u32 = 0x400;
    pub const CLK_DRV_BIT3: u32 = 0x800;
    pub const CLK_DRV_BIT4: u32 = 0x1000;
    pub const CLK_DRV_BIT5: u32 = 0x2000;
    pub const CLK_DRV_BIT6: u32 = 0x4000;
    pub const CLK_DRV_BIT7: u32 = 0x8000;
    pub const CLK_SAMPLE_BIT0: u32 = 0x10000;
    pub const CLK_SAMPLE_BIT1: u32 = 0x20000;
    pub const CLK_SAMPLE_BIT2: u32 = 0x40000;
    pub const CLK_SAMPLE_BIT3: u32 = 0x80000;
    pub const CLK_SAMPLE_BIT4: u32 = 0x100000;
    pub const CLK_SAMPLE_BIT5: u32 = 0x200000;
    pub const CLK_SAMPLE_BIT6: u32 = 0x400000;
    pub const CLK_SAMPLE_BIT7: u32 = 0x800000;
}

/// Bits of the `FSDIF_CLKENA_OFFSET` register.
pub struct MCIClkEn;

impl MCIClkEn {
    /// Byte offset of the register.
    pub const REG: u32 = 0x10;
    /// Union of the bits the register defines.
    pub const DEFINED: u32 = 0x10001;
    pub const CCLK_ENABLE: u32 = 0x1;
    pub const CLKENA_CCLK_LOW_POWER: u32 = 0x10000;
}

/// Bits of the `FSDIF_TMOUT_OFFSET` register.
pub struct MCITimeout;

impl MCITimeout {
    /// Byte offset of the register.
    pub const REG: u32 = 0x14;
    /// Union of the bits the register defines.
    pub const DEFINED: u32 = 0xffffffff;
    pub const MAX_DATA_TIMEOUT: u32 = 0xffffff;
    pub const MAX_RESP_TIMEOUT: u32 = 0xff;
    pub const RESP_TIMEOUT_BIT0: u32 = 0x1;
    pub const RESP_TIMEOUT_BIT1: u32 = 0x2;
    pub const RESP_TIMEOUT_BIT2: u32 = 0x4;
    pub const RESP_TIMEOUT_BIT3: u32 = 0x8;
    pub const RESP_TIMEOUT_BIT4: u32 = 0x10;
    pub const RESP_TIMEOUT_BIT5: u32 = 0x20;
    pub const RESP_TIMEOUT_BIT6: u32 = 0x40;
    pub const RESP_TIMEOUT_BIT7: u32 = 0x80;
    pub const DATA_TIMEOUT_BIT0: u32 = 0x100;
    pub const DATA_TIMEOUT_BIT1: u32 = 0x200;
    pub const DATA_TIMEOUT_BIT2: u32 = 0x400;
    pub const DATA_TIMEOUT_BIT3: u32 = 0x800;
    pub const DATA_TIMEOUT_BIT4: u32 = 0x1000;
    pub const DATA_TIMEOUT_BIT5: u32 = 0x2000;
    pub const DATA_TIMEOUT_BIT6: u32 = 0x4000;
    pub const DATA_TIMEOUT_BIT7: u32 = 0x8000;
    pub const DATA_TIMEOUT_BIT8: u32 = 0x10000;
    pub const DATA_TIMEOUT_BIT9: u32 = 0x20000;
    pub const DATA_TIMEOUT_BIT10: u32 = 0x40000;
    pub const DATA_TIMEOUT_BIT11: u32 = 0x80000;
    pub const DATA_TIMEOUT_BIT12: u32 = 0x100000;
    pub const DATA_TIMEOUT_BIT13: u32 = 0x200000;
    pub const DATA_TIMEOUT_BIT14: u32 = 0x400000;
    pub const DATA_TIMEOUT_BIT15: u32 = 0x800000;
    pub const DATA_TIMEOUT_BIT16: u32 = 0x1000000;
    pub const DATA_TIMEOUT_BIT17: u32 = 0x2000000;
    pub const DATA_TIMEOUT_BIT18: u32 = 0x4000000;
    pub const DATA_TIMEOUT_BIT19: u32 = 0x8000000;
    pub const DATA_TIMEOUT_BIT20: u32 = 0x10000000;
    pub const DATA_TIMEOUT_BIT21: u32 = 0x20000000;
    pub const DATA_TIMEOUT_BIT22: u32 = 0x40000000;
    pub const DATA_TIMEOUT_BIT23: u32 = 0x80000000;
}

/// Bits of the `FSDIF_CTYPE_OFFSET` register.
pub struct MCICType;

impl MCICType {
    /// Byte offset of the register.
    pub const REG: u32 = 0x18;
    /// Union of the bits the register defines.
    pub const DEFINED: u32 = 0x10001;
    pub const CARD0_WIDTH1_8BIT: u32 = 0x10000;
    pub const CARD0_WIDTH2_4BIT: u32 = 0x1;
    pub const CARD0_WIDTH2_1BIT: u32 = 0x0;
}

/// Bits of the `FSDIF_INT_MASK_OFFSET` register.
pub struct MCIIntMask;

impl MCIIntMask {
    /// Byte offset of the register.
    pub const REG: u32 = 0x24;
    /// Union of the bits the register defines.
    pub const DEFINED: u32 = 0x1ffff;
    pub const CD_BIT: u32 = 0x1;
    pub const RE_BIT: u32 = 0x2;
    pub const CMD_BIT: u32 = 0x4;
    pub const DTO_BIT: u32 = 0x8;
    pub const TXDR_BIT: u32 = 0x10;
    pub const RXDR_BIT: u32 = 0x20;
    pub const RCRC_BIT: u32 = 0x40;
    pub const DCRC_BIT: u32 = 0x80;
    pub const RTO_BIT: u32 = 0x100;
    pub const DRTO_BIT: u32 = 0x200;
    pub const HTO_BIT: u32 = 0x400;
    pub const FRUN_BIT: u32 = 0x800;
    pub const HLE_BIT: u32 = 0x1000;
    pub const SBE_BCI_BIT: u32 = 0x2000;
    pub const ACD_BIT: u32 = 0x4000;
    pub const EBE_BIT: u32 = 0x8000;
    pub const SDIO_BIT: u32 = 0x10000;
    pub const ALL_BITS: u32 = 0x1ffff;
    pub const INTS_DATA_MASK: u32 = 0x2288;
    pub const INTS_CMD_MASK: u32 = 0x1546;
}

/// Bits of the `FSDIF_MASKED_INTS_OFFSET` register.
pub struct MCIMaskedInts;

impl MCIMaskedInts {
    /// Byte offset of the register.
    pub const REG: u32 = 0x40;
    /// Union of the bits the register defines.
    pub const DEFINED: u32 = 0x1ffff;
    pub const CD_BIT: u32 = 0x1;
    pub const RE_BIT: u32 = 0x2;
    pub const CMD_BIT: u32 = 0x4;
    pub const DTO_BIT: u32 = 0x8;
    pub const TXDR_BIT: u32 = 0x10;
    pub const RXDR_BIT: u32 = 0x20;
    pub const RCRC_BIT: u32 = 0x40;
    pub const DCRC_BIT: u32 = 0x80;
    pub const RTO_BIT: u32 = 0x100;
    pub const DRTO_BIT: u32 = 0x200;
    pub const HTO_BIT: u32 = 0x400;
    pub const FRUN_BIT: u32 = 0x800;
    pub const HLE_BIT: u32 = 0x1000;
    pub const SBE_BCI_BIT: u32 = 0x2000;
    pub const ACD_BIT: u32 = 0x4000;
    pub const EBE_BIT: u32 = 0x8000;
    pub const SDIO_BIT: u32 = 0x10000;
    pub const ALL_BITS: u32 = 0x1ffff;
    pub const INTS_DATA_MASK: u32 = 0x2288;
    pub const INTS_CMD_MASK: u32 = 0x5446;
}

/// Bits of the `FSDIF_RAW_INTS_OFFSET` register.
pub struct MCIRawInts;

impl MCIRawInts {
    /// Byte offset of the register.
    pub const REG: u32 = 0x44;
    /// Union of the bits the register defines.
    pub const DEFINED: u32 = 0x1ffff;
    pub const CD_BIT: u32 = 0x1;
    pub const RE_BIT: u32 = 0x2;
    pub const CMD_BIT: u32 = 0x4;
    pub const DTO_BIT: u32 = 0x8;
    pub const TXDR_BIT: u32 = 0x10;
    pub const RXDR_BIT: u32 = 0x20;
    pub const RCRC_BIT: u32 = 0x40;
    pub const DCRC_BIT: u32 = 0x80;
    pub const RTO_BIT: u32 = 0x100;
    pub const DRTO_BIT: u32 = 0x200;
    pub const HTO_BIT: u32 = 0x400;
    pub const FRUN_BIT: u32 = 0x800;
    pub const HLE_BIT: u32 = 0x1000;
    pub const SBE_BCI_BIT: u32 = 0x2000;
    pub const ACD_BIT: u32 = 0x4000;
    pub const EBE_BIT: u32 = 0x8000;
    pub const SDIO_BIT: u32 = 0x10000;
    pub const ALL_BITS: u32 = 0x1ffff;
    pub const INTS_CMD_MASK: u32 = 0x1546;
    pub const INTS_DATA_MASK: u32 = 0x2288;
    pub const CMD_ERR_INTS_MASK: u32 = 0x23c2;
}

/// Bits of the `FSDIF_CMD_OFFSET` register.
pub struct MCICmd;

impl MCICmd {
    /// Byte offset of the register.
    pub const REG: u32 = 0x2C;
    /// Union of the bits the register defines.
    pub const DEFINED: u32 = 0xbf20f7ff;
    pub const START: u32 = 0x80000000;
    pub const USE_HOLD_REG: u32 = 0x20000000;
    pub const VOLT_SWITCH: u32 = 0x10000000;
    pub const BOOT_MODE: u32 = 0x8000000;
    pub const DISABLE_BOOT: u32 = 0x4000000;
    pub const EXPECT_BOOT_ACK: u32 = 0x2000000;
    pub const ENABLE_BOOT: u32 = 0x1000000;
    pub const UPD_CLK: u32 = 0x200000;
    pub const INIT: u32 = 0x8000;
    pub const STOP_ABORT: u32 = 0x4000;
    pub const WAIT_PRVDATA_COMPLETE: u32 = 0x2000;
    pub const SEND_AUTO_STOP: u32 = 0x1000;
    pub const DAT_WRITE: u32 = 0x400;
    pub const DAT_EXP: u32 = 0x200;
    pub const RESP_CRC: u32 = 0x100;
    pub const RESP_LONG: u32 = 0x80;
    pub const RESP_EXP: u32 = 0x40;
    pub const CMD_INDEX_BIT5: u32 = 0x20;
    pub const CMD_INDEX_BIT4: u32 = 0x10;
    pub const CMD_INDEX_BIT3: u32 = 0x8;
    pub const CMD_INDEX_BIT2: u32 = 0x4;
    pub const CMD_INDEX_BIT1: u32 = 0x2;
    pub const CMD_INDEX_BIT0: u32 = 0x1;
}

/// Bits of the `FSDIF_STATUS_OFFSET` register.
pub struct MCIStatus;

impl MCIStatus {
    /// Byte offset of the register.
    pub const REG: u32 = 0x48;
    /// Union of the bits the register defines.
    pub const DEFINED: u32 = 0xffffffff;
    pub const FIFO_RX: u32 = 0x1;
    pub const FIFO_TX: u32 = 0x2;
    pub const FIFO_EMPTY: u32 = 0x4;
    pub const FIFO_FULL: u32 = 0x8;
    pub const CMD_FSM_BIT0: u32 = 0x10;
    pub const CMD_FSM_BIT1: u32 = 0x20;
    pub const CMD_FSM_BIT2: u32 = 0x40;
    pub const CMD_FSM_BIT3: u32 = 0x80;
    pub const DATA3_STATUS: u32 = 0x100;
    pub const DATA_BUSY: u32 = 0x200;
    pub const DATA_STATE_MC_BUSY: u32 = 0x400;
    pub const RESP_INDEX_BIT0: u32 = 0x800;
    pub const RESP_INDEX_BIT1: u32 = 0x1000;
    pub const RESP_INDEX_BIT2: u32 = 0x2000;
    pub const RESP_INDEX_BIT3: u32 = 0x4000;
    pub const RESP_INDEX_BIT4: u32 = 0x8000;
    pub const RESP_INDEX_BIT5: u32 = 0x10000;
    pub const FIFO_CNT_BIT0: u32 = 0x20000;
    pub const FIFO_CNT_BIT1: u32 = 0x40000;
    pub const FIFO_CNT_BIT2: u32 = 0x80000;
    pub const FIFO_CNT_BIT3: u32 = 0x100000;
    pub const FIFO_CNT_BIT4: u32 = 0x200000;
    pub const FIFO_CNT_BIT5: u32 = 0x400000;
    pub const FIFO_CNT_BIT6: u32 = 0x800000;
    pub const FIFO_CNT_BIT7: u32 = 0x1000000;
    pub const FIFO_CNT_BIT8: u32 = 0x2000000;
    pub const FIFO_CNT_BIT9: u32 = 0x4000000;
    pub const FIFO_CNT_BIT10: u32 = 0x8000000;
    pub const FIFO_CNT_BIT11: u32 = 0x10000000;
    pub const FIFO_CNT_BIT12: u32 = 0x20000000;
    pub const DMA_ACK: u32 = 0x40000000;
    pub const DMA_REQ: u32 = 0x80000000;
}

/// Bits of the `FSDIF_FIFOTH_OFFSET` register.
pub struct MCIFifoTh;

impl MCIFifoTh {
    /// Byte offset of the register.
    pub const REG: u32 = 0x4C;
    /// Union of the bits the register defines.
    pub const DEFINED: u32 = 0x7fff0fff;
    pub const DMA_TRANS_MASK: u32 = 0x70000000;
    pub const RX_WMARK_MASK: u32 = 0xfff0000;
    pub const TX_WMARK_MASK: u32 = 0xfff;
    pub const TX_WMARK_BIT0: u32 = 0x1;
    pub const TX_WMARK_BIT1: u32 = 0x2;
    pub const TX_WMARK_BIT2: u32 = 0x4;
    pub const TX_WMARK_BIT3: u32 = 0x8;
    pub const TX_WMARK_BIT4: u32 = 0x10;
    pub const TX_WMARK_BIT5: u32 = 0x20;
    pub const TX_WMARK_BIT6: u32 = 0x40;
    pub const TX_WMARK_BIT7: u32 = 0x80;
    pub const TX_WMARK_BIT8: u32 = 0x100;
    pub const TX_WMARK_BIT9: u32 = 0x200;
    pub const TX_WMARK_BIT10: u32 = 0x400;
    pub const TX_WMARK_BIT11: u32 = 0x800;
    pub const RX_WMARK_BIT0: u32 = 0x10000;
    pub const RX_WMARK_BIT1: u32 = 0x20000;
    pub const RX_WMARK_BIT2: u32 = 0x40000;
    pub const RX_WMARK_BIT3: u32 = 0x80000;
    pub const RX_WMARK_BIT4: u32 = 0x100000;
    pub const RX_WMARK_BIT5: u32 = 0x200000;
    pub const RX_WMARK_BIT6: u32 = 0x400000;
    pub const RX_WMARK_BIT7: u32 = 0x800000;
    pub const RX_WMARK_BIT8: u32 = 0x1000000;
    pub const RX_WMARK_BIT9: u32 = 0x2000000;
    pub const RX_WMARK_BIT10: u32 = 0x4000000;
    pub const RX_WMARK_BIT11: u32 = 0x8000000;
    pub const DMA_TRANS_BIT0: u32 = 0x10000000;
    pub const DMA_TRANS_BIT1: u32 = 0x20000000;
    pub const DMA_TRANS_BIT2: u32 = 0x40000000;
}

/// Bits of the `FSDIF_CARD_DETECT_OFFSET` register.
pub struct MCICardDetect;

impl MCICardDetect {
    /// Byte offset of the register.
    pub const REG: u32 = 0x50;
    /// Union of the bits the register defines.
    pub const DEFINED: u32 = 0x1;
    pub const DETECTED: u32 = 0x1;
}

/// Bits of the `FSDIF_CARD_WRTPRT_OFFSET` register.
pub struct MCICardWrtp;

impl MCICardWrtp {
    /// Byte offset of the register.
    pub const REG: u32 = 0x54;
    /// Union of the bits the register defines.
    pub const DEFINED: u32 = 0x1;
    pub const WRITE_PROTECTED: u32 = 0x1;
}

/// Bits of the `FSDIF_CKSTS_OFFSET` register.
pub struct MCIClkSts;

impl MCIClkSts {
    /// Byte offset of the register.
    pub const REG: u32 = 0x58;
    /// Union of the bits the register defines.
    pub const DEFINED: u32 = 0x1;
    pub const READY: u32 = 0x1;
}

/// Bits of the `FSDIF_UHS_REG_OFFSET` register.
pub struct MCIUhsReg;

impl MCIUhsReg {
    /// Byte offset of the register.
    pub const REG: u32 = 0x74;
    /// Union of the bits the register defines.
    pub const DEFINED: u32 = 0x10001;
    pub const VOLT_180: u32 = 0x1;
    pub const DDR: u32 = 0x10000;
}

/// Bits of the `FSDIF_CARD_RESET_OFFSET` register.
pub struct MCICardReset;

impl MCICardReset {
    /// Byte offset of the register.
    pub const REG: u32 = 0x78;
    /// Union of the bits the register defines.
    pub const DEFINED: u32 = 0x1;
    pub const ENABLE: u32 = 0x1;
}

/// Bits of the `FSDIF_BUS_MODE_OFFSET` register.
pub struct MCIBusMode;

impl MCIBusMode {
    /// Byte offset of the register.
    pub const REG: u32 = 0x80;
    /// Union of the bits the register defines.
    pub const DEFINED: u32 = 0x783;
    pub const SWR: u32 = 0x1;
    pub const FB: u32 = 0x2;
    pub const DE: u32 = 0x80;
    pub const PBL_BIT0: u32 = 0x100;
    pub const PBL_BIT1: u32 = 0x200;
    pub const PBL_BIT2: u32 = 0x400;
}

/// Bits of the `FSDIF_DMAC_STATUS_OFFSET` register.
pub struct MCIDMACStatus;

impl MCIDMACStatus {
    /// Byte offset of the register.
    pub const REG: u32 = 0x90;
    /// Union of the bits the register defines.
    pub const DEFINED: u32 = 0xffffffff;
    pub const TI: u32 = 0x1;
    pub const RI: u32 = 0x2;
    pub const FBE: u32 = 0x4;
    pub const DU_BIT0: u32 = 0x8;
    pub const DU_BIT1: u32 = 0x10;
    pub const CES: u32 = 0x20;
    pub const NIS: u32 = 0x100;
    pub const AIS: u32 = 0x200;
    pub const EB_BIT0: u32 = 0x400;
    pub const EB_BIT1: u32 = 0x800;
    pub const EB_BIT2: u32 = 0x1000;
    pub const FSM_BIT0: u32 = 0x2000;
    pub const FSM_BIT1: u32 = 0x4000;
    pub const FSM_BIT2: u32 = 0x8000;
    pub const FSM_BIT3: u32 = 0x10000;
    pub const FSM_BIT4: u32 = 0x20000;
    pub const FSM_BIT5: u32 = 0x40000;
    pub const FSM_BIT6: u32 = 0x80000;
    pub const FSM_BIT7: u32 = 0x100000;
    pub const FSM_BIT8: u32 = 0x200000;
    pub const FSM_BIT9: u32 = 0x400000;
    pub const FSM_BIT10: u32 = 0x800000;
    pub const FSM_BIT11: u32 = 0x1000000;
    pub const FSM_BIT12: u32 = 0x2000000;
    pub const FSM_BIT13: u32 = 0x4000000;
    pub const FSM_BIT14: u32 = 0x8000000;
    pub const FSM_BIT15: u32 = 0x10000000;
    pub const FSM_BIT16: u32 = 0x20000000;
    pub const FSM_BIT17: u32 = 0x40000000;
    pub const FSM_BIT18: u32 = 0x80000000;
    pub const ALL_BITS: u32 = 0x3ff;
    pub const STATUS_EB_TX: u32 = 0x1;
    pub const STATUS_EB_RX: u32 = 0x2;
    pub const DMAC_ERR_INTS_MASK: u32 = 0x314;
}

/// Bits of the `FSDIF_DMAC_INT_EN_OFFSET` register.
pub struct MCIDMACIntEn;

impl MCIDMACIntEn {
    /// Byte offset of the register.
    pub const REG: u32 = 0x94;
    /// Union of the bits the register defines.
    pub const DEFINED: u32 = 0x3ff;
    pub const TI: u32 = 0x1;
    pub const RI: u32 = 0x2;
    pub const FBE: u32 = 0x4;
    pub const DU: u32 = 0x10;
    pub const CES: u32 = 0x20;
    pub const NIS: u32 = 0x100;
    pub const AIS: u32 = 0x200;
    pub const ALL_BITS: u32 = 0x3ff;
    pub const INTS_MASK: u32 = 0x314;
}

/// Bits of the `FSDIF_CARD_THRCTL_OFFSET` register.
pub struct MCICardThrctl;

impl MCICardThrctl {
    /// Byte offset of the register.
    pub const REG: u32 = 0x100;
    /// Union of the bits the register defines.
    pub const DEFINED: u32 = 0x1fff0007;
    pub const CARDRD: u32 = 0x1;
    pub const BUSY_CLR: u32 = 0x2;
    pub const CARDWR: u32 = 0x4;
    pub const FIFO_DEPTH_BIT0: u32 = 0x10000;
    pub const FIFO_DEPTH_BIT1: u32 = 0x20000;
    pub const FIFO_DEPTH_BIT2: u32 = 0x40000;
    pub const FIFO_DEPTH_BIT3: u32 = 0x80000;
    pub const FIFO_DEPTH_BIT4: u32 = 0x100000;
    pub const FIFO_DEPTH_BIT5: u32 = 0x200000;
    pub const FIFO_DEPTH_BIT6: u32 = 0x400000;
    pub const FIFO_DEPTH_BIT7: u32 = 0x800000;
    pub const FIFO_DEPTH_BIT8: u32 = 0x1000000;
    pub const FIFO_DEPTH_BIT9: u32 = 0x2000000;
    pub const FIFO_DEPTH_BIT10: u32 = 0x4000000;
    pub const FIFO_DEPTH_BIT11: u32 = 0x8000000;
    pub const FIFO_DEPTH_BIT12: u32 = 0x10000000;
}

/// Bits of the `FSDIF_CLK_SRC_OFFSET` register.
pub struct MCIClkSrc;

impl MCIClkSrc {
    /// Byte offset of the register.
    pub const REG: u32 = 0x108;
    /// Union of the bits the register defines.
    pub const DEFINED: u32 = 0xff7f7f03;
    pub const UHS_EXT_MMC_VOLT: u32 = 0x1;
    pub const UHS_EXT_CLK_ENA: u32 = 0x2;
    pub const UHS_EXT_CLK_MUX: u32 = 0x80000000;
    pub const UHS_CLK_DIV_MASK: u32 = 0x7f00;
    pub const UHS_CLK_DIV_BIT0: u32 = 0x100;
    pub const UHS_CLK_DIV_BIT1: u32 = 0x200;
    pub const UHS_CLK_DIV_BIT2: u32 = 0x400;
    pub const UHS_CLK_DIV_BIT3: u32 = 0x800;
    pub const UHS_CLK_DIV_BIT4: u32 = 0x1000;
    pub const UHS_CLK_DIV_BIT5: u32 = 0x2000;
    pub const UHS_CLK_DIV_BIT6: u32 = 0x4000;
    pub const UHS_CLK_SAMP_MASK: u32 = 0x7f0000;
    pub const UHS_CLK_SAMP_BIT0: u32 = 0x10000;
    pub const UHS_CLK_SAMP_BIT1: u32 = 0x20000;
    pub const UHS_CLK_SAMP_BIT2: u32 = 0x40000;
    pub const UHS_CLK_SAMP_BIT3: u32 = 0x80000;
    pub const UHS_CLK_SAMP_BIT4: u32 = 0x100000;
    pub const UHS_CLK_SAMP_BIT5: u32 = 0x200000;
    pub const UHS_CLK_SAMP_BIT6: u32 = 0x400000;
    pub const UHS_CLK_DRV_MASK: u32 = 0x7f000000;
    pub const UHS_CLK_DRV_BIT0: u32 = 0x1000000;
    pub const UHS_CLK_DRV_BIT1: u32 = 0x2000000;
    pub const UHS_CLK_DRV_BIT2: u32 = 0x4000000;
    pub const UHS_CLK_DRV_BIT3: u32 = 0x8000000;
    pub const UHS_CLK_DRV_BIT4: u32 = 0x10000000;
    pub const UHS_CLK_DRV_BIT5: u32 = 0x20000000;
    pub const UHS_CLK_DRV_BIT6: u32 = 0x40000000;
}

/// Bits of the `FSDIF_EMMC_DDR_REG_OFFSET` register.
pub struct MCIEmmcDdrReg;

impl MCIEmmcDdrReg {
    /// Byte offset of the register.
    pub const REG: u32 = 0x10C;
    /// Union of the bits the register defines.
    pub const DEFINED: u32 = 0x1;
    pub const CYCLE: u32 = 0x1;
}

/// Bits of the `FSDIF_DESC_LIST_ADDRH_OFFSET` register.
pub struct MCIDescListAddrH;

impl MCIDescListAddrH {
    /// Byte offset of the register.
    pub const REG: u32 = 0x8C;
    /// Union of the bits the register defines.
    pub const DEFINED: u32 = 0xffffffff;
}

/// Bits of the `FSDIF_DESC_LIST_ADDRL_OFFSET` register.
pub struct MCIDescListAddrL;

impl MCIDescListAddrL {
    /// Byte offset of the register.
    pub const REG: u32 = 0x88;
    /// Union of the bits the register defines.
    pub const DEFINED: u32 = 0xffffffff;
}

/// Bits of the `FSDIF_DATA_OFFSET` register.
pub struct MCIDataReg;

impl MCIDataReg {
    /// Byte offset of the register.
    pub const REG: u32 = 0x200;
    /// Union of the bits the register defines.
    pub const DEFINED: u32 = 0xffffffff;
}

/// Bits of the `FSDIF_BYT_CNT_OFFSET` register.
pub struct MCIBytCnt;

impl MCIBytCnt {
    /// Byte offset of the register.
    pub const REG: u32 = 0x20;
    /// Union of the bits the register defines.
    pub const DEFINED: u32 = 0xffffffff;
}

/// Bits of the `FSDIF_BLK_SIZ_OFFSET` register.
pub struct MCIBlkSiz;

impl MCIBlkSiz {
    /// Byte offset of the register.
    pub const REG: u32 = 0x1C;
    /// Union of the bits the register defines.
    pub const DEFINED: u32 = 0xffffffff;
    pub const BIT0: u32 = 0x1;
    pub const BIT1: u32 = 0x2;
    pub const BIT2: u32 = 0x4;
    pub const BIT3: u32 = 0x8;
    pub const BIT4: u32 = 0x10;
    pub const BIT5: u32 = 0x20;
    pub const BIT6: u32 = 0x40;
    pub const BIT7: u32 = 0x80;
    pub const BIT8: u32 = 0x100;
    pub const BIT9: u32 = 0x200;
    pub const BIT10: u32 = 0x400;
    pub const BIT11: u32 = 0x800;
    pub const BIT12: u32 = 0x1000;
    pub const BIT13: u32 = 0x2000;
    pub const BIT14: u32 = 0x4000;
    pub const BIT15: u32 = 0x8000;
    pub const BIT16: u32 = 0x10000;
    pub const BIT17: u32 = 0x20000;
    pub const BIT18: u32 = 0x40000;
    pub const BIT19: u32 = 0x80000;
    pub const BIT20: u32 = 0x100000;
    pub const BIT21: u32 = 0x200000;
    pub const BIT22: u32 = 0x400000;
    pub const BIT23: u32 = 0x800000;
    pub const BIT24: u32 = 0x1000000;
    pub const BIT25: u32 = 0x2000000;
    pub const BIT26: u32 = 0x4000000;
    pub const BIT27: u32 = 0x8000000;
    pub const BIT28: u32 = 0x10000000;
    pub const BIT29: u32 = 0x20000000;
    pub const BIT30: u32 = 0x40000000;
    pub const BIT31: u32 = 0x80000000;
    pub const ALL_BITS: u32 = 0xffffffff;
}

/// Bits of the `FSDIF_TRAN_CARD_CNT_OFFSET` register.
pub struct MCITranCardCnt;

impl MCITranCardCnt {
    /// Byte offset of the register.
    pub const REG: u32 = 0x5C;
    /// Union of the bits the register defines.
    pub const DEFINED: u32 = 0xffffffff;
}

/// Bits of the `FSDIF_TRAN_FIFO_CNT_OFFSET` register.
pub struct MCITranFifoCnt;

impl MCITranFifoCnt {
    /// Byte offset of the register.
    pub const REG: u32 = 0x60;
    /// Union of the bits the register defines.
    pub const DEFINED: u32 = 0xffffffff;
}

/// Bits of the `FSDIF_RESP0_OFFSET` register.
pub struct MCIResp0;

impl MCIResp0 {
    /// Byte offset of the register.
    pub const REG: u32 = 0x30;
    /// Union of the bits the register defines.
    pub const DEFINED: u32 = 0xffffffff;
}

/// Bits of the `FSDIF_RESP1_OFFSET` register.
pub struct MCIResp1;

impl MCIResp1 {
    /// Byte offset of the register.
    pub const REG: u32 = 0x34;
    /// Union of the bits the register defines.
    pub const DEFINED: u32 = 0xffffffff;
}

/// Bits of the `FSDIF_RESP2_OFFSET` register.
pub struct MCIResp2;

impl MCIResp2 {
    /// Byte offset of the register.
    pub const REG: u32 = 0x38;
    /// Union of the bits the register defines.
    pub const DEFINED: u32 = 0xffffffff;
}

/// Bits of the `FSDIF_RESP3_OFFSET` register.
pub struct MCIResp3;

impl MCIResp3 {
    /// Byte offset of the register.
    pub const REG: u32 = 0x3C;
    /// Union of the bits the register defines.
    pub const DEFINED: u32 = 0xffffffff;
}

/// Bits of the `FSDIF_CMD_ARG_OFFSET` register.
pub struct MCICmdArg;

impl MCICmdArg {
    /// Byte offset of the register.
    pub const REG: u32 = 0x28;
    /// Union of the bits the register defines.
    pub const DEFINED: u32 = 0xffffffff;
}

/// Bits of the `FSDIF_DEBNCE_OFFSET` register.
pub struct MCIDebnce;

impl MCIDebnce {
    /// Byte offset of the register.
    pub const REG: u32 = 0x64;
    /// Union of the bits the register defines.
    pub const DEFINED: u32 = 0xffffffff;
}

/// Bits of the `FSDIF_UID_OFFSET` register.
pub struct MCIUid;

impl MCIUid {
    /// Byte offset of the register.
    pub const REG: u32 = 0x68;
    /// Union of the bits the register defines.
    pub const DEFINED: u32 = 0xffffffff;
}

/// Bits of the `FSDIF_VID_OFFSET` register.
pub struct MCIVid;

impl MCIVid {
    /// Byte offset of the register.
    pub const REG: u32 = 0x6C;
    /// Union of the bits the register defines.
    pub const DEFINED: u32 = 0xffffffff;
}

/// Bits of the `FSDIF_HWCONF_OFFSET` register.
pub struct MCIHwconf;

impl MCIHwconf {
    /// Byte offset of the register.
    pub const REG: u32 = 0x70;
    /// Union of the bits the register defines.
    pub const DEFINED: u32 = 0xffffffff;
}

/// Bits of the `FSDIF_CUR_DESC_ADDRL_OFFSET` register.
pub struct MCICurDescAddrL;

impl MCICurDescAddrL {
    /// Byte offset of the register.
    pub const REG: u32 = 0x98;
    /// Union of the bits the register defines.
    pub const DEFINED: u32 = 0xffffffff;
}

/// Bits of the `FSDIF_CUR_DESC_ADDRH_OFFSET` register.
pub struct MCIDescAddrH;

impl MCIDescAddrH {
    /// Byte offset of the register.
    pub const REG: u32 = 0x9C;
    /// Union of the bits the register defines.
    pub const DEFINED: u32 = 0xffffffff;
}

/// Bits of the `FSDIF_CUR_BUF_ADDRL_OFFSET` register.
pub struct MCICurBufAddrL;

impl MCICurBufAddrL {
    /// Byte offset of the register.
    pub const REG: u32 = 0xA0;
    /// Union of the bits the register defines.
    pub const DEFINED: u32 = 0xffffffff;
}

/// Bits of the `FSDIF_CUR_BUF_ADDRH_OFFSET` register.
pub struct MCIBufAddrH;

impl MCIBufAddrH {
    /// Byte offset of the register.
    pub const REG: u32 = 0xA4;
    /// Union of the bits the register defines.
    pub const DEFINED: u32 = 0xffffffff;
}

/// Bits of the `FSDIF_ENABLE_SHIFT_OFFSET` register.
pub struct MCIEnableShift;

impl MCIEnableShift {
    /// Byte offset of the register.
    pub const REG: u32 = 0x110;
    /// Union of the bits the register defines.
    pub const DEFINED: u32 = 0xffffffff;
}

/// Bits of the `TEMP_REGISTER_OFFSET` register.
pub struct IrqTempRegister;

impl IrqTempRegister {
    /// Byte offset of the register.
    pub const REG: u32 = 0xFD0;
    /// Union of the bits the register defines.
    pub const DEFINED: u32 = 0xffffffff;
}

impl MCIClkDiv {
    /// The sampling phase field holding `x`.
    pub fn clk_sample_set(x: u32) -> (r: u32)
        ensures
            r == field_set(x, 23, 16) & MCIClkDiv::DEFINED,
    {
        set_reg32_bits(x, 23, 16) & MCIClkDiv::DEFINED
    }

    /// The output phase field holding `x`.
    pub fn clk_drv_set(x: u32) -> (r: u32)
        ensures
            r == field_set(x, 15, 8) & MCIClkDiv::DEFINED,
    {
        set_reg32_bits(x, 15, 8) & MCIClkDiv::DEFINED
    }

    /// The divider field holding `x`.
    pub fn clk_divider_set(x: u32) -> (r: u32)
        ensures
            r == field_set(x, 7, 0) & MCIClkDiv::DEFINED,
    {
        set_reg32_bits(x, 7, 0) & MCIClkDiv::DEFINED
    }

    /// A clock divider register value from its three fields.
    pub fn clk_div(samp: u32, drv: u32, div: u32) -> (r: u32)
        ensures
            r == (field_set(samp, 23, 16) & MCIClkDiv::DEFINED) | (field_set(drv, 15, 8)
                & MCIClkDiv::DEFINED) | (field_set(div, 7, 0) & MCIClkDiv::DEFINED),
    {
        Self::clk_sample_set(samp) | Self::clk_drv_set(drv) | Self::clk_divider_set(div)
    }

    /// The divider field of a clock divider register value.
    pub fn clk_divider_get(div_reg: u32) -> (r: u32)
        ensures
            r == field_get(div_reg, 7, 0) & MCIClkDiv::DEFINED,
    {
        get_reg32_bits(div_reg, 7, 0) & MCIClkDiv::DEFINED
    }
}

impl MCITimeout {
    /// A timeout register value: the data timeout in bits 31..8 and the
    /// response timeout in bits 7..0.
    pub fn timeout_data(data_timeout: u32, resp_timeout: u32) -> (r: u32)
        ensures
            r == (0xFFFF_FF00 & (data_timeout << 8u32)) | (0xFF & resp_timeout),
    {
        (0xFFFF_FF00 & (data_timeout << 8u32)) | (0xFF & resp_timeout)
    }
}

impl MCICType {
    /// The card type register value selecting a bus of `val` data lines.
    pub fn from(val: u32) -> (r: u32)
        requires
            val == 1 || val == 4 || val == 8,
        ensures
            val == 1 ==> r == MCICType::CARD0_WIDTH2_1BIT,
            val == 4 ==> r == MCICType::CARD0_WIDTH2_4BIT,
            val == 8 ==> r == MCICType::CARD0_WIDTH1_8BIT,
    {
        if val == 1 {
            Self::CARD0_WIDTH2_1BIT
        } else if val == 4 {
            Self::CARD0_WIDTH2_4BIT
        } else {
            Self::CARD0_WIDTH1_8BIT
        }
    }
}

impl MCICmd {
    /// The command index field holding `x`.
    pub fn index_set(x: u32) -> (r: u32)
        ensures
            r == field_set(x, 5, 0) & MCICmd::DEFINED,
    {
        set_reg32_bits(x, 5, 0) & MCICmd::DEFINED
    }

    /// The command index of a command register value.
    pub fn index_get(v: u32) -> (r: u32)
        ensures
            r == v & 0x3F,
    {
        v & 0x3F
    }
}

/// Burst size of a DMA transfer through the FIFO.
#[derive(Debug, Clone, Copy, PartialEq, Eq, Structural)]
pub enum MCIFifoThDMATransSize {
    DMATrans1,
    DMATrans4,
    DMATrans8,
    DMATrans16,
    DMATrans32,
    DMATrans64,
    DMATrans128,
    DMATrans256,
}

/// The encoding of a burst size.
pub open spec fn trans_size_code(t: MCIFifoThDMATransSize) -> u32 {
    match t {
        MCIFifoThDMATransSize::DMATrans1 => 0,
        MCIFifoThDMATransSize::DMATrans4 => 1,
        MCIFifoThDMATransSize::DMATrans8 => 2,
        MCIFifoThDMATransSize::DMATrans16 => 3,
        MCIFifoThDMATransSize::DMATrans32 => 4,
        MCIFifoThDMATransSize::DMATrans64 => 5,
        MCIFifoThDMATransSize::DMATrans128 => 6,
        MCIFifoThDMATransSize::DMATrans256 => 7,
    }
}

impl MCIFifoThDMATransSize {
    /// The encoding of the burst size.
    pub fn into(self) -> (r: u32)
        ensures
            r == trans_size_code(self),
    {
        match self {
            MCIFifoThDMATransSize::DMATrans1 => 0,
            MCIFifoThDMATransSize::DMATrans4 => 1,
            MCIFifoThDMATransSize::DMATrans8 => 2,
            MCIFifoThDMATransSize::DMATrans16 => 3,
            MCIFifoThDMATransSize::DMATrans32 => 4,
            MCIFifoThDMATransSize::DMATrans64 => 5,
            MCIFifoThDMATransSize::DMATrans128 => 6,
            MCIFifoThDMATransSize::DMATrans256 => 7,
        }
    }
}

/// The FIFO threshold register value for a burst size and the receive and
/// transmit watermarks.
pub open spec fn fifoth_spec(trans_size: u32, rx_wmark: u32, tx_wmark: u32) -> u32 {
    (MCIFifoTh::DMA_TRANS_MASK & (trans_size << 28u32)) | (MCIFifoTh::RX_WMARK_MASK & (rx_wmark
        << 16u32)) | (MCIFifoTh::TX_WMARK_MASK & tx_wmark)
}

impl MCIFifoTh {
    /// Receive watermark used by the driver.
    pub const RX_WMARK: u32 = 0x7;
    /// Transmit watermark used by the driver.
    pub const TX_WMARK: u32 = 0x100;

    /// The FIFO threshold register value for a burst size and the receive
    /// and transmit watermarks.
    pub fn fifoth(trans_size: MCIFifoThDMATransSize, rx_wmark: u32, tx_wmark: u32) -> (r: u32)
        ensures
            r == fifoth_spec(trans_size_code(trans_size), rx_wmark, tx_wmark),
    {
        let trans_size: u32 = trans_size.into();
        (MCIFifoTh::DMA_TRANS_MASK & (trans_size << 28u32)) | (MCIFifoTh::RX_WMARK_MASK & (
        rx_wmark << 16u32)) | (MCIFifoTh::TX_WMARK_MASK & tx_wmark)
    }
}

impl MCICardThrctl {
    /// The card threshold register bit that marks a FIFO depth.
    pub fn from(value: MCIFifoDepth) -> (r: u32)
        ensures
            r == (1u32 << fifo_depth_code(value)) & MCICardThrctl::DEFINED,
    {
        let v: u32 = value.code();
        (1u32 << v) & MCICardThrctl::DEFINED
    }
}

impl MCIClkSrc {
    /// The clock divider field holding `x`.
    pub fn uhs_clk_div(x: u32) -> (r: u32)
        ensures
            r == MCIClkSrc::UHS_CLK_DIV_MASK & ((x << 8u32) & MCIClkSrc::DEFINED),
    {
        Self::UHS_CLK_DIV_MASK & ((x << 8u32) & Self::DEFINED)
    }

    /// The sampling phase field holding `x`.
    pub fn uhs_clk_samp(x: u32) -> (r: u32)
        ensures
            r == MCIClkSrc::UHS_CLK_SAMP_MASK & ((x << 16u32) & MCIClkSrc::DEFINED),
    {
        Self::UHS_CLK_SAMP_MASK & ((x << 16u32) & Self::DEFINED)
    }

    /// The output phase field holding `x`.
    pub fn uhs_clk_drv(x: u32) -> (r: u32)
        ensures
            r == MCIClkSrc::UHS_CLK_DRV_MASK & ((x << 24u32) & MCIClkSrc::DEFINED),
    {
        Self::UHS_CLK_DRV_MASK & ((x << 24u32) & Self::DEFINED)
    }

    /// A clock source register value from output phase, sampling phase and
    /// divider.
    pub open spec fn uhs_reg_spec(drv_phase: u32, samp_phase: u32, clk_div: u32) -> u32 {
        (MCIClkSrc::UHS_CLK_DIV_MASK & ((clk_div << 8u32) & MCIClkSrc::DEFINED))
            | (MCIClkSrc::UHS_CLK_SAMP_MASK & ((samp_phase << 16u32) & MCIClkSrc::DEFINED))
            | (MCIClkSrc::UHS_CLK_DRV_MASK & ((drv_phase << 24u32) & MCIClkSrc::DEFINED))
    }

    /// A clock source register value from output phase, sampling phase and
    /// divider.
    pub fn uhs_reg(drv_phase: u32, samp_phase: u32, clk_div: u32) -> (r: u32)
        ensures
            r == MCIClkSrc::uhs_reg_spec(drv_phase, samp_phase, clk_div),
    {
        Self::uhs_clk_div(clk_div) | Self::uhs_clk_samp(samp_phase) | Self::uhs_clk_drv(drv_phase)
    }
}

} // verus!
