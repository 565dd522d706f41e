//! Configuration of the card host.

use vstd::prelude::*;

use super::sd::constants::{SD_BLOCK_SIZE, SD_CLOCK_50MHZ, SD_MAX_RW_BLK};
use crate::mci::consts::MCIId;

verus! {

/// Kind of host controller.
#[derive(Debug, Clone, Copy, PartialEq, Eq, Structural)]
pub enum MCIHostType {
    SDMMC,
    SDIF,
}

/// Kind of card the host serves.
#[derive(Debug, Clone, Copy, PartialEq, Eq, Structural)]
pub enum MCIHostCardType {
    StandardSD,
    MicroSD,
    EMMC,
    SDIO,
}

/// Byte order the host hands data over in.
#[derive(Debug, Clone, Copy, PartialEq, Eq, Structural)]
pub enum MCIHostEndianMode {
    Big,
    HalfWordBig,
    Little,
}

/// Configuration of the card host.
#[derive(Debug, Clone, Copy)]
pub struct MCIHostConfig {
    pub host_id: MCIId,
    pub host_type: MCIHostType,
    pub card_type: MCIHostCardType,
    pub enable_irq: bool,
    pub enable_dma: bool,
    pub endian_mode: MCIHostEndianMode,
    /// Largest transfer, in bytes.
    pub max_trans_size: usize,
    /// Block size, in bytes.
    pub def_block_size: usize,
    /// Card clock, in Hz.
    pub card_clock: u32,
    pub is_uhs_card: bool,
}

impl MCIHostConfig {
    /// The configuration of a micro SD card on controller 0 of SDIF kind,
    /// moved by programmed I/O without interrupts, little-endian, with
    /// 512-byte blocks, transfers of up to 1024 blocks and a 50 MHz card
    /// clock, not UHS.
    pub fn new() -> (r: Self)
        ensures
            r.host_id == MCIId::MCI0,
            r.host_type == MCIHostType::SDIF,
            r.card_type == MCIHostCardType::MicroSD,
            !r.enable_irq,
            !r.enable_dma,
            r.endian_mode == MCIHostEndianMode::Little,
            r.max_trans_size == 1024 * 512,
            r.def_block_size == 512,
            r.card_clock == 50_000_000,
            !r.is_uhs_card,
    {
        MCIHostConfig {
            host_id: MCIId::MCI0,
            host_type: MCIHostType::SDIF,
            card_type: MCIHostCardType::MicroSD,
            enable_irq: false,
            enable_dma: false,
            endian_mode: MCIHostEndianMode::Little,
            max_trans_size: SD_MAX_RW_BLK * SD_BLOCK_SIZE,
            def_block_size: SD_BLOCK_SIZE,
            card_clock: SD_CLOCK_50MHZ,
            is_uhs_card: false,
        }
    }
}

} // verus!
