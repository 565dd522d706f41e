//! Sizes of the memory pool and the transfer event bits.

use vstd::prelude::*;

verus! {

/// 2 MiB.
pub const SZ_2M: usize = 0x20_0000;
/// Size of the memory pool.
pub const MAX_POOL_SIZE: usize = SZ_2M;
/// Size of a semaphore handle.
pub const OSA_SEM_HANDLE_SIZE: usize = 8;
/// The command went through.
pub const SDMMC_OSA_EVENT_TRANSFER_CMD_SUCCESS: u32 = 0x1;
/// The command failed.
pub const SDMMC_OSA_EVENT_TRANSFER_CMD_FAIL: u32 = 0x2;
/// The data went through.
pub const SDMMC_OSA_EVENT_TRANSFER_DATA_SUCCESS: u32 = 0x4;
/// The data failed.
pub const SDMMC_OSA_EVENT_TRANSFER_DATA_FAIL: u32 = 0x8;
/// The DMA transfer completed.
pub const SDMMC_OSA_EVENT_TRANSFER_DMA_COMPLETE: u32 = 0x10;
/// A card was inserted.
pub const SDMMC_OSA_EVENT_CARD_INSERTED: u32 = 0x100;
/// A card was removed.
pub const SDMMC_OSA_EVENT_CARD_REMOVED: u32 = 0x200;
/// The events that end a transfer with an error.
pub const FSDIF_TRANS_ERR_EVENTS: u32 = 0x2 | 0x8 | 0x200;
/// Wait for all of the events.
pub const SDMMC_OSA_EVENT_FLAG_AND: u32 = 0x1;
/// Wait for any of the events.
pub const SDMMC_OSA_EVENT_FLAG_OR: u32 = 0x2;

} // verus!
