//! The MCI (SDIF) controller: register-level operations, command
//! submission, programmed I/O and the DMA descriptor chain.

use vstd::prelude::*;

pub mod consts;
pub mod err;
pub mod mci_cmd;
pub mod mci_cmddata;
pub mod mci_config;
pub mod mci_data;
pub mod mci_dma;
pub mod mci_hardware;
pub mod mci_intr;
pub mod mci_pio;
pub mod mci_timing;
pub mod mci_transfer;
pub mod regs;

use crate::regs::{Reg, RegAccess, RegisterIo};
use mci_config::MCIConfig;
use mci_dma::FSdifIDmaDescList;
use mci_timing::MCITiming;

verus! {

/// A controller instance.
pub struct MCI<B: RegisterIo> {
    pub config: MCIConfig,
    pub reg: Reg<B>,
    pub is_ready: bool,
    pub prev_cmd: u32,
    pub curr_timing: MCITiming,
    pub desc_list: FSdifIDmaDescList,
}

impl<B: RegisterIo> MCI<B> {
    /// Index of the command that announces an application command.
    pub const EXT_APP_CMD: u32 = 55;

    /// The controller's register window.
    pub closed spec fn window(&self) -> Reg<B> {
        self.reg
    }

    /// A controller with configuration `config` whose registers are reached
    /// through `io`; not ready until it has been set up.
    pub fn new(config: MCIConfig, io: B) -> (r: Self)
        ensures
            r.config == config,
            r.window().base() == config.base,
            r.window().trace() == Seq::<RegAccess>::empty(),
            !r.is_ready,
            r.prev_cmd == 0,
            r.desc_list.desc_num == 0,
    {
        MCI {
            config,
            reg: Reg::new(config.base, io),
            is_ready: false,
            prev_cmd: 0,
            curr_timing: MCITiming::new(),
            desc_list: FSdifIDmaDescList::new(),
        }
    }
}

} // verus!
