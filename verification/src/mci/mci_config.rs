//! Static configuration of a controller instance and the choice of timing
//! for a card clock speed.

use vstd::prelude::*;

use super::consts::{MCIClkSpeed, MCIId, MCITransMode};
use super::mci_timing::{
    mmc_100mhz, mmc_26mhz, mmc_52mhz, mmc_66mhz, mmc_sd_400k_hz, sd_100mhz, sd_25mhz, sd_50mhz,
    MCITiming,
};

verus! {

/// Configuration of a controller instance.
#[derive(Debug, Clone, Copy, PartialEq, Eq, Structural)]
pub struct MCIConfig {
    pub instance_id: MCIId,
    pub base: usize,
    pub irq_num: u32,
    pub trans_mode: MCITransMode,
    pub non_removable: bool,
}

/// The timing of a card clock speed, for embedded (non-removable) or
/// removable cards; `None` where the controller has no timing for it.
pub open spec fn tuning_spec(clock_freq: MCIClkSpeed, non_removable: bool) -> Option<MCITiming> {
    if clock_freq == MCIClkSpeed::ClkSpeed400KHz {
        Some(MCITiming { use_hold: true, clk_div: 0x7e7dfa, clk_src: 0x000502, shift: 0, pad_delay: super::mci_timing::MCIPadDelay::Clear })
    } else {
        match (non_removable, clock_freq) {
            (true, MCIClkSpeed::ClkSpeed26Mhz) => Some(MCITiming { use_hold: true, clk_div: 0x030204, clk_src: 0x000302, shift: 0, pad_delay: super::mci_timing::MCIPadDelay::Apply }),
            (true, MCIClkSpeed::ClkSpeed52Mhz) => Some(MCITiming { use_hold: false, clk_div: 0x030204, clk_src: 0x000202, shift: 0, pad_delay: super::mci_timing::MCIPadDelay::Apply }),
            (true, MCIClkSpeed::ClkSpeed66Mhz) => Some(MCITiming { use_hold: false, clk_div: 0x010002, clk_src: 0x000202, shift: 0, pad_delay: super::mci_timing::MCIPadDelay::Keep }),
            (true, MCIClkSpeed::ClkSpeed100Mhz) => Some(MCITiming { use_hold: false, clk_div: 0x010002, clk_src: 0x000202, shift: 0, pad_delay: super::mci_timing::MCIPadDelay::Apply }),
            (false, MCIClkSpeed::ClkSpeed25Mhz) => Some(MCITiming { use_hold: true, clk_div: 0x030204, clk_src: 0x000302, shift: 0, pad_delay: super::mci_timing::MCIPadDelay::Clear }),
            (false, MCIClkSpeed::ClkSpeed50Mhz) => Some(MCITiming { use_hold: true, clk_div: 0x030204, clk_src: 0x000502, shift: 0, pad_delay: super::mci_timing::MCIPadDelay::Apply }),
            (false, MCIClkSpeed::ClkSpeed100Mhz) => Some(MCITiming { use_hold: false, clk_div: 0x010002, clk_src: 0x000202, shift: 0, pad_delay: super::mci_timing::MCIPadDelay::Apply }),
            _ => None,
        }
    }
}

impl MCIConfig {
    /// The configuration of the controller whose registers are at `addr`:
    /// controller 0, interrupt 104, programmed I/O, removable card.
    pub fn new(addr: usize) -> (r: Self)
        ensures
            r == (MCIConfig { instance_id: MCIId::MCI0, base: addr, irq_num: 104, trans_mode: MCITransMode::PIO, non_removable: false }),
    {
        MCIConfig {
            instance_id: MCIId::MCI0,
            base: addr,
            irq_num: 104,
            trans_mode: MCITransMode::PIO,
            non_removable: false,
        }
    }

    /// The configuration of the controller at `addr`.
    pub fn lookup_config(addr: usize) -> (r: Self)
        ensures
            r == MCIConfig::new_spec(addr),
    {
        Self::new(addr)
    }

    /// The configuration of the controller at `addr`, for a restart.
    pub fn restart(addr: usize) -> (r: Self)
        ensures
            r == MCIConfig::new_spec(addr),
    {
        Self::new(addr)
    }

    /// The configuration `new` gives.
    pub open spec fn new_spec(addr: usize) -> MCIConfig {
        MCIConfig { instance_id: MCIId::MCI0, base: addr, irq_num: 104, trans_mode: MCITransMode::PIO, non_removable: false }
    }

    /// The timing of a card clock speed for embedded or removable cards.
    pub fn get_tuning(clock_freq: MCIClkSpeed, non_removable: bool) -> (r: Option<MCITiming>)
        ensures
            r == tuning_spec(clock_freq, non_removable),
    {
        if clock_freq == MCIClkSpeed::ClkSpeed400KHz {
            return Some(mmc_sd_400k_hz());
        }
        match (non_removable, clock_freq) {
            (true, MCIClkSpeed::ClkSpeed26Mhz) => Some(mmc_26mhz()),
            (true, MCIClkSpeed::ClkSpeed52Mhz) => Some(mmc_52mhz()),
            (true, MCIClkSpeed::ClkSpeed66Mhz) => Some(mmc_66mhz()),
            (true, MCIClkSpeed::ClkSpeed100Mhz) => Some(mmc_100mhz()),
            (false, MCIClkSpeed::ClkSpeed25Mhz) => Some(sd_25mhz()),
            (false, MCIClkSpeed::ClkSpeed50Mhz) => Some(sd_50mhz()),
            (false, MCIClkSpeed::ClkSpeed100Mhz) => Some(sd_100mhz()),
            _ => None,
        }
    }

    /// The base address of the controller's registers.
    pub fn reg(&self) -> (r: usize)
        ensures
            r == self.base,
    {
        self.base
    }

    /// How data moves.
    pub fn trans_mode(&self) -> (r: MCITransMode)
        ensures
            r == self.trans_mode,
    {
        self.trans_mode
    }

    /// Change how data moves.
    pub fn trans_mode_set(&mut self, mode: MCITransMode)
        ensures
            *final(self) == (MCIConfig { trans_mode: mode, ..*old(self) }),
    {
        self.trans_mode = mode;
    }

    /// The card is soldered down.
    pub fn non_removable(&self) -> (r: bool)
        ensures
            r == self.non_removable,
    {
        self.non_removable
    }

    /// Which controller.
    pub fn instance_id(&self) -> (r: MCIId)
        ensures
            r == self.instance_id,
    {
        self.instance_id
    }
}

} // verus!
