//! Settings the user of a card chooses.

use vstd::prelude::*;

use super::io_voltage::SdIoVoltage;
use crate::mci_host::mci_host_card_detect::MCIHostCardDetect;

verus! {

/// Settings of a card: power delays, voltage control, detection, clock
/// limit and capabilities.
#[derive(Debug, Clone, Copy)]
pub struct SdUsrParam {
    /// Wait after powering on, in ms; 0 takes the default.
    pub power_on_delay_ms: u32,
    /// Wait after powering off, in ms; 0 takes the default.
    pub power_off_delay_ms: u32,
    pub io_voltage: Option<SdIoVoltage>,
    pub card_detect: Option<MCIHostCardDetect>,
    /// Highest card clock, in Hz.
    pub max_freq: u32,
    pub capability: u32,
}

impl SdUsrParam {
    /// Default delays, no voltage control, no detection settings, no clock
    /// limit or capability.
    pub open spec fn new_spec() -> SdUsrParam {
        SdUsrParam {
            power_on_delay_ms: 0,
            power_off_delay_ms: 0,
            io_voltage: None,
            card_detect: None,
            max_freq: 0,
            capability: 0,
        }
    }

    /// Default delays, no voltage control, no detection settings, no clock
    /// limit or capability.
    pub fn new() -> (r: Self)
        ensures
            r == Self::new_spec(),
    {
        SdUsrParam {
            power_on_delay_ms: 0,
            power_off_delay_ms: 0,
            io_voltage: None,
            card_detect: None,
            max_freq: 0,
            capability: 0,
        }
    }
}

} // verus!
