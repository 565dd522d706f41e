//! How the host detects a card.

use vstd::prelude::*;

use super::constants::MCIHostDetectCardType;

verus! {

/// Card detection settings.
#[derive(Debug, Clone, Copy)]
pub struct MCIHostCardDetect {
    pub typ: MCIHostDetectCardType,
    /// Time a detection has to hold before it counts, in ms.
    pub cd_debounce_ms: u32,
}

impl MCIHostCardDetect {
    /// Detection by GPIO without debouncing.
    pub fn new() -> (r: Self)
        ensures
            r.typ == MCIHostDetectCardType::ByGpioCD,
            r.cd_debounce_ms == 0,
    {
        MCIHostCardDetect { typ: MCIHostDetectCardType::ByGpioCD, cd_debounce_ms: 0 }
    }
}

} // verus!
