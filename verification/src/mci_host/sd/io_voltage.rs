//! Control of the card's signalling voltage.

use vstd::prelude::*;

use super::constants::SdIoVoltageCtrlType;

verus! {

/// How the signalling voltage is switched.
#[derive(Debug, Clone, Copy, PartialEq, Eq, Structural)]
pub struct SdIoVoltage {
    pub typ: SdIoVoltageCtrlType,
}

impl SdIoVoltage {
    /// Switching not supported.
    pub fn new() -> (r: Self)
        ensures
            r.typ == SdIoVoltageCtrlType::NotSupport,
    {
        SdIoVoltage { typ: SdIoVoltageCtrlType::NotSupport }
    }

    pub fn typ(&self) -> (r: SdIoVoltageCtrlType)
        ensures
            r == self.typ,
    {
        self.typ
    }

    pub fn typ_set(&mut self, typ: SdIoVoltageCtrlType)
        ensures
            final(self).typ == typ,
    {
        self.typ = typ;
    }
}

} // verus!
