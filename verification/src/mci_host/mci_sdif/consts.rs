//! Constants of the SDIF host device.

use vstd::prelude::*;

verus! {

/// Whether a card sits in the slot.
#[derive(Debug, Clone, Copy, PartialEq, Eq, Structural)]
pub enum SDStatus {
    Removed,
    Inserted,
}

} // verus!
