//! Errors of the MCI controller.

use vstd::prelude::*;

use crate::regs::RegError;

verus! {

/// Error of a controller operation.
#[derive(Debug, Clone, Copy, PartialEq, Eq, Structural)]
pub enum MCIError {
    Timeout,
    NotInit,
    ShortBuf,
    NotSupport,
    InvalidState,
    TransTimeout,
    CmdTimeout,
    NoCard,
    Busy,
    DmaBufUnalign,
    InvalidTiming,
}

impl RegError for MCIError {
    open spec fn timeout_value() -> Self {
        MCIError::Timeout
    }

    fn timeout() -> (r: Self)
        ensures
            r == MCIError::Timeout,
    {
        MCIError::Timeout
    }
}

} // verus!
