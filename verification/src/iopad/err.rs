//! Errors of the I/O pad controller.

use vstd::prelude::*;

use crate::regs::RegError;

verus! {

/// Error of an I/O pad operation.
#[derive(Debug, Clone, Copy, PartialEq, Eq, Structural)]
pub enum FioPadError {
    InvalParam,
    NotReady,
    NotNotSupport,
    Timeout,
}

impl RegError for FioPadError {
    open spec fn timeout_value() -> Self {
        FioPadError::Timeout
    }

    fn timeout() -> (r: Self)
        ensures
            r == FioPadError::Timeout,
    {
        FioPadError::Timeout
    }
}

} // verus!
