//! Driver for the Phytium memory card interface (MCI / SDIF) controller and
//! the SD cards attached to it, with the register-level and protocol-level
//! logic stated and proved in Verus.
//!
//! The driver never touches memory itself: every register access goes
//! through a [`regs::RegisterIo`] implementation supplied by the platform,
//! and every access is recorded in a ghost trace that the contracts speak of.

use vstd::prelude::*;

pub mod iopad;
pub mod mci;
pub mod mci_host;
pub mod osa;
pub mod regs;
pub mod tools;

verus! {

/// Platform services the driver needs: a way to wait.
pub trait Kernel {
    /// Sleep for at least the given duration.
    fn sleep(duration: core::time::Duration);
}

/// The duration `core::time::Duration::from_millis` makes of `ms`.
pub uninterp spec fn duration_from_millis(ms: u64) -> core::time::Duration;

/// The duration `core::time::Duration::from_micros` makes of `us`.
pub uninterp spec fn duration_from_micros(us: u64) -> core::time::Duration;

/// `core::time::Duration::from_millis`: a duration of `ms` milliseconds.
/// Verus sees nothing inside a `Duration`; the contract only names the
/// result as a function of `ms`.
#[verifier::external_body]
pub(crate) fn millis(ms: u64) -> (r: core::time::Duration)
    ensures
        r == duration_from_millis(ms),
{
    core::time::Duration::from_millis(ms)
}

/// `core::time::Duration::from_micros`: a duration of `us` microseconds.
/// Verus sees nothing inside a `Duration`; the contract only names the
/// result as a function of `us`.
#[verifier::external_body]
pub(crate) fn micros(us: u64) -> (r: core::time::Duration)
    ensures
        r == duration_from_micros(us),
{
    core::time::Duration::from_micros(us)
}

} // verus!
