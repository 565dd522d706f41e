//! Timing settings of the controller for each card clock speed, and the
//! pad delays that go with them.

use vstd::prelude::*;

use super::consts::MCIId;
use crate::iopad::constants::{
    fiopaddelay_code, FioPadDelay, FioPadDelayDir, FioPadDelayType, FIOPAD_AJ49_REG1_OFFSET,
    FIOPAD_J53_REG1_OFFSET,
};
use crate::iopad::{delay_bits, enable_bit, IoPad};
use crate::regs::{rmw_step, RegAccess, RegisterIo};

verus! {

/// What to do with the clock output delay when a timing is applied.
#[derive(Debug, Clone, Copy, PartialEq, Eq, Structural)]
pub enum MCIPadDelay {
    Apply,
    Clear,
    Keep,
}

/// Clock settings of the controller for one card clock speed.
#[derive(Debug, Clone, Copy, PartialEq, Eq, Structural)]
pub struct MCITiming {
    pub use_hold: bool,
    pub clk_div: u32,
    pub clk_src: u32,
    pub shift: u32,
    pub pad_delay: MCIPadDelay,
}

/// The delay register of the card clock output of a controller.
pub open spec fn clock_delay_reg(mci_id: MCIId) -> u32 {
    match mci_id {
        MCIId::MCI0 => FIOPAD_AJ49_REG1_OFFSET,
        MCIId::MCI1 => FIOPAD_J53_REG1_OFFSET,
    }
}

/// `t2` extends `t1` by the three read-modify-writes of a delay register
/// that set the output coarse delay, the output fine delay, and the output
/// delay enable.
pub open spec fn delay_settings_applied(t1: Seq<RegAccess>, t2: Seq<RegAccess>, reg: u32, coarse: u32, fine: u32, enable: bool) -> bool {
    let ta = t2.subrange(0, t1.len() as int + 2);
    let tb = t2.subrange(0, t1.len() as int + 4);
    let out = FioPadDelayDir::OutputDelay;
    &&& t2.len() == t1.len() + 6
    &&& rmw_step(t1, ta, reg, 0x7000, delay_bits(coarse, out, FioPadDelayType::DelayCoarseTuning))
    &&& rmw_step(ta, tb, reg, 0xE00, delay_bits(fine, out, FioPadDelayType::DelayFineTuning))
    &&& rmw_step(tb, t2, reg, if enable { 0 } else { !(!enable_bit(out) & 0x7F7F) },
        if enable { enable_bit(out) } else { 0 })
}

impl MCITiming {
    /// A timing with every setting zero and no pad delay change.
    pub fn new() -> (r: Self)
        ensures
            r == (MCITiming { use_hold: false, clk_div: 0, clk_src: 0, shift: 0, pad_delay: MCIPadDelay::Keep }),
    {
        MCITiming { use_hold: false, clk_div: 0, clk_src: 0, shift: 0, pad_delay: MCIPadDelay::Keep }
    }

    /// Apply the timing's pad delay setting to the clock output pad of
    /// controller `mci_id`.
    pub fn pad_delay<B: RegisterIo>(&self, iopad: &mut IoPad<B>, mci_id: MCIId)
        ensures
            final(iopad).window().base() == old(iopad).window().base(),
            self.pad_delay == MCIPadDelay::Apply ==> delay_settings_applied(old(iopad).window().trace(), final(iopad).window().trace(), clock_delay_reg(mci_id), 1, 7, true),
            self.pad_delay == MCIPadDelay::Clear ==> delay_settings_applied(old(iopad).window().trace(), final(iopad).window().trace(), clock_delay_reg(mci_id), 0, 0, false),
            self.pad_delay == MCIPadDelay::Keep ==> final(iopad).window().trace() == old(iopad).window().trace(),
    {
        match self.pad_delay {
            MCIPadDelay::Apply => set_pad_delay(iopad, mci_id),
            MCIPadDelay::Clear => unset_pad_delay(iopad, mci_id),
            MCIPadDelay::Keep => {},
        }
    }

    /// The clock source register value.
    pub fn clk_src(&self) -> (r: u32)
        ensures
            r == self.clk_src,
    {
        self.clk_src
    }

    /// The clock divider register value.
    pub fn clk_div(&self) -> (r: u32)
        ensures
            r == self.clk_div,
    {
        self.clk_div
    }

    /// Commands use the hold register.
    pub fn use_hold(&self) -> (r: bool)
        ensures
            r == self.use_hold,
    {
        self.use_hold
    }

    /// The phase shift setting.
    pub fn shift(&self) -> (r: u32)
        ensures
            r == self.shift,
    {
        self.shift
    }
}

/// Card identification at 400 kHz.
pub fn mmc_sd_400k_hz() -> (r: MCITiming)
    ensures
        r == (MCITiming { use_hold: true, clk_div: 0x7e7dfa, clk_src: 0x000502, shift: 0, pad_delay: MCIPadDelay::Clear }),
{
    MCITiming { use_hold: true, clk_div: 0x7e7dfa, clk_src: 0x000502, shift: 0x0, pad_delay: MCIPadDelay::Clear }
}

/// SD default speed, 25 MHz.
pub fn sd_25mhz() -> (r: MCITiming)
    ensures
        r == (MCITiming { use_hold: true, clk_div: 0x030204, clk_src: 0x000302, shift: 0, pad_delay: MCIPadDelay::Clear }),
{
    MCITiming { use_hold: true, clk_div: 0x030204, clk_src: 0x000302, shift: 0x0, pad_delay: MCIPadDelay::Clear }
}

/// SD high speed, 50 MHz.
pub fn sd_50mhz() -> (r: MCITiming)
    ensures
        r == (MCITiming { use_hold: true, clk_div: 0x030204, clk_src: 0x000502, shift: 0, pad_delay: MCIPadDelay::Apply }),
{
    MCITiming { use_hold: true, clk_div: 0x030204, clk_src: 0x000502, shift: 0x0, pad_delay: MCIPadDelay::Apply }
}

/// SD UHS-I SDR50 / DDR50, 100 MHz.
pub fn sd_100mhz() -> (r: MCITiming)
    ensures
        r == (MCITiming { use_hold: false, clk_div: 0x010002, clk_src: 0x000202, shift: 0, pad_delay: MCIPadDelay::Apply }),
{
    MCITiming { use_hold: false, clk_div: 0x010002, clk_src: 0x000202, shift: 0x0, pad_delay: MCIPadDelay::Apply }
}

/// MMC legacy speed, 26 MHz.
pub fn mmc_26mhz() -> (r: MCITiming)
    ensures
        r == (MCITiming { use_hold: true, clk_div: 0x030204, clk_src: 0x000302, shift: 0, pad_delay: MCIPadDelay::Apply }),
{
    MCITiming { use_hold: true, clk_div: 0x030204, clk_src: 0x000302, shift: 0x0, pad_delay: MCIPadDelay::Apply }
}

/// MMC high speed, 52 MHz.
pub fn mmc_52mhz() -> (r: MCITiming)
    ensures
        r == (MCITiming { use_hold: false, clk_div: 0x030204, clk_src: 0x000202, shift: 0, pad_delay: MCIPadDelay::Apply }),
{
    MCITiming { use_hold: false, clk_div: 0x030204, clk_src: 0x000202, shift: 0x0, pad_delay: MCIPadDelay::Apply }
}

/// MMC HS200 at 66 MHz.
pub fn mmc_66mhz() -> (r: MCITiming)
    ensures
        r == (MCITiming { use_hold: false, clk_div: 0x010002, clk_src: 0x000202, shift: 0, pad_delay: MCIPadDelay::Keep }),
{
    MCITiming { use_hold: false, clk_div: 0x010002, clk_src: 0x000202, shift: 0x0, pad_delay: MCIPadDelay::Keep }
}

/// MMC HS200 at 100 MHz.
pub fn mmc_100mhz() -> (r: MCITiming)
    ensures
        r == (MCITiming { use_hold: false, clk_div: 0x010002, clk_src: 0x000202, shift: 0, pad_delay: MCIPadDelay::Apply }),
{
    MCITiming { use_hold: false, clk_div: 0x010002, clk_src: 0x000202, shift: 0x0, pad_delay: MCIPadDelay::Apply }
}

fn apply_delay_settings<B: RegisterIo>(iopad: &mut IoPad<B>, reg: u32, coarse_delay: FioPadDelay, fine_delay: FioPadDelay, enable: bool)
    requires
        coarse_delay != FioPadDelay::NumOfDelay,
        fine_delay != FioPadDelay::NumOfDelay,
    ensures
        final(iopad).window().base() == old(iopad).window().base(),
        delay_settings_applied(old(iopad).window().trace(), final(iopad).window().trace(), reg,
            fiopaddelay_code(coarse_delay), fiopaddelay_code(fine_delay), enable),
{
    let ghost t1 = iopad.window().trace();
    iopad.delay_set(reg, FioPadDelayDir::OutputDelay, FioPadDelayType::DelayCoarseTuning, coarse_delay);
    let ghost ta = iopad.window().trace();
    iopad.delay_set(reg, FioPadDelayDir::OutputDelay, FioPadDelayType::DelayFineTuning, fine_delay);
    let ghost tb = iopad.window().trace();
    iopad.delay_enable_set(reg, FioPadDelayDir::OutputDelay, enable);
    let ghost t2 = iopad.window().trace();
    assert(t2.subrange(0, t1.len() as int + 2) =~= ta) by {
        assert(tb.subrange(0, ta.len() as int) == ta);
        assert(t2.subrange(0, tb.len() as int) == tb);
    }
    assert(t2.subrange(0, t1.len() as int + 4) =~= tb);
}

/// Turn on the clock output delay of controller `mci_id` (coarse step 1,
/// fine step 7).
pub fn set_pad_delay<B: RegisterIo>(iopad: &mut IoPad<B>, mci_id: MCIId)
    ensures
        final(iopad).window().base() == old(iopad).window().base(),
        delay_settings_applied(old(iopad).window().trace(), final(iopad).window().trace(), clock_delay_reg(mci_id), 1, 7, true),
{
    match mci_id {
        MCIId::MCI0 => apply_delay_settings(iopad, FIOPAD_AJ49_REG1_OFFSET, FioPadDelay::Delay1, FioPadDelay::Delay7, true),
        MCIId::MCI1 => apply_delay_settings(iopad, FIOPAD_J53_REG1_OFFSET, FioPadDelay::Delay1, FioPadDelay::Delay7, true),
    }
}

/// Turn off the clock output delay of controller `mci_id`.
pub fn unset_pad_delay<B: RegisterIo>(iopad: &mut IoPad<B>, mci_id: MCIId)
    ensures
        final(iopad).window().base() == old(iopad).window().base(),
        delay_settings_applied(old(iopad).window().trace(), final(iopad).window().trace(), clock_delay_reg(mci_id), 0, 0, false),
{
    match mci_id {
        MCIId::MCI0 => apply_delay_settings(iopad, FIOPAD_AJ49_REG1_OFFSET, FioPadDelay::DelayNone, FioPadDelay::DelayNone, false),
        MCIId::MCI1 => apply_delay_settings(iopad, FIOPAD_J53_REG1_OFFSET, FioPadDelay::DelayNone, FioPadDelay::DelayNone, false),
    }
}

} // verus!
