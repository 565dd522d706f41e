//! Interrupt masks of the controller.

use vstd::prelude::*;

use super::consts::MCIIntrType;
use super::regs::{MCIDMACIntEn, MCIIntMask};
use super::MCI;
use crate::regs::{read_step, value_of, RegAccess, RegisterIo};

verus! {

/// The mask register of an interrupt group.
pub open spec fn mask_reg(tp: MCIIntrType) -> u32 {
    match tp {
        MCIIntrType::GeneralIntr => MCIIntMask::REG,
        MCIIntrType::DmaIntr => MCIDMACIntEn::REG,
    }
}

/// The bits the mask register of an interrupt group defines.
pub open spec fn mask_defined(tp: MCIIntrType) -> u32 {
    match tp {
        MCIIntrType::GeneralIntr => MCIIntMask::DEFINED,
        MCIIntrType::DmaIntr => MCIDMACIntEn::DEFINED,
    }
}

/// The mask written when `set_mask` is enabled (`enable`) or disabled in a
/// mask that read `current`.
pub open spec fn mask_update(current: u32, set_mask: u32, enable: bool, tp: MCIIntrType) -> u32 {
    (if enable { current | set_mask } else { current & !set_mask }) & mask_defined(tp)
}

/// `t2` extends `t1` by reading the mask register of `tp` and writing back
/// the mask with `set_mask` enabled or disabled.
pub open spec fn mask_switched(t1: Seq<RegAccess>, t2: Seq<RegAccess>, tp: MCIIntrType, set_mask: u32, enable: bool) -> bool {
    let n = t1.len() as int;
    &&& t2.len() == n + 2
    &&& t2.subrange(0, n) == t1
    &&& t2[n] == RegAccess::Read(mask_reg(tp), value_of(t2[n]))
    &&& t2[n + 1] == RegAccess::Write(mask_reg(tp), mask_update(value_of(t2[n]), set_mask, enable, tp))
}

impl<B: RegisterIo> MCI<B> {
    /// The interrupt mask of a group.
    pub fn interrupt_mask_get(&mut self, tp: MCIIntrType) -> (r: u32)
        ensures
            read_step(old(self).window().trace(), final(self).window().trace(), mask_reg(tp)),
            r == value_of(final(self).window().trace().last()),
            final(self).window().base() == old(self).window().base(),
            final(self).config == old(self).config,
            final(self).is_ready == old(self).is_ready,
            final(self).desc_list == old(self).desc_list,
    {
        match tp {
            MCIIntrType::GeneralIntr => self.reg.read_reg(MCIIntMask::REG),
            MCIIntrType::DmaIntr => self.reg.read_reg(MCIDMACIntEn::REG),
        }
    }

    /// Enable (`enable`) or disable the interrupts of `set_mask` in a group;
    /// the other interrupts keep their setting.
    pub fn interrupt_mask_set(&mut self, tp: MCIIntrType, set_mask: u32, enable: bool)
        ensures
            mask_switched(old(self).window().trace(), final(self).window().trace(), tp, set_mask, enable),
            final(self).window().base() == old(self).window().base(),
            final(self).config == old(self).config,
            final(self).is_ready == old(self).is_ready,
            final(self).desc_list == old(self).desc_list,
    {
        let ghost t1 = self.reg.trace();
        let mut mask = self.interrupt_mask_get(tp);
        if enable {
            mask = mask | set_mask;
        } else {
            mask = mask & !set_mask;
        }
        match tp {
            MCIIntrType::GeneralIntr => self.reg.write_reg(MCIIntMask::REG, mask & MCIIntMask::DEFINED),
            MCIIntrType::DmaIntr => self.reg.write_reg(MCIDMACIntEn::REG, mask & MCIDMACIntEn::DEFINED),
        }
        assert(self.reg.trace().subrange(0, t1.len() as int) =~= t1);
    }
}

} // verus!
