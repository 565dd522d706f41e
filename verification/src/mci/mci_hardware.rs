//! Register-level operations of the controller.

use vstd::prelude::*;

use super::consts::{fifo_depth_code, MCIFifoDepth};
use super::err::MCIError;
use super::regs::{
    fifoth_spec, trans_size_code, MCIBlkSiz, MCIBusMode, MCIBytCnt, MCICType, MCICardDetect,
    MCICardReset, MCICardThrctl, MCIClkEn, MCIClkSrc, MCIClkSts, MCICmd, MCICmdArg, MCICtrl,
    MCIDMACIntEn, MCIDMACStatus, MCIDescListAddrH, MCIDescListAddrL, MCIFifoTh,
    MCIFifoThDMATransSize, MCIIntMask, MCIPwrEn, MCIRawInts, MCIStatus, MCIUhsReg,
};
use super::MCI;
use crate::regs::{
    extends, is_read_of, lemma_extends_index, lemma_extends_trans, poll_succeeded, poll_timed_out, read_step, rmw_step, value_of, write_step,
    RegAccess, RegisterIo,
};
use super::consts::RETRIES_TIMEOUT;

verus! {

/// `t2` extends `t1` by setting (`enable`) or clearing the bits `bits` of
/// the register at `off` in one read-modify-write.
pub open spec fn bits_switched(t1: Seq<RegAccess>, t2: Seq<RegAccess>, off: u32, bits: u32, enable: bool) -> bool {
    if enable {
        rmw_step(t1, t2, off, 0, bits)
    } else {
        rmw_step(t1, t2, off, bits, 0)
    }
}

/// `t2` extends `t1` by a command submission: a wait until the card is not
/// busy, a write of `arg` to the argument register, a write of `cmd` with
/// the start bit to the command register, and a wait until the controller
/// has taken the command (start bit clear).
pub open spec fn cmd_submitted(t1: Seq<RegAccess>, t2: Seq<RegAccess>, cmd: u32, arg: u32) -> bool {
    exists|i: int| #![trigger t2[i]]
        t1.len() < i && i + 2 < t2.len()
        && poll_succeeded(t1, t2.subrange(0, i), MCIStatus::REG, MCIStatus::DATA_BUSY, MCIStatus::DATA_BUSY, false)
        && t2[i] == RegAccess::Write(MCICmdArg::REG, arg)
        && t2[i + 1] == RegAccess::Write(MCICmd::REG, MCICmd::START | cmd)
        && poll_succeeded(t2.subrange(0, i + 2), t2, MCICmd::REG, MCICmd::START, MCICmd::START, false)
}

/// `t2` extends `t1` by a command submission that timed out: the wait until
/// the card is not busy ran out, or the argument and the command were
/// written and the wait until the controller took the command ran out.
pub open spec fn cmd_timed_out(t1: Seq<RegAccess>, t2: Seq<RegAccess>, cmd: u32, arg: u32) -> bool {
    ||| poll_timed_out(t1, t2, MCIStatus::REG, MCIStatus::DATA_BUSY, MCIStatus::DATA_BUSY, false, RETRIES_TIMEOUT as nat)
    ||| exists|i: int| #![trigger t2[i]]
        t1.len() < i && i + 2 <= t2.len()
        && poll_succeeded(t1, t2.subrange(0, i), MCIStatus::REG, MCIStatus::DATA_BUSY, MCIStatus::DATA_BUSY, false)
        && t2[i] == RegAccess::Write(MCICmdArg::REG, arg)
        && t2[i + 1] == RegAccess::Write(MCICmd::REG, MCICmd::START | cmd)
        && poll_timed_out(t2.subrange(0, i + 2), t2, MCICmd::REG, MCICmd::START, MCICmd::START, false, RETRIES_TIMEOUT as nat)
}

impl<B: RegisterIo> MCI<B> {
    /// The status register.
    pub fn status(&mut self) -> (r: u32)
        ensures
            read_step(old(self).window().trace(), final(self).window().trace(), MCIStatus::REG),
            r == value_of(final(self).window().trace().last()),
            final(self).window().base() == old(self).window().base(),
            final(self).config == old(self).config,
            final(self).is_ready == old(self).is_ready,
            final(self).desc_list == old(self).desc_list,
    {
        self.reg.read_reg(MCIStatus::REG)
    }

    /// Program the FIFO threshold register.
    pub fn fifoth_set(&mut self, trans_size: MCIFifoThDMATransSize, rx_wmark: u32, tx_wmark: u32)
        ensures
            write_step(old(self).window().trace(), final(self).window().trace(), MCIFifoTh::REG,
                fifoth_spec(trans_size_code(trans_size), rx_wmark, tx_wmark)),
            final(self).window().base() == old(self).window().base(),
            final(self).config == old(self).config,
            final(self).is_ready == old(self).is_ready,
            final(self).desc_list == old(self).desc_list,
    {
        let v = MCIFifoTh::fifoth(trans_size, rx_wmark, tx_wmark);
        self.reg.write_reg(MCIFifoTh::REG, v);
    }

    /// Program the card read threshold for a FIFO depth.
    pub fn cardthr_set(&mut self, cardthr: MCIFifoDepth)
        ensures
            write_step(old(self).window().trace(), final(self).window().trace(), MCICardThrctl::REG,
                MCICardThrctl::CARDRD | ((1u32 << fifo_depth_code(cardthr)) & MCICardThrctl::DEFINED)),
            final(self).window().base() == old(self).window().base(),
            final(self).config == old(self).config,
            final(self).is_ready == old(self).is_ready,
            final(self).desc_list == old(self).desc_list,
    {
        let v = MCICardThrctl::CARDRD | MCICardThrctl::from(cardthr);
        self.reg.write_reg(MCICardThrctl::REG, v);
    }

    /// Turn the card clock on or off.
    pub fn clock_set(&mut self, enable: bool)
        ensures
            bits_switched(old(self).window().trace(), final(self).window().trace(), MCIClkEn::REG, MCIClkEn::CCLK_ENABLE, enable),
            final(self).window().base() == old(self).window().base(),
            final(self).config == old(self).config,
            final(self).is_ready == old(self).is_ready,
            final(self).desc_list == old(self).desc_list,
    {
        if enable {
            self.reg.set_reg(MCIClkEn::REG, MCIClkEn::CCLK_ENABLE);
        } else {
            self.reg.clear_reg(MCIClkEn::REG, MCIClkEn::CCLK_ENABLE);
        }
    }

    /// Switch the external clock source: write zero, then `uhs_reg`, then
    /// wait for the clock to be ready.
    pub fn update_exteral_clk(&mut self, uhs_reg: u32) -> (r: Result<(), MCIError>)
        ensures
            ({
                let t1 = old(self).window().trace();
                let t2 = final(self).window().trace();
                let tw = t1.push(RegAccess::Write(MCIClkSrc::REG, 0)).push(RegAccess::Write(MCIClkSrc::REG, uhs_reg));
                &&& extends(tw, t2)
                &&& r.is_ok() <==> poll_succeeded(tw, t2, MCIClkSts::REG, MCIClkSts::READY, MCIClkSts::READY, true)
            }),
            final(self).window().base() == old(self).window().base(),
            final(self).config == old(self).config,
            final(self).is_ready == old(self).is_ready,
            final(self).desc_list == old(self).desc_list,
    {
        self.reg.write_reg(MCIClkSrc::REG, 0);
        self.reg.write_reg(MCIClkSrc::REG, uhs_reg);
        let ghost tw = self.reg.trace();
        let r = self.reg.retry_for(MCIClkSts::REG, MCIClkSts::READY, MCIClkSts::READY, true, Some(RETRIES_TIMEOUT));
        proof {
            if r.is_err() {
                assert(self.reg.trace().len() > tw.len());
            }
        }
        r
    }

    /// Enable the external clock at divider 5.
    pub fn init_external_clk(&mut self) -> (r: Result<(), MCIError>)
        ensures
            ({
                let t1 = old(self).window().trace();
                let t2 = final(self).window().trace();
                let v = MCIClkSrc::uhs_reg_spec(0, 0, 5) | MCIClkSrc::UHS_EXT_CLK_ENA;
                let tw = t1.push(RegAccess::Write(MCIClkSrc::REG, 0)).push(RegAccess::Write(MCIClkSrc::REG, v));
                &&& extends(tw, t2)
                &&& r.is_ok() <==> poll_succeeded(tw, t2, MCIClkSts::REG, MCIClkSts::READY, MCIClkSts::READY, true)
            }),
            final(self).window().base() == old(self).window().base(),
            final(self).config == old(self).config,
            final(self).is_ready == old(self).is_ready,
            final(self).desc_list == old(self).desc_list,
    {
        let reg_val = MCIClkSrc::uhs_reg(0, 0, 0x5) | MCIClkSrc::UHS_EXT_CLK_ENA;
        self.update_exteral_clk(reg_val)
    }

    /// Turn the card power on or off.
    pub fn power_set(&mut self, enable: bool)
        ensures
            bits_switched(old(self).window().trace(), final(self).window().trace(), MCIPwrEn::REG, MCIPwrEn::ENABLE, enable),
            final(self).window().base() == old(self).window().base(),
            final(self).config == old(self).config,
            final(self).is_ready == old(self).is_ready,
            final(self).desc_list == old(self).desc_list,
    {
        if enable {
            self.reg.set_reg(MCIPwrEn::REG, MCIPwrEn::ENABLE);
        } else {
            self.reg.clear_reg(MCIPwrEn::REG, MCIPwrEn::ENABLE);
        }
    }

    /// Enable or disable the external clock.
    pub fn clock_src_set(&mut self, enable: bool)
        ensures
            bits_switched(old(self).window().trace(), final(self).window().trace(), MCIClkSrc::REG, MCIClkSrc::UHS_EXT_CLK_ENA, enable),
            final(self).window().base() == old(self).window().base(),
            final(self).config == old(self).config,
            final(self).is_ready == old(self).is_ready,
            final(self).desc_list == old(self).desc_list,
    {
        if enable {
            self.reg.set_reg(MCIClkSrc::REG, MCIClkSrc::UHS_EXT_CLK_ENA);
        } else {
            self.reg.clear_reg(MCIClkSrc::REG, MCIClkSrc::UHS_EXT_CLK_ENA);
        }
    }

    /// Select 1.8 V (`enable`) or 3.3 V signalling.
    pub fn voltage_1_8v_set(&mut self, enable: bool)
        ensures
            bits_switched(old(self).window().trace(), final(self).window().trace(), MCIUhsReg::REG, MCIUhsReg::VOLT_180, enable),
            final(self).window().base() == old(self).window().base(),
            final(self).config == old(self).config,
            final(self).is_ready == old(self).is_ready,
            final(self).desc_list == old(self).desc_list,
    {
        if enable {
            self.reg.set_reg(MCIUhsReg::REG, MCIUhsReg::VOLT_180);
        } else {
            self.reg.clear_reg(MCIUhsReg::REG, MCIUhsReg::VOLT_180);
        }
    }

    /// Select a bus of `width` data lines.
    pub fn bus_width_set(&mut self, width: u32)
        requires
            width == 1 || width == 4 || width == 8,
        ensures
            write_step(old(self).window().trace(), final(self).window().trace(), MCICType::REG,
                if width == 1 { MCICType::CARD0_WIDTH2_1BIT } else if width == 4 { MCICType::CARD0_WIDTH2_4BIT } else { MCICType::CARD0_WIDTH1_8BIT }),
            final(self).window().base() == old(self).window().base(),
            final(self).config == old(self).config,
            final(self).is_ready == old(self).is_ready,
            final(self).desc_list == old(self).desc_list,
    {
        let v = MCICType::from(width);
        self.reg.write_reg(MCICType::REG, v);
    }

    /// Send a command straight to the command register: wait until the card
    /// is not busy, write the argument, write the command with the start
    /// bit, and wait until the controller takes it.
    pub fn private_cmd_send(&mut self, cmd: u32, arg: u32) -> (r: Result<(), MCIError>)
        ensures
            extends(old(self).window().trace(), final(self).window().trace()),
            r.is_ok() ==> cmd_submitted(old(self).window().trace(), final(self).window().trace(), cmd, arg),
            r.is_err() ==> r == Err::<(), MCIError>(MCIError::Timeout)
                && cmd_timed_out(old(self).window().trace(), final(self).window().trace(), cmd, arg),
            final(self).window().base() == old(self).window().base(),
            final(self).config == old(self).config,
            final(self).is_ready == old(self).is_ready,
            final(self).desc_list == old(self).desc_list,
    {
        let ghost t1 = self.reg.trace();
        let r1: Result<(), MCIError> = self.reg.retry_for(MCIStatus::REG, MCIStatus::DATA_BUSY, MCIStatus::DATA_BUSY, false, Some(RETRIES_TIMEOUT));
        if r1.is_err() {
            return r1;
        }
        let ghost ta = self.reg.trace();
        self.reg.write_reg(MCICmdArg::REG, arg);
        self.reg.write_reg(MCICmd::REG, MCICmd::START | cmd);
        let ghost tb = self.reg.trace();
        let r2: Result<(), MCIError> = self.reg.retry_for(MCICmd::REG, MCICmd::START, MCICmd::START, false, Some(RETRIES_TIMEOUT));
        proof {
            let t2 = self.reg.trace();
            assert(extends(ta, tb)) by {
                assert(tb.subrange(0, ta.len() as int) =~= ta);
            }
            lemma_extends_trans(t1, ta, tb);
            lemma_extends_trans(t1, tb, t2);
            let i = ta.len() as int;
            lemma_extends_index(tb, t2, i);
            lemma_extends_index(tb, t2, i + 1);
            assert(t2.subrange(0, i) =~= ta) by {
                lemma_extends_trans(ta, tb, t2);
            }
            assert(t2.subrange(0, i + 2) =~= tb);
        }
        r2
    }

    /// Write a command with the start bit and wait until the controller
    /// takes it (used for the voltage switch command).
    pub fn private_cmd11_send(&mut self, cmd: u32) -> (r: Result<(), MCIError>)
        ensures
            ({
                let tw = old(self).window().trace().push(RegAccess::Write(MCICmd::REG, MCICmd::START | cmd));
                &&& extends(tw, final(self).window().trace())
                &&& r.is_ok() <==> poll_succeeded(tw, final(self).window().trace(), MCICmd::REG, MCICmd::START, 0, true)
            }),
            final(self).window().base() == old(self).window().base(),
            final(self).config == old(self).config,
            final(self).is_ready == old(self).is_ready,
            final(self).desc_list == old(self).desc_list,
    {
        self.reg.write_reg(MCICmd::REG, MCICmd::START | cmd);
        let ghost tw = self.reg.trace();
        let r = self.reg.retry_for(MCICmd::REG, MCICmd::START, 0, true, Some(RETRIES_TIMEOUT));
        proof {
            if r.is_err() {
                assert(self.reg.trace().len() > tw.len());
            }
        }
        r
    }

    /// Reset parts of the controller: set `reset_bits` in the control
    /// register, wait until the controller clears them, update the clock
    /// twice, and after a FIFO reset wait until the FIFO is empty.
    pub fn ctrl_reset(&mut self, reset_bits: u32) -> (r: Result<(), MCIError>)
        ensures
            extends(old(self).window().trace(), final(self).window().trace()),
            ({
                let t1 = old(self).window().trace();
                let t2 = final(self).window().trace();
                let ta = t2.subrange(0, t1.len() as int + 2);
                &&& t2.len() >= t1.len() + 2
                &&& rmw_step(t1, ta, MCICtrl::REG, 0, reset_bits)
                &&& r.is_ok() ==> t2.len() > t1.len() + 2 && is_read_of(t2[t1.len() as int + 2], MCICtrl::REG)
                &&& r.is_ok() ==> exists|i: int| #![trigger t2[i]] ta.len() <= i < t2.len()
                    && is_read_of(t2[i], MCICtrl::REG) && value_of(t2[i]) & reset_bits != reset_bits
                &&& r.is_ok() && reset_bits & MCICtrl::FIFO_RESET == MCICtrl::FIFO_RESET ==>
                    is_read_of(t2.last(), MCIStatus::REG) && value_of(t2.last()) & MCIStatus::FIFO_EMPTY == MCIStatus::FIFO_EMPTY
            }),
            final(self).window().base() == old(self).window().base(),
            final(self).config == old(self).config,
            final(self).is_ready == old(self).is_ready,
            final(self).desc_list == old(self).desc_list,
    {
        let ghost t1 = self.reg.trace();
        self.reg.set_reg(MCICtrl::REG, reset_bits);
        let ghost ta = self.reg.trace();
        let r1: Result<(), MCIError> = self.reg.retry_for(MCICtrl::REG, reset_bits, reset_bits, false, Some(RETRIES_TIMEOUT));
        let ghost tb = self.reg.trace();
        proof {
            assert(extends(t1, ta)) by {
                assert(ta.subrange(0, t1.len() as int) =~= t1);
            }
            lemma_extends_trans(t1, ta, tb);
        }
        if r1.is_err() {
            proof {
                assert(tb.subrange(0, t1.len() as int + 2) =~= ta);
            }
            return r1;
        }
        proof {
            assert(is_read_of(tb[ta.len() as int], MCICtrl::REG));
            assert(is_read_of(tb[tb.len() - 1], MCICtrl::REG));
        }
        let r2 = self.private_cmd_send(MCICmd::UPD_CLK, 0);
        if r2.is_err() {
            proof {
                let t2 = self.reg.trace();
                lemma_extends_trans(t1, tb, t2);
                lemma_extends_trans(ta, tb, t2);
                assert(t2.subrange(0, t1.len() as int + 2) =~= ta);
            }
            return r2;
        }
        let ghost tc = self.reg.trace();
        let r3 = self.private_cmd_send(MCICmd::UPD_CLK, 0);
        let ghost td = self.reg.trace();
        proof {
            lemma_extends_trans(tb, tc, td);
            lemma_extends_trans(t1, tb, td);
            lemma_extends_trans(ta, tb, td);
            assert(td.subrange(0, t1.len() as int + 2) =~= ta);
        }
        if r3.is_err() {
            return r3;
        }
        let r4: Result<(), MCIError> = if reset_bits & MCICtrl::FIFO_RESET == MCICtrl::FIFO_RESET {
            self.reg.retry_for(MCIStatus::REG, MCIStatus::FIFO_EMPTY, MCIStatus::FIFO_EMPTY, true, Some(RETRIES_TIMEOUT))
        } else {
            Ok(())
        };
        proof {
            let t2 = self.reg.trace();
            assert(extends(td, t2)) by {
                assert(t2.subrange(0, td.len() as int) =~= td);
            }
            lemma_extends_trans(tb, td, t2);
            lemma_extends_trans(t1, td, t2);
            lemma_extends_trans(ta, td, t2);
            assert(t2.subrange(0, t1.len() as int + 2) =~= ta);
            let j = tb.len() - 1;
            lemma_extends_index(tb, t2, j);
            lemma_extends_index(tb, t2, ta.len() as int);
            assert(t2[j] == tb[j]);
        }
        r4
    }

    /// Hold the card in reset for removable cards, let it run for embedded
    /// ones.
    pub fn cardreset_config(&mut self)
        ensures
            bits_switched(old(self).window().trace(), final(self).window().trace(), MCICardReset::REG, MCICardReset::ENABLE, old(self).config.non_removable),
            final(self).window().base() == old(self).window().base(),
            final(self).config == old(self).config,
            final(self).is_ready == old(self).is_ready,
            final(self).desc_list == old(self).desc_list,
    {
        if self.config.non_removable {
            self.reg.set_reg(MCICardReset::REG, MCICardReset::ENABLE);
        } else {
            self.reg.clear_reg(MCICardReset::REG, MCICardReset::ENABLE);
        }
    }

    /// Mask every interrupt and clear every pending one: write zero to the
    /// interrupt mask, write back the raw interrupt status read, write zero
    /// to the DMA interrupt enable, write back the DMA status read.
    pub fn clear_interrupt_status(&mut self)
        ensures
            ({
                let t1 = old(self).window().trace();
                let t2 = final(self).window().trace();
                let n = t1.len() as int;
                &&& t2.len() == n + 6
                &&& t2.subrange(0, n) == t1
                &&& t2[n] == RegAccess::Write(MCIIntMask::REG, 0)
                &&& t2[n + 1] == RegAccess::Read(MCIRawInts::REG, value_of(t2[n + 1]))
                &&& t2[n + 2] == RegAccess::Write(MCIRawInts::REG, value_of(t2[n + 1]))
                &&& t2[n + 3] == RegAccess::Write(MCIDMACIntEn::REG, 0)
                &&& t2[n + 4] == RegAccess::Read(MCIDMACStatus::REG, value_of(t2[n + 4]))
                &&& t2[n + 5] == RegAccess::Write(MCIDMACStatus::REG, value_of(t2[n + 4]))
            }),
            final(self).window().base() == old(self).window().base(),
            final(self).config == old(self).config,
            final(self).is_ready == old(self).is_ready,
            final(self).desc_list == old(self).desc_list,
    {
        let ghost t1 = self.reg.trace();
        self.reg.write_reg(MCIIntMask::REG, 0);
        let reg_val = self.reg.read_reg(MCIRawInts::REG);
        self.reg.write_reg(MCIRawInts::REG, reg_val);
        self.reg.write_reg(MCIDMACIntEn::REG, 0);
        let reg_val2 = self.reg.read_reg(MCIDMACStatus::REG);
        self.reg.write_reg(MCIDMACStatus::REG, reg_val2);
        assert(self.reg.trace().subrange(0, t1.len() as int) =~= t1);
    }

    /// Point the DMA engine at the descriptor chain at bus address
    /// `descriptor`: high word first, then low word.
    pub fn descriptor_set(&mut self, descriptor: u64)
        ensures
            final(self).window().trace() == old(self).window().trace()
                .push(RegAccess::Write(MCIDescListAddrH::REG, (descriptor >> 32u64) as u32))
                .push(RegAccess::Write(MCIDescListAddrL::REG, descriptor as u32)),
            final(self).window().base() == old(self).window().base(),
            final(self).config == old(self).config,
            final(self).is_ready == old(self).is_ready,
            final(self).desc_list == old(self).desc_list,
    {
        let hi = (descriptor >> 32u64) as u32;
        self.reg.write_reg(MCIDescListAddrH::REG, hi);
        self.reg.write_reg(MCIDescListAddrL::REG, descriptor as u32);
    }

    /// Soft-reset the DMA engine.
    pub fn idma_reset(&mut self)
        ensures
            rmw_step(old(self).window().trace(), final(self).window().trace(), MCIBusMode::REG, 0, MCIBusMode::SWR),
            final(self).window().base() == old(self).window().base(),
            final(self).config == old(self).config,
            final(self).is_ready == old(self).is_ready,
            final(self).desc_list == old(self).desc_list,
    {
        self.reg.set_reg(MCIBusMode::REG, MCIBusMode::SWR);
    }

    /// The raw interrupt status.
    pub fn raw_status_get(&mut self) -> (r: u32)
        ensures
            read_step(old(self).window().trace(), final(self).window().trace(), MCIRawInts::REG),
            r == value_of(final(self).window().trace().last()),
            final(self).window().base() == old(self).window().base(),
            final(self).config == old(self).config,
            final(self).is_ready == old(self).is_ready,
            final(self).desc_list == old(self).desc_list,
    {
        self.reg.read_reg(MCIRawInts::REG)
    }

    /// Clear the pending interrupts by writing back the raw status read.
    pub fn raw_status_clear(&mut self)
        ensures
            rmw_step(old(self).window().trace(), final(self).window().trace(), MCIRawInts::REG, 0, 0),
            final(self).window().base() == old(self).window().base(),
            final(self).config == old(self).config,
            final(self).is_ready == old(self).is_ready,
            final(self).desc_list == old(self).desc_list,
    {
        let ghost t1 = self.reg.trace();
        let v = self.raw_status_get();
        self.reg.write_reg(MCIRawInts::REG, v);
        assert(self.reg.trace().subrange(0, t1.len() as int) =~= t1);
        assert(v & !0u32 | 0 == v) by (bit_vector);
    }

    /// The DMA status.
    pub fn dma_status_get(&mut self) -> (r: u32)
        ensures
            read_step(old(self).window().trace(), final(self).window().trace(), MCIDMACStatus::REG),
            r == value_of(final(self).window().trace().last()),
            final(self).window().base() == old(self).window().base(),
            final(self).config == old(self).config,
            final(self).is_ready == old(self).is_ready,
            final(self).desc_list == old(self).desc_list,
    {
        self.reg.read_reg(MCIDMACStatus::REG)
    }

    /// Clear the DMA status by writing back the value read.
    pub fn dma_status_clear(&mut self)
        ensures
            rmw_step(old(self).window().trace(), final(self).window().trace(), MCIDMACStatus::REG, 0, 0),
            final(self).window().base() == old(self).window().base(),
            final(self).config == old(self).config,
            final(self).is_ready == old(self).is_ready,
            final(self).desc_list == old(self).desc_list,
    {
        let ghost t1 = self.reg.trace();
        let v = self.dma_status_get();
        self.reg.write_reg(MCIDMACStatus::REG, v);
        assert(self.reg.trace().subrange(0, t1.len() as int) =~= t1);
        assert(v & !0u32 | 0 == v) by (bit_vector);
    }

    /// A card is present (the detect bit reads 0).
    pub fn check_if_card_exist(&mut self) -> (r: bool)
        ensures
            read_step(old(self).window().trace(), final(self).window().trace(), MCICardDetect::REG),
            r == (value_of(final(self).window().trace().last()) & MCICardDetect::DETECTED != MCICardDetect::DETECTED),
            final(self).window().base() == old(self).window().base(),
            final(self).config == old(self).config,
            final(self).is_ready == old(self).is_ready,
            final(self).desc_list == old(self).desc_list,
    {
        let v = self.reg.read_reg(MCICardDetect::REG);
        v & MCICardDetect::DETECTED != MCICardDetect::DETECTED
    }

    /// The card holds its data line busy.
    pub fn check_if_card_busy(&mut self) -> (r: bool)
        ensures
            read_step(old(self).window().trace(), final(self).window().trace(), MCIStatus::REG),
            r == (value_of(final(self).window().trace().last()) & MCIStatus::DATA_BUSY == MCIStatus::DATA_BUSY),
            final(self).window().base() == old(self).window().base(),
            final(self).config == old(self).config,
            final(self).is_ready == old(self).is_ready,
            final(self).desc_list == old(self).desc_list,
    {
        let v = self.status();
        v & MCIStatus::DATA_BUSY == MCIStatus::DATA_BUSY
    }

    /// Program the number of bytes of the next transfer.
    pub fn trans_bytes_set(&mut self, bytes: u32)
        ensures
            write_step(old(self).window().trace(), final(self).window().trace(), MCIBytCnt::REG, bytes),
            final(self).window().base() == old(self).window().base(),
            final(self).config == old(self).config,
            final(self).is_ready == old(self).is_ready,
            final(self).desc_list == old(self).desc_list,
    {
        self.reg.write_reg(MCIBytCnt::REG, bytes);
    }

    /// Program the block size of the next transfer.
    pub fn blksize_set(&mut self, blksize: u32)
        ensures
            write_step(old(self).window().trace(), final(self).window().trace(), MCIBlkSiz::REG, blksize),
            final(self).window().base() == old(self).window().base(),
            final(self).config == old(self).config,
            final(self).is_ready == old(self).is_ready,
            final(self).desc_list == old(self).desc_list,
    {
        self.reg.write_reg(MCIBlkSiz::REG, blksize);
    }

    /// Enable the DMA receive, transmit and bus error interrupts.
    pub fn dma_int_set(&mut self)
        ensures
            rmw_step(old(self).window().trace(), final(self).window().trace(), MCIDMACIntEn::REG, 0,
                MCIDMACIntEn::RI | MCIDMACIntEn::TI | MCIDMACIntEn::FBE),
            final(self).window().base() == old(self).window().base(),
            final(self).config == old(self).config,
            final(self).is_ready == old(self).is_ready,
            final(self).desc_list == old(self).desc_list,
    {
        self.reg.set_reg(MCIDMACIntEn::REG, MCIDMACIntEn::RI | MCIDMACIntEn::TI | MCIDMACIntEn::FBE);
    }
}

} // verus!
