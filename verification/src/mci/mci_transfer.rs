//! Controller-level operations built from the register primitives: set-up,
//! restart, card clock changes and programmed-I/O transfers.

use vstd::prelude::*;

use super::consts::{MCICmdFlag, MCIClkSpeed, MCIFifoDepth, MCITransMode, MCI_MAX_FIFO_CNT, RETRIES_TIMEOUT};
use super::err::MCIError;
use super::mci_cmddata::MCICmdData;
use super::mci_config::{tuning_spec, MCIConfig};
use super::mci_timing::MCITiming;
use super::regs::{
    MCIBusMode, MCIClkDiv, MCIClkSrc, MCICmd, MCICtrl, MCIEnableShift, MCIFifoTh, MCIFifoThDMATransSize,
    MCIIntMask, MCIRawInts, MCIStatus, MCITimeout,
};
use super::MCI;
use super::mci_hardware::cmd_submitted;
use crate::regs::{extends, poll_succeeded, rmw_step, RegAccess, RegisterIo};

verus! {

/// The clock speed whose frequency is `hz`, if there is one.
pub open spec fn speed_of_hz(hz: u32) -> Option<MCIClkSpeed> {
    if hz == 400_000 {
        Some(MCIClkSpeed::ClkSpeed400KHz)
    } else if hz == 25_000_000 {
        Some(MCIClkSpeed::ClkSpeed25Mhz)
    } else if hz == 26_000_000 {
        Some(MCIClkSpeed::ClkSpeed26Mhz)
    } else if hz == 50_000_000 {
        Some(MCIClkSpeed::ClkSpeed50Mhz)
    } else if hz == 52_000_000 {
        Some(MCIClkSpeed::ClkSpeed52Mhz)
    } else if hz == 66_000_000 {
        Some(MCIClkSpeed::ClkSpeed66Mhz)
    } else if hz == 100_000_000 {
        Some(MCIClkSpeed::ClkSpeed100Mhz)
    } else {
        None
    }
}

/// The timing the controller uses for a card clock of `hz` (0: clock
/// off), if it has one.
pub open spec fn timing_for_hz(hz: u32, non_removable: bool) -> Option<MCITiming> {
    if hz == 0 {
        Some(MCITiming { use_hold: false, clk_div: 0, clk_src: 0, shift: 0, pad_delay: super::mci_timing::MCIPadDelay::Keep })
    } else {
        match speed_of_hz(hz) {
            Some(s) => tuning_spec(s, non_removable),
            None => None,
        }
    }
}

/// The timeout register value the set-up writes: the longest data and
/// response timeouts.
pub open spec fn max_timeouts() -> u32 {
    (0xFFFF_FF00 & (MCITimeout::MAX_DATA_TIMEOUT << 8u32)) | (0xFF & MCITimeout::MAX_RESP_TIMEOUT)
}

/// The trace `t` ends as a successful set-up ends: with the write of the
/// longest timeouts, and in DMA mode then the chain address zero and an
/// internal DMA reset.
pub open spec fn setup_ended(t: Seq<RegAccess>, mode: MCITransMode) -> bool {
    if mode == MCITransMode::DMA {
        &&& t.len() >= 5
        &&& t[t.len() - 5] == RegAccess::Write(MCITimeout::REG, max_timeouts())
        &&& t[t.len() - 4] == RegAccess::Write(super::regs::MCIDescListAddrH::REG, 0)
        &&& t[t.len() - 3] == RegAccess::Write(super::regs::MCIDescListAddrL::REG, 0)
        &&& rmw_step(t.subrange(0, t.len() - 2), t, MCIBusMode::REG, 0, MCIBusMode::SWR)
    } else {
        &&& t.len() >= 1
        &&& t.last() == RegAccess::Write(MCITimeout::REG, max_timeouts())
    }
}

/// The trace `t2` starts as `t1` followed by the read-modify-write that
/// sets the reset bits `bits` of the control register.
pub open spec fn ctrl_reset_started(t1: Seq<RegAccess>, t2: Seq<RegAccess>, bits: u32) -> bool {
    &&& t2.len() >= t1.len() + 2
    &&& rmw_step(t1, t2.subrange(0, t1.len() as int + 2), MCICtrl::REG, 0, bits)
}

/// `t1` holds, after the accesses of `t0`, the write of `timing`'s clock
/// divider to the clock divider register followed at once by the write of
/// its shift to the enable-shift register.
pub open spec fn clock_programmed(t0: Seq<RegAccess>, t1: Seq<RegAccess>, timing: MCITiming) -> bool {
    exists|i: int| t0.len() <= i && i + 1 < t1.len()
        && #[trigger] t1[i] == RegAccess::Write(MCIClkDiv::REG, timing.clk_div)
        && t1[i + 1] == RegAccess::Write(MCIEnableShift::REG, timing.shift)
}

/// A clock change programs the divider register, at byte offset 0x08, with
/// the timing's divider and the enable-shift register, at byte offset
/// 0x110, with its shift, in that order; a high-speed SD timing (50 MHz,
/// removable card) puts divider 0x030204 and shift 0.
pub proof fn lemma_clock_programmed_offsets(t0: Seq<RegAccess>, t1: Seq<RegAccess>, timing: MCITiming)
    requires
        clock_programmed(t0, t1, timing),
    ensures
        exists|i: int| t0.len() <= i && i + 1 < t1.len()
            && #[trigger] t1[i] == RegAccess::Write(0x08, timing.clk_div) && t1[i + 1] == RegAccess::Write(0x110, timing.shift),
        timing_for_hz(50_000_000, false) matches Some(t) && t.clk_div == 0x030204 && t.shift == 0,
{
    let i = choose|i: int| t0.len() <= i && i + 1 < t1.len()
        && #[trigger] t1[i] == RegAccess::Write(MCIClkDiv::REG, timing.clk_div)
        && t1[i + 1] == RegAccess::Write(MCIEnableShift::REG, timing.shift);
    assert(t1[i] == RegAccess::Write(0x08, timing.clk_div));
}

impl<B: RegisterIo> MCI<B> {
    /// Bring the controller into its initial state with configuration
    /// `config`: FIFO thresholds, card threshold, first clock, power, 3.3 V,
    /// 1-bit bus, FIFO (and DMA) reset, clock update, card reset, cleared
    /// interrupts, card-detect interrupt for removable cards, interrupts
    /// and internal DMA enabled, maximal timeouts. Ready exactly when every
    /// step succeeded.
    pub fn config_init(&mut self, config: &MCIConfig) -> (r: Result<(), MCIError>)
        requires
            config.base == old(self).window().base(),
        ensures
            final(self).config == *config,
            final(self).window().base() == old(self).window().base(),
            final(self).is_ready <==> r.is_ok(),
            r.is_ok() ==> setup_ended(final(self).window().trace(), config.trans_mode),
    {
        self.config = *config;
        let r = self.reset();
        self.is_ready = r.is_ok();
        r
    }

    fn reset(&mut self) -> (r: Result<(), MCIError>)
        ensures
            r.is_ok() ==> setup_ended(final(self).window().trace(), old(self).config.trans_mode),
            final(self).config == old(self).config,
            final(self).window().base() == old(self).window().base(),
    {
        self.fifoth_set(MCIFifoThDMATransSize::DMATrans8, MCIFifoTh::RX_WMARK, MCIFifoTh::TX_WMARK);
        self.cardthr_set(MCIFifoDepth::Depth8);
        self.clock_set(false);
        self.init_external_clk()?;
        self.power_set(true);
        self.clock_set(true);
        self.clock_src_set(true);
        self.voltage_1_8v_set(false);
        self.bus_width_set(1);
        if self.config.trans_mode == MCITransMode::DMA {
            self.ctrl_reset(MCICtrl::FIFO_RESET | MCICtrl::DMA_RESET)?;
        } else {
            self.ctrl_reset(MCICtrl::FIFO_RESET)?;
        }
        self.private_cmd_send(MCICmd::UPD_CLK, 0)?;
        self.cardreset_config();
        self.clear_interrupt_status();
        if !self.config.non_removable {
            self.reg.set_reg(MCIIntMask::REG, MCIIntMask::CD_BIT);
        }
        self.reg.set_reg(MCICtrl::REG, MCICtrl::INT_ENABLE | MCICtrl::USE_INTERNAL_DMAC);
        self.reg.write_reg(MCITimeout::REG, MCITimeout::timeout_data(MCITimeout::MAX_DATA_TIMEOUT, MCITimeout::MAX_RESP_TIMEOUT));
        let ghost t0 = self.reg.trace();
        assert(t0.last() == RegAccess::Write(MCITimeout::REG, max_timeouts()));
        if self.config.trans_mode == MCITransMode::DMA {
            self.descriptor_set(0);
            let ghost t1 = self.reg.trace();
            self.idma_reset();
            proof {
                let t = self.reg.trace();
                assert((0u64 >> 32u64) as u32 == 0 && 0u64 as u32 == 0) by (bit_vector);
                assert(t.subrange(0, t.len() - 2) =~= t1);
                assert(t1.len() == t0.len() + 2);
                assert(t1[t0.len() - 1] == t0[t0.len() - 1]);
                assert(t[t0.len() - 1] == t1[t0.len() - 1]);
                assert(t[t.len() - 5] == t0.last());
                assert(t[t.len() - 4] == t1[t1.len() - 2]);
                assert(t[t.len() - 3] == t1[t1.len() - 1]);
            }
        }
        Ok(())
    }

    /// Forget the set-up: the controller is no longer ready.
    pub fn config_deinit(&mut self) -> (r: Result<(), MCIError>)
        ensures
            !final(self).is_ready,
            r is Ok,
            final(self).config == old(self).config,
            final(self).window().base() == old(self).window().base(),
    {
        self.interrupt_mask_set(super::consts::MCIIntrType::GeneralIntr, MCIIntMask::DEFINED, false);
        self.interrupt_mask_set(super::consts::MCIIntrType::DmaIntr, super::regs::MCIDMACIntEn::DEFINED, false);
        self.raw_status_clear();
        self.dma_status_clear();
        self.power_set(false);
        self.clock_set(false);
        self.is_ready = false;
        Ok(())
    }

    /// Reset the FIFO (and the DMA engine in DMA mode) of a ready
    /// controller. Not ready: `NotInit`, with no register access.
    pub fn restart(&mut self) -> (r: Result<(), MCIError>)
        ensures
            !old(self).is_ready ==> r == Err::<(), MCIError>(MCIError::NotInit) && *final(self) == *old(self),
            old(self).is_ready ==> ctrl_reset_started(old(self).window().trace(), final(self).window().trace(), MCICtrl::FIFO_RESET),
            final(self).config == old(self).config,
            final(self).is_ready == old(self).is_ready,
            final(self).window().base() == old(self).window().base(),
    {
        if !self.is_ready {
            return Err(MCIError::NotInit);
        }
        let ghost t0 = self.reg.trace();
        self.ctrl_reset(MCICtrl::FIFO_RESET)?;
        let ghost t1 = self.reg.trace();
        if self.config.trans_mode == MCITransMode::DMA {
            self.idma_reset();
            proof {
                let t = self.reg.trace();
                assert(t.subrange(0, t0.len() as int + 2) =~= t1.subrange(0, t0.len() as int + 2));
            }
        }
        Ok(())
    }

    /// Send the clock update command, with the voltage switch bit and the
    /// current command register value when the last command was the
    /// voltage switch (index 11).
    fn clock_update(&mut self, cmd_reg: u32) -> (r: Result<(), MCIError>)
        ensures
            cmd_reg & 0x3F == 11 ==> ({
                let tw = old(self).window().trace().push(RegAccess::Write(MCICmd::REG,
                    MCICmd::START | (MCICmd::UPD_CLK | MCICmd::VOLT_SWITCH | cmd_reg)));
                &&& extends(tw, final(self).window().trace())
                &&& r.is_ok() <==> poll_succeeded(tw, final(self).window().trace(), MCICmd::REG, MCICmd::START, 0, true)
            }),
            cmd_reg & 0x3F != 11 ==> extends(old(self).window().trace(), final(self).window().trace())
                && (r.is_ok() ==> cmd_submitted(old(self).window().trace(), final(self).window().trace(), MCICmd::UPD_CLK, 0)),
            final(self).config == old(self).config,
            final(self).is_ready == old(self).is_ready,
            final(self).window().base() == old(self).window().base(),
    {
        if MCICmd::index_get(cmd_reg) == 11 {
            self.private_cmd11_send(MCICmd::UPD_CLK | MCICmd::VOLT_SWITCH | cmd_reg)
        } else {
            self.private_cmd_send(MCICmd::UPD_CLK, 0)
        }
    }

    /// Change the card clock to `input_clk_hz` (0: stop it). On success
    /// with a frequency, the new timing's clock source went to the clock
    /// source register, and later its divider to the clock divider register
    /// and its shift, right after, to the enable-shift register (see
    /// `clock_programmed`). A frequency
    /// the controller has no timing for gives `InvalidTiming` with nothing
    /// changed; on success the controller uses the timing of
    /// [`timing_for_hz`].
    pub fn clk_freq_set(&mut self, input_clk_hz: u32) -> (r: Result<(), MCIError>)
        ensures
            timing_for_hz(input_clk_hz, old(self).config.non_removable) is None
                ==> r == Err::<(), MCIError>(MCIError::InvalidTiming),
            r.is_ok() ==> timing_for_hz(input_clk_hz, old(self).config.non_removable) == Some(final(self).curr_timing),
            r.is_ok() && input_clk_hz > 0 ==> clock_programmed(old(self).window().trace(), final(self).window().trace(),
                final(self).curr_timing),
            r.is_ok() && input_clk_hz > 0 ==> exists|j: int| old(self).window().trace().len() <= j
                < final(self).window().trace().len()
                && #[trigger] final(self).window().trace()[j] == RegAccess::Write(MCIClkSrc::REG, final(self).curr_timing.clk_src),
            final(self).config == old(self).config,
            final(self).is_ready == old(self).is_ready,
            final(self).window().base() == old(self).window().base(),
    {
        if input_clk_hz > 0 {
            if !(input_clk_hz == 400_000 || input_clk_hz == 25_000_000 || input_clk_hz == 26_000_000
                || input_clk_hz == 50_000_000 || input_clk_hz == 52_000_000 || input_clk_hz == 66_000_000
                || input_clk_hz == 100_000_000) {
                return Err(MCIError::InvalidTiming);
            }
            let speed = MCIClkSpeed::from(input_clk_hz);
            let timing = match MCIConfig::get_tuning(speed, self.config.non_removable) {
                Some(t) => t,
                None => return Err(MCIError::InvalidTiming),
            };
            let cmd_reg = self.reg.read_reg(MCICmd::REG);
            let ghost q = self.window().trace().len() as int + 1;
            let ghost t_q = self.window().trace();
            self.update_exteral_clk(timing.clk_src)?;
            let ghost t_u = self.window().trace();
            proof {
                let tw = t_q.push(RegAccess::Write(MCIClkSrc::REG, 0)).push(RegAccess::Write(MCIClkSrc::REG, timing.clk_src));
                crate::regs::lemma_extends_index(tw, t_u, q);
            }
            self.clock_set(false);
            let ghost t_c = self.window().trace();
            proof {
                assert(t_c.subrange(0, t_u.len() as int)[q] == t_c[q]);
            }
            self.clock_update(cmd_reg)?;
            let ghost t_start = old(self).window().trace();
            let ghost p = self.window().trace().len() as int;
            let ghost t_before = self.window().trace();
            self.reg.write_reg(MCIClkDiv::REG, timing.clk_div);
            self.reg.write_reg(MCIEnableShift::REG, timing.shift);
            let ghost t_w = self.window().trace();
            self.clock_set(true);
            let ghost t_s = self.window().trace();
            self.clock_update(cmd_reg)?;
            proof {
                let t_f = self.window().trace();
                assert(t_w[p] == RegAccess::Write(MCIClkDiv::REG, timing.clk_div));
                assert(t_w[p + 1] == RegAccess::Write(MCIEnableShift::REG, timing.shift));
                assert(t_s.subrange(0, t_w.len() as int)[p] == t_s[p]);
                assert(t_s.subrange(0, t_w.len() as int)[p + 1] == t_s[p + 1]);
                assert(t_s.subrange(0, t_w.len() as int)[q] == t_s[q]);
                let cmd_w = RegAccess::Write(MCICmd::REG, MCICmd::START | (MCICmd::UPD_CLK | MCICmd::VOLT_SWITCH | cmd_reg));
                if cmd_reg & 0x3F == 11 {
                    crate::regs::lemma_extends_index(t_c.push(cmd_w), t_before, q);
                    let tw = t_s.push(cmd_w);
                    crate::regs::lemma_extends_index(tw, t_f, p);
                    crate::regs::lemma_extends_index(tw, t_f, p + 1);
                    crate::regs::lemma_extends_index(tw, t_f, q);
                } else {
                    crate::regs::lemma_extends_index(t_c, t_before, q);
                    crate::regs::lemma_extends_index(t_s, t_f, p);
                    crate::regs::lemma_extends_index(t_s, t_f, p + 1);
                    crate::regs::lemma_extends_index(t_s, t_f, q);
                }
                assert(t_w[q] == t_before[q]);
                assert(t_f[q] == RegAccess::Write(MCIClkSrc::REG, timing.clk_src));
                assert(t_before.len() >= t_start.len());
            }
            self.curr_timing = timing;
        } else {
            let cmd_reg = self.reg.read_reg(MCICmd::REG);
            self.clock_set(false);
            self.clock_update(cmd_reg)?;
            self.reg.clear_reg(MCIClkSrc::REG, MCIClkSrc::UHS_EXT_CLK_ENA);
            self.curr_timing = MCITiming::new();
        }
        Ok(())
    }

    /// Start a transfer by programmed I/O: wait until the card is not busy,
    /// reset the FIFO without DMA, program the data size and block size and
    /// fill the FIFO for a write, then send the command.
    ///
    /// Errors, checked in this order: not ready (`NotInit`), not in PIO mode
    /// (`InvalidState`), no card (`NoCard`), card stays busy (`Busy`), more
    /// data than the FIFO holds (`NotSupport`), and those of the steps.
    pub fn pio_transfer(&mut self, cmd_data: &mut MCICmdData) -> (r: Result<(), MCIError>)
        ensures
            !old(self).is_ready ==> r == Err::<(), MCIError>(MCIError::NotInit),
            old(self).is_ready && old(self).config.trans_mode != MCITransMode::PIO
                ==> r == Err::<(), MCIError>(MCIError::InvalidState),
            r.is_ok() ==> (old(cmd_data).data matches Some(d) ==> d.datalen <= MCI_MAX_FIFO_CNT),
            *final(cmd_data) == (MCICmdData { success: false, ..*old(cmd_data) }),
            old(self).window().trace().len() <= final(self).window().trace().len(),
            final(self).config == old(self).config,
            final(self).is_ready == old(self).is_ready,
            final(self).window().base() == old(self).window().base(),
    {
        let read = cmd_data.flag & MCICmdFlag::READ_DATA == MCICmdFlag::READ_DATA;
        cmd_data.success = false;
        if !self.is_ready {
            return Err(MCIError::NotInit);
        }
        if self.config.trans_mode != MCITransMode::PIO {
            return Err(MCIError::InvalidState);
        }
        if !self.check_if_card_exist() {
            return Err(MCIError::NoCard);
        }
        let busy: Result<(), MCIError> = self.reg.retry_for(MCIStatus::REG, MCIStatus::DATA_BUSY, MCIStatus::DATA_BUSY, false, Some(RETRIES_TIMEOUT));
        if busy.is_err() {
            return Err(MCIError::Busy);
        }
        self.reg.clear_reg(MCICtrl::REG, MCICtrl::USE_INTERNAL_DMAC);
        self.ctrl_reset(MCICtrl::FIFO_RESET)?;
        self.reg.clear_reg(MCIBusMode::REG, MCIBusMode::DE);
        match cmd_data.data {
            Some(ref d) => {
                if d.datalen > MCI_MAX_FIFO_CNT {
                    return Err(MCIError::NotSupport);
                }
                self.trans_bytes_set(d.datalen);
                self.blksize_set(d.blksz);
                if !read {
                    self.pio_write_data(d)?;
                }
            },
            None => {},
        }
        self.cmd_transfer(cmd_data)
    }

    /// Wait for the end of a programmed-I/O transfer: for the command to be
    /// done and, for a read with data, for the data to be complete; then
    /// clear the raw interrupt status.
    ///
    /// Errors: not ready (`NotInit`), not in PIO mode (`InvalidState`), the
    /// command does not finish (`CmdTimeout`), the data does not
    /// (`TransTimeout`).
    pub fn poll_wait_pio_end(&mut self, cmd_data: &MCICmdData) -> (r: Result<(), MCIError>)
        ensures
            !old(self).is_ready ==> r == Err::<(), MCIError>(MCIError::NotInit),
            old(self).is_ready && old(self).config.trans_mode != MCITransMode::PIO
                ==> r == Err::<(), MCIError>(MCIError::InvalidState),
            r.is_err() ==> r == Err::<(), MCIError>(MCIError::NotInit) || r == Err::<(), MCIError>(MCIError::InvalidState)
                || r == Err::<(), MCIError>(MCIError::CmdTimeout) || r == Err::<(), MCIError>(MCIError::TransTimeout),
            r == Err::<(), MCIError>(MCIError::CmdTimeout) ==> crate::regs::poll_timed_out(old(self).window().trace(),
                final(self).window().trace(), MCIRawInts::REG, MCIRawInts::CMD_BIT, MCIRawInts::CMD_BIT, true, RETRIES_TIMEOUT as nat),
            r == Err::<(), MCIError>(MCIError::TransTimeout) ==> cmd_data.data is Some,
            old(self).window().trace().len() <= final(self).window().trace().len(),
            final(self).config == old(self).config,
            final(self).is_ready == old(self).is_ready,
            final(self).window().base() == old(self).window().base(),
    {
        let read = cmd_data.flag & MCICmdFlag::READ_DATA == MCICmdFlag::READ_DATA;
        if !self.is_ready {
            return Err(MCIError::NotInit);
        }
        if self.config.trans_mode != MCITransMode::PIO {
            return Err(MCIError::InvalidState);
        }
        let done: Result<(), MCIError> = self.reg.retry_for(MCIRawInts::REG, MCIRawInts::CMD_BIT, MCIRawInts::CMD_BIT, true, Some(RETRIES_TIMEOUT));
        if done.is_err() {
            return Err(MCIError::CmdTimeout);
        }
        if cmd_data.data.is_some() && read {
            let dto: Result<(), MCIError> = self.reg.retry_for(MCIRawInts::REG, MCIRawInts::DTO_BIT, MCIRawInts::DTO_BIT, true, Some(RETRIES_TIMEOUT));
            if dto.is_err() {
                return Err(MCIError::TransTimeout);
            }
        }
        self.raw_status_clear();
        Ok(())
    }
}

} // verus!
