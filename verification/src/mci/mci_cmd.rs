//! Sending commands and collecting their responses.

use vstd::prelude::*;

use super::consts::{MCICmdFlag, MCIIntrType, MCITransMode};
use super::err::MCIError;
use super::mci_cmddata::MCICmdData;
use super::mci_hardware::{cmd_submitted, cmd_timed_out};
use super::mci_intr::mask_switched;
use super::regs::{MCICmd, MCIDMACIntEn, MCIIntMask, MCIResp0, MCIResp1, MCIResp2, MCIResp3};
use super::MCI;
use crate::regs::{extends, field_set, lemma_extends_trans, value_of, RegAccess, RegisterIo};

verus! {

/// The flag word has every bit of `bit`.
pub open spec fn flag_has(flag: u32, bit: u32) -> bool {
    flag & bit == bit
}

/// The command register value (without the start bit) for a command with
/// flags `flag` and index `cmdidx`, using the hold register or not.
pub open spec fn raw_cmd_spec(flag: u32, cmdidx: u32, use_hold: bool) -> u32 {
    (if use_hold { MCICmd::USE_HOLD_REG } else { 0 })
    | (if flag_has(flag, MCICmdFlag::ABORT) { MCICmd::STOP_ABORT } else { 0 })
    | (if flag_has(flag, MCICmdFlag::NEED_INIT) { MCICmd::INIT } else { 0 })
    | (if flag_has(flag, MCICmdFlag::SWITCH_VOLTAGE) { MCICmd::VOLT_SWITCH } else { 0 })
    | (if flag_has(flag, MCICmdFlag::EXP_DATA) { MCICmd::DAT_EXP | (if flag_has(flag, MCICmdFlag::WRITE_DATA) { MCICmd::DAT_WRITE } else { 0 }) } else { 0 })
    | (if flag_has(flag, MCICmdFlag::NEED_RESP_CRC) { MCICmd::RESP_CRC } else { 0 })
    | (if flag_has(flag, MCICmdFlag::EXP_RESP) { MCICmd::RESP_EXP | (if flag_has(flag, MCICmdFlag::EXP_LONG_RESP) { MCICmd::RESP_LONG } else { 0 }) } else { 0 })
    | (field_set(cmdidx, 5, 0) & MCICmd::DEFINED)
}

/// The command register value (without the start bit) for a command with
/// flags `flag` and index `cmdidx`.
pub fn raw_cmd(flag: u32, cmdidx: u32, use_hold: bool) -> (r: u32)
    ensures
        r == raw_cmd_spec(flag, cmdidx, use_hold),
{
    let mut raw: u32 = if use_hold { MCICmd::USE_HOLD_REG } else { 0 };
    raw = raw | if flag & MCICmdFlag::ABORT == MCICmdFlag::ABORT { MCICmd::STOP_ABORT } else { 0 };
    raw = raw | if flag & MCICmdFlag::NEED_INIT == MCICmdFlag::NEED_INIT { MCICmd::INIT } else { 0 };
    raw = raw | if flag & MCICmdFlag::SWITCH_VOLTAGE == MCICmdFlag::SWITCH_VOLTAGE { MCICmd::VOLT_SWITCH } else { 0 };
    raw = raw | if flag & MCICmdFlag::EXP_DATA == MCICmdFlag::EXP_DATA {
        MCICmd::DAT_EXP | if flag & MCICmdFlag::WRITE_DATA == MCICmdFlag::WRITE_DATA { MCICmd::DAT_WRITE } else { 0 }
    } else {
        0
    };
    raw = raw | if flag & MCICmdFlag::NEED_RESP_CRC == MCICmdFlag::NEED_RESP_CRC { MCICmd::RESP_CRC } else { 0 };
    raw = raw | if flag & MCICmdFlag::EXP_RESP == MCICmdFlag::EXP_RESP {
        MCICmd::RESP_EXP | if flag & MCICmdFlag::EXP_LONG_RESP == MCICmdFlag::EXP_LONG_RESP { MCICmd::RESP_LONG } else { 0 }
    } else {
        0
    };
    raw | MCICmd::index_set(cmdidx)
}

/// The response words `resp` are those of the response registers read
/// between `t1` and `t2` when the flags ask for a response (four words for
/// a long response, one word and three zeros for a short one), and
/// `old_resp` otherwise.
pub open spec fn response_collected(t1: Seq<RegAccess>, t2: Seq<RegAccess>, flag: u32, resp: Seq<u32>, old_resp: Seq<u32>) -> bool {
    &&& flag_has(flag, MCICmdFlag::EXP_RESP) && flag_has(flag, MCICmdFlag::EXP_LONG_RESP) ==> exists|k: int| #![trigger t2[k]]
        t1.len() <= k && k + 4 <= t2.len() && t2[k] == RegAccess::Read(MCIResp0::REG, resp[0])
        && t2[k + 1] == RegAccess::Read(MCIResp1::REG, resp[1]) && t2[k + 2] == RegAccess::Read(MCIResp2::REG, resp[2])
        && t2[k + 3] == RegAccess::Read(MCIResp3::REG, resp[3])
    &&& flag_has(flag, MCICmdFlag::EXP_RESP) && !flag_has(flag, MCICmdFlag::EXP_LONG_RESP) ==> resp[1] == 0 && resp[2] == 0 && resp[3] == 0
        && exists|k: int| #![trigger t2[k]] t1.len() <= k < t2.len() && t2[k] == RegAccess::Read(MCIResp0::REG, resp[0])
    &&& !flag_has(flag, MCICmdFlag::EXP_RESP) ==> resp == old_resp
}

impl<B: RegisterIo> MCI<B> {
    /// Send a command: enable the command interrupts, then submit the
    /// command register value of `raw_cmd_spec` with the command's argument.
    pub fn cmd_transfer(&mut self, cmd_data: &MCICmdData) -> (r: Result<(), MCIError>)
        ensures
            extends(old(self).window().trace(), final(self).window().trace()),
            ({
                let t1 = old(self).window().trace();
                let t2 = final(self).window().trace();
                let ta = t2.subrange(0, t1.len() as int + 2);
                &&& t2.len() >= t1.len() + 2
                &&& mask_switched(t1, ta, MCIIntrType::GeneralIntr, MCIIntMask::INTS_CMD_MASK, true)
                &&& r.is_ok() ==> cmd_submitted(ta, t2, raw_cmd_spec(cmd_data.flag, cmd_data.cmdidx, old(self).curr_timing.use_hold), cmd_data.cmdarg)
                &&& r.is_err() ==> r == Err::<(), MCIError>(MCIError::Timeout)
                    && cmd_timed_out(ta, t2, raw_cmd_spec(cmd_data.flag, cmd_data.cmdidx, old(self).curr_timing.use_hold), cmd_data.cmdarg)
            }),
            final(self).window().base() == old(self).window().base(),
            final(self).config == old(self).config,
            final(self).is_ready == old(self).is_ready,
    {
        let raw = raw_cmd(cmd_data.flag, cmd_data.cmdidx, self.curr_timing.use_hold);
        let ghost t1 = self.reg.trace();
        self.interrupt_mask_set(MCIIntrType::GeneralIntr, MCIIntMask::INTS_CMD_MASK, true);
        let ghost ta = self.reg.trace();
        let r = self.private_cmd_send(raw, cmd_data.cmdarg);
        proof {
            let t2 = self.reg.trace();
            assert(extends(t1, ta));
            lemma_extends_trans(t1, ta, t2);
            assert(t2.subrange(0, t1.len() as int + 2) =~= ta);
        }
        r
    }

    /// Collect the result of a command: read the data in programmed I/O
    /// mode, read the response registers, mark the command successful,
    /// disable the command, data and DMA interrupts, and remember the
    /// command index. Not ready: `NotInit` with nothing done.
    #[verifier::spinoff_prover]
    pub fn cmd_response_get(&mut self, cmd_data: &mut MCICmdData) -> (r: Result<(), MCIError>)
        ensures
            !old(self).is_ready ==> r == Err::<(), MCIError>(MCIError::NotInit)
                && final(self).window().trace() == old(self).window().trace() && *final(cmd_data) == *old(cmd_data),
            extends(old(self).window().trace(), final(self).window().trace()),
            final(cmd_data).cmdidx == old(cmd_data).cmdidx,
            final(cmd_data).cmdarg == old(cmd_data).cmdarg,
            final(cmd_data).flag == old(cmd_data).flag,
            r.is_ok() ==> final(cmd_data).success,
            r.is_ok() ==> final(self).prev_cmd == old(cmd_data).cmdidx,
            r.is_ok() && old(cmd_data).data is Some && old(cmd_data).data->0.buf is Some ==> ({
                let d = old(cmd_data).data->0;
                let b = final(cmd_data).data->0.buf;
                &&& final(cmd_data).data is Some
                &&& b is Some
                &&& (b->0@ == d.buf->0@ || b->0@.len() == d.datalen / 4)
            }),
            r.is_ok() ==> response_collected(old(self).window().trace(), final(self).window().trace(), old(cmd_data).flag,
                final(cmd_data).response@, old(cmd_data).response@),
            old(self).is_ready && !(flag_has(old(cmd_data).flag, MCICmdFlag::READ_DATA) && old(self).config.trans_mode == MCITransMode::PIO
                && old(cmd_data).data is Some && (old(cmd_data).data->0.buf is None
                || old(cmd_data).data->0.datalen > crate::mci::consts::MCI_MAX_FIFO_CNT))
                ==> r is Ok,
            r.is_err() ==> r == Err::<(), MCIError>(MCIError::NotInit) || r == Err::<(), MCIError>(MCIError::NotSupport),
            r.is_ok() ==> ({
                let t = final(self).window().trace();
                &&& t.len() >= 4
                &&& mask_switched(t.subrange(0, t.len() - 4), t.subrange(0, t.len() - 2), MCIIntrType::GeneralIntr,
                    MCIIntMask::INTS_CMD_MASK | MCIIntMask::INTS_DATA_MASK, false)
                &&& mask_switched(t.subrange(0, t.len() - 2), t, MCIIntrType::DmaIntr, MCIDMACIntEn::INTS_MASK, false)
            }),
            final(self).window().base() == old(self).window().base(),
            final(self).config == old(self).config,
            final(self).is_ready == old(self).is_ready,
    {
        let flag = cmd_data.flag;
        let read = flag & MCICmdFlag::READ_DATA == MCICmdFlag::READ_DATA;
        if !self.is_ready {
            assert(self.reg.trace().subrange(0, self.reg.trace().len() as int) =~= self.reg.trace());
            return Err(MCIError::NotInit);
        }
        let ghost t1 = self.reg.trace();
        let mut data = cmd_data.data.take();
        if read && self.config.trans_mode == MCITransMode::PIO {
            match data {
                Some(ref mut d) => {
                    let rr = self.pio_read_data(d);
                    if rr.is_err() {
                        cmd_data.data = data;
                        proof {
                            assert(self.reg.trace().subrange(0, t1.len() as int) =~= t1);
                        }
                        return rr;
                    }
                },
                None => {},
            }
        }
        cmd_data.data = data;
        let ghost tr = self.reg.trace();
        proof {
            assert(extends(t1, tr)) by {
                assert(tr.subrange(0, t1.len() as int) =~= t1);
            }
        }
        if flag & MCICmdFlag::EXP_RESP == MCICmdFlag::EXP_RESP {
            if flag & MCICmdFlag::EXP_LONG_RESP == MCICmdFlag::EXP_LONG_RESP {
                let r0 = self.reg.read_reg(MCIResp0::REG);
                let r1 = self.reg.read_reg(MCIResp1::REG);
                let r2 = self.reg.read_reg(MCIResp2::REG);
                let r3 = self.reg.read_reg(MCIResp3::REG);
                cmd_data.response = [r0, r1, r2, r3];
                assert(cmd_data.response@[0] == r0 && cmd_data.response@[1] == r1 && cmd_data.response@[2] == r2 && cmd_data.response@[3] == r3);
            } else {
                let r0 = self.reg.read_reg(MCIResp0::REG);
                cmd_data.response = [r0, 0, 0, 0];
                assert(cmd_data.response@[0] == r0 && cmd_data.response@[1] == 0 && cmd_data.response@[2] == 0 && cmd_data.response@[3] == 0);
            }
        }
        let ghost tq = self.reg.trace();
        proof {
            assert(extends(tr, tq)) by {
                assert(tq.subrange(0, tr.len() as int) =~= tr);
            }
            lemma_extends_trans(t1, tr, tq);
        }
        cmd_data.success = true;
        self.interrupt_mask_set(MCIIntrType::GeneralIntr, MCIIntMask::INTS_CMD_MASK | MCIIntMask::INTS_DATA_MASK, false);
        let ghost tm = self.reg.trace();
        self.interrupt_mask_set(MCIIntrType::DmaIntr, MCIDMACIntEn::INTS_MASK, false);
        self.prev_cmd = cmd_data.cmdidx;
        proof {
            let t2 = self.reg.trace();
            assert(t2.subrange(0, t2.len() - 2) =~= tm);
            assert(tm.subrange(0, tm.len() - 2) =~= tq);
            assert(t2.subrange(0, t2.len() - 4) =~= tq);
            assert(t2.subrange(0, t2.len() - 2).subrange(0, t2.len() - 4) =~= tq);
            assert(extends(tq, tm));
            assert(extends(tm, t2));
            lemma_extends_trans(tq, tm, t2);
            lemma_extends_trans(t1, tq, t2);
            if flag & MCICmdFlag::EXP_RESP == MCICmdFlag::EXP_RESP {
                let k = tr.len() as int;
                assert(t2[k] == tq[k]);
                if flag & MCICmdFlag::EXP_LONG_RESP == MCICmdFlag::EXP_LONG_RESP {
                    assert(t2[k + 1] == tq[k + 1]);
                    assert(t2[k + 2] == tq[k + 2]);
                    assert(t2[k + 3] == tq[k + 3]);
                    assert(t1.len() <= k && k + 4 <= t2.len());
                } else {
                    assert(t1.len() <= k && k < t2.len());
                }
            }
            assert(response_collected(t1, t2, flag, cmd_data.response@, old(cmd_data).response@));
        }
        Ok(())
    }
}

} // verus!
