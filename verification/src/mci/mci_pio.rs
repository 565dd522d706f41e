//! Programmed I/O: moving data words through the controller's FIFO.

use vstd::prelude::*;

use super::consts::MCI_MAX_FIFO_CNT;
use super::err::MCIError;
use super::mci_data::MCIData;
use super::regs::{MCICmd, MCIDataReg};
use super::MCI;
use crate::regs::{value_of, RegAccess, RegisterIo};

verus! {

/// The smaller of two naturals.
pub open spec fn min_nat(a: nat, b: nat) -> nat {
    if a <= b { a } else { b }
}

impl<B: RegisterIo> MCI<B> {
    /// Write the data of a transfer to the FIFO: the write direction to the
    /// command register, then the first `datalen / 4` words (as far as the
    /// buffer goes) to the data register. No buffer: `NotInit`, no access.
    pub fn pio_write_data(&mut self, data: &MCIData) -> (r: Result<(), MCIError>)
        ensures
            data.buf is None ==> r == Err::<(), MCIError>(MCIError::NotInit) && final(self).window().trace() == old(self).window().trace(),
            data.buf matches Some(buf) ==> {
                let t1 = old(self).window().trace();
                let t2 = final(self).window().trace();
                let n = min_nat((data.datalen / 4) as nat, buf@.len());
                &&& r is Ok
                &&& t2.len() == t1.len() + 1 + n
                &&& t2.subrange(0, t1.len() as int) == t1
                &&& t2[t1.len() as int] == RegAccess::Write(MCICmd::REG, MCICmd::DAT_WRITE)
                &&& forall|i: int| 0 <= i < n ==> #[trigger] t2[t1.len() + 1 + i] == RegAccess::Write(MCIDataReg::REG, buf@[i])
            },
            final(self).window().base() == old(self).window().base(),
            final(self).config == old(self).config,
            final(self).is_ready == old(self).is_ready,
    {
        let wr_times: usize = (data.datalen / 4) as usize;
        let buf = match data.buf.as_ref() {
            Some(buf) => buf,
            None => return Err(MCIError::NotInit),
        };
        let ghost t1 = self.reg.trace();
        self.reg.write_reg(MCICmd::REG, MCICmd::DAT_WRITE);
        let n = if wr_times <= buf.len() { wr_times } else { buf.len() };
        let mut i: usize = 0;
        while i < n
            invariant
                n <= buf@.len(),
                n == min_nat((data.datalen / 4) as nat, buf@.len()),
                i <= n,
                self.reg.trace().len() == t1.len() + 1 + i,
                self.reg.trace().subrange(0, t1.len() as int) == t1,
                self.reg.trace()[t1.len() as int] == RegAccess::Write(MCICmd::REG, MCICmd::DAT_WRITE),
                forall|j: int| 0 <= j < i ==> #[trigger] self.reg.trace()[t1.len() + 1 + j] == RegAccess::Write(MCIDataReg::REG, buf@[j]),
                self.reg.base() == old(self).window().base(),
                self.config == old(self).config,
                self.is_ready == old(self).is_ready,
            decreases n - i,
        {
            let ghost tp = self.reg.trace();
            self.reg.write_reg(MCIDataReg::REG, buf[i]);
            assert(self.reg.trace().subrange(0, t1.len() as int) =~= t1) by {
                assert(tp.subrange(0, t1.len() as int) == t1);
            }
            assert forall|j: int| 0 <= j < i + 1 implies #[trigger] self.reg.trace()[t1.len() + 1 + j] == RegAccess::Write(MCIDataReg::REG, buf@[j]) by {
                if j < i {
                    assert(self.reg.trace()[t1.len() + 1 + j] == tp[t1.len() + 1 + j]);
                }
            }
            i = i + 1;
        }
        Ok(())
    }

    /// Read `datalen / 4` words from the FIFO into the data's buffer, which
    /// is emptied first. No buffer: `NotInit`. More than the FIFO holds:
    /// `NotSupport`, with the buffer emptied and no register read.
    pub fn pio_read_data(&mut self, data: &mut MCIData) -> (r: Result<(), MCIError>)
        ensures
            final(data).datalen == old(data).datalen,
            final(data).blksz == old(data).blksz,
            final(data).blkcnt == old(data).blkcnt,
            final(data).buf_dma == old(data).buf_dma,
            old(data).buf is None ==> r == Err::<(), MCIError>(MCIError::NotInit) && final(data).buf is None
                && final(self).window().trace() == old(self).window().trace(),
            old(data).buf is Some && old(data).datalen > MCI_MAX_FIFO_CNT ==> (r == Err::<(), MCIError>(MCIError::NotSupport)
                && final(self).window().trace() == old(self).window().trace()
                && (final(data).buf matches Some(b) && b@.len() == 0)),
            old(data).buf is Some && old(data).datalen <= MCI_MAX_FIFO_CNT ==> {
                let t1 = old(self).window().trace();
                let t2 = final(self).window().trace();
                let n = (old(data).datalen / 4) as int;
                &&& r is Ok
                &&& t2.len() == t1.len() + n
                &&& t2.subrange(0, t1.len() as int) == t1
                &&& final(data).buf matches Some(b) && b@.len() == n
                    && forall|i: int| 0 <= i < n ==> #[trigger] t2[t1.len() + i] == RegAccess::Read(MCIDataReg::REG, b@[i])
            },
            final(self).window().base() == old(self).window().base(),
            final(self).config == old(self).config,
            final(self).is_ready == old(self).is_ready,
    {
        let datalen = data.datalen;
        let rd_times: usize = (datalen / 4) as usize;
        let mut buf = match data.buf.take() {
            Some(buf) => buf,
            None => return Err(MCIError::NotInit),
        };
        buf.clear();
        if datalen > MCI_MAX_FIFO_CNT {
            data.buf = Some(buf);
            return Err(MCIError::NotSupport);
        }
        let ghost t1 = self.reg.trace();
        let mut i: usize = 0;
        while i < rd_times
            invariant
                rd_times == datalen / 4,
                i <= rd_times,
                buf@.len() == i,
                self.reg.trace().len() == t1.len() + i,
                self.reg.trace().subrange(0, t1.len() as int) == t1,
                forall|j: int| 0 <= j < i ==> #[trigger] self.reg.trace()[t1.len() + j] == RegAccess::Read(MCIDataReg::REG, buf@[j]),
                self.reg.base() == old(self).window().base(),
                self.config == old(self).config,
                self.is_ready == old(self).is_ready,
            decreases rd_times - i,
        {
            let ghost tp = self.reg.trace();
            let v = self.reg.read_reg(MCIDataReg::REG);
            buf.push(v);
            assert(self.reg.trace().subrange(0, t1.len() as int) =~= t1) by {
                assert(tp.subrange(0, t1.len() as int) == t1);
            }
            assert forall|j: int| 0 <= j < i + 1 implies #[trigger] self.reg.trace()[t1.len() + j] == RegAccess::Read(MCIDataReg::REG, buf@[j]) by {
                if j < i {
                    assert(self.reg.trace()[t1.len() + j] == tp[t1.len() + j]);
                }
            }
            i = i + 1;
        }
        data.buf = Some(buf);
        Ok(())
    }
}

} // verus!
