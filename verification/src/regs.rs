//! Register access: bit-field helpers and the register window through which
//! the driver reads and writes a controller.

use vstd::prelude::*;

verus! {

/// The mask with bits `l..=h` set.
pub open spec fn mask_spec(h: u32, l: u32) -> u32 {
    ((!0u32) << l) & ((!0u32) >> ((31 - h) as u32))
}

/// Build the 32-bit mask with bits `l` to `h` (inclusive) set.
pub fn genmask(h: u32, l: u32) -> (r: u32)
    requires
        l <= h < 32,
    ensures
        r == mask_spec(h, l),
        forall|i: u32| i < 32 ==> (((r >> i) & 1 == 1) <==> (l <= i && i <= h)),
{
    assert(forall|i: u32|
        i < 32 ==> (((mask_spec(h, l) >> i) & 1 == 1) <==> (l <= i && i <= h))) by (bit_vector)
        requires
            l <= h < 32,
    ;
    ((!0u32) << l) & ((!0u32) >> (31 - h))
}

} // verus!

verus! {

/// Build the 64-bit mask with bits `l` to `h` (inclusive) set.
pub fn genmask_ull(h: u64, l: u64) -> (r: u64)
    requires
        l <= h < 64,
    ensures
        r == ((!0u64) << l) & ((!0u64) >> ((63 - h) as u64)),
        forall|i: u64| i < 64 ==> (((r >> i) & 1 == 1) <==> (l <= i && i <= h)),
{
    let r = ((!0u64) << l) & ((!0u64) >> (63 - h));
    assert(forall|i: u64| i < 64 ==> (((r >> i) & 1 == 1) <==> (l <= i && i <= h))) by (bit_vector)
        requires
            l <= h < 64,
            r == ((!0u64) << l) & ((!0u64) >> ((63 - h) as u64)),
    ;
    r
}

/// The field `a..=b` (high to low) of `reg`, moved down to bit 0.
pub open spec fn field_get(reg: u32, a: u32, b: u32) -> u32 {
    (reg & mask_spec(a, b)) >> b
}

/// `val` moved up to bit `b` and cut to the field `a..=b`.
pub open spec fn field_set(val: u32, a: u32, b: u32) -> u32 {
    (val << b) & mask_spec(a, b)
}

/// Read the bit field `a..=b` (high bit first) of a register value.
pub fn get_reg32_bits(reg: u32, a: u32, b: u32) -> (r: u32)
    requires
        b <= a < 32,
    ensures
        r == field_get(reg, a, b),
{
    (reg & genmask(a, b)) >> b
}

/// Place `val` in the bit field `a..=b` (high bit first) of a register value.
pub fn set_reg32_bits(val: u32, a: u32, b: u32) -> (r: u32)
    requires
        b <= a < 32,
    ensures
        r == field_set(val, a, b),
{
    (val << b) & genmask(a, b)
}

/// Reading back a field that was just placed gives the value cut to the
/// field's width.
pub proof fn lemma_field_get_set(val: u32, a: u32, b: u32)
    requires
        b <= a < 32,
    ensures
        field_get(field_set(val, a, b), a, b) == val & ((!0u32) >> ((31 - (a - b)) as u32)),
{
    assert(field_get(field_set(val, a, b), a, b) == val & ((!0u32) >> ((31 - (a - b)) as u32)))
        by (bit_vector)
        requires
            b <= a < 32,
    ;
}

/// A placed field has no bits outside the field.
pub proof fn lemma_field_set_within(val: u32, a: u32, b: u32)
    requires
        b <= a < 32,
    ensures
        field_set(val, a, b) & !mask_spec(a, b) == 0,
{
    assert(field_set(val, a, b) & !mask_spec(a, b) == 0) by (bit_vector)
        requires
            b <= a < 32,
    ;
}

/// One access made through a register window: a read with the value the
/// device returned, or a write with the value sent, where the first number
/// is the register's byte offset from the window's base; or a write of a
/// word to the memory the controller's DMA engine reads, at a bus address.
pub enum RegAccess {
    Read(u32, u32),
    Write(u32, u32),
    MemWrite(u64, u32),
}

/// The value carried by an access.
pub open spec fn value_of(a: RegAccess) -> u32 {
    match a {
        RegAccess::Read(_, v) => v,
        RegAccess::Write(_, v) => v,
        RegAccess::MemWrite(_, v) => v,
    }
}

/// The access is a read of the register at `off`.
pub open spec fn is_read_of(a: RegAccess, off: u32) -> bool {
    match a {
        RegAccess::Read(o, _) => o == off,
        _ => false,
    }
}

/// `t2` extends `t1` by a read of `off` followed by a write to `off` of the
/// value read, with the bits of `clear` cleared and those of `set` set.
pub open spec fn rmw_step(t1: Seq<RegAccess>, t2: Seq<RegAccess>, off: u32, clear: u32, set: u32) -> bool {
    &&& t2.len() == t1.len() + 2
    &&& t2.subrange(0, t1.len() as int) == t1
    &&& is_read_of(t2[t1.len() as int], off)
    &&& t2[t1.len() as int + 1] == RegAccess::Write(off, (value_of(t2[t1.len() as int]) & !clear) | set)
}

/// `t2` extends `t1` by one read of `off`.
pub open spec fn read_step(t1: Seq<RegAccess>, t2: Seq<RegAccess>, off: u32) -> bool {
    &&& t2.len() == t1.len() + 1
    &&& t2 == t1.push(t2.last())
    &&& is_read_of(t2.last(), off)
}

/// `t2` extends `t1` by reads of `off` only.
pub open spec fn reads_only(t1: Seq<RegAccess>, t2: Seq<RegAccess>, off: u32) -> bool {
    &&& t2.len() >= t1.len()
    &&& t2.subrange(0, t1.len() as int) == t1
    &&& forall|i: int| t1.len() <= i < t2.len() ==> #[trigger] is_read_of(t2[i], off)
}

/// The condition a poll waits for: `value & mask == expected` when `equal`,
/// `value & mask != expected` otherwise.
pub open spec fn poll_cond(v: u32, mask: u32, expected: u32, equal: bool) -> bool {
    ((v & mask) == expected) == equal
}

/// `t2` extends `t1` by reads of `off`, the last of which (and only that
/// one) meets the poll condition.
pub open spec fn poll_succeeded(t1: Seq<RegAccess>, t2: Seq<RegAccess>, off: u32, mask: u32, expected: u32, equal: bool) -> bool {
    &&& reads_only(t1, t2, off)
    &&& t2.len() > t1.len()
    &&& poll_cond(value_of(t2.last()), mask, expected, equal)
    &&& forall|i: int| t1.len() <= i < t2.len() - 1 ==> !poll_cond(value_of(#[trigger] t2[i]), mask, expected, equal)
}

/// `t2` extends `t1` by exactly `count` reads of `off`, none of which meets
/// the poll condition.
pub open spec fn poll_timed_out(t1: Seq<RegAccess>, t2: Seq<RegAccess>, off: u32, mask: u32, expected: u32, equal: bool, count: nat) -> bool {
    &&& reads_only(t1, t2, off)
    &&& t2.len() == t1.len() + count
    &&& forall|i: int| t1.len() <= i < t2.len() ==> !poll_cond(value_of(#[trigger] t2[i]), mask, expected, equal)
}

/// `t2` is `t1` followed by more accesses.
pub open spec fn extends(t1: Seq<RegAccess>, t2: Seq<RegAccess>) -> bool {
    &&& t1.len() <= t2.len()
    &&& t2.subrange(0, t1.len() as int) == t1
}

/// An extension keeps the accesses it extends.
pub proof fn lemma_extends_index(t1: Seq<RegAccess>, t2: Seq<RegAccess>, i: int)
    requires
        extends(t1, t2),
        0 <= i < t1.len(),
    ensures
        t2[i] == t1[i],
{
    assert(t2.subrange(0, t1.len() as int)[i] == t2[i]);
}

/// `t2` is `t1` followed by a write of `v` to `off`.
pub open spec fn write_step(t1: Seq<RegAccess>, t2: Seq<RegAccess>, off: u32, v: u32) -> bool {
    t2 == t1.push(RegAccess::Write(off, v))
}

/// Extension is transitive.
pub proof fn lemma_extends_trans(t1: Seq<RegAccess>, t2: Seq<RegAccess>, t3: Seq<RegAccess>)
    requires
        extends(t1, t2),
        extends(t2, t3),
    ensures
        extends(t1, t3),
{
    assert(t3.subrange(0, t1.len() as int) =~= t2.subrange(0, t1.len() as int));
}

/// The number of attempts a poll makes: the count given, or `usize::MAX`.
pub open spec fn attempts(try_count: Option<usize>) -> nat {
    match try_count {
        Some(n) => n as nat,
        None => usize::MAX as nat,
    }
}

/// Windows made at addresses `a` and `b` (see [`Reg::new`]) give back the
/// same base address (see [`Reg::get_base_addr`]) exactly when `a == b`.
pub proof fn lemma_window_bases<B: RegisterIo>(w1: Reg<B>, w2: Reg<B>, a: usize, b: usize)
    requires
        w1.base() == a,
        w2.base() == b,
    ensures
        (w1.base() == w2.base()) <==> (a == b),
{
}

/// The waits of a poll that sleeps `interval` (none: never) after each of
/// `n` reads.
pub open spec fn naps_of(interval: Option<core::time::Duration>, n: nat) -> Seq<core::time::Duration> {
    match interval {
        Some(d) => Seq::new(n, |i: int| d),
        None => Seq::empty(),
    }
}

/// The platform's access to a controller's register window.
pub trait RegisterIo: crate::Kernel {
    /// Read the 32-bit register `offset` bytes above the window's base.
    fn read_32(&self, offset: u32) -> u32;

    /// Write the 32-bit register `offset` bytes above the window's base.
    fn write_32(&self, offset: u32, value: u32);

    /// Write the 32-bit word at bus address `addr` of the memory that the
    /// controller's DMA engine reads, so that the engine sees it.
    fn write_mem_32(&self, addr: u64, value: u32);
}

/// Error types that can report a register poll that ran out of attempts.
pub trait RegError: Sized {
    /// The error a poll that ran out of attempts reports.
    spec fn timeout_value() -> Self;

    /// The error for a poll that ran out of attempts.
    fn timeout() -> (r: Self)
        ensures
            r == Self::timeout_value(),
    ;
}

/// A controller's register window. Every access is recorded in a ghost
/// trace, so that contracts can say exactly which registers a function
/// reads and writes, and with what values.
pub struct Reg<B: RegisterIo> {
    addr: usize,
    io: B,
    log: Ghost<Seq<RegAccess>>,
    slept: Ghost<Seq<core::time::Duration>>,
}

impl<B: RegisterIo> Reg<B> {
    /// Base address of the window.
    pub closed spec fn base(&self) -> usize {
        self.addr
    }

    /// The accesses made through this window so far.
    pub closed spec fn trace(&self) -> Seq<RegAccess> {
        self.log@
    }

    /// The waits a poll of this window made between its reads, in order.
    pub closed spec fn naps(&self) -> Seq<core::time::Duration> {
        self.slept@
    }

    /// A window at `addr` reached through `io`, with no access made yet.
    pub fn new(addr: usize, io: B) -> (r: Self)
        ensures
            r.base() == addr,
            r.trace() == Seq::<RegAccess>::empty(),
            r.naps() == Seq::<core::time::Duration>::empty(),
    {
        Reg { addr, io, log: Ghost(Seq::empty()), slept: Ghost(Seq::empty()) }
    }

    /// The base address of the window.
    pub fn get_base_addr(&self) -> (r: usize)
        ensures
            r == self.base(),
    {
        self.addr
    }

    /// Read the 32-bit register at byte offset `reg`.
    pub fn read_32(&mut self, reg: u32) -> (v: u32)
        ensures
            final(self).trace() == old(self).trace().push(RegAccess::Read(reg, v)),
            final(self).base() == old(self).base(),
    {
        self.read_reg(reg)
    }

    /// Write `val` to the 32-bit register at byte offset `reg`.
    pub fn write_32(&mut self, reg: u32, val: u32)
        ensures
            final(self).trace() == old(self).trace().push(RegAccess::Write(reg, val)),
            final(self).base() == old(self).base(),
    {
        self.write_reg(reg, val)
    }

    /// Read the register at `offset`.
    pub fn read_reg(&mut self, offset: u32) -> (v: u32)
        ensures
            final(self).trace() == old(self).trace().push(RegAccess::Read(offset, v)),
            final(self).base() == old(self).base(),
            final(self).naps() == old(self).naps(),
    {
        let v = self.io.read_32(offset);
        self.log = Ghost(self.log@.push(RegAccess::Read(offset, v)));
        v
    }

    /// Write `value` to the register at `offset`.
    pub fn write_reg(&mut self, offset: u32, value: u32)
        ensures
            final(self).trace() == old(self).trace().push(RegAccess::Write(offset, value)),
            final(self).base() == old(self).base(),
            final(self).naps() == old(self).naps(),
    {
        self.io.write_32(offset, value);
        self.log = Ghost(self.log@.push(RegAccess::Write(offset, value)));
    }

    /// Write `value` to the word at bus address `addr` of the DMA engine's
    /// memory.
    pub fn write_mem(&mut self, addr: u64, value: u32)
        ensures
            final(self).trace() == old(self).trace().push(RegAccess::MemWrite(addr, value)),
            final(self).base() == old(self).base(),
            final(self).naps() == old(self).naps(),
    {
        self.io.write_mem_32(addr, value);
        self.log = Ghost(self.log@.push(RegAccess::MemWrite(addr, value)));
    }

    /// Read the register at `offset`, clear the bits of `clear`, set those
    /// of `set`, and write the result back.
    pub fn modify_reg(&mut self, offset: u32, clear: u32, set: u32)
        ensures
            rmw_step(old(self).trace(), final(self).trace(), offset, clear, set),
            final(self).base() == old(self).base(),
    {
        let ghost t0 = self.trace();
        let v = self.read_reg(offset);
        self.write_reg(offset, (v & !clear) | set);
        assert(self.trace().subrange(0, t0.len() as int) =~= t0);
    }

    /// Clear the bits of `val` in the register at `offset`, keeping the others.
    pub fn clear_reg(&mut self, offset: u32, val: u32)
        ensures
            rmw_step(old(self).trace(), final(self).trace(), offset, val, 0),
            final(self).base() == old(self).base(),
    {
        self.modify_reg(offset, val, 0)
    }

    /// Set the bits of `val` in the register at `offset`, keeping the others.
    pub fn set_reg(&mut self, offset: u32, val: u32)
        ensures
            rmw_step(old(self).trace(), final(self).trace(), offset, 0, val),
            final(self).base() == old(self).base(),
    {
        self.modify_reg(offset, 0, val)
    }

    /// Read the register at `offset` until the poll condition holds
    /// (`value & mask == expected` when `equal`, `!=` otherwise), at most
    /// `try_count` times (`None`: `usize::MAX` times), without waiting
    /// between reads.
    pub fn retry_for<E: RegError>(&mut self, offset: u32, mask: u32, expected: u32, equal: bool, try_count: Option<usize>) -> (r: Result<(), E>)
        ensures
            r.is_ok() ==> poll_succeeded(old(self).trace(), final(self).trace(), offset, mask, expected, equal),
            r.is_err() ==> poll_timed_out(old(self).trace(), final(self).trace(), offset, mask, expected, equal, attempts(try_count)),
            r.is_err() ==> r == Err::<(), E>(E::timeout_value()),
            r.is_ok() ==> final(self).trace().len() <= old(self).trace().len() + attempts(try_count),
            final(self).base() == old(self).base(),
            final(self).naps() == old(self).naps(),
    {
        self.poll(offset, mask, expected, equal, try_count, None)
    }

    /// Read the register at `offset` until the poll condition holds, at
    /// most `try_count` times (`None`: `usize::MAX` times), sleeping
    /// `interval` after each read that does not meet it.
    pub fn wait_for<E: RegError>(&mut self, offset: u32, mask: u32, expected: u32, equal: bool, interval: core::time::Duration, try_count: Option<usize>) -> (r: Result<(), E>)
        ensures
            r.is_ok() ==> poll_succeeded(old(self).trace(), final(self).trace(), offset, mask, expected, equal),
            r.is_err() ==> poll_timed_out(old(self).trace(), final(self).trace(), offset, mask, expected, equal, attempts(try_count)),
            r.is_err() ==> r == Err::<(), E>(E::timeout_value()),
            r.is_ok() ==> final(self).trace().len() <= old(self).trace().len() + attempts(try_count),
            final(self).base() == old(self).base(),
            r.is_ok() ==> final(self).naps() == old(self).naps()
                + naps_of(Some(interval), (final(self).trace().len() - old(self).trace().len() - 1) as nat),
            r.is_err() ==> final(self).naps() == old(self).naps() + naps_of(Some(interval), attempts(try_count)),
    {
        self.poll(offset, mask, expected, equal, try_count, Some(interval))
    }

    fn poll<E: RegError>(&mut self, offset: u32, mask: u32, expected: u32, equal: bool, try_count: Option<usize>, interval: Option<core::time::Duration>) -> (r: Result<(), E>)
        ensures
            r.is_ok() ==> poll_succeeded(old(self).trace(), final(self).trace(), offset, mask, expected, equal),
            r.is_err() ==> poll_timed_out(old(self).trace(), final(self).trace(), offset, mask, expected, equal, attempts(try_count)),
            r.is_err() ==> r == Err::<(), E>(E::timeout_value()),
            r.is_ok() ==> final(self).trace().len() <= old(self).trace().len() + attempts(try_count),
            final(self).base() == old(self).base(),
            r.is_ok() ==> final(self).naps() == old(self).naps()
                + naps_of(interval, (final(self).trace().len() - old(self).trace().len() - 1) as nat),
            r.is_err() ==> final(self).naps() == old(self).naps() + naps_of(interval, attempts(try_count)),
    {
        let count: usize = match try_count {
            Some(n) => n,
            None => usize::MAX,
        };
        let ghost t0 = self.trace();
        let mut i: usize = 0;
        assert(t0.subrange(0, t0.len() as int) =~= t0);
        while i < count
            invariant
                i <= count,
                count == attempts(try_count),
                self.addr == old(self).addr,
                t0 == old(self).trace(),
                poll_timed_out(t0, self.trace(), offset, mask, expected, equal, i as nat),
                self.trace().len() == t0.len() + i,
                self.naps() == old(self).naps() + naps_of(interval, i as nat),
            decreases count - i,
        {
            let v = self.read_reg(offset);
            if ((v & mask) == expected) == equal {
                assert(self.trace().subrange(0, t0.len() as int) =~= t0);
                return Ok(());
            }
            assert(self.trace().subrange(0, t0.len() as int) =~= t0);
            match interval {
                Some(d) => {
                    B::sleep(d);
                    self.slept = Ghost(self.slept@.push(d));
                },
                None => {},
            }
            i = i + 1;
            assert(self.naps() =~= old(self).naps() + naps_of(interval, i as nat));
        }
        Err(E::timeout())
    }
}

} // verus!
