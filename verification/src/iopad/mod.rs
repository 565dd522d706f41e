//! The I/O pad controller: pin function multiplexing, pull resistors,
//! drive strength and signal delay tuning.

use vstd::prelude::*;

pub mod constants;
pub mod err;
pub mod regs;

use crate::regs::{
    field_get, field_set, read_step, rmw_step, value_of, Reg, RegAccess, RegisterIo,
};
use constants::{
    fiopaddelay_code, fiopaddrive_code, fiopadfunc_code, fiopadpull_code, FioPadDelay,
    FioPadDelayDir, FioPadDelayType, FioPadDrive, FioPadFunc, FioPadPull,
};
use err::FioPadError;
use regs::{XReg0, XReg1, XREG0_DEFINED, XREG1_DEFINED};

verus! {

/// The I/O pad controller.
pub struct IoPad<B: RegisterIo> {
    reg: Reg<B>,
    is_ready: bool,
}

/// The function field (bits 2..0) of a pad's function register.
pub const FUNC_FIELD: u32 = 0x7;

/// The drive strength field (bits 7..4) of a pad's function register.
pub const DRIVE_FIELD: u32 = 0xF0;

/// The pull field (bits 9..8) of a pad's function register.
pub const PULL_FIELD: u32 = 0x300;

/// The bits a delay register keeps when an enable bit is cleared: the
/// defined bits other than that enable bit.
pub open spec fn delay_enable_cleared(enable_bit: u32) -> u32 {
    !(!enable_bit & XREG1_DEFINED)
}

impl<B: RegisterIo> IoPad<B> {
    /// The controller's register window.
    pub closed spec fn window(&self) -> Reg<B> {
        self.reg
    }

    /// The controller is ready for use.
    pub closed spec fn ready(&self) -> bool {
        self.is_ready
    }

    /// A controller whose registers are at `reg_base`, reached through `io`.
    pub fn new(reg_base: usize, io: B) -> (r: Self)
        ensures
            r.window().base() == reg_base,
            r.window().trace() == Seq::<RegAccess>::empty(),
            r.ready(),
    {
        IoPad { reg: Reg::new(reg_base, io), is_ready: true }
    }

    /// The base address of the controller's registers.
    pub fn get_base_addr(&self) -> (r: usize)
        ensures
            r == self.window().base(),
    {
        self.reg.get_base_addr()
    }

    /// The function the pad whose function register is at `reg` is set to.
    pub fn func_get(&mut self, reg: u32) -> (r: FioPadFunc)
        ensures
            read_step(old(self).window().trace(), final(self).window().trace(), reg),
            fiopadfunc_code(r) == field_get(value_of(final(self).window().trace().last()), 2, 0),
            final(self).window().base() == old(self).window().base(),
    {
        let v = self.reg.read_reg(reg);
        FioPadFunc::from(XReg0::func_get(v))
    }

    /// Set the function of the pad whose function register is at `reg`:
    /// the function field (bits 2..0) is replaced, the other bits kept.
    pub fn func_set(&mut self, reg: u32, func: FioPadFunc)
        requires
            func != FioPadFunc::NumOfFunc,
        ensures
            rmw_step(old(self).window().trace(), final(self).window().trace(), reg, FUNC_FIELD,
                field_set(fiopadfunc_code(func), 2, 0) & XREG0_DEFINED),
            final(self).window().base() == old(self).window().base(),
    {
        let bits = XReg0::func_set(func.into());
        self.reg.modify_reg(reg, FUNC_FIELD, bits);
    }

    /// The pull setting of the pad whose register is at `reg`; an error for
    /// the reserved encoding 3.
    pub fn pull_get(&mut self, reg: u32) -> (r: Result<FioPadPull, FioPadError>)
        ensures
            read_step(old(self).window().trace(), final(self).window().trace(), reg),
            field_get(value_of(final(self).window().trace().last()), 9, 8) < 3 ==> (r matches Ok(p) && fiopadpull_code(p) == field_get(value_of(final(self).window().trace().last()), 9, 8)),
            field_get(value_of(final(self).window().trace().last()), 9, 8) == 3 ==> r == Err::<FioPadPull, FioPadError>(FioPadError::InvalParam),
            final(self).window().base() == old(self).window().base(),
    {
        let v = self.reg.read_reg(reg);
        let p = XReg0::pull_get(v);
        if p < 3 {
            Ok(FioPadPull::from(p))
        } else {
            Err(FioPadError::InvalParam)
        }
    }

    /// Set the pull of the pad whose register is at `reg`: the pull field
    /// (bits 9..8) is replaced, the other bits kept.
    pub fn pull_set(&mut self, reg: u32, pull: FioPadPull)
        requires
            pull != FioPadPull::NumOfPull,
        ensures
            rmw_step(old(self).window().trace(), final(self).window().trace(), reg, PULL_FIELD,
                field_set(fiopadpull_code(pull), 9, 8) & XREG0_DEFINED),
            final(self).window().base() == old(self).window().base(),
    {
        let bits = XReg0::pull_set(pull.into());
        self.reg.modify_reg(reg, PULL_FIELD, bits);
    }

    /// The drive strength of the pad whose register is at `reg`.
    pub fn drive_get(&mut self, reg: u32) -> (r: FioPadDrive)
        ensures
            read_step(old(self).window().trace(), final(self).window().trace(), reg),
            fiopaddrive_code(r) == field_get(value_of(final(self).window().trace().last()), 7, 4),
            final(self).window().base() == old(self).window().base(),
    {
        let v = self.reg.read_reg(reg);
        FioPadDrive::from(XReg0::drive_get(v))
    }

    /// Set the drive strength of the pad whose register is at `reg`: the
    /// drive field (bits 7..4) is replaced, the other bits kept.
    pub fn drive_set(&mut self, reg: u32, drive: FioPadDrive)
        requires
            drive != FioPadDrive::NumOfDrive,
        ensures
            rmw_step(old(self).window().trace(), final(self).window().trace(), reg, DRIVE_FIELD,
                field_set(fiopaddrive_code(drive), 7, 4) & XREG0_DEFINED),
            final(self).window().base() == old(self).window().base(),
    {
        let bits = XReg0::drive_set(drive.into());
        self.reg.modify_reg(reg, DRIVE_FIELD, bits);
    }

    /// Set the function, pull and drive strength of a pad in one
    /// read-modify-write: the three fields are replaced, the other bits
    /// kept.
    pub fn config_set(&mut self, reg: u32, func: FioPadFunc, pull: FioPadPull, drive: FioPadDrive)
        requires
            func != FioPadFunc::NumOfFunc,
            pull != FioPadPull::NumOfPull,
            drive != FioPadDrive::NumOfDrive,
        ensures
            rmw_step(old(self).window().trace(), final(self).window().trace(), reg, FUNC_FIELD | PULL_FIELD | DRIVE_FIELD,
                (field_set(fiopadfunc_code(func), 2, 0) & XREG0_DEFINED) | (field_set(fiopadpull_code(pull), 9, 8) & XREG0_DEFINED)
                | (field_set(fiopaddrive_code(drive), 7, 4) & XREG0_DEFINED)),
            final(self).window().base() == old(self).window().base(),
    {
        let bits = XReg0::func_set(func.into()) | XReg0::pull_set(pull.into()) | XReg0::drive_set(
            drive.into(),
        );
        self.reg.modify_reg(reg, FUNC_FIELD | PULL_FIELD | DRIVE_FIELD, bits);
    }

    /// The function, pull and drive strength of a pad, from one read; an
    /// error for the reserved pull encoding 3.
    pub fn config_get(&mut self, reg: u32) -> (r: Result<(FioPadFunc, FioPadPull, FioPadDrive), FioPadError>)
        ensures
            read_step(old(self).window().trace(), final(self).window().trace(), reg),
            ({
                let v = value_of(final(self).window().trace().last());
                &&& field_get(v, 9, 8) < 3 ==> (r matches Ok((f, p, d)) && fiopadfunc_code(f) == field_get(v, 2, 0)
                    && fiopadpull_code(p) == field_get(v, 9, 8) && fiopaddrive_code(d) == field_get(v, 7, 4))
                &&& field_get(v, 9, 8) == 3 ==> r is Err
            }),
            final(self).window().base() == old(self).window().base(),
    {
        let v = self.reg.read_reg(reg);
        let func = XReg0::func_get(v);
        let pull = XReg0::pull_get(v);
        let drive = XReg0::drive_get(v);
        if pull < 3 {
            Ok((FioPadFunc::from(func), FioPadPull::from(pull), FioPadDrive::from(drive)))
        } else {
            Err(FioPadError::InvalParam)
        }
    }

    /// The delay of the given direction and tuning of the pad whose delay
    /// register is at `reg`; no delay for the `NumOf*` selectors.
    pub fn delay_get(&mut self, reg: u32, dir: FioPadDelayDir, typ: FioPadDelayType) -> (r: FioPadDelay)
        ensures
            read_step(old(self).window().trace(), final(self).window().trace(), reg),
            fiopaddelay_code(r) == delay_field(value_of(final(self).window().trace().last()), dir, typ),
            final(self).window().base() == old(self).window().base(),
    {
        let v = self.reg.read_reg(reg);
        let mut delay: u32 = 0;
        if dir == FioPadDelayDir::OutputDelay {
            if typ == FioPadDelayType::DelayFineTuning {
                delay = XReg1::out_delay_delicate_get(v);
            } else if typ == FioPadDelayType::DelayCoarseTuning {
                delay = XReg1::out_delay_rough_get(v);
            }
        } else if dir == FioPadDelayDir::InputDelay {
            if typ == FioPadDelayType::DelayFineTuning {
                delay = XReg1::in_delay_delicate_get(v);
            } else if typ == FioPadDelayType::DelayCoarseTuning {
                delay = XReg1::in_delay_rough_get(v);
            }
        }
        proof {
            lemma_delay_field_small(v, dir, typ);
        }
        FioPadDelay::from(delay)
    }

    /// Set the delay of the given direction and tuning of the pad whose
    /// delay register is at `reg`: that delay field is replaced, the other
    /// bits kept; no access for the `NumOf*` selectors.
    pub fn delay_set(&mut self, reg: u32, dir: FioPadDelayDir, typ: FioPadDelayType, delay: FioPadDelay)
        requires
            delay != FioPadDelay::NumOfDelay,
        ensures
            delay_selected(dir, typ) ==> rmw_step(old(self).window().trace(), final(self).window().trace(), reg,
                delay_mask(dir, typ), delay_bits(fiopaddelay_code(delay), dir, typ)),
            !delay_selected(dir, typ) ==> final(self).window().trace() == old(self).window().trace(),
            final(self).window().base() == old(self).window().base(),
    {
        if dir == FioPadDelayDir::OutputDelay {
            if typ == FioPadDelayType::DelayFineTuning {
                self.reg.modify_reg(reg, 0xE00, XReg1::out_delay_delicate_set(delay.into()));
            } else if typ == FioPadDelayType::DelayCoarseTuning {
                self.reg.modify_reg(reg, 0x7000, XReg1::out_delay_rough_set(delay.into()));
            }
        } else if dir == FioPadDelayDir::InputDelay {
            if typ == FioPadDelayType::DelayFineTuning {
                self.reg.modify_reg(reg, 0xE, XReg1::in_delay_delicate_set(delay.into()));
            } else if typ == FioPadDelayType::DelayCoarseTuning {
                self.reg.modify_reg(reg, 0x70, XReg1::in_delay_rough_set(delay.into()));
            }
        }
    }

    /// Enable or disable the delay of one direction of the pad whose delay
    /// register is at `reg`. Disabling also clears the register's undefined
    /// bits; no access for `NumOfDelayDir`.
    pub fn delay_enable_set(&mut self, reg: u32, dir: FioPadDelayDir, enable: bool)
        ensures
            dir != FioPadDelayDir::NumOfDelayDir ==> rmw_step(old(self).window().trace(), final(self).window().trace(), reg,
                if enable { 0 } else { delay_enable_cleared(enable_bit(dir)) },
                if enable { enable_bit(dir) } else { 0 }),
            dir == FioPadDelayDir::NumOfDelayDir ==> final(self).window().trace() == old(self).window().trace(),
            final(self).window().base() == old(self).window().base(),
    {
        if dir == FioPadDelayDir::OutputDelay {
            let en = XReg1::out_delay_en();
            if enable {
                self.reg.set_reg(reg, en);
            } else {
                self.reg.modify_reg(reg, !(!en & XREG1_DEFINED), 0);
            }
        } else if dir == FioPadDelayDir::InputDelay {
            let en = XReg1::in_delay_en();
            if enable {
                self.reg.set_reg(reg, en);
            } else {
                self.reg.modify_reg(reg, !(!en & XREG1_DEFINED), 0);
            }
        }
    }
}

/// The direction and tuning name a delay field.
pub open spec fn delay_selected(dir: FioPadDelayDir, typ: FioPadDelayType) -> bool {
    dir != FioPadDelayDir::NumOfDelayDir && typ != FioPadDelayType::NumOfDelayType
}

/// The enable bit of a delay direction.
pub open spec fn enable_bit(dir: FioPadDelayDir) -> u32 {
    if dir == FioPadDelayDir::OutputDelay { 0x100 } else { 1 }
}

/// The delay field of a delay register value for a direction and tuning
/// (0 when they name no field).
pub open spec fn delay_field(v: u32, dir: FioPadDelayDir, typ: FioPadDelayType) -> u32 {
    match (dir, typ) {
        (FioPadDelayDir::OutputDelay, FioPadDelayType::DelayFineTuning) => field_get(v, 11, 9),
        (FioPadDelayDir::OutputDelay, FioPadDelayType::DelayCoarseTuning) => field_get(v, 14, 12),
        (FioPadDelayDir::InputDelay, FioPadDelayType::DelayFineTuning) => field_get(v, 3, 1),
        (FioPadDelayDir::InputDelay, FioPadDelayType::DelayCoarseTuning) => field_get(v, 6, 4),
        _ => 0,
    }
}

/// Setting a pad's function, pull or drive field and reading it back gives
/// the value set, whatever the register held before; the other two fields
/// keep their values.
pub proof fn lemma_pad_field_set_get(v: u32, f: u32, p: u32, d: u32)
    requires
        f < 8,
        p < 4,
        d < 16,
    ensures
        field_get((v & !FUNC_FIELD) | (field_set(f, 2, 0) & XREG0_DEFINED), 2, 0) == f,
        field_get((v & !PULL_FIELD) | (field_set(p, 9, 8) & XREG0_DEFINED), 9, 8) == p,
        field_get((v & !DRIVE_FIELD) | (field_set(d, 7, 4) & XREG0_DEFINED), 7, 4) == d,
        field_get((v & !FUNC_FIELD) | (field_set(f, 2, 0) & XREG0_DEFINED), 9, 8) == field_get(v, 9, 8),
        field_get((v & !PULL_FIELD) | (field_set(p, 9, 8) & XREG0_DEFINED), 2, 0) == field_get(v, 2, 0),
        field_get((v & !DRIVE_FIELD) | (field_set(d, 7, 4) & XREG0_DEFINED), 9, 8) == field_get(v, 9, 8),
{
    assert(field_get((v & !0x7u32) | (field_set(f, 2, 0) & 0x3F7u32), 2, 0) == f
        && field_get((v & !0x300u32) | (field_set(p, 9, 8) & 0x3F7u32), 9, 8) == p
        && field_get((v & !0xF0u32) | (field_set(d, 7, 4) & 0x3F7u32), 7, 4) == d
        && field_get((v & !0x7u32) | (field_set(f, 2, 0) & 0x3F7u32), 9, 8) == field_get(v, 9, 8)
        && field_get((v & !0x300u32) | (field_set(p, 9, 8) & 0x3F7u32), 2, 0) == field_get(v, 2, 0)
        && field_get((v & !0xF0u32) | (field_set(d, 7, 4) & 0x3F7u32), 9, 8) == field_get(v, 9, 8)) by (bit_vector)
        requires
            f < 8,
            p < 4,
            d < 16,
    ;
}

/// The delay field of a direction and tuning, as a mask (0 when they
/// name no field).
pub open spec fn delay_mask(dir: FioPadDelayDir, typ: FioPadDelayType) -> u32 {
    match (dir, typ) {
        (FioPadDelayDir::OutputDelay, FioPadDelayType::DelayFineTuning) => 0xE00,
        (FioPadDelayDir::OutputDelay, FioPadDelayType::DelayCoarseTuning) => 0x7000,
        (FioPadDelayDir::InputDelay, FioPadDelayType::DelayFineTuning) => 0xE,
        (FioPadDelayDir::InputDelay, FioPadDelayType::DelayCoarseTuning) => 0x70,
        _ => 0,
    }
}

/// The bits holding delay `x` in the field of a direction and tuning.
pub open spec fn delay_bits(x: u32, dir: FioPadDelayDir, typ: FioPadDelayType) -> u32 {
    match (dir, typ) {
        (FioPadDelayDir::OutputDelay, FioPadDelayType::DelayFineTuning) => field_set(x, 11, 9) & XREG1_DEFINED,
        (FioPadDelayDir::OutputDelay, FioPadDelayType::DelayCoarseTuning) => field_set(x, 14, 12) & XREG1_DEFINED,
        (FioPadDelayDir::InputDelay, FioPadDelayType::DelayFineTuning) => field_set(x, 3, 1) & XREG1_DEFINED,
        (FioPadDelayDir::InputDelay, FioPadDelayType::DelayCoarseTuning) => field_set(x, 6, 4) & XREG1_DEFINED,
        _ => 0,
    }
}

/// The delay fields sit at the bits the pad's delay register gives them:
/// output fine tuning 11..9, output coarse tuning 14..12, input fine
/// tuning 3..1, input coarse tuning 6..4.
pub proof fn lemma_delay_field_bits(v: u32)
    ensures
        delay_field(v, FioPadDelayDir::OutputDelay, FioPadDelayType::DelayFineTuning) == (v >> 9u32) & 7,
        delay_field(v, FioPadDelayDir::OutputDelay, FioPadDelayType::DelayCoarseTuning) == (v >> 12u32) & 7,
        delay_field(v, FioPadDelayDir::InputDelay, FioPadDelayType::DelayFineTuning) == (v >> 1u32) & 7,
        delay_field(v, FioPadDelayDir::InputDelay, FioPadDelayType::DelayCoarseTuning) == (v >> 4u32) & 7,
{
    assert(field_get(v, 11, 9) == (v >> 9u32) & 7 && field_get(v, 14, 12) == (v >> 12u32) & 7
        && field_get(v, 3, 1) == (v >> 1u32) & 7 && field_get(v, 6, 4) == (v >> 4u32) & 7) by (bit_vector);
}

/// Setting the delay of a direction and tuning (what `delay_set` writes:
/// the register with that field cleared and the delay put in it) and then
/// reading the same direction and tuning (what `delay_get` reads) gives the
/// delay set, whatever the register held; the other three delays keep
/// their values.
pub proof fn lemma_delay_set_get(v: u32, dir: FioPadDelayDir, typ: FioPadDelayType, x: u32)
    requires
        delay_selected(dir, typ),
        x < 8,
    ensures
        ({
            let w = (v & !delay_mask(dir, typ)) | delay_bits(x, dir, typ);
            &&& delay_field(w, dir, typ) == x
            &&& forall|d: FioPadDelayDir, t: FioPadDelayType| delay_selected(d, t) && !(d == dir && t == typ)
                ==> #[trigger] delay_field(w, d, t) == delay_field(v, d, t)
        }),
{
    let w = (v & !delay_mask(dir, typ)) | delay_bits(x, dir, typ);
    lemma_delay_field_bits(v);
    lemma_delay_field_bits(w);
    assert(({
        let w2 = (v & !0xE00u32) | (field_set(x, 11, 9) & 0x7F7Fu32);
        &&& (w2 >> 9u32) & 7 == x && (w2 >> 12u32) & 7 == (v >> 12u32) & 7
        &&& (w2 >> 1u32) & 7 == (v >> 1u32) & 7 && (w2 >> 4u32) & 7 == (v >> 4u32) & 7
    }) && ({
        let w2 = (v & !0x7000u32) | (field_set(x, 14, 12) & 0x7F7Fu32);
        &&& (w2 >> 12u32) & 7 == x && (w2 >> 9u32) & 7 == (v >> 9u32) & 7
        &&& (w2 >> 1u32) & 7 == (v >> 1u32) & 7 && (w2 >> 4u32) & 7 == (v >> 4u32) & 7
    }) && ({
        let w2 = (v & !0xEu32) | (field_set(x, 3, 1) & 0x7F7Fu32);
        &&& (w2 >> 1u32) & 7 == x && (w2 >> 9u32) & 7 == (v >> 9u32) & 7
        &&& (w2 >> 12u32) & 7 == (v >> 12u32) & 7 && (w2 >> 4u32) & 7 == (v >> 4u32) & 7
    }) && ({
        let w2 = (v & !0x70u32) | (field_set(x, 6, 4) & 0x7F7Fu32);
        &&& (w2 >> 4u32) & 7 == x && (w2 >> 9u32) & 7 == (v >> 9u32) & 7
        &&& (w2 >> 12u32) & 7 == (v >> 12u32) & 7 && (w2 >> 1u32) & 7 == (v >> 1u32) & 7
    })) by (bit_vector)
        requires
            x < 8,
    ;
    match (dir, typ) {
        (FioPadDelayDir::OutputDelay, FioPadDelayType::DelayFineTuning) => {
            assert(((v & !0xE00u32) | (field_set(x, 11, 9) & 0x7F7Fu32)) == w);
        },
        (FioPadDelayDir::OutputDelay, FioPadDelayType::DelayCoarseTuning) => {
            assert(((v & !0x7000u32) | (field_set(x, 14, 12) & 0x7F7Fu32)) == w);
        },
        (FioPadDelayDir::InputDelay, FioPadDelayType::DelayFineTuning) => {
            assert(((v & !0xEu32) | (field_set(x, 3, 1) & 0x7F7Fu32)) == w);
        },
        (FioPadDelayDir::InputDelay, FioPadDelayType::DelayCoarseTuning) => {
            assert(((v & !0x70u32) | (field_set(x, 6, 4) & 0x7F7Fu32)) == w);
        },
        _ => {},
    }
}

proof fn lemma_delay_field_small(v: u32, dir: FioPadDelayDir, typ: FioPadDelayType)
    ensures
        delay_field(v, dir, typ) < 8,
{
    assert(field_get(v, 11, 9) < 8 && field_get(v, 14, 12) < 8 && field_get(v, 3, 1) < 8
        && field_get(v, 6, 4) < 8) by (bit_vector);
}

} // verus!
