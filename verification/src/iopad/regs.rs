//! Bit fields of the I/O pad registers.
//!
//! A function, pull and drive register (REG0) holds the function in bits
//! 2..0, the drive strength in bits 7..4 and the pull setting in bits 9..8.
//! A delay register (REG1) holds the input delay enable in bit 0, the input
//! fine and coarse delays in bits 3..1 and 6..4, the output delay enable in
//! bit 8 and the output fine and coarse delays in bits 11..9 and 14..12.

use vstd::prelude::*;

use crate::regs::{field_get, field_set, get_reg32_bits, set_reg32_bits};

verus! {

/// The bits a function, pull and drive register defines.
pub const XREG0_DEFINED: u32 = 0x3F7;

/// The bits a delay register defines.
pub const XREG1_DEFINED: u32 = 0x7F7F;

/// Field helpers of a function, pull and drive register.
pub struct XReg0;

impl XReg0 {
    /// The function field holding `x`.
    pub fn func_set(x: u32) -> (r: u32)
        ensures
            r == field_set(x, 2, 0) & XREG0_DEFINED,
    {
        set_reg32_bits(x, 2, 0) & XREG0_DEFINED
    }

    /// The drive strength field holding `x`.
    pub fn drive_set(x: u32) -> (r: u32)
        ensures
            r == field_set(x, 7, 4) & XREG0_DEFINED,
    {
        set_reg32_bits(x, 7, 4) & XREG0_DEFINED
    }

    /// The pull field holding `x`.
    pub fn pull_set(x: u32) -> (r: u32)
        ensures
            r == field_set(x, 9, 8) & XREG0_DEFINED,
    {
        set_reg32_bits(x, 9, 8) & XREG0_DEFINED
    }

    /// The function field of a register value.
    pub fn func_get(reg: u32) -> (r: u32)
        ensures
            r == field_get(reg, 2, 0),
            r < 8,
    {
        let r = get_reg32_bits(reg, 2, 0);
        assert(field_get(reg, 2, 0) < 8) by (bit_vector);
        r
    }

    /// The drive strength field of a register value.
    pub fn drive_get(reg: u32) -> (r: u32)
        ensures
            r == field_get(reg, 7, 4),
            r < 16,
    {
        let r = get_reg32_bits(reg, 7, 4);
        assert(field_get(reg, 7, 4) < 16) by (bit_vector);
        r
    }

    /// The pull field of a register value.
    pub fn pull_get(reg: u32) -> (r: u32)
        ensures
            r == field_get(reg, 9, 8),
            r < 4,
    {
        let r = get_reg32_bits(reg, 9, 8);
        assert(field_get(reg, 9, 8) < 4) by (bit_vector);
        r
    }
}

/// Field helpers of a delay register.
pub struct XReg1;

impl XReg1 {
    /// The output fine delay field holding `x`.
    pub fn out_delay_delicate_set(x: u32) -> (r: u32)
        ensures
            r == field_set(x, 11, 9) & XREG1_DEFINED,
    {
        set_reg32_bits(x, 11, 9) & XREG1_DEFINED
    }

    /// The output coarse delay field holding `x`.
    pub fn out_delay_rough_set(x: u32) -> (r: u32)
        ensures
            r == field_set(x, 14, 12) & XREG1_DEFINED,
    {
        set_reg32_bits(x, 14, 12) & XREG1_DEFINED
    }

    /// The input fine delay field holding `x`.
    pub fn in_delay_delicate_set(x: u32) -> (r: u32)
        ensures
            r == field_set(x, 3, 1) & XREG1_DEFINED,
    {
        set_reg32_bits(x, 3, 1) & XREG1_DEFINED
    }

    /// The input coarse delay field holding `x`.
    pub fn in_delay_rough_set(x: u32) -> (r: u32)
        ensures
            r == field_set(x, 6, 4) & XREG1_DEFINED,
    {
        set_reg32_bits(x, 6, 4) & XREG1_DEFINED
    }

    /// The output fine delay of a register value.
    pub fn out_delay_delicate_get(reg: u32) -> (r: u32)
        ensures
            r == field_get(reg, 11, 9),
    {
        get_reg32_bits(reg, 11, 9)
    }

    /// The output coarse delay of a register value.
    pub fn out_delay_rough_get(reg: u32) -> (r: u32)
        ensures
            r == field_get(reg, 14, 12),
    {
        get_reg32_bits(reg, 14, 12)
    }

    /// The input fine delay of a register value.
    pub fn in_delay_delicate_get(reg: u32) -> (r: u32)
        ensures
            r == field_get(reg, 3, 1),
    {
        get_reg32_bits(reg, 3, 1)
    }

    /// The input coarse delay of a register value.
    pub fn in_delay_rough_get(reg: u32) -> (r: u32)
        ensures
            r == field_get(reg, 6, 4),
    {
        get_reg32_bits(reg, 6, 4)
    }

    /// The output delay enable bit.
    pub fn out_delay_en() -> (r: u32)
        ensures
            r == 0x100,
    {
        0x100
    }

    /// The input delay enable bit.
    pub fn in_delay_en() -> (r: u32)
        ensures
            r == 1,
    {
        1
    }
}

/// Every field value below 8 reads back from a delay field it was placed in.
pub proof fn lemma_delay_fields_round_trip(x: u32)
    requires
        x < 8,
    ensures
        field_get(field_set(x, 11, 9) & XREG1_DEFINED, 11, 9) == x,
        field_get(field_set(x, 14, 12) & XREG1_DEFINED, 14, 12) == x,
        field_get(field_set(x, 3, 1) & XREG1_DEFINED, 3, 1) == x,
        field_get(field_set(x, 6, 4) & XREG1_DEFINED, 6, 4) == x,
{
    assert(field_get(field_set(x, 11, 9) & 0x7F7F, 11, 9) == x && field_get(field_set(x, 14, 12)
        & 0x7F7F, 14, 12) == x && field_get(field_set(x, 3, 1) & 0x7F7F, 3, 1) == x && field_get(
        field_set(x, 6, 4) & 0x7F7F, 6, 4) == x) by (bit_vector)
        requires
            x < 8,
    ;
}

} // verus!
