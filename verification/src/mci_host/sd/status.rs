//! The SD status register.

use vstd::prelude::*;

verus! {

/// Fields of the SD status.
#[derive(Debug, Clone, Copy, PartialEq, Eq, Structural)]
pub struct SdStatus {
    pub bus_width: u8,
    pub secure_mode: u8,
    pub card_type: u16,
    pub protected_size: u32,
    pub speed_class: u8,
    pub performance_move: u8,
    pub au_size: u8,
    pub erase_size: u16,
    pub erase_timeout: u8,
    pub erase_offset: u8,
    pub uhs_speed_grade: u8,
    pub uhs_au_size: u8,
}

impl SdStatus {
    /// All fields zero.
    pub fn new() -> (r: Self)
        ensures
            r == (SdStatus {
                bus_width: 0,
                secure_mode: 0,
                card_type: 0,
                protected_size: 0,
                speed_class: 0,
                performance_move: 0,
                au_size: 0,
                erase_size: 0,
                erase_timeout: 0,
                erase_offset: 0,
                uhs_speed_grade: 0,
                uhs_au_size: 0,
            }),
    {
        SdStatus {
            bus_width: 0,
            secure_mode: 0,
            card_type: 0,
            protected_size: 0,
            speed_class: 0,
            performance_move: 0,
            au_size: 0,
            erase_size: 0,
            erase_timeout: 0,
            erase_offset: 0,
            uhs_speed_grade: 0,
            uhs_au_size: 0,
        }
    }
}

} // verus!
