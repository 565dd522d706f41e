//! Register offsets and settings of the I/O pad controller.

use vstd::prelude::*;

verus! {

/// Function a pad is multiplexed to.
#[derive(Debug, Clone, Copy, PartialEq, Eq, Structural)]
pub enum FioPadFunc {
    Func0,
    Func1,
    Func2,
    Func3,
    Func4,
    Func5,
    Func6,
    Func7,
    NumOfFunc,
}

/// Drive strength of a pad.
#[derive(Debug, Clone, Copy, PartialEq, Eq, Structural)]
pub enum FioPadDrive {
    Drv0,
    Drv1,
    Drv2,
    Drv3,
    Drv4,
    Drv5,
    Drv6,
    Drv7,
    Drv8,
    Drv9,
    Drv10,
    Drv11,
    Drv12,
    Drv13,
    Drv14,
    Drv15,
    NumOfDrive,
}

/// Pull resistor of a pad.
#[derive(Debug, Clone, Copy, PartialEq, Eq, Structural)]
pub enum FioPadPull {
    PullNone,
    PullDown,
    PullUp,
    NumOfPull,
}

/// Direction of a pad's signal delay.
#[derive(Debug, Clone, Copy, PartialEq, Eq, Structural)]
pub enum FioPadDelayDir {
    OutputDelay,
    InputDelay,
    NumOfDelayDir,
}

/// Coarse or fine tuning of a pad's signal delay.
#[derive(Debug, Clone, Copy, PartialEq, Eq, Structural)]
pub enum FioPadDelayType {
    DelayCoarseTuning,
    DelayFineTuning,
    NumOfDelayType,
}

/// A signal delay step.
#[derive(Debug, Clone, Copy, PartialEq, Eq, Structural)]
pub enum FioPadDelay {
    DelayNone,
    Delay1,
    Delay2,
    Delay3,
    Delay4,
    Delay5,
    Delay6,
    Delay7,
    NumOfDelay,
}

/// The register encoding of each function: its position in the list.
pub open spec fn fiopadfunc_code(x: FioPadFunc) -> u32 {
    match x {
        FioPadFunc::Func0 => 0,
        FioPadFunc::Func1 => 1,
        FioPadFunc::Func2 => 2,
        FioPadFunc::Func3 => 3,
        FioPadFunc::Func4 => 4,
        FioPadFunc::Func5 => 5,
        FioPadFunc::Func6 => 6,
        FioPadFunc::Func7 => 7,
        FioPadFunc::NumOfFunc => 8,
    }
}

impl FioPadFunc {
    /// The function encoded by `value`.
    pub fn from(value: u32) -> (r: Self)
        requires
            value < 8,
        ensures
            fiopadfunc_code(r) == value,
    {
        match value {
            0 => FioPadFunc::Func0,
            1 => FioPadFunc::Func1,
            2 => FioPadFunc::Func2,
            3 => FioPadFunc::Func3,
            4 => FioPadFunc::Func4,
            5 => FioPadFunc::Func5,
            6 => FioPadFunc::Func6,
            _ => FioPadFunc::Func7,
        }
    }

    /// The register encoding of the function.
    pub fn into(self) -> (r: u32)
        requires
            self != FioPadFunc::NumOfFunc,
        ensures
            r == fiopadfunc_code(self),
            r < 8,
    {
        match self {
            FioPadFunc::Func0 => 0,
            FioPadFunc::Func1 => 1,
            FioPadFunc::Func2 => 2,
            FioPadFunc::Func3 => 3,
            FioPadFunc::Func4 => 4,
            FioPadFunc::Func5 => 5,
            FioPadFunc::Func6 => 6,
            FioPadFunc::Func7 => 7,
            FioPadFunc::NumOfFunc => 8,
        }
    }
}


/// The register encoding of each drive strength: its position in the list.
pub open spec fn fiopaddrive_code(x: FioPadDrive) -> u32 {
    match x {
        FioPadDrive::Drv0 => 0,
        FioPadDrive::Drv1 => 1,
        FioPadDrive::Drv2 => 2,
        FioPadDrive::Drv3 => 3,
        FioPadDrive::Drv4 => 4,
        FioPadDrive::Drv5 => 5,
        FioPadDrive::Drv6 => 6,
        FioPadDrive::Drv7 => 7,
        FioPadDrive::Drv8 => 8,
        FioPadDrive::Drv9 => 9,
        FioPadDrive::Drv10 => 10,
        FioPadDrive::Drv11 => 11,
        FioPadDrive::Drv12 => 12,
        FioPadDrive::Drv13 => 13,
        FioPadDrive::Drv14 => 14,
        FioPadDrive::Drv15 => 15,
        FioPadDrive::NumOfDrive => 16,
    }
}

impl FioPadDrive {
    /// The drive strength encoded by `value`.
    pub fn from(value: u32) -> (r: Self)
        requires
            value < 16,
        ensures
            fiopaddrive_code(r) == value,
    {
        match value {
            0 => FioPadDrive::Drv0,
            1 => FioPadDrive::Drv1,
            2 => FioPadDrive::Drv2,
            3 => FioPadDrive::Drv3,
            4 => FioPadDrive::Drv4,
            5 => FioPadDrive::Drv5,
            6 => FioPadDrive::Drv6,
            7 => FioPadDrive::Drv7,
            8 => FioPadDrive::Drv8,
            9 => FioPadDrive::Drv9,
            10 => FioPadDrive::Drv10,
            11 => FioPadDrive::Drv11,
            12 => FioPadDrive::Drv12,
            13 => FioPadDrive::Drv13,
            14 => FioPadDrive::Drv14,
            _ => FioPadDrive::Drv15,
        }
    }

    /// The register encoding of the drive strength.
    pub fn into(self) -> (r: u32)
        requires
            self != FioPadDrive::NumOfDrive,
        ensures
            r == fiopaddrive_code(self),
            r < 16,
    {
        match self {
            FioPadDrive::Drv0 => 0,
            FioPadDrive::Drv1 => 1,
            FioPadDrive::Drv2 => 2,
            FioPadDrive::Drv3 => 3,
            FioPadDrive::Drv4 => 4,
            FioPadDrive::Drv5 => 5,
            FioPadDrive::Drv6 => 6,
            FioPadDrive::Drv7 => 7,
            FioPadDrive::Drv8 => 8,
            FioPadDrive::Drv9 => 9,
            FioPadDrive::Drv10 => 10,
            FioPadDrive::Drv11 => 11,
            FioPadDrive::Drv12 => 12,
            FioPadDrive::Drv13 => 13,
            FioPadDrive::Drv14 => 14,
            FioPadDrive::Drv15 => 15,
            FioPadDrive::NumOfDrive => 16,
        }
    }
}


/// The register encoding of each pull setting: its position in the list.
pub open spec fn fiopadpull_code(x: FioPadPull) -> u32 {
    match x {
        FioPadPull::PullNone => 0,
        FioPadPull::PullDown => 1,
        FioPadPull::PullUp => 2,
        FioPadPull::NumOfPull => 3,
    }
}

impl FioPadPull {
    /// The pull setting encoded by `value`.
    pub fn from(value: u32) -> (r: Self)
        requires
            value < 3,
        ensures
            fiopadpull_code(r) == value,
    {
        match value {
            0 => FioPadPull::PullNone,
            1 => FioPadPull::PullDown,
            _ => FioPadPull::PullUp,
        }
    }

    /// The register encoding of the pull setting.
    pub fn into(self) -> (r: u32)
        requires
            self != FioPadPull::NumOfPull,
        ensures
            r == fiopadpull_code(self),
            r < 3,
    {
        match self {
            FioPadPull::PullNone => 0,
            FioPadPull::PullDown => 1,
            FioPadPull::PullUp => 2,
            FioPadPull::NumOfPull => 3,
        }
    }
}


/// The register encoding of each delay step: its position in the list.
pub open spec fn fiopaddelay_code(x: FioPadDelay) -> u32 {
    match x {
        FioPadDelay::DelayNone => 0,
        FioPadDelay::Delay1 => 1,
        FioPadDelay::Delay2 => 2,
        FioPadDelay::Delay3 => 3,
        FioPadDelay::Delay4 => 4,
        FioPadDelay::Delay5 => 5,
        FioPadDelay::Delay6 => 6,
        FioPadDelay::Delay7 => 7,
        FioPadDelay::NumOfDelay => 8,
    }
}

impl FioPadDelay {
    /// The delay step encoded by `value`.
    pub fn from(value: u32) -> (r: Self)
        requires
            value < 8,
        ensures
            fiopaddelay_code(r) == value,
    {
        match value {
            0 => FioPadDelay::DelayNone,
            1 => FioPadDelay::Delay1,
            2 => FioPadDelay::Delay2,
            3 => FioPadDelay::Delay3,
            4 => FioPadDelay::Delay4,
            5 => FioPadDelay::Delay5,
            6 => FioPadDelay::Delay6,
            _ => FioPadDelay::Delay7,
        }
    }

    /// The register encoding of the delay step.
    pub fn into(self) -> (r: u32)
        requires
            self != FioPadDelay::NumOfDelay,
        ensures
            r == fiopaddelay_code(self),
            r < 8,
    {
        match self {
            FioPadDelay::DelayNone => 0,
            FioPadDelay::Delay1 => 1,
            FioPadDelay::Delay2 => 2,
            FioPadDelay::Delay3 => 3,
            FioPadDelay::Delay4 => 4,
            FioPadDelay::Delay5 => 5,
            FioPadDelay::Delay6 => 6,
            FioPadDelay::Delay7 => 7,
            FioPadDelay::NumOfDelay => 8,
        }
    }
}


impl FioPadPull {
    /// No pull resistor.
    pub fn is_pull_none(&self) -> (r: bool)
        ensures
            r == (*self == FioPadPull::PullNone),
    {
        matches!(self, FioPadPull::PullNone)
    }

    /// Pull-down resistor.
    pub fn is_pull_down(&self) -> (r: bool)
        ensures
            r == (*self == FioPadPull::PullDown),
    {
        matches!(self, FioPadPull::PullDown)
    }

    /// Pull-up resistor.
    pub fn is_pull_up(&self) -> (r: bool)
        ensures
            r == (*self == FioPadPull::PullUp),
    {
        matches!(self, FioPadPull::PullUp)
    }
}


/// Function, pull and drive strength register of pad AN59.
pub const FIOPAD_AN59_REG0_OFFSET: u32 = 0x0000;

/// Function, pull and drive strength register of pad AW47.
pub const FIOPAD_AW47_REG0_OFFSET: u32 = 0x0004;

/// Function, pull and drive strength register of pad AR55.
pub const FIOPAD_AR55_REG0_OFFSET: u32 = 0x0020;

/// Function, pull and drive strength register of pad AJ55.
pub const FIOPAD_AJ55_REG0_OFFSET: u32 = 0x0024;

/// Function, pull and drive strength register of pad AL55.
pub const FIOPAD_AL55_REG0_OFFSET: u32 = 0x0028;

/// Function, pull and drive strength register of pad AL53.
pub const FIOPAD_AL53_REG0_OFFSET: u32 = 0x002C;

/// Function, pull and drive strength register of pad AN51.
pub const FIOPAD_AN51_REG0_OFFSET: u32 = 0x0030;

/// Function, pull and drive strength register of pad AR51.
pub const FIOPAD_AR51_REG0_OFFSET: u32 = 0x0034;

/// Function, pull and drive strength register of pad BA57.
pub const FIOPAD_BA57_REG0_OFFSET: u32 = 0x0038;

/// Function, pull and drive strength register of pad BA59.
pub const FIOPAD_BA59_REG0_OFFSET: u32 = 0x003C;

/// Function, pull and drive strength register of pad AW57.
pub const FIOPAD_AW57_REG0_OFFSET: u32 = 0x0040;

/// Function, pull and drive strength register of pad AW59.
pub const FIOPAD_AW59_REG0_OFFSET: u32 = 0x0044;

/// Function, pull and drive strength register of pad AU55.
pub const FIOPAD_AU55_REG0_OFFSET: u32 = 0x0048;

/// Function, pull and drive strength register of pad AN57.
pub const FIOPAD_AN57_REG0_OFFSET: u32 = 0x004C;

/// Function, pull and drive strength register of pad AL59.
pub const FIOPAD_AL59_REG0_OFFSET: u32 = 0x0050;

/// Function, pull and drive strength register of pad AJ59.
pub const FIOPAD_AJ59_REG0_OFFSET: u32 = 0x0054;

/// Function, pull and drive strength register of pad AJ57.
pub const FIOPAD_AJ57_REG0_OFFSET: u32 = 0x0058;

/// Function, pull and drive strength register of pad AG59.
pub const FIOPAD_AG59_REG0_OFFSET: u32 = 0x005C;

/// Function, pull and drive strength register of pad AG57.
pub const FIOPAD_AG57_REG0_OFFSET: u32 = 0x0060;

/// Function, pull and drive strength register of pad AE59.
pub const FIOPAD_AE59_REG0_OFFSET: u32 = 0x0064;

/// Function, pull and drive strength register of pad AC59.
pub const FIOPAD_AC59_REG0_OFFSET: u32 = 0x0068;

/// Function, pull and drive strength register of pad AC57.
pub const FIOPAD_AC57_REG0_OFFSET: u32 = 0x006C;

/// Function, pull and drive strength register of pad AR49.
pub const FIOPAD_AR49_REG0_OFFSET: u32 = 0x0070;

/// Function, pull and drive strength register of pad BA55.
pub const FIOPAD_BA55_REG0_OFFSET: u32 = 0x0074;

/// Function, pull and drive strength register of pad BA53.
pub const FIOPAD_BA53_REG0_OFFSET: u32 = 0x0078;

/// Function, pull and drive strength register of pad AR59.
pub const FIOPAD_AR59_REG0_OFFSET: u32 = 0x007C;

/// Function, pull and drive strength register of pad AU59.
pub const FIOPAD_AU59_REG0_OFFSET: u32 = 0x0080;

/// Function, pull and drive strength register of pad AR57.
pub const FIOPAD_AR57_REG0_OFFSET: u32 = 0x0084;

/// Function, pull and drive strength register of pad BA49.
pub const FIOPAD_BA49_REG0_OFFSET: u32 = 0x0088;

/// Function, pull and drive strength register of pad AW55.
pub const FIOPAD_AW55_REG0_OFFSET: u32 = 0x008C;

/// Function, pull and drive strength register of pad A35.
pub const FIOPAD_A35_REG0_OFFSET: u32 = 0x0090;

/// Function, pull and drive strength register of pad R57.
pub const FIOPAD_R57_REG0_OFFSET: u32 = 0x0094;

/// Function, pull and drive strength register of pad R59.
pub const FIOPAD_R59_REG0_OFFSET: u32 = 0x0098;

/// Function, pull and drive strength register of pad U59.
pub const FIOPAD_U59_REG0_OFFSET: u32 = 0x009C;

/// Function, pull and drive strength register of pad W59.
pub const FIOPAD_W59_REG0_OFFSET: u32 = 0x00A0;

/// Function, pull and drive strength register of pad U57.
pub const FIOPAD_U57_REG0_OFFSET: u32 = 0x00A4;

/// Function, pull and drive strength register of pad AA57.
pub const FIOPAD_AA57_REG0_OFFSET: u32 = 0x00A8;

/// Function, pull and drive strength register of pad AA59.
pub const FIOPAD_AA59_REG0_OFFSET: u32 = 0x00AC;

/// Function, pull and drive strength register of pad AW51.
pub const FIOPAD_AW51_REG0_OFFSET: u32 = 0x00B0;

/// Function, pull and drive strength register of pad AU51.
pub const FIOPAD_AU51_REG0_OFFSET: u32 = 0x00B4;

/// Function, pull and drive strength register of pad A39.
pub const FIOPAD_A39_REG0_OFFSET: u32 = 0x00B8;

/// Function, pull and drive strength register of pad C39.
pub const FIOPAD_C39_REG0_OFFSET: u32 = 0x00BC;

/// Function, pull and drive strength register of pad C37.
pub const FIOPAD_C37_REG0_OFFSET: u32 = 0x00C0;

/// Function, pull and drive strength register of pad A37.
pub const FIOPAD_A37_REG0_OFFSET: u32 = 0x00C4;

/// Function, pull and drive strength register of pad A41.
pub const FIOPAD_A41_REG0_OFFSET: u32 = 0x00C8;

/// Function, pull and drive strength register of pad A43.
pub const FIOPAD_A43_REG0_OFFSET: u32 = 0x00CC;

/// Function, pull and drive strength register of pad A45.
pub const FIOPAD_A45_REG0_OFFSET: u32 = 0x00D0;

/// Function, pull and drive strength register of pad C45.
pub const FIOPAD_C45_REG0_OFFSET: u32 = 0x00D4;

/// Function, pull and drive strength register of pad A47.
pub const FIOPAD_A47_REG0_OFFSET: u32 = 0x00D8;

/// Function, pull and drive strength register of pad A49.
pub const FIOPAD_A49_REG0_OFFSET: u32 = 0x00DC;

/// Function, pull and drive strength register of pad C49.
pub const FIOPAD_C49_REG0_OFFSET: u32 = 0x00E0;

/// Function, pull and drive strength register of pad A51.
pub const FIOPAD_A51_REG0_OFFSET: u32 = 0x00E4;

/// Function, pull and drive strength register of pad A33.
pub const FIOPAD_A33_REG0_OFFSET: u32 = 0x00E8;

/// Function, pull and drive strength register of pad C33.
pub const FIOPAD_C33_REG0_OFFSET: u32 = 0x00EC;

/// Function, pull and drive strength register of pad C31.
pub const FIOPAD_C31_REG0_OFFSET: u32 = 0x00F0;

/// Function, pull and drive strength register of pad A31.
pub const FIOPAD_A31_REG0_OFFSET: u32 = 0x00F4;

/// Function, pull and drive strength register of pad AJ53.
pub const FIOPAD_AJ53_REG0_OFFSET: u32 = 0x00F8;

/// Function, pull and drive strength register of pad AL49.
pub const FIOPAD_AL49_REG0_OFFSET: u32 = 0x00FC;

/// Function, pull and drive strength register of pad AL47.
pub const FIOPAD_AL47_REG0_OFFSET: u32 = 0x0100;

/// Function, pull and drive strength register of pad AN49.
pub const FIOPAD_AN49_REG0_OFFSET: u32 = 0x0104;

/// Function, pull and drive strength register of pad AG51.
pub const FIOPAD_AG51_REG0_OFFSET: u32 = 0x0108;

/// Function, pull and drive strength register of pad AJ51.
pub const FIOPAD_AJ51_REG0_OFFSET: u32 = 0x010C;

/// Function, pull and drive strength register of pad AG49.
pub const FIOPAD_AG49_REG0_OFFSET: u32 = 0x0110;

/// Function, pull and drive strength register of pad AE55.
pub const FIOPAD_AE55_REG0_OFFSET: u32 = 0x0114;

/// Function, pull and drive strength register of pad AE53.
pub const FIOPAD_AE53_REG0_OFFSET: u32 = 0x0118;

/// Function, pull and drive strength register of pad AG55.
pub const FIOPAD_AG55_REG0_OFFSET: u32 = 0x011C;

/// Function, pull and drive strength register of pad AJ49.
pub const FIOPAD_AJ49_REG0_OFFSET: u32 = 0x0120;

/// Function, pull and drive strength register of pad AC55.
pub const FIOPAD_AC55_REG0_OFFSET: u32 = 0x0124;

/// Function, pull and drive strength register of pad AC53.
pub const FIOPAD_AC53_REG0_OFFSET: u32 = 0x0128;

/// Function, pull and drive strength register of pad AE51.
pub const FIOPAD_AE51_REG0_OFFSET: u32 = 0x012C;

/// Function, pull and drive strength register of pad W51.
pub const FIOPAD_W51_REG0_OFFSET: u32 = 0x0130;

/// Function, pull and drive strength register of pad W55.
pub const FIOPAD_W55_REG0_OFFSET: u32 = 0x0134;

/// Function, pull and drive strength register of pad W53.
pub const FIOPAD_W53_REG0_OFFSET: u32 = 0x0138;

/// Function, pull and drive strength register of pad U55.
pub const FIOPAD_U55_REG0_OFFSET: u32 = 0x013C;

/// Function, pull and drive strength register of pad U53.
pub const FIOPAD_U53_REG0_OFFSET: u32 = 0x0140;

/// Function, pull and drive strength register of pad AE49.
pub const FIOPAD_AE49_REG0_OFFSET: u32 = 0x0144;

/// Function, pull and drive strength register of pad AC49.
pub const FIOPAD_AC49_REG0_OFFSET: u32 = 0x0148;

/// Function, pull and drive strength register of pad AE47.
pub const FIOPAD_AE47_REG0_OFFSET: u32 = 0x014C;

/// Function, pull and drive strength register of pad AA47.
pub const FIOPAD_AA47_REG0_OFFSET: u32 = 0x0150;

/// Function, pull and drive strength register of pad AA49.
pub const FIOPAD_AA49_REG0_OFFSET: u32 = 0x0154;

/// Function, pull and drive strength register of pad W49.
pub const FIOPAD_W49_REG0_OFFSET: u32 = 0x0158;

/// Function, pull and drive strength register of pad AA51.
pub const FIOPAD_AA51_REG0_OFFSET: u32 = 0x015C;

/// Function, pull and drive strength register of pad U49.
pub const FIOPAD_U49_REG0_OFFSET: u32 = 0x0160;

/// Function, pull and drive strength register of pad G59.
pub const FIOPAD_G59_REG0_OFFSET: u32 = 0x0164;

/// Function, pull and drive strength register of pad J59.
pub const FIOPAD_J59_REG0_OFFSET: u32 = 0x0168;

/// Function, pull and drive strength register of pad L57.
pub const FIOPAD_L57_REG0_OFFSET: u32 = 0x016C;

/// Function, pull and drive strength register of pad C59.
pub const FIOPAD_C59_REG0_OFFSET: u32 = 0x0170;

/// Function, pull and drive strength register of pad E59.
pub const FIOPAD_E59_REG0_OFFSET: u32 = 0x0174;

/// Function, pull and drive strength register of pad J57.
pub const FIOPAD_J57_REG0_OFFSET: u32 = 0x0178;

/// Function, pull and drive strength register of pad L59.
pub const FIOPAD_L59_REG0_OFFSET: u32 = 0x017C;

/// Function, pull and drive strength register of pad N59.
pub const FIOPAD_N59_REG0_OFFSET: u32 = 0x0180;

/// Function, pull and drive strength register of pad C57.
pub const FIOPAD_C57_REG0_OFFSET: u32 = 0x0184;

/// Function, pull and drive strength register of pad E57.
pub const FIOPAD_E57_REG0_OFFSET: u32 = 0x0188;

/// Function, pull and drive strength register of pad E31.
pub const FIOPAD_E31_REG0_OFFSET: u32 = 0x018C;

/// Function, pull and drive strength register of pad G31.
pub const FIOPAD_G31_REG0_OFFSET: u32 = 0x0190;

/// Function, pull and drive strength register of pad N41.
pub const FIOPAD_N41_REG0_OFFSET: u32 = 0x0194;

/// Function, pull and drive strength register of pad N39.
pub const FIOPAD_N39_REG0_OFFSET: u32 = 0x0198;

/// Function, pull and drive strength register of pad J33.
pub const FIOPAD_J33_REG0_OFFSET: u32 = 0x019C;

/// Function, pull and drive strength register of pad N33.
pub const FIOPAD_N33_REG0_OFFSET: u32 = 0x01A0;

/// Function, pull and drive strength register of pad L33.
pub const FIOPAD_L33_REG0_OFFSET: u32 = 0x01A4;

/// Function, pull and drive strength register of pad N45.
pub const FIOPAD_N45_REG0_OFFSET: u32 = 0x01A8;

/// Function, pull and drive strength register of pad N43.
pub const FIOPAD_N43_REG0_OFFSET: u32 = 0x01AC;

/// Function, pull and drive strength register of pad L31.
pub const FIOPAD_L31_REG0_OFFSET: u32 = 0x01B0;

/// Function, pull and drive strength register of pad J31.
pub const FIOPAD_J31_REG0_OFFSET: u32 = 0x01B4;

/// Function, pull and drive strength register of pad J29.
pub const FIOPAD_J29_REG0_OFFSET: u32 = 0x01B8;

/// Function, pull and drive strength register of pad E29.
pub const FIOPAD_E29_REG0_OFFSET: u32 = 0x01BC;

/// Function, pull and drive strength register of pad G29.
pub const FIOPAD_G29_REG0_OFFSET: u32 = 0x01C0;

/// Function, pull and drive strength register of pad N27.
pub const FIOPAD_N27_REG0_OFFSET: u32 = 0x01C4;

/// Function, pull and drive strength register of pad L29.
pub const FIOPAD_L29_REG0_OFFSET: u32 = 0x01C8;

/// Function, pull and drive strength register of pad J37.
pub const FIOPAD_J37_REG0_OFFSET: u32 = 0x01CC;

/// Function, pull and drive strength register of pad J39.
pub const FIOPAD_J39_REG0_OFFSET: u32 = 0x01D0;

/// Function, pull and drive strength register of pad G41.
pub const FIOPAD_G41_REG0_OFFSET: u32 = 0x01D4;

/// Function, pull and drive strength register of pad E43.
pub const FIOPAD_E43_REG0_OFFSET: u32 = 0x01D8;

/// Function, pull and drive strength register of pad L43.
pub const FIOPAD_L43_REG0_OFFSET: u32 = 0x01DC;

/// Function, pull and drive strength register of pad C43.
pub const FIOPAD_C43_REG0_OFFSET: u32 = 0x01E0;

/// Function, pull and drive strength register of pad E41.
pub const FIOPAD_E41_REG0_OFFSET: u32 = 0x01E4;

/// Function, pull and drive strength register of pad L45.
pub const FIOPAD_L45_REG0_OFFSET: u32 = 0x01E8;

/// Function, pull and drive strength register of pad J43.
pub const FIOPAD_J43_REG0_OFFSET: u32 = 0x01EC;

/// Function, pull and drive strength register of pad J41.
pub const FIOPAD_J41_REG0_OFFSET: u32 = 0x01F0;

/// Function, pull and drive strength register of pad L39.
pub const FIOPAD_L39_REG0_OFFSET: u32 = 0x01F4;

/// Function, pull and drive strength register of pad E37.
pub const FIOPAD_E37_REG0_OFFSET: u32 = 0x01F8;

/// Function, pull and drive strength register of pad E35.
pub const FIOPAD_E35_REG0_OFFSET: u32 = 0x01FC;

/// Function, pull and drive strength register of pad G35.
pub const FIOPAD_G35_REG0_OFFSET: u32 = 0x0200;

/// Function, pull and drive strength register of pad J35.
pub const FIOPAD_J35_REG0_OFFSET: u32 = 0x0204;

/// Function, pull and drive strength register of pad L37.
pub const FIOPAD_L37_REG0_OFFSET: u32 = 0x0208;

/// Function, pull and drive strength register of pad N35.
pub const FIOPAD_N35_REG0_OFFSET: u32 = 0x020C;

/// Function, pull and drive strength register of pad R51.
pub const FIOPAD_R51_REG0_OFFSET: u32 = 0x0210;

/// Function, pull and drive strength register of pad R49.
pub const FIOPAD_R49_REG0_OFFSET: u32 = 0x0214;

/// Function, pull and drive strength register of pad N51.
pub const FIOPAD_N51_REG0_OFFSET: u32 = 0x0218;

/// Function, pull and drive strength register of pad N55.
pub const FIOPAD_N55_REG0_OFFSET: u32 = 0x021C;

/// Function, pull and drive strength register of pad L55.
pub const FIOPAD_L55_REG0_OFFSET: u32 = 0x0220;

/// Function, pull and drive strength register of pad J55.
pub const FIOPAD_J55_REG0_OFFSET: u32 = 0x0224;

/// Function, pull and drive strength register of pad J45.
pub const FIOPAD_J45_REG0_OFFSET: u32 = 0x0228;

/// Function, pull and drive strength register of pad E47.
pub const FIOPAD_E47_REG0_OFFSET: u32 = 0x022C;

/// Function, pull and drive strength register of pad G47.
pub const FIOPAD_G47_REG0_OFFSET: u32 = 0x0230;

/// Function, pull and drive strength register of pad J47.
pub const FIOPAD_J47_REG0_OFFSET: u32 = 0x0234;

/// Function, pull and drive strength register of pad J49.
pub const FIOPAD_J49_REG0_OFFSET: u32 = 0x0238;

/// Function, pull and drive strength register of pad N49.
pub const FIOPAD_N49_REG0_OFFSET: u32 = 0x023C;

/// Function, pull and drive strength register of pad L51.
pub const FIOPAD_L51_REG0_OFFSET: u32 = 0x0240;

/// Function, pull and drive strength register of pad L49.
pub const FIOPAD_L49_REG0_OFFSET: u32 = 0x0244;

/// Function, pull and drive strength register of pad N53.
pub const FIOPAD_N53_REG0_OFFSET: u32 = 0x0248;

/// Function, pull and drive strength register of pad J53.
pub const FIOPAD_J53_REG0_OFFSET: u32 = 0x024C;

/// Delay register of pad AJ55.
pub const FIOPAD_AJ55_REG1_OFFSET: u32 = 0x1024;

/// Delay register of pad AL55.
pub const FIOPAD_AL55_REG1_OFFSET: u32 = 0x1028;

/// Delay register of pad AL53.
pub const FIOPAD_AL53_REG1_OFFSET: u32 = 0x102C;

/// Delay register of pad AN51.
pub const FIOPAD_AN51_REG1_OFFSET: u32 = 0x1030;

/// Delay register of pad AR51.
pub const FIOPAD_AR51_REG1_OFFSET: u32 = 0x1034;

/// Delay register of pad AJ57.
pub const FIOPAD_AJ57_REG1_OFFSET: u32 = 0x1058;

/// Delay register of pad AG59.
pub const FIOPAD_AG59_REG1_OFFSET: u32 = 0x105C;

/// Delay register of pad AG57.
pub const FIOPAD_AG57_REG1_OFFSET: u32 = 0x1060;

/// Delay register of pad AE59.
pub const FIOPAD_AE59_REG1_OFFSET: u32 = 0x1064;

/// Delay register of pad BA55.
pub const FIOPAD_BA55_REG1_OFFSET: u32 = 0x1074;

/// Delay register of pad BA53.
pub const FIOPAD_BA53_REG1_OFFSET: u32 = 0x1078;

/// Delay register of pad AR59.
pub const FIOPAD_AR59_REG1_OFFSET: u32 = 0x107C;

/// Delay register of pad AU59.
pub const FIOPAD_AU59_REG1_OFFSET: u32 = 0x1080;

/// Delay register of pad A45.
pub const FIOPAD_A45_REG1_OFFSET: u32 = 0x10D0;

/// Delay register of pad C45.
pub const FIOPAD_C45_REG1_OFFSET: u32 = 0x10D4;

/// Delay register of pad A47.
pub const FIOPAD_A47_REG1_OFFSET: u32 = 0x10D8;

/// Delay register of pad A49.
pub const FIOPAD_A49_REG1_OFFSET: u32 = 0x10DC;

/// Delay register of pad C49.
pub const FIOPAD_C49_REG1_OFFSET: u32 = 0x10E0;

/// Delay register of pad A51.
pub const FIOPAD_A51_REG1_OFFSET: u32 = 0x10E4;

/// Delay register of pad A33.
pub const FIOPAD_A33_REG1_OFFSET: u32 = 0x10E8;

/// Delay register of pad C33.
pub const FIOPAD_C33_REG1_OFFSET: u32 = 0x10EC;

/// Delay register of pad C31.
pub const FIOPAD_C31_REG1_OFFSET: u32 = 0x10F0;

/// Delay register of pad A31.
pub const FIOPAD_A31_REG1_OFFSET: u32 = 0x10F4;

/// Delay register of pad AJ53.
pub const FIOPAD_AJ53_REG1_OFFSET: u32 = 0x10F8;

/// Delay register of pad AL49.
pub const FIOPAD_AL49_REG1_OFFSET: u32 = 0x10FC;

/// Delay register of pad AL47.
pub const FIOPAD_AL47_REG1_OFFSET: u32 = 0x1100;

/// Delay register of pad AN49.
pub const FIOPAD_AN49_REG1_OFFSET: u32 = 0x1104;

/// Delay register of pad AG51.
pub const FIOPAD_AG51_REG1_OFFSET: u32 = 0x1108;

/// Delay register of pad AJ51.
pub const FIOPAD_AJ51_REG1_OFFSET: u32 = 0x110C;

/// Delay register of pad AG49.
pub const FIOPAD_AG49_REG1_OFFSET: u32 = 0x1110;

/// Delay register of pad AE55.
pub const FIOPAD_AE55_REG1_OFFSET: u32 = 0x1114;

/// Delay register of pad AE53.
pub const FIOPAD_AE53_REG1_OFFSET: u32 = 0x1118;

/// Delay register of pad AG55.
pub const FIOPAD_AG55_REG1_OFFSET: u32 = 0x111C;

/// Delay register of pad AJ49.
pub const FIOPAD_AJ49_REG1_OFFSET: u32 = 0x1120;

/// Delay register of pad AC55.
pub const FIOPAD_AC55_REG1_OFFSET: u32 = 0x1124;

/// Delay register of pad AC53.
pub const FIOPAD_AC53_REG1_OFFSET: u32 = 0x1128;

/// Delay register of pad AE51.
pub const FIOPAD_AE51_REG1_OFFSET: u32 = 0x112C;

/// Delay register of pad W51.
pub const FIOPAD_W51_REG1_OFFSET: u32 = 0x1130;

/// Delay register of pad W53.
pub const FIOPAD_W53_REG1_OFFSET: u32 = 0x1138;

/// Delay register of pad U55.
pub const FIOPAD_U55_REG1_OFFSET: u32 = 0x113C;

/// Delay register of pad U53.
pub const FIOPAD_U53_REG1_OFFSET: u32 = 0x1140;

/// Delay register of pad AE49.
pub const FIOPAD_AE49_REG1_OFFSET: u32 = 0x1144;

/// Delay register of pad AC49.
pub const FIOPAD_AC49_REG1_OFFSET: u32 = 0x1148;

/// Delay register of pad AE47.
pub const FIOPAD_AE47_REG1_OFFSET: u32 = 0x114C;

/// Delay register of pad AA47.
pub const FIOPAD_AA47_REG1_OFFSET: u32 = 0x1150;

/// Delay register of pad AA49.
pub const FIOPAD_AA49_REG1_OFFSET: u32 = 0x1154;

/// Delay register of pad W49.
pub const FIOPAD_W49_REG1_OFFSET: u32 = 0x1158;

/// Delay register of pad AA51.
pub const FIOPAD_AA51_REG1_OFFSET: u32 = 0x115C;

/// Delay register of pad U49.
pub const FIOPAD_U49_REG1_OFFSET: u32 = 0x1160;

/// Delay register of pad J59.
pub const FIOPAD_J59_REG1_OFFSET: u32 = 0x1168;

/// Delay register of pad L57.
pub const FIOPAD_L57_REG1_OFFSET: u32 = 0x116C;

/// Delay register of pad C59.
pub const FIOPAD_C59_REG1_OFFSET: u32 = 0x1170;

/// Delay register of pad E59.
pub const FIOPAD_E59_REG1_OFFSET: u32 = 0x1174;

/// Delay register of pad J57.
pub const FIOPAD_J57_REG1_OFFSET: u32 = 0x1178;

/// Delay register of pad L59.
pub const FIOPAD_L59_REG1_OFFSET: u32 = 0x117C;

/// Delay register of pad N59.
pub const FIOPAD_N59_REG1_OFFSET: u32 = 0x1180;

/// Delay register of pad E31.
pub const FIOPAD_E31_REG1_OFFSET: u32 = 0x118C;

/// Delay register of pad G31.
pub const FIOPAD_G31_REG1_OFFSET: u32 = 0x1190;

/// Delay register of pad N41.
pub const FIOPAD_N41_REG1_OFFSET: u32 = 0x1194;

/// Delay register of pad N39.
pub const FIOPAD_N39_REG1_OFFSET: u32 = 0x1198;

/// Delay register of pad J33.
pub const FIOPAD_J33_REG1_OFFSET: u32 = 0x119C;

/// Delay register of pad N33.
pub const FIOPAD_N33_REG1_OFFSET: u32 = 0x11A0;

/// Delay register of pad L33.
pub const FIOPAD_L33_REG1_OFFSET: u32 = 0x11A4;

/// Delay register of pad N45.
pub const FIOPAD_N45_REG1_OFFSET: u32 = 0x11A8;

/// Delay register of pad N43.
pub const FIOPAD_N43_REG1_OFFSET: u32 = 0x11AC;

/// Delay register of pad L31.
pub const FIOPAD_L31_REG1_OFFSET: u32 = 0x11B0;

/// Delay register of pad J31.
pub const FIOPAD_J31_REG1_OFFSET: u32 = 0x11B4;

/// Delay register of pad J29.
pub const FIOPAD_J29_REG1_OFFSET: u32 = 0x11B8;

/// Delay register of pad E29.
pub const FIOPAD_E29_REG1_OFFSET: u32 = 0x11BC;

/// Delay register of pad G29.
pub const FIOPAD_G29_REG1_OFFSET: u32 = 0x11C0;

/// Delay register of pad J37.
pub const FIOPAD_J37_REG1_OFFSET: u32 = 0x11CC;

/// Delay register of pad J39.
pub const FIOPAD_J39_REG1_OFFSET: u32 = 0x11D0;

/// Delay register of pad G41.
pub const FIOPAD_G41_REG1_OFFSET: u32 = 0x11D4;

/// Delay register of pad E43.
pub const FIOPAD_E43_REG1_OFFSET: u32 = 0x11D8;

/// Delay register of pad L43.
pub const FIOPAD_L43_REG1_OFFSET: u32 = 0x11DC;

/// Delay register of pad C43.
pub const FIOPAD_C43_REG1_OFFSET: u32 = 0x11E0;

/// Delay register of pad E41.
pub const FIOPAD_E41_REG1_OFFSET: u32 = 0x11E4;

/// Delay register of pad L45.
pub const FIOPAD_L45_REG1_OFFSET: u32 = 0x11E8;

/// Delay register of pad J43.
pub const FIOPAD_J43_REG1_OFFSET: u32 = 0x11EC;

/// Delay register of pad J41.
pub const FIOPAD_J41_REG1_OFFSET: u32 = 0x11F0;

/// Delay register of pad L39.
pub const FIOPAD_L39_REG1_OFFSET: u32 = 0x11F4;

/// Delay register of pad E37.
pub const FIOPAD_E37_REG1_OFFSET: u32 = 0x11F8;

/// Delay register of pad E35.
pub const FIOPAD_E35_REG1_OFFSET: u32 = 0x11FC;

/// Delay register of pad G35.
pub const FIOPAD_G35_REG1_OFFSET: u32 = 0x1200;

/// Delay register of pad L55.
pub const FIOPAD_L55_REG1_OFFSET: u32 = 0x1220;

/// Delay register of pad J55.
pub const FIOPAD_J55_REG1_OFFSET: u32 = 0x1224;

/// Delay register of pad J45.
pub const FIOPAD_J45_REG1_OFFSET: u32 = 0x1228;

/// Delay register of pad E47.
pub const FIOPAD_E47_REG1_OFFSET: u32 = 0x122C;

/// Delay register of pad G47.
pub const FIOPAD_G47_REG1_OFFSET: u32 = 0x1230;

/// Delay register of pad J47.
pub const FIOPAD_J47_REG1_OFFSET: u32 = 0x1234;

/// Delay register of pad J49.
pub const FIOPAD_J49_REG1_OFFSET: u32 = 0x1238;

/// Delay register of pad N49.
pub const FIOPAD_N49_REG1_OFFSET: u32 = 0x123C;

/// Delay register of pad L51.
pub const FIOPAD_L51_REG1_OFFSET: u32 = 0x1240;

/// Delay register of pad L49.
pub const FIOPAD_L49_REG1_OFFSET: u32 = 0x1244;

/// Delay register of pad N53.
pub const FIOPAD_N53_REG1_OFFSET: u32 = 0x1248;

/// Delay register of pad J53.
pub const FIOPAD_J53_REG1_OFFSET: u32 = 0x124C;

/// First function, pull and drive strength register.
pub const FIOPAD_REG0_BEG_OFFSET: u32 = FIOPAD_AN59_REG0_OFFSET;
/// Last function, pull and drive strength register.
pub const FIOPAD_REG0_END_OFFSET: u32 = FIOPAD_J53_REG0_OFFSET;
/// First delay register.
pub const FIOPAD_REG1_BEG_OFFSET: u32 = FIOPAD_AJ55_REG1_OFFSET;
/// Last delay register.
pub const FIOPAD_REG1_END_OFFSET: u32 = FIOPAD_J53_REG1_OFFSET;
/// Largest delay setting.
pub const FIOPAD_DELAY_MAX: u32 = 15;
/// Physical base address of the I/O pad controller.
pub const PAD_ADDRESS: u32 = 0x32B3_0000;

} // verus!
