//! The SD configuration register.

use vstd::prelude::*;

use super::constants::{SdCardFlag, SdSpecificationVersion};
use super::csd::flag_if;

verus! {

/// Flag bits of the SD configuration register.
pub struct ScrFlags;

impl ScrFlags {
    pub const DATA_STATUS_AFTER_ERASE: u32 = 0x1;
    pub const SD_SPECIFICATION3: u32 = 0x2;
}

/// Fields of the SD configuration register.
#[derive(Debug, Clone, Copy, PartialEq, Eq, Structural)]
pub struct SdScr {
    pub scr_structure: u8,
    pub sd_specification: u8,
    pub flags: u32,
    pub sd_security: u8,
    pub sd_bus_widths: u8,
    pub extended_security: u8,
    pub command_support: u8,
    pub reserved_for_manufacturer: u32,
}

/// The register after decoding its two words (in little-endian order, word
/// 0 holding the most significant bits) over `old`: the fields are taken
/// from the words and the flags are added to the old ones.
pub open spec fn scr_of(old: SdScr, raw: Seq<u32>) -> SdScr {
    SdScr {
        scr_structure: ((raw[0] & 0xF000_0000u32) >> 28u32) as u8,
        sd_specification: ((raw[0] & 0x0F00_0000u32) >> 24u32) as u8,
        flags: old.flags | flag_if(raw[0], 0x80_0000, ScrFlags::DATA_STATUS_AFTER_ERASE)
            | flag_if(raw[0], 0x8000, ScrFlags::SD_SPECIFICATION3),
        sd_security: ((raw[0] & 0x70_0000u32) >> 20u32) as u8,
        sd_bus_widths: ((raw[0] & 0x0F_0000u32) >> 16u32) as u8,
        extended_security: ((raw[0] & 0x7800u32) >> 10u32) as u8,
        command_support: (raw[0] & 0x3u32) as u8,
        reserved_for_manufacturer: raw[1],
    }
}

/// The specification version a decoded register names; an unknown one
/// leaves `old`.
pub open spec fn scr_version(scr: SdScr, old: SdSpecificationVersion) -> SdSpecificationVersion {
    if scr.sd_specification == 0 {
        SdSpecificationVersion::Version1_0
    } else if scr.sd_specification == 1 {
        SdSpecificationVersion::Version1_1
    } else if scr.sd_specification == 2 {
        if scr.flags & ScrFlags::SD_SPECIFICATION3 != 0 {
            SdSpecificationVersion::Version3_0
        } else {
            SdSpecificationVersion::Version2_0
        }
    } else {
        old
    }
}

/// Specification field 2 names version 3.00 when the register carries the
/// `SD_SPECIFICATION3` flag and version 2.00 when it does not; field 0
/// names 1.00, field 1 names 1.10, and any other value names no version.
pub proof fn lemma_scr_version_spec3(scr: SdScr, old: SdSpecificationVersion)
    ensures
        scr.sd_specification == 2 ==> (scr_version(scr, old) == SdSpecificationVersion::Version3_0
            <==> scr.flags & ScrFlags::SD_SPECIFICATION3 != 0),
        scr.sd_specification == 2 ==> (scr_version(scr, old) == SdSpecificationVersion::Version2_0
            <==> scr.flags & ScrFlags::SD_SPECIFICATION3 == 0),
        scr.sd_specification == 0 ==> scr_version(scr, old) == SdSpecificationVersion::Version1_0,
        scr.sd_specification == 1 ==> scr_version(scr, old) == SdSpecificationVersion::Version1_1,
        scr.sd_specification > 2 ==> scr_version(scr, old) == old,
{
}

/// Read from the register's words: bits 59..56 (the top byte of word 0
/// holds bits 63..56) give the specification field and bit 47 (bit 15 of
/// word 0) the version-3 flag. A register naming field 2 decoded over one
/// without the flag gives version 3.00 exactly when bit 47 is set, else
/// 2.00.
pub proof fn lemma_scr_decode_version(old: SdScr, raw: Seq<u32>, v: SdSpecificationVersion)
    requires
        raw.len() >= 2,
        old.flags & ScrFlags::SD_SPECIFICATION3 == 0,
        (raw[0] >> 24u32) & 0xF == 2,
    ensures
        scr_version(scr_of(old, raw), v) == if raw[0] & 0x8000 != 0 {
            SdSpecificationVersion::Version3_0
        } else {
            SdSpecificationVersion::Version2_0
        },
{
    let r0 = raw[0];
    let f = old.flags;
    assert((((r0 >> 24u32) & 0xF == 2) ==> (((r0 & 0x0F00_0000u32) >> 24u32) as u8) == 2u8)
        && (f & 2 == 0 ==> (r0 & 0x8000 != 0 <==> (f | (if r0 & 0x80_0000 != 0 { 1u32 } else { 0u32 })
        | (if r0 & 0x8000 != 0 { 2u32 } else { 0u32 })) & 2 != 0))) by (bit_vector);
    lemma_scr_version_spec3(scr_of(old, raw), v);
}

/// Where the fields of the SD configuration register sit in its two words
/// (word 0 holds bits 63..32): SCR_STRUCTURE bits 63..60, SD_SPEC 59..56,
/// SD_SECURITY 54..52, SD_BUS_WIDTHS 51..48, CMD_SUPPORT 33..32; the
/// data-status-after-erase flag comes from bit 55 and the version-3 flag
/// from bit 47, both added to the old flags.
pub proof fn lemma_scr_fields(old: SdScr, raw: Seq<u32>)
    requires
        raw.len() >= 2,
    ensures
        ({
            let c = scr_of(old, raw);
            &&& c.scr_structure as u32 == raw[0] >> 28u32
            &&& c.sd_specification as u32 == (raw[0] >> 24u32) & 0xF
            &&& c.sd_security as u32 == (raw[0] >> 20u32) & 0x7
            &&& c.sd_bus_widths as u32 == (raw[0] >> 16u32) & 0xF
            &&& c.command_support as u32 == raw[0] & 0x3
            &&& (c.flags & ScrFlags::DATA_STATUS_AFTER_ERASE != 0) == (old.flags & ScrFlags::DATA_STATUS_AFTER_ERASE != 0
                || (raw[0] >> 23u32) & 1 == 1)
            &&& (c.flags & ScrFlags::SD_SPECIFICATION3 != 0) == (old.flags & ScrFlags::SD_SPECIFICATION3 != 0
                || (raw[0] >> 15u32) & 1 == 1)
        }),
{
    let r0 = raw[0];
    let f = old.flags;
    assert((((r0 & 0xF000_0000u32) >> 28u32) as u8) as u32 == r0 >> 28u32
        && (((r0 & 0x0F00_0000u32) >> 24u32) as u8) as u32 == (r0 >> 24u32) & 0xF
        && (((r0 & 0x70_0000u32) >> 20u32) as u8) as u32 == (r0 >> 20u32) & 0x7
        && (((r0 & 0x0F_0000u32) >> 16u32) as u8) as u32 == (r0 >> 16u32) & 0xF
        && ((r0 & 0x3u32) as u8) as u32 == r0 & 0x3
        && ({
            let g = f | (if r0 & 0x80_0000 != 0 { 1u32 } else { 0u32 }) | (if r0 & 0x8000 != 0 { 2u32 } else { 0u32 });
            &&& (g & 1 != 0) == (f & 1 != 0 || (r0 >> 23u32) & 1 == 1)
            &&& (g & 2 != 0) == (f & 2 != 0 || (r0 >> 15u32) & 1 == 1)
        })) by (bit_vector);
}

/// The card flags after a decoded register: 4-bit bus width, speed class
/// control and set block count are added where the register announces them.
pub open spec fn scr_card_flags(scr: SdScr, flags: u32) -> u32 {
    flags | (if scr.sd_bus_widths & 0x4 != 0 { SdCardFlag::Support4BitWidth } else { 0 })
        | (if scr.command_support & 0x1 != 0 { SdCardFlag::SupportSpeedClassControlCmd } else { 0 })
        | (if scr.command_support & 0x2 != 0 { SdCardFlag::SupportSetBlockCountCmd } else { 0 })
}

/// The SCR with every field zero.
pub open spec fn scr_zero() -> SdScr {
    SdScr {
        scr_structure: 0,
        sd_specification: 0,
        flags: 0,
        sd_security: 0,
        sd_bus_widths: 0,
        extended_security: 0,
        command_support: 0,
        reserved_for_manufacturer: 0,
    }
}

impl SdScr {
    /// All fields zero.
    pub fn new() -> (r: Self)
        ensures
            r == scr_zero(),
    {
        SdScr {
            scr_structure: 0,
            sd_specification: 0,
            flags: 0,
            sd_security: 0,
            sd_bus_widths: 0,
            extended_security: 0,
            command_support: 0,
            reserved_for_manufacturer: 0,
        }
    }

    /// Decode the two words into this register (see [`scr_of`]).
    pub fn decode(&mut self, raw: &[u32])
        requires
            raw@.len() >= 2,
        ensures
            *final(self) == scr_of(*old(self), raw@),
    {
        let r0 = raw[0];
        self.scr_structure = ((r0 & 0xF000_0000) >> 28) as u8;
        self.sd_specification = ((r0 & 0x0F00_0000) >> 24) as u8;
        let a: u32 = if r0 & 0x80_0000 != 0 { ScrFlags::DATA_STATUS_AFTER_ERASE } else { 0 };
        self.sd_security = ((r0 & 0x70_0000) >> 20) as u8;
        self.sd_bus_widths = ((r0 & 0x0F_0000) >> 16) as u8;
        let b: u32 = if r0 & 0x8000 != 0 { ScrFlags::SD_SPECIFICATION3 } else { 0 };
        self.flags = self.flags | a | b;
        self.extended_security = ((r0 & 0x7800) >> 10) as u8;
        self.command_support = (r0 & 0x3) as u8;
        self.reserved_for_manufacturer = raw[1];
    }

    /// The specification version this register names (see [`scr_version`]).
    pub fn version(&self, old: SdSpecificationVersion) -> (r: SdSpecificationVersion)
        ensures
            r == scr_version(*self, old),
            self.sd_specification == 2 ==> (r == SdSpecificationVersion::Version3_0
                <==> self.flags & ScrFlags::SD_SPECIFICATION3 != 0),
            self.sd_specification == 2 ==> (r == SdSpecificationVersion::Version2_0
                <==> self.flags & ScrFlags::SD_SPECIFICATION3 == 0),
    {
        proof {
            lemma_scr_version_spec3(*self, old);
        }
        if self.sd_specification == 0 {
            SdSpecificationVersion::Version1_0
        } else if self.sd_specification == 1 {
            SdSpecificationVersion::Version1_1
        } else if self.sd_specification == 2 {
            if self.flags & ScrFlags::SD_SPECIFICATION3 != 0 {
                SdSpecificationVersion::Version3_0
            } else {
                SdSpecificationVersion::Version2_0
            }
        } else {
            old
        }
    }

    /// The card flags after this register (see [`scr_card_flags`]).
    pub fn card_flags(&self, flags: u32) -> (r: u32)
        ensures
            r == scr_card_flags(*self, flags),
    {
        let a: u32 = if self.sd_bus_widths & 0x4 != 0 { SdCardFlag::Support4BitWidth } else { 0 };
        let b: u32 = if self.command_support & 0x1 != 0 { SdCardFlag::SupportSpeedClassControlCmd } else { 0 };
        let c: u32 = if self.command_support & 0x2 != 0 { SdCardFlag::SupportSetBlockCountCmd } else { 0 };
        flags | a | b | c
    }
}

} // verus!
