//! The card specific data register.

use vstd::prelude::*;

use vstd::arithmetic::power2::{lemma2_to64, lemma_pow2_adds, lemma_pow2_strictly_increases, pow2};
use vstd::arithmetic::div_mod::lemma_div_by_multiple;
use vstd::bits::lemma_u64_shl_is_mul;

use super::constants::SdCardFlag;

verus! {

/// Flag bits of the card specific data.
pub struct CsdFlags;

impl CsdFlags {
    pub const READ_BLOCK_PARTIAL: u32 = 0x1;
    pub const WRITE_BLOCK_MISALIGN: u32 = 0x2;
    pub const READ_BLOCK_MISALIGN: u32 = 0x4;
    pub const DSR_IMPLEMENTED: u32 = 0x8;
    pub const ERASE_BLOCK_ENABLED: u32 = 0x10;
    pub const WRITE_PROTECT_GROUP_ENABLED: u32 = 0x20;
    pub const WRITE_BLOCK_PARTIAL: u32 = 0x40;
    pub const FILE_FORMAT_GROUP: u32 = 0x80;
    pub const COPY: u32 = 0x100;
    pub const PERMANENT_WRITE_PROTECT: u32 = 0x200;
    pub const TEMPORARY_WRITE_PROTECT: u32 = 0x400;
}

/// Command classes a card supports (bits of the CCC field).
pub struct SdCardCmdClass;

impl SdCardCmdClass {
    pub const Basic: u16 = 0x1;
    pub const BlockRead: u16 = 0x4;
    pub const BlockWrite: u16 = 0x10;
    pub const Erase: u16 = 0x20;
    pub const WriteProtect: u16 = 0x40;
    pub const LockCard: u16 = 0x80;
    pub const ApplicationSpecific: u16 = 0x100;
    pub const InputOutputMode: u16 = 0x200;
    pub const Switch: u16 = 0x400;
}

/// Fields of the card specific data register.
#[derive(Debug, Clone, Copy, PartialEq, Eq, Structural)]
pub struct SdCsd {
    pub csd_structure: u8,
    pub data_read_access_time1: u8,
    pub data_read_access_time2: u8,
    pub transfer_speed: u8,
    pub card_command_classes: u16,
    pub read_block_length: u8,
    pub flags: u32,
    pub device_size: u32,
    pub read_current_vdd_min: u8,
    pub read_current_vdd_max: u8,
    pub write_current_vdd_min: u8,
    pub write_current_vdd_max: u8,
    pub device_size_multiplier: u8,
    pub erase_sector_size: u8,
    pub write_protect_group_size: u8,
    pub write_speed_factor: u8,
    pub write_block_length: u8,
    pub file_format: u8,
}

/// `flag` when `bits` has a bit of `mask`, else nothing.
pub open spec fn flag_if(bits: u32, mask: u32, flag: u32) -> u32 {
    if bits & mask != 0 { flag } else { 0 }
}

/// The flag bits that the words 2, 1 and 0 of a response set.
pub open spec fn csd_flag_bits(r2: u32, r1: u32, r0: u32) -> u32 {
    flag_if(r2, 0x8000, 0x1)
        | flag_if(r2, 0x4000, 0x1)
        | flag_if(r2, 0x2000, 0x4)
        | flag_if(r2, 0x1000, 0x8)
        | flag_if(r1, 0x4000, 0x10)
        | (if ((r0 & 0x8000_0000u32) as u8) != 0 { 0x20u32 } else { 0 })
        | flag_if(r0, 0x20_0000, 0x40)
        | flag_if(r0, 0x8000, 0x80)
        | flag_if(r0, 0x4000, 0x100)
        | flag_if(r0, 0x2000, 0x200)
        | flag_if(r0, 0x1000, 0x400)
}

/// The flag bits that the response words set.
pub open spec fn csd_flags_of(raw: Seq<u32>) -> u32 {
    csd_flag_bits(raw[2], raw[1], raw[0])
}

/// The register after decoding the four R2 response words over `old`:
/// every field is taken from the words, except that the fields of the
/// structure-1.0 capacity layout keep their old values for other
/// structures, the device size keeps its old value for unknown structures,
/// and the flags are added to the old ones.
pub open spec fn csd_of(old: SdCsd, raw: Seq<u32>) -> SdCsd {
    let structure = ((raw[3] & 0xC000_0000u32) >> 30u32) as u8;
    SdCsd {
        csd_structure: structure,
        data_read_access_time1: ((raw[3] & 0x00FF_0000u32) >> 16u32) as u8,
        data_read_access_time2: ((raw[3] & 0xFF00u32) >> 8u32) as u8,
        transfer_speed: (raw[3] & 0xFFu32) as u8,
        card_command_classes: ((raw[2] & 0xFFF0_0000u32) >> 20u32) as u16,
        read_block_length: ((raw[2] & 0x000F_0000u32) >> 16u32) as u8,
        flags: old.flags | csd_flags_of(raw),
        device_size: if structure == 0 {
            ((raw[2] & 0x3FFu32) << 2u32) | ((raw[1] & 0xC000_0000u32) >> 30u32)
        } else if structure == 1 {
            ((raw[2] & 0x3Fu32) << 16u32) | ((raw[1] & 0xFFFF_0000u32) >> 16u32)
        } else {
            old.device_size
        },
        read_current_vdd_min: if structure == 0 { ((raw[1] & 0x3800_0000u32) >> 27u32) as u8 } else { old.read_current_vdd_min },
        read_current_vdd_max: if structure == 0 { ((raw[1] & 0x0700_0000u32) >> 24u32) as u8 } else { old.read_current_vdd_max },
        write_current_vdd_min: if structure == 0 { ((raw[1] & 0x00E0_0000u32) >> 20u32) as u8 } else { old.write_current_vdd_min },
        write_current_vdd_max: if structure == 0 { ((raw[1] & 0x001C_0000u32) >> 18u32) as u8 } else { old.write_current_vdd_max },
        device_size_multiplier: if structure == 0 { ((raw[1] & 0x0003_8000u32) >> 15u32) as u8 } else { old.device_size_multiplier },
        erase_sector_size: ((raw[1] & 0x3F80u32) >> 7u32) as u8,
        write_protect_group_size: (raw[1] & 0x7Fu32) as u8,
        write_speed_factor: ((raw[0] & 0x1C00_0000u32) >> 26u32) as u8,
        write_block_length: ((raw[0] & 0x03C0_0000u32) >> 22u32) as u8,
        file_format: ((raw[0] & 0xC00u32) >> 10u32) as u8,
    }
}

/// The CSD with every field zero.
pub open spec fn csd_zero() -> SdCsd {
    SdCsd {
        csd_structure: 0,
        data_read_access_time1: 0,
        data_read_access_time2: 0,
        transfer_speed: 0,
        card_command_classes: 0,
        read_block_length: 0,
        flags: 0,
        device_size: 0,
        read_current_vdd_min: 0,
        read_current_vdd_max: 0,
        write_current_vdd_min: 0,
        write_current_vdd_max: 0,
        device_size_multiplier: 0,
        erase_sector_size: 0,
        write_protect_group_size: 0,
        write_speed_factor: 0,
        write_block_length: 0,
        file_format: 0,
    }
}

impl SdCsd {
    /// All fields zero.
    pub fn new() -> (r: Self)
        ensures
            r == csd_zero(),
    {
        SdCsd {
            csd_structure: 0,
            data_read_access_time1: 0,
            data_read_access_time2: 0,
            transfer_speed: 0,
            card_command_classes: 0,
            read_block_length: 0,
            flags: 0,
            device_size: 0,
            read_current_vdd_min: 0,
            read_current_vdd_max: 0,
            write_current_vdd_min: 0,
            write_current_vdd_max: 0,
            device_size_multiplier: 0,
            erase_sector_size: 0,
            write_protect_group_size: 0,
            write_speed_factor: 0,
            write_block_length: 0,
            file_format: 0,
        }
    }

    /// Decode the response words into this register (see [`csd_of`]).
    pub fn decode(&mut self, raw: &[u32])
        requires
            raw@.len() >= 4,
        ensures
            *final(self) == csd_of(*old(self), raw@),
    {
        let r3 = raw[3];
        let r2 = raw[2];
        let r1 = raw[1];
        let r0 = raw[0];
        let structure = ((r3 & 0xC000_0000) >> 30) as u8;
        self.csd_structure = structure;
        self.data_read_access_time1 = ((r3 & 0x00FF_0000) >> 16) as u8;
        self.data_read_access_time2 = ((r3 & 0xFF00) >> 8) as u8;
        self.transfer_speed = (r3 & 0xFF) as u8;
        self.card_command_classes = ((r2 & 0xFFF0_0000) >> 20) as u16;
        self.read_block_length = ((r2 & 0x000F_0000) >> 16) as u8;
        let mut flags = self.flags;
        if r2 & 0x8000 != 0 {
            flags = flags | CsdFlags::READ_BLOCK_PARTIAL;
        }
        if r2 & 0x4000 != 0 {
            flags = flags | CsdFlags::READ_BLOCK_PARTIAL;
        }
        if r2 & 0x2000 != 0 {
            flags = flags | CsdFlags::READ_BLOCK_MISALIGN;
        }
        if r2 & 0x1000 != 0 {
            flags = flags | CsdFlags::DSR_IMPLEMENTED;
        }
        if structure == 0 {
            self.device_size = ((r2 & 0x3FF) << 2) | ((r1 & 0xC000_0000) >> 30);
            self.read_current_vdd_min = ((r1 & 0x3800_0000) >> 27) as u8;
            self.read_current_vdd_max = ((r1 & 0x0700_0000) >> 24) as u8;
            self.write_current_vdd_min = ((r1 & 0x00E0_0000) >> 20) as u8;
            self.write_current_vdd_max = ((r1 & 0x001C_0000) >> 18) as u8;
            self.device_size_multiplier = ((r1 & 0x0003_8000) >> 15) as u8;
        } else if structure == 1 {
            self.device_size = ((r2 & 0x3F) << 16) | ((r1 & 0xFFFF_0000) >> 16);
        }
        if r1 & 0x4000 != 0 {
            flags = flags | CsdFlags::ERASE_BLOCK_ENABLED;
        }
        self.erase_sector_size = ((r1 & 0x3F80) >> 7) as u8;
        self.write_protect_group_size = (r1 & 0x7F) as u8;
        if ((r0 & 0x8000_0000) as u8) != 0 {
            flags = flags | CsdFlags::WRITE_PROTECT_GROUP_ENABLED;
        }
        self.write_speed_factor = ((r0 & 0x1C00_0000) >> 26) as u8;
        self.write_block_length = ((r0 & 0x03C0_0000) >> 22) as u8;
        if r0 & 0x20_0000 != 0 {
            flags = flags | CsdFlags::WRITE_BLOCK_PARTIAL;
        }
        if r0 & 0x8000 != 0 {
            flags = flags | CsdFlags::FILE_FORMAT_GROUP;
        }
        if r0 & 0x4000 != 0 {
            flags = flags | CsdFlags::COPY;
        }
        if r0 & 0x2000 != 0 {
            flags = flags | CsdFlags::PERMANENT_WRITE_PROTECT;
        }
        if r0 & 0x1000 != 0 {
            flags = flags | CsdFlags::TEMPORARY_WRITE_PROTECT;
        }
        self.flags = flags;
        self.file_format = ((r0 & 0xC00) >> 10) as u8;
        proof {
            let ghost o = *old(self);
            let ghost f = o.flags;
            assert(flags == (o.flags | csd_flags_of(raw@))) by {
                lemma_csd_flags_accumulate(o.flags, r2, r1, r0, flags);
            }
        }
    }
}

/// Adding the flags one after another gives the same as adding them at once.
proof fn lemma_csd_flags_accumulate(f0: u32, r2: u32, r1: u32, r0: u32, f: u32)
    by (bit_vector)
    requires
        f == {
            let a = if r2 & 0x8000 != 0 { f0 | 0x1u32 } else { f0 };
            let b = if r2 & 0x4000 != 0 { a | 0x1u32 } else { a };
            let c = if r2 & 0x2000 != 0 { b | 0x4u32 } else { b };
            let d = if r2 & 0x1000 != 0 { c | 0x8u32 } else { c };
            let e = if r1 & 0x4000 != 0 { d | 0x10u32 } else { d };
            let g = if ((r0 & 0x8000_0000u32) as u8) != 0 { e | 0x20u32 } else { e };
            let h = if r0 & 0x20_0000 != 0 { g | 0x40u32 } else { g };
            let i = if r0 & 0x8000 != 0 { h | 0x80u32 } else { h };
            let j = if r0 & 0x4000 != 0 { i | 0x100u32 } else { i };
            let k = if r0 & 0x2000 != 0 { j | 0x200u32 } else { j };
            if r0 & 0x1000 != 0 { k | 0x400u32 } else { k }
        },
    ensures
        f == (f0 | csd_flag_bits(r2, r1, r0)),
{
}

/// The register's fields lie within the widths of their fields in the
/// response: what decoding gives always does.
pub open spec fn csd_in_range(csd: SdCsd) -> bool {
    &&& csd.csd_structure == 0 ==> csd.device_size <= 0xFFF && csd.device_size_multiplier <= 7
        && csd.read_block_length <= 15
    &&& csd.csd_structure == 1 ==> csd.device_size <= 0x3F_FFFF
}

/// Block count, block size and card flags after reading the capacity
/// from the register: for structure 1.0 the card has
/// (C_SIZE + 1) * 2^(C_SIZE_MULT + 2) blocks of 2^READ_BL_LEN bytes,
/// counted in blocks of 512 bytes where those are larger; for structure
/// 2.0 it has (C_SIZE + 1) * 1024 blocks of 512 bytes (wrapping at 2^32)
/// and is an SDXC card from C_SIZE 0xFFFF on; other structures change
/// nothing.
pub open spec fn csd_capacity(csd: SdCsd, block_count: u32, block_size: u32, card_flags: u32) -> (u32, u32, u32) {
    if csd.csd_structure == 0 {
        let n = (csd.device_size + 1) * pow2((csd.device_size_multiplier + 2) as nat);
        let s = pow2(csd.read_block_length as nat);
        if s > 512 {
            ((n * s / 512) as u32, 512u32, card_flags)
        } else {
            (n as u32, s as u32, card_flags)
        }
    } else if csd.csd_structure == 1 {
        (
            (((csd.device_size + 1) * 1024) % 0x1_0000_0000) as u32,
            512u32,
            if csd.device_size >= 0xFFFF { card_flags | SdCardFlag::SupportSdxc } else { card_flags },
        )
    } else {
        (block_count, block_size, card_flags)
    }
}

/// A structure-1.0 register describes a card of
/// (C_SIZE + 1) * 2^(C_SIZE_MULT + 2) * 2^READ_BL_LEN bytes: the block
/// count times the block size is that capacity, the block size is
/// 2^READ_BL_LEN capped at 512 bytes, and no flag is added.
pub proof fn lemma_csd_capacity_v1(csd: SdCsd, block_count: u32, block_size: u32, card_flags: u32)
    requires
        csd.csd_structure == 0,
        csd_in_range(csd),
    ensures
        ({
            let r = csd_capacity(csd, block_count, block_size, card_flags);
            &&& r.0 * r.1 == (csd.device_size + 1) * pow2((csd.device_size_multiplier + 2) as nat)
                * pow2(csd.read_block_length as nat)
            &&& r.1 == if pow2(csd.read_block_length as nat) > 512 { 512 } else { pow2(csd.read_block_length as nat) }
            &&& r.2 == card_flags
        }),
{
    let x: int = csd.device_size + 1;
    let m: nat = (csd.device_size_multiplier + 2) as nat;
    let l: nat = csd.read_block_length as nat;
    lemma2_to64();
    if m < 9 {
        lemma_pow2_strictly_increases(m, 9);
    }
    if l < 15 {
        lemma_pow2_strictly_increases(l, 15);
    }
    let pm = pow2(m);
    let s = pow2(l);
    let n = x * pm;
    assert(0 <= n <= 4096 * 512) by (nonlinear_arith)
        requires 1 <= x <= 4096, 0 < pm <= 512, n == x * pm;
    if s > 512 {
        if l <= 9 {
            if l < 9 {
                lemma_pow2_strictly_increases(l, 9);
            }
            assert(false);
        }
        let k: nat = (l - 9) as nat;
        lemma_pow2_adds(9, k);
        assert(s == 512 * pow2(k));
        if k < 6 {
            lemma_pow2_strictly_increases(k, 6);
        }
        let pk = pow2(k);
        assert(n * s == (n * pk) * 512) by (nonlinear_arith)
            requires s == 512 * pk;
        lemma_div_by_multiple(n * pk, 512);
        assert(0 <= n * pk <= 4096 * 512 * 64) by (nonlinear_arith)
            requires 0 <= n <= 4096 * 512, 0 < pk <= 64;
        assert(n * s / 512 == n * pk);
    } else {
        assert(0 < s <= 512);
    }
}

/// Where the main fields of the card specific data sit in the four R2
/// response words (word 3 holds bits 127..96 of the register, word 0 bits
/// 31..0): CSD_STRUCTURE bits 127..126, TRAN_SPEED 103..96, CCC 95..84,
/// READ_BL_LEN 83..80, WRITE_BL_LEN 25..22; for structure 1.0 C_SIZE bits
/// 73..62 and C_SIZE_MULT 49..47; for structure 2.0 C_SIZE bits 69..48.
pub proof fn lemma_csd_fields(old: SdCsd, raw: Seq<u32>)
    requires
        raw.len() >= 4,
    ensures
        ({
            let c = csd_of(old, raw);
            &&& c.csd_structure as u32 == raw[3] >> 30u32
            &&& c.transfer_speed as u32 == raw[3] & 0xFF
            &&& c.card_command_classes as u32 == raw[2] >> 20u32
            &&& c.read_block_length as u32 == (raw[2] >> 16u32) & 0xF
            &&& c.write_block_length as u32 == (raw[0] >> 22u32) & 0xF
            &&& raw[3] >> 30u32 == 0 ==> c.device_size == ((raw[2] & 0x3FF) << 2u32) | (raw[1] >> 30u32)
                && c.device_size_multiplier as u32 == (raw[1] >> 15u32) & 7
            &&& raw[3] >> 30u32 == 1 ==> c.device_size == ((raw[2] & 0x3F) << 16u32) | (raw[1] >> 16u32)
        }),
{
    let (r3, r2, r1, r0) = (raw[3], raw[2], raw[1], raw[0]);
    assert((((r3 & 0xC000_0000u32) >> 30u32) as u8) as u32 == r3 >> 30u32
        && ((r3 & 0xFFu32) as u8) as u32 == r3 & 0xFF
        && (((r2 & 0xFFF0_0000u32) >> 20u32) as u16) as u32 == r2 >> 20u32
        && (((r2 & 0x000F_0000u32) >> 16u32) as u8) as u32 == (r2 >> 16u32) & 0xF
        && (((r0 & 0x03C0_0000u32) >> 22u32) as u8) as u32 == (r0 >> 22u32) & 0xF
        && ((r2 & 0x3FFu32) << 2u32) | ((r1 & 0xC000_0000u32) >> 30u32) == ((r2 & 0x3FF) << 2u32) | (r1 >> 30u32)
        && (((r1 & 0x0003_8000u32) >> 15u32) as u8) as u32 == (r1 >> 15u32) & 7
        && ((r2 & 0x3Fu32) << 16u32) | ((r1 & 0xFFFF_0000u32) >> 16u32) == ((r2 & 0x3F) << 16u32) | (r1 >> 16u32)
        && ((r3 >> 30u32 == 0) ==> (((r3 & 0xC000_0000u32) >> 30u32) as u8) == 0u8)
        && ((r3 >> 30u32 == 1) ==> (((r3 & 0xC000_0000u32) >> 30u32) as u8) == 1u8)) by (bit_vector);
}

/// A card with a structure-2.0 register is an SDXC card exactly when its
/// capacity, (C_SIZE + 1) * 512 KiB, is at least 32 GiB, that is from
/// C_SIZE 0xFFFF on: the SDXC flag is added then and only then, every
/// other flag is kept, blocks are 512 bytes and there are
/// (C_SIZE + 1) * 1024 of them (modulo 2^32). A structure-1.0 register
/// adds no flag.
pub proof fn lemma_csd_capacity_sdxc(csd: SdCsd, block_count: u32, block_size: u32, card_flags: u32)
    ensures
        csd.csd_structure == 1 ==> ({
            let r = csd_capacity(csd, block_count, block_size, card_flags);
            &&& (r.2 & SdCardFlag::SupportSdxc != 0) <==> ((csd.device_size + 1) * 512 * 1024 >= 0x8_0000_0000
                || card_flags & SdCardFlag::SupportSdxc != 0)
            &&& (csd.device_size + 1) * 512 * 1024 >= 0x8_0000_0000 <==> csd.device_size >= 0xFFFF
            &&& r.2 & !SdCardFlag::SupportSdxc == card_flags & !SdCardFlag::SupportSdxc
            &&& r.1 == 512
            &&& r.0 as int == ((csd.device_size + 1) * 1024) % 0x1_0000_0000
        }),
        csd.csd_structure == 0 ==> csd_capacity(csd, block_count, block_size, card_flags).2 == card_flags,
{
    let f = card_flags;
    assert((f | 0x10u32) & 0x10u32 != 0 && (f | 0x10u32) & !0x10u32 == f & !0x10u32) by (bit_vector);
}

/// Decoding keeps the fields in range.
pub proof fn lemma_csd_of_in_range(old: SdCsd, raw: Seq<u32>)
    requires
        raw.len() >= 4,
        csd_in_range(old),
    ensures
        csd_in_range(csd_of(old, raw)),
{
    let (r3, r2, r1) = (raw[3], raw[2], raw[1]);
    assert((((r3 & 0xC000_0000u32) >> 30u32) as u8) <= 3u8) by (bit_vector);
    assert(((r2 & 0x3FFu32) << 2u32) | ((r1 & 0xC000_0000u32) >> 30u32) <= 0xFFFu32) by (bit_vector);
    assert(((r2 & 0x3Fu32) << 16u32) | ((r1 & 0xFFFF_0000u32) >> 16u32) <= 0x3F_FFFFu32) by (bit_vector);
    assert((((r1 & 0x0003_8000u32) >> 15u32) as u8) <= 7u8) by (bit_vector);
    assert((((r2 & 0x000F_0000u32) >> 16u32) as u8) <= 15u8) by (bit_vector);
}

impl SdCsd {
    /// Block count, block size and card flags that the register gives
    /// (see [`csd_capacity`]).
    pub fn capacity(&self, block_count: u32, block_size: u32, card_flags: u32) -> (r: (u32, u32, u32))
        requires
            csd_in_range(*self),
        ensures
            r == csd_capacity(*self, block_count, block_size, card_flags),
            self.csd_structure == 1 ==> (r.2 & SdCardFlag::SupportSdxc != 0
                <==> (self.device_size >= 0xFFFF || card_flags & SdCardFlag::SupportSdxc != 0)),
            self.csd_structure == 1 ==> r.2 & !SdCardFlag::SupportSdxc == card_flags & !SdCardFlag::SupportSdxc,
            self.csd_structure == 0 ==> r.0 * r.1 == (self.device_size + 1) * pow2((self.device_size_multiplier + 2) as nat)
                * pow2(self.read_block_length as nat),
    {
        proof {
            lemma_csd_capacity_sdxc(*self, block_count, block_size, card_flags);
            if self.csd_structure == 0 {
                lemma_csd_capacity_v1(*self, block_count, block_size, card_flags);
            }
        }
        if self.csd_structure == 0 {
            let x: u64 = self.device_size as u64 + 1;
            let k: u64 = self.device_size_multiplier as u64 + 2;
            let l: u64 = self.read_block_length as u64;
            proof {
                lemma2_to64();
                lemma_pow2_strictly_increases(k as nat, 10);
                lemma_pow2_strictly_increases(l as nat, 16);
                assert(x * pow2(k as nat) <= 4096 * 1024) by (nonlinear_arith)
                    requires x <= 4096, pow2(k as nat) < 1024;
                lemma_u64_shl_is_mul(x, k);
                lemma_u64_shl_is_mul(1, l);
            }
            let n: u64 = x << k;
            let s: u64 = 1u64 << l;
            if s > 512 {
                proof {
                    assert(n * s <= 4096 * 1024 * 65536) by (nonlinear_arith)
                        requires n <= 4096 * 1024, s <= 65536;
                    assert(n * s / 512 <= 4096 * 1024 * 128) by (nonlinear_arith)
                        requires n * s <= 4096 * 1024 * 65536;
                }
                (((n * s) / 512) as u32, 512, card_flags)
            } else {
                (n as u32, s as u32, card_flags)
            }
        } else if self.csd_structure == 1 {
            let n: u64 = (self.device_size as u64 + 1) * 1024;
            let flags = if self.device_size >= 0xFFFF { card_flags | SdCardFlag::SupportSdxc } else { card_flags };
            ((n % 0x1_0000_0000) as u32, 512, flags)
        } else {
            (block_count, block_size, card_flags)
        }
    }
}

} // verus!
