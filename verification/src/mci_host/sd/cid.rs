//! The card identification register.

use vstd::prelude::*;

verus! {

/// Fields of the card identification register.
#[derive(Debug, Clone, Copy)]
pub struct SdCid {
    pub manufacturer_id: u8,
    pub application_id: u16,
    pub product_name: [u8; 5],
    pub product_version: u8,
    pub serial_number: u32,
    pub manufacturing_data: u16,
}

/// The identification register that the four response words of an R2
/// response hold (word 3 holds the most significant bits).
pub open spec fn cid_of(raw: Seq<u32>) -> SdCid {
    SdCid {
        manufacturer_id: ((raw[3] & 0xFF00_0000u32) >> 24u32) as u8,
        application_id: ((raw[3] & 0x00FF_FF00u32) >> 8u32) as u16,
        product_name: [
            (raw[3] & 0xFFu32) as u8,
            ((raw[2] & 0xFF00_0000u32) >> 24u32) as u8,
            ((raw[2] & 0x00FF_0000u32) >> 16u32) as u8,
            ((raw[2] & 0xFF00u32) >> 8u32) as u8,
            (raw[2] & 0xFFu32) as u8,
        ],
        product_version: ((raw[1] & 0xFF00_0000u32) >> 24u32) as u8,
        serial_number: ((raw[1] & 0x00FF_FFFFu32) << 8u32) | ((raw[0] & 0xFF00_0000u32) >> 24u32),
        manufacturing_data: ((raw[0] & 0x000F_FF00u32) >> 8u32) as u16,
    }
}

/// Where each field of the identification register sits in the four R2
/// response words (word 3 holds bits 127..96 of the register, word 0 bits
/// 31..0): manufacturer ID bits 127..120, application ID 119..104, product
/// name 103..64 (first character highest), product revision 63..56, serial
/// number 55..24 and manufacturing date 19..8 (year code in its upper eight
/// bits, month in its lower four).
pub proof fn lemma_cid_fields(raw: Seq<u32>)
    requires
        raw.len() >= 4,
    ensures
        cid_of(raw).manufacturer_id as u32 == raw[3] >> 24u32,
        cid_of(raw).application_id as u32 == (raw[3] >> 8u32) & 0xFFFF,
        cid_of(raw).product_name[0] as u32 == raw[3] & 0xFF,
        cid_of(raw).product_name[1] as u32 == raw[2] >> 24u32,
        cid_of(raw).product_name[2] as u32 == (raw[2] >> 16u32) & 0xFF,
        cid_of(raw).product_name[3] as u32 == (raw[2] >> 8u32) & 0xFF,
        cid_of(raw).product_name[4] as u32 == raw[2] & 0xFF,
        cid_of(raw).product_version as u32 == raw[1] >> 24u32,
        cid_of(raw).serial_number == (raw[1] << 8u32) | (raw[0] >> 24u32),
        cid_of(raw).manufacturing_data as u32 == (raw[0] >> 8u32) & 0xFFF,
        cid_of(raw).manufacturing_data as u32 >> 4u32 == (raw[0] >> 12u32) & 0xFF,
        cid_of(raw).manufacturing_data as u32 & 0xF == (raw[0] >> 8u32) & 0xF,
{
    let (r3, r2, r1, r0) = (raw[3], raw[2], raw[1], raw[0]);
    assert(((((r3 & 0xFF00_0000u32) >> 24u32) as u8) as u32 == r3 >> 24u32
        && (((r3 & 0x00FF_FF00u32) >> 8u32) as u16) as u32 == (r3 >> 8u32) & 0xFFFF
        && ((r3 & 0xFFu32) as u8) as u32 == r3 & 0xFF)
        && ((((r2 & 0xFF00_0000u32) >> 24u32) as u8) as u32 == r2 >> 24u32
        && (((r2 & 0x00FF_0000u32) >> 16u32) as u8) as u32 == (r2 >> 16u32) & 0xFF
        && (((r2 & 0xFF00u32) >> 8u32) as u8) as u32 == (r2 >> 8u32) & 0xFF
        && ((r2 & 0xFFu32) as u8) as u32 == r2 & 0xFF)
        && ((((r1 & 0xFF00_0000u32) >> 24u32) as u8) as u32 == r1 >> 24u32
        && ((r1 & 0x00FF_FFFFu32) << 8u32) | ((r0 & 0xFF00_0000u32) >> 24u32) == (r1 << 8u32) | (r0 >> 24u32))
        && ((((r0 & 0x000F_FF00u32) >> 8u32) as u16) as u32 == (r0 >> 8u32) & 0xFFF
        && ((((r0 & 0x000F_FF00u32) >> 8u32) as u16) as u32) >> 4u32 == (r0 >> 12u32) & 0xFF
        && ((((r0 & 0x000F_FF00u32) >> 8u32) as u16) as u32) & 0xF == (r0 >> 8u32) & 0xF)) by (bit_vector);
}

impl SdCid {
    /// All fields zero.
    pub fn new() -> (r: Self)
        ensures
            r.manufacturer_id == 0,
            r.application_id == 0,
            r.product_name@ == seq![0u8, 0, 0, 0, 0],
            r.product_version == 0,
            r.serial_number == 0,
            r.manufacturing_data == 0,
    {
        SdCid {
            manufacturer_id: 0,
            application_id: 0,
            product_name: [0, 0, 0, 0, 0],
            product_version: 0,
            serial_number: 0,
            manufacturing_data: 0,
        }
    }

    /// Decode the register from the response words.
    pub fn decode(raw: &[u32]) -> (r: Self)
        requires
            raw@.len() >= 4,
        ensures
            r == cid_of(raw@),
            r.manufacturing_data as u32 == (raw@[0] >> 8u32) & 0xFFF,
            r.serial_number == (raw@[1] << 8u32) | (raw@[0] >> 24u32),
    {
        let r3 = raw[3];
        let r2 = raw[2];
        let r1 = raw[1];
        let r0 = raw[0];
        let c = SdCid {
            manufacturer_id: ((r3 & 0xFF00_0000) >> 24) as u8,
            application_id: ((r3 & 0x00FF_FF00) >> 8) as u16,
            product_name: [
                (r3 & 0xFF) as u8,
                ((r2 & 0xFF00_0000) >> 24) as u8,
                ((r2 & 0x00FF_0000) >> 16) as u8,
                ((r2 & 0xFF00) >> 8) as u8,
                (r2 & 0xFF) as u8,
            ],
            product_version: ((r1 & 0xFF00_0000) >> 24) as u8,
            serial_number: ((r1 & 0x00FF_FFFF) << 8) | ((r0 & 0xFF00_0000) >> 24),
            manufacturing_data: ((r0 & 0x000F_FF00) >> 8) as u16,
        };
        proof {
            assert(c.product_name@ =~= cid_of(raw@).product_name@);
            lemma_cid_fields(raw@);
        }
        c
    }
}

} // verus!
