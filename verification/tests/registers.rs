use phytium_mci::mci_host::sd::cid::SdCid;
use phytium_mci::mci_host::sd::constants::{SdCardFlag, SdSpecificationVersion};
use phytium_mci::mci_host::sd::csd::{CsdFlags, SdCsd};
use phytium_mci::mci_host::sd::scr::{ScrFlags, SdScr};

#[test]
fn cid_fields() {
    let c = SdCid::decode(&[0x4600_1234, 0x1056_789A, 0x4433_3247, 0x0353_4453]);
    assert_eq!(c.manufacturer_id, 0x03);
    assert_eq!(c.application_id, 0x5344);
    assert_eq!(&c.product_name, b"SD32G");
    assert_eq!(c.product_version, 0x10);
    assert_eq!(c.serial_number, 0x5678_9A46);
    assert_eq!(c.manufacturing_data, 0x012);
}

#[test]
fn csd_version_2_capacity() {
    let mut csd = SdCsd::new();
    csd.decode(&[0x0A40_4000, 0x3B37_7F80, 0x5B59_0000, 0x400E_0032]);
    assert_eq!(csd.csd_structure, 1);
    assert_eq!(csd.device_size, 0x3B37);
    assert_eq!(csd.card_command_classes, 0x5B5);
    assert_eq!(csd.read_block_length, 9);
    assert_eq!(csd.transfer_speed, 0x32);
    assert!(csd.flags & CsdFlags::COPY != 0);
    let (count, size, flags) = csd.capacity(0, 0, 0);
    assert_eq!((count, size, flags), (0x3B38 * 1024, 512, 0));
}

#[test]
fn csd_version_2_large_card_is_sdxc() {
    let mut csd = SdCsd::new();
    csd.decode(&[0, 0xFFFF_0000, 0x0000_0001, 0x4000_0000]);
    assert_eq!(csd.device_size, 0x1_FFFF);
    let (count, size, flags) = csd.capacity(0, 0, SdCardFlag::SupportSdhc);
    assert_eq!(count, 0x2_0000 * 1024);
    assert_eq!(size, 512);
    assert_eq!(flags, SdCardFlag::SupportSdhc | SdCardFlag::SupportSdxc);
}

#[test]
fn csd_version_1_capacity_in_512_byte_blocks() {
    // C_SIZE 0xFFF, C_SIZE_MULT 7, READ_BL_LEN 10 (1024-byte blocks):
    // 4096 * 512 blocks of 1024 bytes, counted as 4096 * 1024 of 512.
    let r2 = (10u32 << 16) | 0x3FF;
    let r1 = 0xC000_0000u32 | (7 << 15);
    let mut csd = SdCsd::new();
    csd.decode(&[0, r1, r2, 0]);
    assert_eq!(csd.csd_structure, 0);
    assert_eq!(csd.device_size, 0xFFF);
    assert_eq!(csd.device_size_multiplier, 7);
    let (count, size, _) = csd.capacity(0, 0, 0);
    assert_eq!((count, size), (4096 * 1024, 512));
}

#[test]
fn csd_version_1_small_blocks() {
    // C_SIZE 0x100, C_SIZE_MULT 2, READ_BL_LEN 9.
    let r2 = (9u32 << 16) | (0x100 >> 2);
    let r1 = 2u32 << 15;
    let mut csd = SdCsd::new();
    csd.decode(&[0, r1, r2, 0]);
    let (count, size, _) = csd.capacity(0, 0, 0);
    assert_eq!((count, size), (0x101 * 16, 512));
}

#[test]
fn csd_unknown_structure_keeps_capacity() {
    let mut csd = SdCsd::new();
    csd.decode(&[0, 0, 0, 0xC000_0000]);
    assert_eq!(csd.csd_structure, 3);
    assert_eq!(csd.capacity(77, 1024, 5), (77, 1024, 5));
}

#[test]
fn csd_flags_accumulate() {
    let mut csd = SdCsd::new();
    csd.flags = CsdFlags::DSR_IMPLEMENTED;
    csd.decode(&[0x1000, 0, 0x8000, 0x4000_0000]);
    assert_eq!(csd.flags, CsdFlags::DSR_IMPLEMENTED | CsdFlags::READ_BLOCK_PARTIAL | CsdFlags::TEMPORARY_WRITE_PROTECT);
}

#[test]
fn scr_fields_and_version() {
    let mut scr = SdScr::new();
    scr.decode(&[0x02B5_8003, 0x1234_5678]);
    assert_eq!(scr.scr_structure, 0);
    assert_eq!(scr.sd_specification, 2);
    assert_eq!(scr.sd_bus_widths, 5);
    assert_eq!(scr.command_support, 3);
    assert_eq!(scr.reserved_for_manufacturer, 0x1234_5678);
    assert!(scr.flags & ScrFlags::SD_SPECIFICATION3 != 0);
    assert!(scr.flags & ScrFlags::DATA_STATUS_AFTER_ERASE != 0);
    assert_eq!(scr.version(SdSpecificationVersion::Version1_0), SdSpecificationVersion::Version3_0);
    assert_eq!(
        scr.card_flags(0),
        SdCardFlag::Support4BitWidth | SdCardFlag::SupportSpeedClassControlCmd | SdCardFlag::SupportSetBlockCountCmd
    );
}

#[test]
fn scr_unknown_version_keeps_old() {
    let mut scr = SdScr::new();
    scr.decode(&[0x0700_0000, 0]);
    assert_eq!(scr.version(SdSpecificationVersion::Version1_1), SdSpecificationVersion::Version1_1);
    assert_eq!(scr.card_flags(SdCardFlag::SupportSdhc), SdCardFlag::SupportSdhc);
}
