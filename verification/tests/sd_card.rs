use std::cell::RefCell;
use std::collections::{HashMap, VecDeque};
use std::rc::Rc;

use phytium_mci::mci_host::constants::MCIHostOperationVoltage;
use phytium_mci::mci_host::err::MCIHostError;
use phytium_mci::mci_host::sd::constants::{SdCardFlag, SdSpecificationVersion, SdTimingMode};
use phytium_mci::mci_host::sd::{BusSpeed, SdCard, TimingName};
use phytium_mci::regs::RegisterIo;
use phytium_mci::Kernel;

const CMD: u32 = 0x2C;
const ARG: u32 = 0x28;
const RESP0: u32 = 0x30;
const RAW_INTS: u32 = 0x44;
const STATUS: u32 = 0x48;
const CARD_DETECT: u32 = 0x50;
const CKSTS: u32 = 0x58;
const CTRL: u32 = 0x00;
const BYTCNT: u32 = 0x20;
const DATA: u32 = 0x200;
const START: u32 = 0x8000_0000;
const UPD_CLK: u32 = 0x20_0000;

const CID: [u32; 4] = [0x4600_1234, 0x1056_789A, 0x4433_3247, 0x0353_4453];
// CSD structure 2.0 with C_SIZE 0x3B37 and the switch command class.
const CSD: [u32; 4] = [0x0A40_4000, 0x3B37_7F80, 0x5B59_0000, 0x400E_0032];
// SCR: structure 0, specification 2 with the version 3 bit, 1- and 4-bit
// bus widths.
const SCR_MSB: u32 = 0x02B5_8000;

struct Card {
    regs: HashMap<u32, u32>,
    fifo_out: VecDeque<u32>,
    fifo_in: Vec<u32>,
    blocks: HashMap<u32, Vec<u32>>,
    app: bool,
    written: u32,
    commands: Vec<(u32, u32)>,
    present: bool,
}

#[derive(Clone)]
struct Sim(Rc<RefCell<Card>>);

impl Sim {
    fn new() -> Self {
        Sim(Rc::new(RefCell::new(Card {
            regs: HashMap::new(),
            fifo_out: VecDeque::new(),
            fifo_in: Vec::new(),
            blocks: HashMap::new(),
            app: false,
            written: 0,
            commands: Vec::new(),
            present: true,
        })))
    }
}

fn switch_status() -> Vec<u32> {
    // Status words as the driver sees them after byte reversal: group 0
    // supports functions 0 and 1, and function 1 is selected.
    let st = [0x0064_8001u32, 0x8001_8001, 0x8001_8001, 0x8003_0000, 0x0100_0000];
    let mut v: Vec<u32> = st.iter().map(|w| w.swap_bytes()).collect();
    v.resize(16, 0);
    v
}

impl Card {
    fn command(&mut self, idx: u32) {
        let arg = *self.regs.get(&ARG).unwrap_or(&0);
        self.commands.push((idx, arg));
        let app = self.app;
        let mut resp = [0x900u32, 0, 0, 0];
        match (idx, app) {
            (0, _) => resp[0] = 0,
            (8, _) => resp[0] = arg & 0xFFF,
            (55, _) => resp[0] = 0x120,
            (41, true) => resp[0] = 0xC0FF_8000,
            (2, _) => resp = CID,
            (3, _) => resp[0] = 0x1234_0500,
            (9, _) => resp = CSD,
            (7, _) => resp[0] = 0x700,
            (51, true) => {
                self.fifo_out.push_back(SCR_MSB.swap_bytes());
                self.fifo_out.push_back(0);
            }
            (6, false) => {
                for w in switch_status() {
                    self.fifo_out.push_back(w);
                }
            }
            (22, true) => {
                resp[0] = self.written.swap_bytes();
                self.fifo_out.push_back(self.written.swap_bytes());
            }
            (17, _) | (18, _) => {
                let count = *self.regs.get(&BYTCNT).unwrap_or(&0) / 512;
                for b in 0..count {
                    let blk = self.blocks.get(&(arg + b)).cloned().unwrap_or(vec![0; 128]);
                    for w in blk {
                        self.fifo_out.push_back(w);
                    }
                }
            }
            (24, _) | (25, _) => {
                let data = std::mem::take(&mut self.fifo_in);
                let count = (data.len() / 128) as u32;
                for b in 0..count {
                    let s = (b * 128) as usize;
                    self.blocks.insert(arg + b, data[s..s + 128].to_vec());
                }
                self.written = count;
            }
            _ => {}
        }
        for (i, r) in resp.iter().enumerate() {
            self.regs.insert(RESP0 + 4 * i as u32, *r);
        }
        let ints = *self.regs.get(&RAW_INTS).unwrap_or(&0);
        self.regs.insert(RAW_INTS, ints | 0xC);
        self.app = idx == 55;
    }
}

impl Kernel for Sim {
    fn sleep(_duration: core::time::Duration) {}
}

impl RegisterIo for Sim {
    fn read_32(&self, offset: u32) -> u32 {
        let mut c = self.0.borrow_mut();
        match offset {
            STATUS => 0x4,
            CKSTS => 0x1,
            CARD_DETECT => {
                if c.present {
                    0
                } else {
                    1
                }
            }
            DATA => c.fifo_out.pop_front().unwrap_or(0),
            _ => *c.regs.get(&offset).unwrap_or(&0),
        }
    }

    fn write_mem_32(&self, _addr: u64, _value: u32) {}

    fn write_32(&self, offset: u32, value: u32) {
        let mut c = self.0.borrow_mut();
        match offset {
            CTRL => {
                c.regs.insert(CTRL, value & !0x7);
            }
            CMD => {
                if value & START != 0 {
                    c.regs.insert(CMD, value & !START);
                    if value & UPD_CLK == 0 {
                        c.command(value & 0x3F);
                    }
                } else {
                    c.regs.insert(CMD, value);
                }
            }
            RAW_INTS => {
                let v = *c.regs.get(&RAW_INTS).unwrap_or(&0);
                c.regs.insert(RAW_INTS, v & !value);
            }
            DATA => c.fifo_in.push(value),
            _ => {
                c.regs.insert(offset, value);
            }
        }
    }
}

#[test]
fn card_identification_reads_the_registers() {
    let sim = Sim::new();
    let card = SdCard::new(0x2800_0000, sim.clone()).expect("card comes up");
    // CSD 2.0: (C_SIZE + 1) * 1024 blocks of 512 bytes.
    assert_eq!(card.block_count(), (0x3B37 + 1) * 1024);
    assert_eq!(card.block_size(), 512);
    assert_eq!(card.base.relative_address, 0x1234);
    assert_eq!(card.cid.manufacturer_id, 0x03);
    assert_eq!(card.cid.application_id, 0x5344);
    assert_eq!(&card.cid.product_name, b"SD32G");
    assert_eq!(card.cid.serial_number, 0x5678_9A46);
    assert_eq!(card.csd.csd_structure, 1);
    assert_eq!(card.version, SdSpecificationVersion::Version3_0);
    assert!(card.flags & SdCardFlag::SupportHighCapacity != 0);
    assert!(card.flags & SdCardFlag::SupportSdhc != 0);
    assert!(card.flags & SdCardFlag::Support4BitWidth != 0);
    assert_eq!(card.current_timing, SdTimingMode::SDR25HighSpeedMode);
    assert_eq!(card.base.bus_clk_hz, 50_000_000);
    let cmds: Vec<u32> = sim.0.borrow().commands.iter().map(|c| c.0).collect();
    assert_eq!(&cmds[..8], &[0, 8, 55, 41, 2, 3, 9, 7]);
}

#[test]
fn card_summary_of_an_identified_card() {
    let sim = Sim::new();
    let card = SdCard::new(0x2800_0000, sim).expect("card comes up");
    let s = card.card_dump();
    assert_eq!(&s.name, b"SD32G");
    assert!(s.sdhc);
    assert!(!s.sdxc);
    assert_eq!(s.size_gb, 7);
    assert_eq!(s.bus_speed, BusSpeed::MHz(50));
    assert_eq!(s.voltage, MCIHostOperationVoltage::Voltage330V);
    assert_eq!(s.timing, TimingName::HighSpeed);
}

#[test]
fn blocks_written_are_read_back() {
    let sim = Sim::new();
    let mut card = SdCard::new(0x2800_0000, sim.clone()).expect("card comes up");
    let data: Vec<u32> = (0..256u32).map(|i| i.wrapping_mul(0x0101_0101) ^ 0xA5A5_0000).collect();
    assert_eq!(card.write_blocks(&data, 10, 2), Ok(()));
    let mut back = Vec::new();
    assert_eq!(card.read_blocks(&mut back, 10, 2), Ok(()));
    assert_eq!(back, data);
    // The multi-block write announced its count first.
    let cmds = sim.0.borrow().commands.clone();
    let pos = cmds.iter().position(|c| c.0 == 25).unwrap();
    assert_eq!(cmds[pos - 1], (23, 2));
    assert_eq!(cmds[pos].1, 10);
}

#[test]
fn single_block_uses_single_block_commands() {
    let sim = Sim::new();
    let mut card = SdCard::new(0x2800_0000, sim.clone()).expect("card comes up");
    let data: Vec<u32> = (0..128u32).collect();
    let mut written = 0;
    assert_eq!(card.write(&data, 3, 512, 1, &mut written), Ok(()));
    assert_eq!(written, 1);
    let mut back = Vec::new();
    assert_eq!(card.read_blocks(&mut back, 3, 1), Ok(()));
    assert_eq!(back, data);
    let cmds = sim.0.borrow().commands.clone();
    assert!(cmds.iter().any(|c| *c == (24, 3)));
    assert!(cmds.iter().any(|c| *c == (17, 3)));
}

#[test]
fn reading_no_blocks_gives_nothing() {
    let sim = Sim::new();
    let mut card = SdCard::new(0x2800_0000, sim).expect("card comes up");
    let mut back = vec![1, 2, 3];
    assert_eq!(card.read_blocks(&mut back, 0, 0), Ok(()));
    assert!(back.is_empty());
}

#[test]
fn write_rejects_block_size_of_high_capacity_card() {
    let sim = Sim::new();
    let mut card = SdCard::new(0x2800_0000, sim.clone()).expect("card comes up");
    let before = sim.0.borrow().commands.len();
    let data = vec![0u32; 64];
    let mut written = 7;
    assert_eq!(card.write(&data, 0, 256, 1, &mut written), Err(MCIHostError::CardNotSupport));
    assert_eq!(written, 7);
    assert_eq!(sim.0.borrow().commands.len(), before);
}

#[test]
fn no_card_in_slot_fails_detection() {
    let sim = Sim::new();
    sim.0.borrow_mut().present = false;
    assert_eq!(SdCard::new(0x2800_0000, sim).err(), Some(MCIHostError::CardDetectFailed));
}

#[test]
fn deinit_restarts_the_host() {
    let sim = Sim::new();
    let mut card = SdCard::new(0x2800_0000, sim).expect("card comes up");
    assert_eq!(card.deinit(), Ok(()));
}

#[test]
fn test_work() {
    let sim = Sim::new();
    let mut sdcard = SdCard::new(0x2800_0000, sim.clone()).expect("card comes up");
    let mut receive_buf = Vec::new();
    for i in 0..4 {
        let block_id = 131072 + i;
        sdcard.read_blocks(&mut receive_buf, block_id, 1).unwrap();
    }
    assert_eq!(receive_buf.len(), 128);
    let cmds = sim.0.borrow().commands.clone();
    for i in 0..4u32 {
        assert!(cmds.iter().any(|c| *c == (17, 131072 + i)));
    }
}

#[test]
fn operation_conditions_ask_for_high_capacity_after_interface_condition() {
    let sim = Sim::new();
    SdCard::new(0x2800_0000, sim.clone()).expect("card comes up");
    let cmds = sim.0.borrow().commands.clone();
    assert_eq!(cmds[1], (8, 0x1AA));
    let (_, arg) = cmds.iter().find(|c| c.0 == 41).copied().expect("operation conditions sent");
    assert_eq!(arg & 0x0032_0000, 0x0032_0000);
    assert!(arg & 0x4000_0000 != 0);
}
