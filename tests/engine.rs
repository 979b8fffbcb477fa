use std::collections::HashMap;

use flexspi::command::{bytes_from_fifo_words, FlexSpiCmd};
use flexspi::config::{
    AhbConfig, FlexSpiBusWidth, FlexSpiFlashPort, FlexSpiFlashPortDeviceInstance, FlexspiAhbBufferConfig,
    FlexspiAhbWriteWaitUnit, FlexspiConfig, FlexspiCsIntervalCycleUnit, FlexspiDeviceConfig, FlexspiReadSampleClock,
};
use flexspi::error::FlexSpiOpError;
use flexspi::lut::{build_lut_program, LutError};
use flexspi::port::{ExecMode, FlexSPI, WipTracker};
use flexspi::regs::{self, wait_satisfied, RegOp};
use flexspi::{NorStorageCmd, NorStorageCmdMode, NorStorageCmdType};
use mimxrt600_fcb::flexspi_lut_seq;
use mimxrt600_fcb::FlexSpiLutOpcode::{CMD_DDR, CMD_SDR, DUMMY_DDR, RADDR_DDR, READ_DDR, READ_SDR, STOP, WRITE_DDR};
use mimxrt600_fcb::FlexSpiNumPads::{Octal, Single};

fn ram() -> FlexSPI {
    FlexSPI::new_blocking_ram(
        FlexSpiFlashPort::PortB,
        FlexSpiBusWidth::Octal,
        FlexSpiFlashPortDeviceInstance::DeviceInstance0,
    )
}

fn xip() -> FlexSPI {
    FlexSPI::new_blocking_xip(FlexSpiFlashPort::PortB, FlexSpiFlashPortDeviceInstance::DeviceInstance0)
}

/// Applies the stores of a program to a register map.
fn apply(regs_map: &mut HashMap<u32, u32>, ops: &[RegOp]) {
    for op in ops {
        match *op {
            RegOp::Write { offset, value } => {
                regs_map.insert(offset, value);
            }
            RegOp::Modify { offset, clear, set } => {
                let old = *regs_map.get(&offset).unwrap_or(&0);
                regs_map.insert(offset, (old & !clear) | set);
            }
            _ => {}
        }
    }
}

fn slot_words(regs_map: &HashMap<u32, u32>, slot: u32) -> Vec<u32> {
    (0..4).map(|k| *regs_map.get(&(regs::LUT + 16 * slot + 4 * k)).unwrap_or(&0)).collect()
}

#[test]
fn lut_words_of_well_known_commands() {
    assert_eq!(
        FlexSpiCmd::WriteEnable.lut_words(),
        vec![flexspi_lut_seq(CMD_DDR, Octal, 0x06, CMD_DDR, Octal, 0xF9), 0, 0, 0]
    );
    assert_eq!(
        FlexSpiCmd::ReadStatusRegister.lut_words(),
        vec![
            flexspi_lut_seq(CMD_DDR, Octal, 0x05, CMD_DDR, Octal, 0xFA),
            flexspi_lut_seq(RADDR_DDR, Octal, 0x20, DUMMY_DDR, Octal, 0x18),
            flexspi_lut_seq(READ_DDR, Octal, 0x1, STOP, Single, 0x0),
            0
        ]
    );
    assert_eq!(
        FlexSpiCmd::EraseSector.lut_words(),
        vec![
            flexspi_lut_seq(CMD_DDR, Octal, 0x21, CMD_DDR, Octal, 0xDE),
            flexspi_lut_seq(RADDR_DDR, Octal, 0x20, STOP, Single, 0x00),
            0,
            0
        ]
    );
    assert_eq!(
        FlexSpiCmd::PageProgram.lut_words(),
        vec![
            flexspi_lut_seq(CMD_DDR, Octal, 0x12, CMD_DDR, Octal, 0xED),
            flexspi_lut_seq(RADDR_DDR, Octal, 0x20, WRITE_DDR, Octal, 0x04),
            0,
            0
        ]
    );
    assert_eq!(
        FlexSpiCmd::ReadId.lut_words(),
        vec![flexspi_lut_seq(CMD_SDR, Single, 0x9F, READ_SDR, Single, 0x4), 0, 0, 0]
    );
}

#[test]
fn lut_word_literal_value() {
    // CMD_DDR (0x21) on 8 pads, opcodes 0x06 and 0xF9.
    assert_eq!(FlexSpiCmd::WriteEnable.lut_words()[0], 0x87F9_8706);
}

#[test]
fn lut_builder_rejects_bad_descriptors() {
    let mut cmd = NorStorageCmd {
        cmd_lb: 0x06,
        cmd_ub: None,
        addr: None,
        addr_width: None,
        mode: NorStorageCmdMode::SDR,
        dummy: None,
        cmdtype: None,
        bus_width: 3,
        data_bytes: None,
    };
    assert_eq!(build_lut_program(&cmd).unwrap_err(), LutError::InvalidBusWidth);
    cmd.bus_width = 4;
    cmd.addr_width = Some(32);
    assert_eq!(build_lut_program(&cmd).unwrap_err(), LutError::InvalidAddressWidth);
    cmd.addr_width = Some(3);
    cmd.cmdtype = Some(NorStorageCmdType::Write);
    cmd.data_bytes = Some(2);
    let words = build_lut_program(&cmd).unwrap();
    assert_eq!(
        words,
        vec![
            flexspi_lut_seq(CMD_SDR, mimxrt600_fcb::FlexSpiNumPads::Quad, 0x06, mimxrt600_fcb::FlexSpiLutOpcode::RADDR_SDR, mimxrt600_fcb::FlexSpiNumPads::Quad, 24),
            flexspi_lut_seq(mimxrt600_fcb::FlexSpiLutOpcode::WRITE_SDR, mimxrt600_fcb::FlexSpiNumPads::Quad, 2, STOP, Single, 0),
            0,
            0
        ]
    );
}

#[test]
fn lut_determinism() {
    let mut f = ram();
    let mut regs_map = HashMap::new();
    let p1 = f.cmdport.write_enable().unwrap();
    apply(&mut regs_map, &p1);
    let first = slot_words(&regs_map, 3);
    let p2 = f.cmdport.write_enable().unwrap();
    assert_eq!(p1, p2);
    apply(&mut regs_map, &p2);
    assert_eq!(slot_words(&regs_map, 3), first);
    assert_eq!(first, FlexSpiCmd::WriteEnable.lut_words());
}

#[test]
fn slot_isolation() {
    let mut f = ram();
    let mut regs_map = HashMap::new();
    apply(&mut regs_map, &f.cmdport.read_status_register());
    let status_slot = slot_words(&regs_map, 4);
    let before: HashMap<u32, u32> = regs_map.clone();
    apply(&mut regs_map, &f.cmdport.read_id(4).unwrap());
    assert_eq!(slot_words(&regs_map, 4), status_slot);
    for off in (regs::LUT..regs::LUT + 4 * regs::LUT_LEN).step_by(4) {
        let in_read_id_slot = off >= regs::LUT + 16 && off < regs::LUT + 32;
        if !in_read_id_slot {
            assert_eq!(regs_map.get(&off), before.get(&off));
        }
    }
}

#[test]
fn dll_loopback_internal() {
    let (mut dev, mut cfg) = sample_configs();
    cfg.rx_sample_clock = FlexspiReadSampleClock::FlexspiReadSampleClkLoopbackInternally;
    dev.is_sck2_enabled = true;
    dev.flexspi_root_clk = 48_000_000;
    assert_eq!(flexspi::config::FlexSpiConfigurationPort::calc_dll_value(&dev, &cfg), 0x100);
}

#[test]
fn dll_external_without_sck2() {
    let (mut dev, cfg) = sample_configs();
    dev.is_sck2_enabled = false;
    assert_eq!(flexspi::config::FlexSpiConfigurationPort::calc_dll_value(&dev, &cfg), 0x100);
}

#[test]
fn dll_external_fast_clock() {
    let (mut dev, cfg) = sample_configs();
    dev.flexspi_root_clk = 200_000_000;
    assert_eq!(flexspi::config::FlexSpiConfigurationPort::calc_dll_value(&dev, &cfg), 0x79);
}

#[test]
fn dll_external_slow_clock() {
    let (dev, cfg) = sample_configs();
    assert_eq!(flexspi::config::FlexSpiConfigurationPort::calc_dll_value(&dev, &cfg), 0x3100);
}

fn sample_configs() -> (FlexspiDeviceConfig, FlexspiConfig) {
    let buf = FlexspiAhbBufferConfig { priority: 0, master_index: 0, buffer_size: 256, enable_prefetch: true };
    let dev = FlexspiDeviceConfig {
        flexspi_root_clk: 48_000_000,
        is_sck2_enabled: true,
        flash_size_kb: 0x10000,
        cs_interval_unit: FlexspiCsIntervalCycleUnit::CsIntervalUnit1Cycle,
        cs_interval: 2,
        cs_hold_time: 3,
        cs_setup_time: 3,
        data_valid_time: 2,
        columnspace: 0,
        enable_word_address: false,
        awr_seq_index: 1,
        awr_seq_number: 0,
        ard_seq_index: 0,
        ard_seq_number: 1,
        ahb_write_wait_unit: FlexspiAhbWriteWaitUnit::FlexspiAhbWriteWaitUnit2ahbCycle,
        ahb_write_wait_interval: 20,
        enable_write_mask: false,
    };
    let cfg = FlexspiConfig {
        rx_sample_clock: FlexspiReadSampleClock::FlexspiReadSampleClkExternalInputFromDqsPad,
        enable_sck_free_running: false,
        enable_combination: false,
        enable_doze: false,
        enable_half_speed_access: false,
        enable_sck_b_diff_opt: false,
        enable_same_config_for_all: false,
        seq_timeout_cycle: 0xFFFF,
        ip_grant_timeout_cycle: 0xFF,
        tx_watermark: 8,
        rx_watermark: 8,
        ahb_config: AhbConfig {
            enable_ahb_write_ip_tx_fifo: false,
            enable_ahb_write_ip_rx_fifo: false,
            ahb_grant_timeout_cycle: 0xFF,
            ahb_bus_timeout_cycle: 0xFFFF,
            resume_wait_cycle: 0x20,
            buffer: [buf; 8],
            enable_clear_ahb_buffer_opt: false,
            enable_read_address_opt: true,
            enable_ahb_prefetch: true,
            enable_ahb_bufferable: true,
            enable_ahb_cachable: true,
        },
    };
    (dev, cfg)
}

#[test]
fn device_configuration_program() {
    let f = ram();
    let (dev, cfg) = sample_configs();
    let ops = f.configport.as_ref().unwrap().configure_flexspi_device(&dev, &cfg);
    assert_eq!(
        ops[0],
        RegOp::WaitBits { offset: regs::STS0, mask: regs::STS0_SEQIDLE | regs::STS0_ARBIDLE, until_set: true }
    );
    // Port B programs the second DLL register.
    assert_eq!(ops[1], RegOp::Write { offset: regs::DLLCR + 4, value: 0x3100 });
    // Port B, first device: bank 2.
    assert_eq!(
        ops[3],
        RegOp::Modify { offset: regs::FLSHCR0 + 8, clear: regs::FLSHCR0_FLSHSZ_MASK, set: 0x10000 }
    );
    // Setup 3, hold 3 at bit 5, interval 2 at bit 16.
    assert_eq!(ops[4], RegOp::Modify { offset: regs::FLSHCR1 + 8, clear: 0xFFFF_FFFF, set: 0x0002_0063 });
    // One AHB read sequence: count stored as zero.
    assert_eq!(
        ops[6],
        RegOp::Modify {
            offset: regs::FLSHCR2 + 8,
            clear: regs::FLSHCR2_ARDSEQID_MASK | regs::FLSHCR2_ARDSEQNUM_MASK,
            set: 0
        }
    );
    assert_eq!(ops[7], RegOp::Modify { offset: regs::MCR0, clear: regs::MCR0_MDIS, set: 0 });
    assert_eq!(
        ops[8],
        RegOp::WaitBits { offset: regs::STS2, mask: regs::STS2_BSLVLOCK | regs::STS2_BREFLOCK, until_set: true }
    );
    assert_eq!(ops[9], RegOp::Delay { cycles: 100 });
    assert_eq!(ops.len(), 10);
}

#[test]
fn controller_configuration_program() {
    let f = ram();
    let (_, cfg) = sample_configs();
    let ops = f.configport.as_ref().unwrap().configure_flexspi(&cfg);
    assert_eq!(ops.len(), 19);
    assert_eq!(ops[3], RegOp::Modify { offset: regs::MCR0, clear: 0, set: regs::MCR0_MDIS });
    // External strobe sampling, both grant waits at 0xFF.
    assert_eq!(ops[4], RegOp::Modify { offset: regs::MCR0, clear: 0xFFFF_5830, set: 0xFFFF_0030 });
    assert_eq!(ops[5], RegOp::Write { offset: regs::MCR1, value: 0xFFFF_FFFF });
    assert_eq!(ops[6], RegOp::Modify { offset: regs::MCR2, clear: 0xFF08_8800, set: 0x2000_0000 });
    assert_eq!(ops[7], RegOp::Modify { offset: regs::AHBCR, clear: 0x78, set: 0x78 });
    // 256-byte buffer: 32 units of 8 bytes, prefetch on.
    assert_eq!(ops[8], RegOp::Modify { offset: regs::AHBRXBUFCR0, clear: 0x870F_01FF, set: 0x8000_0020 });
    assert_eq!(ops[15].clone(), RegOp::Modify { offset: regs::AHBRXBUFCR0 + 28, clear: 0x870F_01FF, set: 0x8000_0020 });
    assert_eq!(ops[16], RegOp::Modify { offset: regs::FLSHCR0 + 8, clear: regs::FLSHCR0_FLSHSZ_MASK, set: 0 });
}

#[test]
fn xip_erase_rejected_without_side_effects() {
    let mut f = xip();
    let before = f.cmdport.wip();
    assert_eq!(f.cmdport.erase_sector(0x1000).unwrap_err(), FlexSpiOpError::NotSupportedInMode);
    assert_eq!(f.cmdport.erase(0x1000, 0x2000).unwrap_err(), FlexSpiOpError::NotSupportedInMode);
    assert_eq!(f.cmdport.wip(), before);
    assert_eq!(f.cmdport.mode(), ExecMode::XipBlocking);
}

#[test]
fn data_port_rejects_erase_and_command_port_rejects_bulk() {
    let f = ram();
    assert_eq!(f.dataport.erase(0, 4096).unwrap_err(), FlexSpiOpError::NotSupportedOnPort);
    assert_eq!(f.cmdport.read(0, 4).unwrap_err(), FlexSpiOpError::NotSupportedOnPort);
    assert_eq!(f.cmdport.write(0, &[1, 2]).unwrap_err(), FlexSpiOpError::NotSupportedOnPort);
}

#[test]
fn write_larger_than_page_rejected() {
    let f = ram();
    let bytes = vec![0u8; 257];
    assert_eq!(f.dataport.write(0, &bytes).unwrap_err(), FlexSpiOpError::TooLarge);
}

/// Runs window operations against a simulated flash window.
fn run_window(mem: &mut HashMap<u32, u8>, ops: &[RegOp]) -> Vec<u8> {
    let mut out = Vec::new();
    for op in ops {
        match *op {
            RegOp::StoreWindowWord { offset, value } => {
                for j in 0..4u32 {
                    mem.insert(offset + j, (value >> (8 * j)) as u8);
                }
            }
            RegOp::StoreWindowByte { offset, byte } => {
                mem.insert(offset, byte);
            }
            RegOp::LoadWindowByte { offset } => out.push(*mem.get(&offset).unwrap_or(&0xFF)),
            _ => {}
        }
    }
    out
}

#[test]
fn write_then_read_round_trip() {
    let f = ram();
    let mut mem = HashMap::new();
    let bytes: Vec<u8> = (0..37u32).map(|i| (i * 7 + 3) as u8).collect();
    let w = f.dataport.write(0x1000, &bytes).unwrap();
    assert_eq!(w.len(), 10);
    run_window(&mut mem, &w);
    let r = f.dataport.read(0x1000, bytes.len());
    assert_eq!(run_window(&mut mem, &r), bytes);
    // The padding of the last word leaves the erased value.
    assert_eq!(mem.get(&(0x1000 + 37)), Some(&0xFF));
}

#[test]
fn xip_write_loads_page_program_and_stores_one_byte() {
    let f = xip();
    let ops = f.dataport.write(0x20, &[0xAB, 0xCD]).unwrap();
    assert_eq!(ops[0], RegOp::Write { offset: regs::LUTKEY, value: regs::LUT_KEY_VALUE });
    assert_eq!(ops[1], RegOp::Write { offset: regs::LUTCR, value: regs::LUTCR_UNLOCK });
    assert_eq!(ops[2], RegOp::Write { offset: regs::LUT + 16 * 12, value: FlexSpiCmd::PageProgram.lut_words()[0] });
    assert_eq!(
        ops[10],
        RegOp::Modify { offset: regs::FLSHCR2 + 8, clear: regs::FLSHCR2_AWRSEQID_MASK, set: 12 << 8 }
    );
    assert_eq!(ops[11], RegOp::StoreWindowByte { offset: 0x20, byte: 0xAB });
    assert_eq!(ops.len(), 12);
}

/// Reads of a status program: the status byte lands in the first FIFO word.
fn status_words(status: u8) -> Vec<u32> {
    vec![status as u32 | 0x5500]
}

#[test]
fn erase_completion_gating() {
    for n in 1..6u32 {
        let mut f = ram();
        let erase = f.cmdport.erase_sector(0x2000).unwrap();
        assert!(erase.contains(&RegOp::Write { offset: regs::IPCR0, value: 0x2000 }));
        // Other commands wait for the erase to complete.
        assert_eq!(f.cmdport.write_enable().unwrap_err(), FlexSpiOpError::DeviceBusy);
        assert_eq!(f.cmdport.erase_sector(0x3000).unwrap_err(), FlexSpiOpError::DeviceBusy);
        let mut polls = 0u32;
        while let Some(p) = f.cmdport.next_wip_poll() {
            assert_eq!(p, f.cmdport.read_status_register());
            polls += 1;
            let status = if polls < n { 0x01 } else { 0x00 };
            let bytes = bytes_from_fifo_words(&status_words(status), 1);
            f.cmdport.observe_status(bytes[0]);
        }
        assert_eq!(polls, n);
        assert_eq!(f.cmdport.wip(), WipTracker { pending: false, polls: n });
        assert!(f.cmdport.write_enable().is_ok());
    }
}

#[test]
fn single_outstanding_command() {
    let mut f = ram();
    let mut programs = vec![f.cmdport.write_enable().unwrap(), f.cmdport.read_status_register(), f.cmdport.read_id(20).unwrap()];
    programs.push(f.cmdport.erase_sector(0).unwrap());
    for p in programs {
        let mut in_flight = false;
        let mut triggers = 0;
        for op in &p {
            match *op {
                RegOp::Write { offset: regs::IPCMD, .. } => {
                    assert!(!in_flight);
                    in_flight = true;
                    triggers += 1;
                }
                RegOp::WaitBits { offset: regs::INTR, mask: regs::INTR_IPCMDDONE, until_set: true } => {
                    in_flight = false;
                }
                RegOp::Write { .. } | RegOp::Modify { .. } => assert!(!in_flight),
                _ => {}
            }
        }
        assert_eq!(triggers, 1);
        assert!(!in_flight);
    }
}

#[test]
fn read_id_drains_in_watermark_chunks() {
    let mut f = ram();
    let ops = f.cmdport.read_id(20).unwrap();
    let reads: Vec<u32> = ops
        .iter()
        .filter_map(|op| match *op {
            RegOp::Read { offset } => Some(offset),
            _ => None,
        })
        .collect();
    // 8 + 8 bytes by watermark, then 4 bytes by fill level.
    assert_eq!(reads, vec![regs::RFDR, regs::RFDR + 4, regs::RFDR, regs::RFDR + 4, regs::RFDR]);
    assert!(ops.contains(&RegOp::WaitAtLeast { offset: regs::IPRXFSTS, mask: 0xFF, min: 1 }));
    assert!(ops.contains(&RegOp::Write { offset: regs::IPCR1, value: (1 << 16) | 20 }));
}

#[test]
fn fifo_words_to_bytes() {
    let words = vec![0x4433_2211u32, 0x8877_6655];
    assert_eq!(bytes_from_fifo_words(&words, 6), vec![0x11, 0x22, 0x33, 0x44, 0x55, 0x66]);
    assert_eq!(bytes_from_fifo_words(&words, 20).len(), 8);
    assert_eq!(bytes_from_fifo_words(&words, 0), Vec::<u8>::new());
}

#[test]
fn wait_conditions() {
    let wait_set = RegOp::WaitBits { offset: regs::STS2, mask: 0x3, until_set: true };
    assert!(wait_satisfied(&wait_set, 0x3));
    assert!(!wait_satisfied(&wait_set, 0x1));
    let wait_clear = RegOp::WaitBits { offset: regs::MCR0, mask: 0x1, until_set: false };
    assert!(wait_satisfied(&wait_clear, 0x2));
    assert!(!wait_satisfied(&wait_clear, 0x3));
    let fill = RegOp::WaitAtLeast { offset: regs::IPRXFSTS, mask: 0xFF, min: 2 };
    assert!(!wait_satisfied(&fill, 0x0101));
    assert!(wait_satisfied(&fill, 0x0002));
    assert!(wait_satisfied(&RegOp::Delay { cycles: 5 }, 0));
}

#[test]
fn capacity_from_flash_control_register() {
    let f = xip();
    assert_eq!(f.dataport.capacity_query(), RegOp::Read { offset: regs::FLSHCR0 + 8 });
    assert_eq!(f.dataport.capacity(0xFF80_4000), 0x4000);
}
