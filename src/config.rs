//! Controller and device configuration: the AHB window, chip-select timing and
//! the sampling delay line (DLL).
use vstd::prelude::*;
use crate::regs;
use crate::regs::RegOp;

verus! {

/// A flash port of the controller.
#[derive(Clone, Copy, Debug, PartialEq, Eq, Structural)]
pub enum FlexSpiFlashPort {
    /// Port A.
    PortA,
    /// Port B.
    PortB,
}

/// A device position on a flash port.
#[derive(Clone, Copy, Debug, PartialEq, Eq, Structural)]
pub enum FlexSpiFlashPortDeviceInstance {
    /// First device.
    DeviceInstance0,
    /// Second device.
    DeviceInstance1,
}

/// Number of data lines of the bus.
#[derive(Clone, Copy, Debug, PartialEq, Eq, Structural)]
pub enum FlexSpiBusWidth {
    /// One data line.
    Single,
    /// Two data lines.
    Dual,
    /// Four data lines.
    Quad,
    /// Eight data lines.
    Octal,
}

/// Unit of the chip-select interval.
#[derive(Clone, Copy, Debug, PartialEq, Eq, Structural)]
pub enum FlexspiCsIntervalCycleUnit {
    /// One serial clock cycle.
    CsIntervalUnit1Cycle,
    /// 256 serial clock cycles.
    CsIntervalUnit256Cycle,
}

/// Unit of the AHB write wait.
#[derive(Clone, Copy, Debug, PartialEq, Eq, Structural)]
pub enum FlexspiAhbWriteWaitUnit {
    /// 2 AHB clock cycles.
    FlexspiAhbWriteWaitUnit2ahbCycle,
    /// 8 AHB clock cycles.
    FlexspiAhbWriteWaitUnit8ahbCycle,
    /// 32 AHB clock cycles.
    FlexspiAhbWriteWaitUnit32ahbCycle,
    /// 128 AHB clock cycles.
    FlexspiAhbWriteWaitUnit128ahbCycle,
    /// 512 AHB clock cycles.
    FlexspiAhbWriteWaitUnit512ahbCycle,
    /// 2048 AHB clock cycles.
    FlexspiAhbWriteWaitUnit2048ahbCycle,
    /// 8192 AHB clock cycles.
    FlexspiAhbWriteWaitUnit8192ahbCycle,
    /// 32768 AHB clock cycles.
    FlexspiAhbWriteWaitUnit32768ahbCycle,
}

/// Source of the clock that samples read data.
#[derive(Clone, Copy, Debug, PartialEq, Eq, Structural)]
pub enum FlexspiReadSampleClock {
    /// Dummy read strobe generated by the controller, looped back internally.
    FlexspiReadSampleClkLoopbackInternally,
    /// Dummy read strobe generated by the controller, looped back from the DQS pad.
    FlexspiReadSampleClkLoopbackFromDqsPad,
    /// Serial clock output, looped back from the SCK pad.
    FlexspiReadSampleClkLoopbackFromSckPad,
    /// Read strobe provided by the flash, input from the DQS pad.
    FlexspiReadSampleClkExternalInputFromDqsPad,
}

/// Settings of one AHB receive buffer.
#[derive(Clone, Copy, Debug)]
pub struct FlexspiAhbBufferConfig {
    /// Read priority of the master this buffer serves.
    pub priority: u8,
    /// Id of the AHB master this buffer serves.
    pub master_index: u8,
    /// Buffer size in bytes.
    pub buffer_size: u16,
    /// Prefetch for this buffer's master.
    pub enable_prefetch: bool,
}

/// Settings of one flash device.
#[derive(Clone, Copy, Debug)]
pub struct FlexspiDeviceConfig {
    /// Serial root clock, in Hz.
    pub flexspi_root_clk: u32,
    /// Whether the secondary sample clock is used.
    pub is_sck2_enabled: bool,
    /// Flash size in KB.
    pub flash_size_kb: u32,
    /// Unit of the chip-select interval.
    pub cs_interval_unit: FlexspiCsIntervalCycleUnit,
    /// Chip-select interval, in units of `cs_interval_unit`.
    pub cs_interval: u16,
    /// Chip-select hold time.
    pub cs_hold_time: u8,
    /// Chip-select setup time.
    pub cs_setup_time: u8,
    /// Data valid time of the device, in ns.
    pub data_valid_time: u8,
    /// Column address space size.
    pub columnspace: u8,
    /// Word addressing.
    pub enable_word_address: bool,
    /// Sequence id of the AHB write command.
    pub awr_seq_index: u8,
    /// Number of sequences of the AHB write command.
    pub awr_seq_number: u8,
    /// Sequence id of the AHB read command.
    pub ard_seq_index: u8,
    /// Number of sequences of the AHB read command; zero leaves the setting alone.
    pub ard_seq_number: u8,
    /// Unit of the AHB write wait.
    pub ahb_write_wait_unit: FlexspiAhbWriteWaitUnit,
    /// AHB write wait, in units of `ahb_write_wait_unit`.
    pub ahb_write_wait_interval: u16,
    /// Whether the controller drives DQS as write mask.
    pub enable_write_mask: bool,
}

/// Settings of the memory-mapped (AHB) access path.
#[derive(Clone, Copy, Debug)]
pub struct AhbConfig {
    /// AHB writes may reach the IP transmit FIFO.
    pub enable_ahb_write_ip_tx_fifo: bool,
    /// AHB writes may reach the IP receive FIFO.
    pub enable_ahb_write_ip_rx_fifo: bool,
    /// AHB command grant timeout, in units of 1024 AHB clock cycles.
    pub ahb_grant_timeout_cycle: u8,
    /// AHB bus timeout, in units of 1024 AHB clock cycles.
    pub ahb_bus_timeout_cycle: u16,
    /// Idle cycles before a suspended sequence resumes.
    pub resume_wait_cycle: u8,
    /// The eight receive buffers.
    pub buffer: [FlexspiAhbBufferConfig; 8],
    /// Clear the AHB buffers when the controller acknowledges a stop request.
    pub enable_clear_ahb_buffer_opt: bool,
    /// No start-address alignment limit on read bursts.
    pub enable_read_address_opt: bool,
    /// Prefetch beyond the current read burst.
    pub enable_ahb_prefetch: bool,
    /// Writes are acknowledged before the flash has finished them.
    pub enable_ahb_bufferable: bool,
    /// Reads may be cached.
    pub enable_ahb_cachable: bool,
}

/// Settings of the controller.
#[derive(Clone, Copy, Debug)]
pub struct FlexspiConfig {
    /// Sample clock source for reads.
    pub rx_sample_clock: FlexspiReadSampleClock,
    /// Free-running serial clock.
    pub enable_sck_free_running: bool,
    /// Combine the data lines of ports A and B for octal mode.
    pub enable_combination: bool,
    /// Doze mode.
    pub enable_doze: bool,
    /// Halve the clock for half-speed commands.
    pub enable_half_speed_access: bool,
    /// Use the port B clock pad as differential clock of port A.
    pub enable_sck_b_diff_opt: bool,
    /// Apply the first device's configuration to all devices.
    pub enable_same_config_for_all: bool,
    /// Sequence execution timeout, in units of 1024 serial clock cycles.
    pub seq_timeout_cycle: u16,
    /// IP command grant timeout, in units of 1024 AHB clock cycles.
    pub ip_grant_timeout_cycle: u8,
    /// Transmit FIFO watermark, in bytes.
    pub tx_watermark: u8,
    /// Receive FIFO watermark, in bytes.
    pub rx_watermark: u8,
    /// The memory-mapped access path.
    pub ahb_config: AhbConfig,
}

/// The DLL control value for a sampling setup.
///
/// A loopback sample clock, or the flash's strobe without the secondary sample
/// clock, gets one fixed delay cell. With both and a root clock of at least
/// 100 MHz the DLL is enabled with a fixed target; below that the delay is the
/// data valid time in 75 ps cells, rounded up, placed in the override field.
pub open spec fn dll_value(clk: FlexspiReadSampleClock, sck2: bool, root_clk: u32, data_valid_ns: u8) -> u32 {
    if !(clk == FlexspiReadSampleClock::FlexspiReadSampleClkExternalInputFromDqsPad && sck2) {
        0x100
    } else if root_clk >= 100_000_000 {
        0x1u32 | (0xFu32 << 3u32)
    } else {
        let cells = ((data_valid_ns as int) * 1000 + 74) / 75;
        0x100u32 | (((cells as u32) & 0x78u32) << 9u32)
    }
}

/// The index of a port and device among the four flash control register banks.
pub open spec fn bank_of(port: FlexSpiFlashPort, dev: FlexSpiFlashPortDeviceInstance) -> u32 {
    match (port, dev) {
        (FlexSpiFlashPort::PortA, FlexSpiFlashPortDeviceInstance::DeviceInstance0) => 0,
        (FlexSpiFlashPort::PortA, FlexSpiFlashPortDeviceInstance::DeviceInstance1) => 1,
        (FlexSpiFlashPort::PortB, FlexSpiFlashPortDeviceInstance::DeviceInstance0) => 2,
        (FlexSpiFlashPort::PortB, FlexSpiFlashPortDeviceInstance::DeviceInstance1) => 3,
    }
}

/// Selects the register bank of a port and device.
pub fn bank(port: FlexSpiFlashPort, dev: FlexSpiFlashPortDeviceInstance) -> (r: u32)
    ensures
        r == bank_of(port, dev),
        r < 4,
{
    match (port, dev) {
        (FlexSpiFlashPort::PortA, FlexSpiFlashPortDeviceInstance::DeviceInstance0) => 0,
        (FlexSpiFlashPort::PortA, FlexSpiFlashPortDeviceInstance::DeviceInstance1) => 1,
        (FlexSpiFlashPort::PortB, FlexSpiFlashPortDeviceInstance::DeviceInstance0) => 2,
        (FlexSpiFlashPort::PortB, FlexSpiFlashPortDeviceInstance::DeviceInstance1) => 3,
    }
}

/// `mask` when `on`, else zero.
pub open spec fn flag(on: bool, mask: u32) -> u32 {
    if on {
        mask
    } else {
        0
    }
}

fn flag_bits(on: bool, mask: u32) -> (r: u32)
    ensures
        r == flag(on, mask),
{
    if on {
        mask
    } else {
        0
    }
}


/// MCR0 bits that the controller configuration decides.
pub const MCR0_SETTINGS: u32 = regs::MCR0_RXCLKSRC_MASK | regs::MCR0_DOZEEN | regs::MCR0_SCKFREERUNEN | regs::MCR0_HSEN
    | regs::MCR0_IPGRANTWAIT_MASK | regs::MCR0_AHBGRANTWAIT_MASK;
/// MCR2 bits that the controller configuration decides.
pub const MCR2_SETTINGS: u32 = regs::MCR2_SAMEDEVICEEN | regs::MCR2_SCKBDIFFOPT | regs::MCR2_CLRAHBBUFOPT
    | regs::MCR2_RESUMEWAIT_MASK;
/// AHBCR bits that the controller configuration decides.
pub const AHBCR_SETTINGS: u32 = regs::AHBCR_READADDROPT | regs::AHBCR_PREFETCHEN | regs::AHBCR_BUFFERABLEEN
    | regs::AHBCR_CACHABLEEN;
/// AHBRXBUFCR0 bits that a buffer configuration decides.
pub const RXBUF_SETTINGS: u32 = regs::RXBUF_BUFSZ_MASK | regs::RXBUF_MSTRID_MASK | regs::RXBUF_PRIORITY_MASK
    | regs::RXBUF_PREFETCHEN;
/// Settle time after DLL lock, in no-op instructions.
pub const DLL_SETTLE_CYCLES: u32 = 100;

/// MCR0 sample clock field.
pub open spec fn rxclksrc_bits(c: FlexspiReadSampleClock) -> u32 {
    match c {
        FlexspiReadSampleClock::FlexspiReadSampleClkLoopbackInternally => 0x00,
        FlexspiReadSampleClock::FlexspiReadSampleClkLoopbackFromDqsPad => 0x10,
        FlexspiReadSampleClock::FlexspiReadSampleClkLoopbackFromSckPad => 0x30,
        FlexspiReadSampleClock::FlexspiReadSampleClkExternalInputFromDqsPad => 0x30,
    }
}

/// MCR0 settings: sample clock, doze, free-running clock, half speed, grant timeouts.
pub open spec fn mcr0_settings(cfg: FlexspiConfig) -> u32 {
    rxclksrc_bits(cfg.rx_sample_clock) | flag(cfg.enable_doze, regs::MCR0_DOZEEN) | flag(
        cfg.enable_sck_free_running,
        regs::MCR0_SCKFREERUNEN,
    ) | flag(cfg.enable_half_speed_access, regs::MCR0_HSEN) | ((cfg.ip_grant_timeout_cycle as u32) << 16u32) | ((
    cfg.ahb_config.ahb_grant_timeout_cycle as u32) << 24u32)
}

/// MCR1: sequence timeout in the high half, AHB bus timeout in the low half.
pub open spec fn mcr1_value(cfg: FlexspiConfig) -> u32 {
    ((cfg.seq_timeout_cycle as u32) << 16u32) | (cfg.ahb_config.ahb_bus_timeout_cycle as u32)
}

/// MCR2 settings: same configuration for all, differential clock, buffer clearing, resume wait.
pub open spec fn mcr2_settings(cfg: FlexspiConfig) -> u32 {
    flag(cfg.enable_same_config_for_all, regs::MCR2_SAMEDEVICEEN) | flag(cfg.enable_sck_b_diff_opt, regs::MCR2_SCKBDIFFOPT)
        | flag(cfg.ahb_config.enable_clear_ahb_buffer_opt, regs::MCR2_CLRAHBBUFOPT) | ((
    cfg.ahb_config.resume_wait_cycle as u32) << 24u32)
}

/// AHBCR settings: alignment relaxation, prefetch, bufferable writes, cacheable reads.
pub open spec fn ahbcr_settings(cfg: FlexspiConfig) -> u32 {
    flag(cfg.ahb_config.enable_read_address_opt, regs::AHBCR_READADDROPT) | flag(
        cfg.ahb_config.enable_ahb_prefetch,
        regs::AHBCR_PREFETCHEN,
    ) | flag(cfg.ahb_config.enable_ahb_bufferable, regs::AHBCR_BUFFERABLEEN) | flag(
        cfg.ahb_config.enable_ahb_cachable,
        regs::AHBCR_CACHABLEEN,
    )
}

/// AHBRXBUFCR0 settings of one buffer: size in 8-byte units, master, priority, prefetch.
pub open spec fn rxbuf_settings(b: FlexspiAhbBufferConfig) -> u32 {
    (((b.buffer_size / 8) as u32) & regs::RXBUF_BUFSZ_MASK) | (((b.master_index as u32) << 16u32)
        & regs::RXBUF_MSTRID_MASK) | (((b.priority as u32) << 24u32) & regs::RXBUF_PRIORITY_MASK) | flag(
        b.enable_prefetch,
        regs::RXBUF_PREFETCHEN,
    )
}

/// Configuration of the eight AHB receive buffers.
pub open spec fn rxbuf_ops(bufs: Seq<FlexspiAhbBufferConfig>) -> Seq<RegOp> {
    Seq::new(
        8,
        |i: int|
            RegOp::Modify {
                offset: (regs::AHBRXBUFCR0 + 4 * i) as u32,
                clear: RXBUF_SETTINGS,
                set: rxbuf_settings(bufs[i]),
            },
    )
}

/// One-time setup of the controller and its memory-mapped path: software reset,
/// module stop, module control, AHB policy, receive buffers, flash size of the
/// bound bank cleared, FIFO watermarks reset. The module stays disabled.
pub open spec fn configure_ops(bank: u32, cfg: FlexspiConfig) -> Seq<RegOp> {
    seq![
        RegOp::Modify { offset: regs::MCR0, clear: regs::MCR0_MDIS, set: 0 },
        RegOp::Modify { offset: regs::MCR0, clear: 0, set: regs::MCR0_SWRESET },
        RegOp::WaitBits { offset: regs::MCR0, mask: regs::MCR0_SWRESET, until_set: false },
        RegOp::Modify { offset: regs::MCR0, clear: 0, set: regs::MCR0_MDIS },
        RegOp::Modify { offset: regs::MCR0, clear: MCR0_SETTINGS, set: mcr0_settings(cfg) },
        RegOp::Write { offset: regs::MCR1, value: mcr1_value(cfg) },
        RegOp::Modify { offset: regs::MCR2, clear: MCR2_SETTINGS, set: mcr2_settings(cfg) },
        RegOp::Modify { offset: regs::AHBCR, clear: AHBCR_SETTINGS, set: ahbcr_settings(cfg) },
    ] + rxbuf_ops(cfg.ahb_config.buffer@) + seq![
        RegOp::Modify { offset: (regs::FLSHCR0 + 4 * bank) as u32, clear: regs::FLSHCR0_FLSHSZ_MASK, set: 0 },
        RegOp::Modify { offset: regs::IPRXFCR, clear: regs::FIFO_WMRK_MASK, set: 0 },
        RegOp::Modify { offset: regs::IPTXFCR, clear: regs::FIFO_WMRK_MASK, set: 0 },
    ]
}

/// FLSHCR1: setup, hold, word addressing, column space, interval unit, interval.
pub open spec fn flshcr1_value(d: FlexspiDeviceConfig) -> u32 {
    ((d.cs_setup_time as u32) & 0x1Fu32) | (((d.cs_hold_time as u32) & 0x1Fu32) << 5u32) | flag(
        d.enable_word_address,
        regs::FLSHCR1_WA,
    ) | (((d.columnspace as u32) & 0xFu32) << 11u32) | flag(
        d.cs_interval_unit == FlexspiCsIntervalCycleUnit::CsIntervalUnit256Cycle,
        regs::FLSHCR1_CSINTERVALUNIT,
    ) | ((d.cs_interval as u32) << 16u32)
}

/// FLSHCR2 AHB write wait unit field.
pub open spec fn wait_unit_bits(u: FlexspiAhbWriteWaitUnit) -> u32 {
    match u {
        FlexspiAhbWriteWaitUnit::FlexspiAhbWriteWaitUnit2ahbCycle => 0x0000_0000,
        FlexspiAhbWriteWaitUnit::FlexspiAhbWriteWaitUnit8ahbCycle => 0x1000_0000,
        FlexspiAhbWriteWaitUnit::FlexspiAhbWriteWaitUnit32ahbCycle => 0x2000_0000,
        FlexspiAhbWriteWaitUnit::FlexspiAhbWriteWaitUnit128ahbCycle => 0x3000_0000,
        FlexspiAhbWriteWaitUnit::FlexspiAhbWriteWaitUnit512ahbCycle => 0x4000_0000,
        FlexspiAhbWriteWaitUnit::FlexspiAhbWriteWaitUnit2048ahbCycle => 0x5000_0000,
        FlexspiAhbWriteWaitUnit::FlexspiAhbWriteWaitUnit8192ahbCycle => 0x6000_0000,
        FlexspiAhbWriteWaitUnit::FlexspiAhbWriteWaitUnit32768ahbCycle => 0x7000_0000,
    }
}

/// Write-mask enable bit of a port.
pub open spec fn write_mask_bit(port: FlexSpiFlashPort) -> u32 {
    match port {
        FlexSpiFlashPort::PortA => regs::FLSHCR4_WMENA,
        FlexSpiFlashPort::PortB => regs::FLSHCR4_WMENB,
    }
}

/// DLL lock bits of a port: slave and reference delay lines.
pub open spec fn dll_lock_bits(port: FlexSpiFlashPort) -> u32 {
    match port {
        FlexSpiFlashPort::PortA => regs::STS2_ASLVLOCK | regs::STS2_AREFLOCK,
        FlexSpiFlashPort::PortB => regs::STS2_BSLVLOCK | regs::STS2_BREFLOCK,
    }
}

/// DLL control register of a port.
pub open spec fn dllcr_of(port: FlexSpiFlashPort) -> u32 {
    match port {
        FlexSpiFlashPort::PortA => regs::DLLCR,
        FlexSpiFlashPort::PortB => (regs::DLLCR + 4) as u32,
    }
}

/// The AHB read sequence, stored with a zero-based count, when one is configured.
pub open spec fn ard_seq_ops(bank: u32, d: FlexspiDeviceConfig) -> Seq<RegOp> {
    if d.ard_seq_number > 0 {
        seq![
            RegOp::Modify {
                offset: (regs::FLSHCR2 + 4 * bank) as u32,
                clear: regs::FLSHCR2_ARDSEQID_MASK | regs::FLSHCR2_ARDSEQNUM_MASK,
                set: ((((d.ard_seq_number - 1) as u32) & 0x7u32) << 5u32) | ((d.ard_seq_index as u32) & 0x1Fu32),
            },
        ]
    } else {
        Seq::empty()
    }
}

/// Device configuration: wait for the controller to be idle, program the DLL and
/// write mask of the port, flash size, chip-select timing and AHB sequences of the
/// bank, enable the module, wait for DLL lock, then let the DLL settle.
pub open spec fn device_ops(
    port: FlexSpiFlashPort,
    bank: u32,
    d: FlexspiDeviceConfig,
    cfg: FlexspiConfig,
) -> Seq<RegOp> {
    seq![
        RegOp::WaitBits { offset: regs::STS0, mask: regs::STS0_SEQIDLE | regs::STS0_ARBIDLE, until_set: true },
        RegOp::Write {
            offset: dllcr_of(port),
            value: dll_value(cfg.rx_sample_clock, d.is_sck2_enabled, d.flexspi_root_clk, d.data_valid_time),
        },
        RegOp::Modify {
            offset: regs::FLSHCR4,
            clear: regs::FLSHCR4_WMOPT1 | write_mask_bit(port),
            set: flag(d.enable_write_mask, regs::FLSHCR4_WMOPT1 | write_mask_bit(port)),
        },
        RegOp::Modify {
            offset: (regs::FLSHCR0 + 4 * bank) as u32,
            clear: regs::FLSHCR0_FLSHSZ_MASK,
            set: d.flash_size_kb & regs::FLSHCR0_FLSHSZ_MASK,
        },
        RegOp::Modify { offset: (regs::FLSHCR1 + 4 * bank) as u32, clear: regs::FLSHCR1_ALL, set: flshcr1_value(d) },
        RegOp::Modify {
            offset: (regs::FLSHCR2 + 4 * bank) as u32,
            clear: regs::FLSHCR2_AWRWAITUNIT_MASK,
            set: wait_unit_bits(d.ahb_write_wait_unit),
        },
    ] + ard_seq_ops(bank, d) + seq![
        RegOp::Modify { offset: regs::MCR0, clear: regs::MCR0_MDIS, set: 0 },
        RegOp::WaitBits { offset: regs::STS2, mask: dll_lock_bits(port), until_set: true },
        RegOp::Delay { cycles: DLL_SETTLE_CYCLES },
    ]
}


fn rxclksrc(c: FlexspiReadSampleClock) -> (r: u32)
    ensures
        r == rxclksrc_bits(c),
{
    match c {
        FlexspiReadSampleClock::FlexspiReadSampleClkLoopbackInternally => 0x00,
        FlexspiReadSampleClock::FlexspiReadSampleClkLoopbackFromDqsPad => 0x10,
        FlexspiReadSampleClock::FlexspiReadSampleClkLoopbackFromSckPad => 0x30,
        FlexspiReadSampleClock::FlexspiReadSampleClkExternalInputFromDqsPad => 0x30,
    }
}

fn rxbuf_value(b: &FlexspiAhbBufferConfig) -> (r: u32)
    ensures
        r == rxbuf_settings(*b),
{
    (((b.buffer_size / 8) as u32) & regs::RXBUF_BUFSZ_MASK) | (((b.master_index as u32) << 16u32)
        & regs::RXBUF_MSTRID_MASK) | (((b.priority as u32) << 24u32) & regs::RXBUF_PRIORITY_MASK) | flag_bits(
        b.enable_prefetch,
        regs::RXBUF_PREFETCHEN,
    )
}

fn wait_unit(u: FlexspiAhbWriteWaitUnit) -> (r: u32)
    ensures
        r == wait_unit_bits(u),
{
    match u {
        FlexspiAhbWriteWaitUnit::FlexspiAhbWriteWaitUnit2ahbCycle => 0x0000_0000,
        FlexspiAhbWriteWaitUnit::FlexspiAhbWriteWaitUnit8ahbCycle => 0x1000_0000,
        FlexspiAhbWriteWaitUnit::FlexspiAhbWriteWaitUnit32ahbCycle => 0x2000_0000,
        FlexspiAhbWriteWaitUnit::FlexspiAhbWriteWaitUnit128ahbCycle => 0x3000_0000,
        FlexspiAhbWriteWaitUnit::FlexspiAhbWriteWaitUnit512ahbCycle => 0x4000_0000,
        FlexspiAhbWriteWaitUnit::FlexspiAhbWriteWaitUnit2048ahbCycle => 0x5000_0000,
        FlexspiAhbWriteWaitUnit::FlexspiAhbWriteWaitUnit8192ahbCycle => 0x6000_0000,
        FlexspiAhbWriteWaitUnit::FlexspiAhbWriteWaitUnit32768ahbCycle => 0x7000_0000,
    }
}

fn mcr0_value(cfg: &FlexspiConfig) -> (r: u32)
    ensures
        r == mcr0_settings(*cfg),
{
    rxclksrc(cfg.rx_sample_clock) | flag_bits(cfg.enable_doze, regs::MCR0_DOZEEN) | flag_bits(
        cfg.enable_sck_free_running,
        regs::MCR0_SCKFREERUNEN,
    ) | flag_bits(cfg.enable_half_speed_access, regs::MCR0_HSEN) | ((cfg.ip_grant_timeout_cycle as u32) << 16u32) | ((
    cfg.ahb_config.ahb_grant_timeout_cycle as u32) << 24u32)
}

fn mcr1_word(cfg: &FlexspiConfig) -> (r: u32)
    ensures
        r == mcr1_value(*cfg),
{
    ((cfg.seq_timeout_cycle as u32) << 16u32) | (cfg.ahb_config.ahb_bus_timeout_cycle as u32)
}

fn mcr2_value(cfg: &FlexspiConfig) -> (r: u32)
    ensures
        r == mcr2_settings(*cfg),
{
    flag_bits(cfg.enable_same_config_for_all, regs::MCR2_SAMEDEVICEEN) | flag_bits(
        cfg.enable_sck_b_diff_opt,
        regs::MCR2_SCKBDIFFOPT,
    ) | flag_bits(cfg.ahb_config.enable_clear_ahb_buffer_opt, regs::MCR2_CLRAHBBUFOPT) | ((
    cfg.ahb_config.resume_wait_cycle as u32) << 24u32)
}

fn ahbcr_value(cfg: &FlexspiConfig) -> (r: u32)
    ensures
        r == ahbcr_settings(*cfg),
{
    flag_bits(cfg.ahb_config.enable_read_address_opt, regs::AHBCR_READADDROPT) | flag_bits(
        cfg.ahb_config.enable_ahb_prefetch,
        regs::AHBCR_PREFETCHEN,
    ) | flag_bits(cfg.ahb_config.enable_ahb_bufferable, regs::AHBCR_BUFFERABLEEN) | flag_bits(
        cfg.ahb_config.enable_ahb_cachable,
        regs::AHBCR_CACHABLEEN,
    )
}

fn flshcr1_word(d: &FlexspiDeviceConfig) -> (r: u32)
    ensures
        r == flshcr1_value(*d),
{
    let unit256 = match d.cs_interval_unit {
        FlexspiCsIntervalCycleUnit::CsIntervalUnit256Cycle => true,
        FlexspiCsIntervalCycleUnit::CsIntervalUnit1Cycle => false,
    };
    ((d.cs_setup_time as u32) & 0x1Fu32) | (((d.cs_hold_time as u32) & 0x1Fu32) << 5u32) | flag_bits(
        d.enable_word_address,
        regs::FLSHCR1_WA,
    ) | (((d.columnspace as u32) & 0xFu32) << 11u32) | flag_bits(unit256, regs::FLSHCR1_CSINTERVALUNIT) | ((
    d.cs_interval as u32) << 16u32)
}

/// The configuration manager of one bound port and device.
pub struct FlexSpiConfigurationPort {
    /// Bus width of the device.
    pub bus_width: FlexSpiBusWidth,
    /// Port the device is attached to.
    pub flash_port: FlexSpiFlashPort,
    /// Position of the device on its port.
    pub device_instance: FlexSpiFlashPortDeviceInstance,
}

impl FlexSpiConfigurationPort {
    /// Computes the DLL control value for a device and controller configuration.
    pub fn calc_dll_value(device_config: &FlexspiDeviceConfig, flexspi_config: &FlexspiConfig) -> (r: u32)
        ensures
            r == dll_value(
                flexspi_config.rx_sample_clock,
                device_config.is_sck2_enabled,
                device_config.flexspi_root_clk,
                device_config.data_valid_time,
            ),
    {
        let external = match flexspi_config.rx_sample_clock {
            FlexspiReadSampleClock::FlexspiReadSampleClkExternalInputFromDqsPad => true,
            _ => false,
        };
        if !(external && device_config.is_sck2_enabled) {
            0x100
        } else if device_config.flexspi_root_clk >= 100_000_000 {
            0x1u32 | (0xFu32 << 3u32)
        } else {
            let temp: u32 = device_config.data_valid_time as u32 * 1000;
            let mut cells: u32 = temp / 75;
            if cells * 75 < temp {
                cells = cells + 1;
            }
            assert(cells as int == (temp as int + 74) / 75) by (nonlinear_arith)
                requires
                    temp <= 255_000,
                    (cells == temp / 75 && !(cells * 75 < temp)) || (cells == temp / 75 + 1 && (temp / 75) * 75 < temp),
            ;
            0x100u32 | ((cells & 0x78u32) << 9u32)
        }
    }

    /// Builds the one-time controller setup of `configure_ops` for the bound bank.
    pub fn configure_flexspi(&self, config: &FlexspiConfig) -> (r: Vec<RegOp>)
        ensures
            r@ == configure_ops(bank_of(self.flash_port, self.device_instance), *config),
    {
        let b = bank(self.flash_port, self.device_instance);
        let mut ops: Vec<RegOp> = Vec::new();
        ops.push(RegOp::Modify { offset: regs::MCR0, clear: regs::MCR0_MDIS, set: 0 });
        ops.push(RegOp::Modify { offset: regs::MCR0, clear: 0, set: regs::MCR0_SWRESET });
        ops.push(RegOp::WaitBits { offset: regs::MCR0, mask: regs::MCR0_SWRESET, until_set: false });
        ops.push(RegOp::Modify { offset: regs::MCR0, clear: 0, set: regs::MCR0_MDIS });
        ops.push(RegOp::Modify { offset: regs::MCR0, clear: MCR0_SETTINGS, set: mcr0_value(config) });
        ops.push(RegOp::Write { offset: regs::MCR1, value: mcr1_word(config) });
        ops.push(RegOp::Modify { offset: regs::MCR2, clear: MCR2_SETTINGS, set: mcr2_value(config) });
        ops.push(RegOp::Modify { offset: regs::AHBCR, clear: AHBCR_SETTINGS, set: ahbcr_value(config) });
        let ghost head = ops@;
        let mut i: usize = 0;
        while i < 8
            invariant
                i <= 8,
                ops@ == head + rxbuf_ops(config.ahb_config.buffer@).subrange(0, i as int),
            decreases 8 - i,
        {
            let v = rxbuf_value(&config.ahb_config.buffer[i]);
            ops.push(RegOp::Modify { offset: regs::AHBRXBUFCR0 + 4 * (i as u32), clear: RXBUF_SETTINGS, set: v });
            i = i + 1;
            assert(ops@ =~= head + rxbuf_ops(config.ahb_config.buffer@).subrange(0, i as int));
        }
        ops.push(RegOp::Modify { offset: regs::FLSHCR0 + 4 * b, clear: regs::FLSHCR0_FLSHSZ_MASK, set: 0 });
        ops.push(RegOp::Modify { offset: regs::IPRXFCR, clear: regs::FIFO_WMRK_MASK, set: 0 });
        ops.push(RegOp::Modify { offset: regs::IPTXFCR, clear: regs::FIFO_WMRK_MASK, set: 0 });
        assert(rxbuf_ops(config.ahb_config.buffer@).subrange(0, 8) =~= rxbuf_ops(config.ahb_config.buffer@));
        assert(ops@ =~= configure_ops(b, *config));
        ops
    }

    /// Builds the device configuration of `device_ops` for the bound port and bank.
    pub fn configure_flexspi_device(&self, device_config: &FlexspiDeviceConfig, flexspi_config: &FlexspiConfig) -> (r:
        Vec<RegOp>)
        ensures
            r@ == device_ops(
                self.flash_port,
                bank_of(self.flash_port, self.device_instance),
                *device_config,
                *flexspi_config,
            ),
    {
        let d = device_config;
        let b = bank(self.flash_port, self.device_instance);
        let (dllcr, wmen, lock): (u32, u32, u32) = match self.flash_port {
            FlexSpiFlashPort::PortA => (regs::DLLCR, regs::FLSHCR4_WMENA, regs::STS2_ASLVLOCK | regs::STS2_AREFLOCK),
            FlexSpiFlashPort::PortB => (regs::DLLCR + 4, regs::FLSHCR4_WMENB, regs::STS2_BSLVLOCK | regs::STS2_BREFLOCK),
        };
        let mut ops: Vec<RegOp> = Vec::new();
        ops.push(RegOp::WaitBits { offset: regs::STS0, mask: regs::STS0_SEQIDLE | regs::STS0_ARBIDLE, until_set: true });
        ops.push(RegOp::Write { offset: dllcr, value: Self::calc_dll_value(d, flexspi_config) });
        ops.push(RegOp::Modify {
            offset: regs::FLSHCR4,
            clear: regs::FLSHCR4_WMOPT1 | wmen,
            set: flag_bits(d.enable_write_mask, regs::FLSHCR4_WMOPT1 | wmen),
        });
        ops.push(RegOp::Modify {
            offset: regs::FLSHCR0 + 4 * b,
            clear: regs::FLSHCR0_FLSHSZ_MASK,
            set: d.flash_size_kb & regs::FLSHCR0_FLSHSZ_MASK,
        });
        let cr1 = flshcr1_word(d);
        ops.push(RegOp::Modify { offset: regs::FLSHCR1 + 4 * b, clear: regs::FLSHCR1_ALL, set: cr1 });
        ops.push(RegOp::Modify {
            offset: regs::FLSHCR2 + 4 * b,
            clear: regs::FLSHCR2_AWRWAITUNIT_MASK,
            set: wait_unit(d.ahb_write_wait_unit),
        });
        if d.ard_seq_number > 0 {
            ops.push(RegOp::Modify {
                offset: regs::FLSHCR2 + 4 * b,
                clear: regs::FLSHCR2_ARDSEQID_MASK | regs::FLSHCR2_ARDSEQNUM_MASK,
                set: ((((d.ard_seq_number - 1) as u32) & 0x7u32) << 5u32) | ((d.ard_seq_index as u32) & 0x1Fu32),
            });
        }
        ops.push(RegOp::Modify { offset: regs::MCR0, clear: regs::MCR0_MDIS, set: 0 });
        ops.push(RegOp::WaitBits { offset: regs::STS2, mask: lock, until_set: true });
        ops.push(RegOp::Delay { cycles: DLL_SETTLE_CYCLES });
        assert(ops@ =~= device_ops(self.flash_port, b, *d, *flexspi_config));
        ops
    }
}

} // verus!
