//! The command, data and configuration ports of a controller, and the execution
//! modes that decide which operations each port offers.
use vstd::prelude::*;
use crate::command::{command_ops, drain_ops, lut_load, lut_load_ops, push_drain, slot_of, cmd_words, watermark_ok, command_program, FlexSpiCmd};
use crate::config::{bank, bank_of, FlexSpiBusWidth, FlexSpiConfigurationPort, FlexSpiFlashPort, FlexSpiFlashPortDeviceInstance};
use crate::error::FlexSpiOpError;
use crate::regs;
use crate::regs::RegOp;

verus! {

/// Where the code that drives the controller runs, with blocking execution.
#[derive(Debug, Clone, Copy, PartialEq, Eq, Structural)]
pub enum ExecMode {
    /// Running from RAM: the command path may erase and program.
    RamBlocking,
    /// Executing in place from the flash itself: command-path erase is refused.
    XipBlocking,
}

/// Status register bit of the flash: an erase or program is still running.
pub const STATUS_WIP: u8 = 0x1;

/// Tracks an erase until the device reports its write-in-progress bit clear.
#[derive(Debug, Clone, Copy, PartialEq, Eq, Structural)]
pub struct WipTracker {
    /// An erase was issued and its completion has not been observed.
    pub pending: bool,
    /// Status polls issued since the erase.
    pub polls: u32,
}

/// The tracker after the engine decides whether to poll: a poll is issued, and
/// counted, exactly while an erase is pending.
pub open spec fn after_poll(t: WipTracker) -> WipTracker {
    if t.pending && t.polls < u32::MAX {
        WipTracker { pending: true, polls: (t.polls + 1) as u32 }
    } else {
        t
    }
}

/// The tracker after a status byte was read: a clear write-in-progress bit ends the wait.
pub open spec fn after_status(t: WipTracker, status: u8) -> WipTracker {
    if t.pending && status & STATUS_WIP == 0 {
        WipTracker { pending: false, polls: t.polls }
    } else {
        t
    }
}

/// The tracker after polling with the status bytes `statuses` as the device's
/// answers, one per poll, until the engine stops polling or the answers run out.
pub open spec fn drive(t: WipTracker, statuses: Seq<u8>) -> WipTracker
    decreases statuses.len(),
{
    if !t.pending || statuses.len() == 0 {
        t
    } else {
        drive(after_status(after_poll(t), statuses[0]), statuses.drop_first())
    }
}

impl WipTracker {
    /// Decides whether another status poll is due, and counts it.
    pub fn poll(&mut self) -> (due: bool)
        ensures
            due == old(self).pending,
            *final(self) == after_poll(*old(self)),
    {
        if self.pending && self.polls < u32::MAX {
            self.polls = self.polls + 1;
        }
        self.pending
    }

    /// Records a status byte read from the device.
    pub fn observe(&mut self, status: u8)
        ensures
            *final(self) == after_status(*old(self), status),
    {
        if self.pending && status & STATUS_WIP == 0 {
            self.pending = false;
        }
    }
}

/// Erase completion gating: when the device answers the first `n - 1` polls with
/// the write-in-progress bit set and the `n`-th with it clear, the engine issues
/// exactly `n` polls and then no more, whatever the device would answer after.
pub proof fn lemma_erase_polls(statuses: Seq<u8>, n: nat)
    requires
        1 <= n <= statuses.len(),
        n < u32::MAX,
        forall|i: int| 0 <= i < n - 1 ==> #[trigger] statuses[i] & STATUS_WIP != 0,
        statuses[n - 1] & STATUS_WIP == 0,
    ensures
        drive(WipTracker { pending: true, polls: 0 }, statuses) == (WipTracker { pending: false, polls: n as u32 }),
{
    lemma_drive_from(statuses, n, 0);
    assert(statuses.subrange(0, statuses.len() as int) =~= statuses);
}

proof fn lemma_drive_from(statuses: Seq<u8>, n: nat, k: nat)
    requires
        k < n <= statuses.len(),
        n < u32::MAX,
        forall|i: int| 0 <= i < n - 1 ==> #[trigger] statuses[i] & STATUS_WIP != 0,
        statuses[n - 1] & STATUS_WIP == 0,
    ensures
        drive(WipTracker { pending: true, polls: k as u32 }, statuses.subrange(k as int, statuses.len() as int))
            == (WipTracker { pending: false, polls: n as u32 }),
    decreases n - k,
{
    let rest = statuses.subrange(k as int, statuses.len() as int);
    let t = WipTracker { pending: true, polls: k as u32 };
    assert(rest[0] == statuses[k as int]);
    assert(rest.drop_first() =~= statuses.subrange((k + 1) as int, statuses.len() as int));
    let t1 = after_status(after_poll(t), rest[0]);
    assert(drive(t, rest) == drive(t1, rest.drop_first()));
    if k + 1 == n {
        assert(t1 == (WipTracker { pending: false, polls: n as u32 }));
        assert(drive(t1, rest.drop_first()) == t1);
    } else {
        assert(statuses[k as int] & STATUS_WIP != 0);
        assert(t1 == (WipTracker { pending: true, polls: (k + 1) as u32 }));
        lemma_drive_from(statuses, n, k + 1);
    }
}


/// The IP command port: issues one command at a time through the command path.
pub struct FlexSpiCmdPort {
    mode: ExecMode,
    rx_watermark: u8,
    tx_watermark: u8,
    wip: WipTracker,
}

impl FlexSpiCmdPort {
    #[verifier::type_invariant]
    spec fn watermarks_ok(self) -> bool {
        watermark_ok(self.rx_watermark) && watermark_ok(self.tx_watermark)
    }

    /// The execution mode of the port.
    pub closed spec fn spec_mode(&self) -> ExecMode {
        self.mode
    }

    /// The receive FIFO watermark, in bytes.
    pub closed spec fn spec_rx_watermark(&self) -> u8 {
        self.rx_watermark
    }

    /// The transmit FIFO watermark, in bytes.
    pub closed spec fn spec_tx_watermark(&self) -> u8 {
        self.tx_watermark
    }

    /// The erase being tracked, if any.
    pub closed spec fn spec_wip(&self) -> WipTracker {
        self.wip
    }

    /// The program of an IP command of this port, with `size` bytes drained after it.
    pub open spec fn cmd_ops(&self, c: FlexSpiCmd, addr: u32, size: u32) -> Seq<RegOp> {
        command_ops(c, addr, size, self.spec_rx_watermark(), self.spec_tx_watermark()) + drain_ops(
            size as nat,
            self.spec_rx_watermark() as nat,
        )
    }

    /// A command port in `mode` with 8-byte FIFO watermarks and no erase pending.
    pub fn new(mode: ExecMode) -> (r: Self)
        ensures
            r.spec_mode() == mode,
            r.spec_rx_watermark() == 8,
            r.spec_tx_watermark() == 8,
            r.spec_wip() == (WipTracker { pending: false, polls: 0 }),
    {
        FlexSpiCmdPort { mode, rx_watermark: 8, tx_watermark: 8, wip: WipTracker { pending: false, polls: 0 } }
    }

    /// The execution mode of the port.
    pub fn mode(&self) -> (r: ExecMode)
        ensures
            r == self.spec_mode(),
    {
        self.mode
    }

    /// The erase being tracked, if any.
    pub fn wip(&self) -> (r: WipTracker)
        ensures
            r == self.spec_wip(),
    {
        self.wip
    }

    fn program(&self, c: FlexSpiCmd, addr: u32, size: u32) -> (r: Vec<RegOp>)
        ensures
            r@ == self.cmd_ops(c, addr, size),
    {
        proof {
            use_type_invariant(self);
        }
        let mut ops = command_program(c, addr, size, self.rx_watermark, self.tx_watermark);
        push_drain(&mut ops, size, self.rx_watermark);
        ops
    }

    /// Sets the device's write-enable latch. Refused while an erase is pending.
    pub fn write_enable(&mut self) -> (r: Result<Vec<RegOp>, FlexSpiOpError>)
        ensures
            *final(self) == *old(self),
            match r {
                Ok(p) => !old(self).spec_wip().pending && p@ == old(self).cmd_ops(FlexSpiCmd::WriteEnable, 0, 0),
                Err(e) => old(self).spec_wip().pending && e == FlexSpiOpError::DeviceBusy,
            },
    {
        if self.wip.pending {
            return Err(FlexSpiOpError::DeviceBusy);
        }
        Ok(self.program(FlexSpiCmd::WriteEnable, 0, 0))
    }

    /// Reads the device's status register: one byte, drained from the receive FIFO.
    pub fn read_status_register(&self) -> (r: Vec<RegOp>)
        ensures
            r@ == self.cmd_ops(FlexSpiCmd::ReadStatusRegister, 0, 1),
    {
        self.program(FlexSpiCmd::ReadStatusRegister, 0, 1)
    }

    /// Reads `size` bytes of device identification. Refused while an erase is pending.
    pub fn read_id(&mut self, size: u32) -> (r: Result<Vec<RegOp>, FlexSpiOpError>)
        ensures
            *final(self) == *old(self),
            match r {
                Ok(p) => !old(self).spec_wip().pending && p@ == old(self).cmd_ops(FlexSpiCmd::ReadId, 0, size),
                Err(e) => old(self).spec_wip().pending && e == FlexSpiOpError::DeviceBusy,
            },
    {
        if self.wip.pending {
            return Err(FlexSpiOpError::DeviceBusy);
        }
        Ok(self.program(FlexSpiCmd::ReadId, 0, size))
    }

    /// Erases the sector at `addr` and starts tracking the erase. Refused, before
    /// any register operation, when executing in place or while an erase is pending.
    pub fn erase_sector(&mut self, addr: u32) -> (r: Result<Vec<RegOp>, FlexSpiOpError>)
        ensures
            match r {
                Ok(p) => old(self).spec_mode() == ExecMode::RamBlocking && !old(self).spec_wip().pending && p@ == old(
                    self,
                ).cmd_ops(FlexSpiCmd::EraseSector, addr, 0) && final(self).spec_wip() == (WipTracker {
                    pending: true,
                    polls: 0,
                }) && final(self).spec_mode() == old(self).spec_mode() && final(self).spec_rx_watermark() == old(
                    self,
                ).spec_rx_watermark() && final(self).spec_tx_watermark() == old(self).spec_tx_watermark(),
                Err(e) => *final(self) == *old(self) && if old(self).spec_mode() == ExecMode::XipBlocking {
                    e == FlexSpiOpError::NotSupportedInMode
                } else {
                    old(self).spec_wip().pending && e == FlexSpiOpError::DeviceBusy
                },
            },
    {
        if self.mode == ExecMode::XipBlocking {
            return Err(FlexSpiOpError::NotSupportedInMode);
        }
        if self.wip.pending {
            return Err(FlexSpiOpError::DeviceBusy);
        }
        let ops = self.program(FlexSpiCmd::EraseSector, addr, 0);
        proof {
            use_type_invariant(&*self);
        }
        self.wip = WipTracker { pending: true, polls: 0 };
        Ok(ops)
    }

    /// Erases the sector that holds `from`; one sector per call, as the device
    /// must report the erase complete before the next command.
    pub fn erase(&mut self, from: u32, _to: u32) -> (r: Result<Vec<RegOp>, FlexSpiOpError>)
        ensures
            match r {
                Ok(p) => old(self).spec_mode() == ExecMode::RamBlocking && !old(self).spec_wip().pending && p@ == old(
                    self,
                ).cmd_ops(FlexSpiCmd::EraseSector, from, 0) && final(self).spec_wip() == (WipTracker {
                    pending: true,
                    polls: 0,
                }) && final(self).spec_mode() == old(self).spec_mode() && final(self).spec_rx_watermark() == old(
                    self,
                ).spec_rx_watermark() && final(self).spec_tx_watermark() == old(self).spec_tx_watermark(),
                Err(e) => *final(self) == *old(self) && if old(self).spec_mode() == ExecMode::XipBlocking {
                    e == FlexSpiOpError::NotSupportedInMode
                } else {
                    old(self).spec_wip().pending && e == FlexSpiOpError::DeviceBusy
                },
            },
    {
        self.erase_sector(from)
    }

    /// Starts waiting for a program or erase that the device is running: status
    /// polls are then due until the device reports its write-in-progress bit clear.
    pub fn wait_for_operation_completion(&mut self)
        ensures
            final(self).spec_wip() == (WipTracker { pending: true, polls: 0 }),
            final(self).spec_mode() == old(self).spec_mode(),
            final(self).spec_rx_watermark() == old(self).spec_rx_watermark(),
            final(self).spec_tx_watermark() == old(self).spec_tx_watermark(),
    {
        proof {
            use_type_invariant(&*self);
        }
        self.wip = WipTracker { pending: true, polls: 0 };
    }

    /// The next status poll of a pending operation, or `None` once the device has
    /// reported it complete.
    pub fn next_wip_poll(&mut self) -> (r: Option<Vec<RegOp>>)
        ensures
            final(self).spec_wip() == after_poll(old(self).spec_wip()),
            final(self).spec_mode() == old(self).spec_mode(),
            final(self).spec_rx_watermark() == old(self).spec_rx_watermark(),
            final(self).spec_tx_watermark() == old(self).spec_tx_watermark(),
            match r {
                Some(p) => old(self).spec_wip().pending && p@ == old(self).cmd_ops(FlexSpiCmd::ReadStatusRegister, 0, 1),
                None => !old(self).spec_wip().pending,
            },
    {
        proof {
            use_type_invariant(&*self);
        }
        let mut w = self.wip;
        let due = w.poll();
        self.wip = w;
        if due {
            Some(self.read_status_register())
        } else {
            None
        }
    }

    /// Records a status byte read from the device while an operation is tracked.
    pub fn observe_status(&mut self, status: u8)
        ensures
            final(self).spec_wip() == after_status(old(self).spec_wip(), status),
            final(self).spec_mode() == old(self).spec_mode(),
            final(self).spec_rx_watermark() == old(self).spec_rx_watermark(),
            final(self).spec_tx_watermark() == old(self).spec_tx_watermark(),
    {
        proof {
            use_type_invariant(&*self);
        }
        let mut w = self.wip;
        w.observe(status);
        self.wip = w;
    }

    /// Bulk reads go through the data port.
    pub fn read(&self, _offset: u32, _len: usize) -> (r: Result<Vec<RegOp>, FlexSpiOpError>)
        ensures
            r == Err::<Vec<RegOp>, FlexSpiOpError>(FlexSpiOpError::NotSupportedOnPort),
    {
        Err(FlexSpiOpError::NotSupportedOnPort)
    }

    /// Bulk writes go through the data port.
    pub fn write(&self, _offset: u32, _bytes: &[u8]) -> (r: Result<Vec<RegOp>, FlexSpiOpError>)
        ensures
            r == Err::<Vec<RegOp>, FlexSpiOpError>(FlexSpiOpError::NotSupportedOnPort),
    {
        Err(FlexSpiOpError::NotSupportedOnPort)
    }
}


/// Largest write through the data port, in bytes: one flash page.
pub const WRITE_PAGE_SIZE: usize = 256;

/// Byte loads of `len` bytes of the flash window from `offset` on.
pub open spec fn window_loads(offset: u32, len: nat) -> Seq<RegOp> {
    Seq::new(len, |i: int| RegOp::LoadWindowByte { offset: (offset + i) as u32 })
}

/// Byte `i` of `bytes`, or the erased value 0xFF past its end.
pub open spec fn padded_byte(bytes: Seq<u8>, i: int) -> u8 {
    if 0 <= i < bytes.len() {
        bytes[i]
    } else {
        0xFF
    }
}

/// Word `k` of `bytes`, little-endian, padded with 0xFF.
pub open spec fn le_word(bytes: Seq<u8>, k: int) -> u32 {
    (padded_byte(bytes, 4 * k) as u32) | ((padded_byte(bytes, 4 * k + 1) as u32) << 8u32) | ((padded_byte(
        bytes,
        4 * k + 2,
    ) as u32) << 16u32) | ((padded_byte(bytes, 4 * k + 3) as u32) << 24u32)
}

/// Word stores that place `bytes` in the flash window at `offset`.
pub open spec fn word_stores(offset: u32, bytes: Seq<u8>) -> Seq<RegOp> {
    Seq::new(
        ((bytes.len() + 3) / 4) as nat,
        |k: int| RegOp::StoreWindowWord { offset: (offset + 4 * k) as u32, value: le_word(bytes, k) },
    )
}

/// Points the AHB write sequence of `bank` at a freshly loaded page-program slot.
pub open spec fn setup_write_ops(bank: u32) -> Seq<RegOp> {
    lut_load_ops(slot_of(FlexSpiCmd::PageProgram), cmd_words(FlexSpiCmd::PageProgram)) + seq![
        RegOp::Modify {
            offset: (regs::FLSHCR2 + 4 * bank) as u32,
            clear: regs::FLSHCR2_AWRSEQID_MASK,
            set: slot_of(FlexSpiCmd::PageProgram) << 8u32,
        },
    ]
}

/// The data port: bulk access through the memory-mapped flash window.
#[derive(Debug, Clone, Copy)]
pub struct FlexSpiDataPort {
    /// The execution mode of the port.
    pub mode: ExecMode,
    /// The port of the bound device.
    pub flash_port: FlexSpiFlashPort,
    /// The position of the bound device on its port.
    pub device_instance: FlexSpiFlashPortDeviceInstance,
}

fn padded(bytes: &[u8], i: usize) -> (r: u8)
    ensures
        r == padded_byte(bytes@, i as int),
{
    if i < bytes.len() {
        bytes[i]
    } else {
        0xFF
    }
}

impl FlexSpiDataPort {
    /// The bank of flash control registers of the bound device.
    pub open spec fn spec_bank(&self) -> u32 {
        bank_of(self.flash_port, self.device_instance)
    }

    /// Reads `len` bytes of the window from `offset` on, one byte load each.
    pub fn read(&self, offset: u32, len: usize) -> (r: Vec<RegOp>)
        requires
            offset + len <= u32::MAX + 1,
        ensures
            r@ == window_loads(offset, len as nat),
    {
        let mut ops: Vec<RegOp> = Vec::new();
        let mut i: usize = 0;
        while i < len
            invariant
                i <= len,
                offset + len <= u32::MAX + 1,
                ops@ == window_loads(offset, i as nat),
            decreases len - i,
        {
            ops.push(RegOp::LoadWindowByte { offset: offset + i as u32 });
            i = i + 1;
            assert(ops@ =~= window_loads(offset, i as nat));
        }
        ops
    }

    /// Loads the page-program sequence and selects it for AHB writes of the bound bank.
    pub fn setup_write_transfer(&self) -> (r: Vec<RegOp>)
        ensures
            r@ == setup_write_ops(self.spec_bank()),
    {
        let c = FlexSpiCmd::PageProgram;
        let slot = c.slot();
        let words = c.lut_words();
        let mut ops = lut_load(slot, &words);
        let b = bank(self.flash_port, self.device_instance);
        ops.push(RegOp::Modify { offset: regs::FLSHCR2 + 4 * b, clear: regs::FLSHCR2_AWRSEQID_MASK, set: slot << 8u32 });
        assert(ops@ =~= setup_write_ops(self.spec_bank()));
        ops
    }

    /// Writes `bytes` at `offset` of the window.
    ///
    /// Running from RAM, up to one page is stored a little-endian word at a time,
    /// the last word padded with 0xFF. Executing in place, the page-program
    /// sequence is loaded and the first byte stored.
    pub fn write(&self, offset: u32, bytes: &[u8]) -> (r: Result<Vec<RegOp>, FlexSpiOpError>)
        requires
            offset + bytes@.len() + 3 <= u32::MAX + 1,
        ensures
            match self.mode {
                ExecMode::RamBlocking => if bytes@.len() > WRITE_PAGE_SIZE {
                    r == Err::<Vec<RegOp>, FlexSpiOpError>(FlexSpiOpError::TooLarge)
                } else {
                    r matches Ok(p) && p@ == word_stores(offset, bytes@)
                },
                ExecMode::XipBlocking => r matches Ok(p) && p@ == setup_write_ops(self.spec_bank()) + if bytes@.len()
                    > 0 {
                    seq![RegOp::StoreWindowByte { offset, byte: bytes@[0] }]
                } else {
                    Seq::empty()
                },
            },
    {
        match self.mode {
            ExecMode::RamBlocking => {
                if bytes.len() > WRITE_PAGE_SIZE {
                    return Err(FlexSpiOpError::TooLarge);
                }
                let n: usize = (bytes.len() + 3) / 4;
                let mut ops: Vec<RegOp> = Vec::new();
                let mut k: usize = 0;
                while k < n
                    invariant
                        k <= n,
                        n == (bytes@.len() + 3) / 4,
                        bytes@.len() <= WRITE_PAGE_SIZE,
                        offset + bytes@.len() + 3 <= u32::MAX + 1,
                        ops@ == word_stores(offset, bytes@).subrange(0, k as int),
                    decreases n - k,
                {
                    let w: u32 = (padded(bytes, 4 * k) as u32) | ((padded(bytes, 4 * k + 1) as u32) << 8u32) | ((padded(
                        bytes,
                        4 * k + 2,
                    ) as u32) << 16u32) | ((padded(bytes, 4 * k + 3) as u32) << 24u32);
                    ops.push(RegOp::StoreWindowWord { offset: offset + 4 * k as u32, value: w });
                    k = k + 1;
                    assert(ops@ =~= word_stores(offset, bytes@).subrange(0, k as int));
                }
                assert(ops@ =~= word_stores(offset, bytes@));
                Ok(ops)
            },
            ExecMode::XipBlocking => {
                let mut ops = self.setup_write_transfer();
                if bytes.len() > 0 {
                    ops.push(RegOp::StoreWindowByte { offset, byte: bytes[0] });
                }
                assert(ops@ =~= setup_write_ops(self.spec_bank()) + if bytes@.len() > 0 {
                    seq![RegOp::StoreWindowByte { offset, byte: bytes@[0] }]
                } else {
                    Seq::empty()
                });
                Ok(ops)
            },
        }
    }

    /// Erasing goes through the command port.
    pub fn erase(&self, _from: u32, _to: u32) -> (r: Result<Vec<RegOp>, FlexSpiOpError>)
        ensures
            r == Err::<Vec<RegOp>, FlexSpiOpError>(FlexSpiOpError::NotSupportedOnPort),
    {
        Err(FlexSpiOpError::NotSupportedOnPort)
    }

    /// The read of the flash control register that holds the bound device's size.
    pub fn capacity_query(&self) -> (r: RegOp)
        ensures
            r == (RegOp::Read { offset: (regs::FLSHCR0 + 4 * self.spec_bank()) as u32 }),
    {
        RegOp::Read { offset: regs::FLSHCR0 + 4 * bank(self.flash_port, self.device_instance) }
    }

    /// The flash size, in KB, held in the value read by `capacity_query`.
    pub fn capacity(&self, flshcr0: u32) -> (r: usize)
        ensures
            r == flshcr0 & regs::FLSHCR0_FLSHSZ_MASK,
    {
        (flshcr0 & regs::FLSHCR0_FLSHSZ_MASK) as usize
    }
}

/// The byte the window holds at `a`; 0xFF where nothing was stored.
pub open spec fn window_byte(mem: Map<u32, u8>, a: u32) -> u8 {
    if mem.contains_key(a) {
        mem[a]
    } else {
        0xFF
    }
}

/// The window after one operation.
pub open spec fn window_op(mem: Map<u32, u8>, op: RegOp) -> Map<u32, u8> {
    match op {
        RegOp::StoreWindowByte { offset, byte } => mem.insert(offset, byte),
        RegOp::StoreWindowWord { offset, value } => mem.insert(offset, (value & 0xffu32) as u8).insert(
            (offset + 1) as u32,
            ((value >> 8u32) & 0xffu32) as u8,
        ).insert((offset + 2) as u32, ((value >> 16u32) & 0xffu32) as u8).insert(
            (offset + 3) as u32,
            ((value >> 24u32) & 0xffu32) as u8,
        ),
        _ => mem,
    }
}

/// The window after a program, in order.
pub open spec fn window_after(mem: Map<u32, u8>, ops: Seq<RegOp>) -> Map<u32, u8>
    decreases ops.len(),
{
    if ops.len() == 0 {
        mem
    } else {
        window_op(window_after(mem, ops.drop_last()), ops.last())
    }
}

/// The bytes that the loads of a program return from the window.
pub open spec fn loaded_bytes(mem: Map<u32, u8>, ops: Seq<RegOp>) -> Seq<u8> {
    Seq::new(
        ops.len(),
        |i: int|
            match ops[i] {
                RegOp::LoadWindowByte { offset } => window_byte(mem, offset),
                _ => 0,
            },
    )
}

proof fn lemma_le_word_bytes(b0: u8, b1: u8, b2: u8, b3: u8)
    ensures
        ({
            let w = (b0 as u32) | ((b1 as u32) << 8u32) | ((b2 as u32) << 16u32) | ((b3 as u32) << 24u32);
            &&& (w & 0xffu32) as u8 == b0
            &&& ((w >> 8u32) & 0xffu32) as u8 == b1
            &&& ((w >> 16u32) & 0xffu32) as u8 == b2
            &&& ((w >> 24u32) & 0xffu32) as u8 == b3
        }),
{
    assert({
        let w = (b0 as u32) | ((b1 as u32) << 8u32) | ((b2 as u32) << 16u32) | ((b3 as u32) << 24u32);
        &&& (w & 0xffu32) as u8 == b0
        &&& ((w >> 8u32) & 0xffu32) as u8 == b1
        &&& ((w >> 16u32) & 0xffu32) as u8 == b2
        &&& ((w >> 24u32) & 0xffu32) as u8 == b3
    }) by (bit_vector);
}

proof fn lemma_word_stores_prefix(mem: Map<u32, u8>, offset: u32, bytes: Seq<u8>, k: nat)
    requires
        k <= (bytes.len() + 3) / 4,
        offset + bytes.len() + 3 <= u32::MAX + 1,
    ensures
        forall|i: int|
            0 <= i < 4 * k ==> window_byte(
                window_after(mem, word_stores(offset, bytes).subrange(0, k as int)),
                #[trigger] ((offset + i) as u32),
            ) == padded_byte(bytes, i),
    decreases k,
{
    let s = word_stores(offset, bytes);
    if k > 0 {
        lemma_word_stores_prefix(mem, offset, bytes, (k - 1) as nat);
        let pre = s.subrange(0, k - 1);
        assert(s.subrange(0, k as int).drop_last() =~= pre);
        let m0 = window_after(mem, pre);
        let j = k - 1;
        lemma_le_word_bytes(
            padded_byte(bytes, 4 * j),
            padded_byte(bytes, 4 * j + 1),
            padded_byte(bytes, 4 * j + 2),
            padded_byte(bytes, 4 * j + 3),
        );
        assert forall|i: int| 0 <= i < 4 * k implies window_byte(
            window_after(mem, s.subrange(0, k as int)),
            #[trigger] ((offset + i) as u32),
        ) == padded_byte(bytes, i) by {
            if i < 4 * j {
                assert(window_byte(m0, (offset + i) as u32) == padded_byte(bytes, i));
            }
        }
    }
}

/// Round trip through the window: writing at most a page from RAM and then reading
/// the same range back returns the bytes written, whatever the window held before.
pub proof fn lemma_write_read_round_trip(mem: Map<u32, u8>, offset: u32, bytes: Seq<u8>)
    requires
        bytes.len() <= WRITE_PAGE_SIZE,
        offset + bytes.len() + 3 <= u32::MAX + 1,
    ensures
        loaded_bytes(window_after(mem, word_stores(offset, bytes)), window_loads(offset, bytes.len())) == bytes,
{
    let n = ((bytes.len() + 3) / 4) as nat;
    lemma_word_stores_prefix(mem, offset, bytes, n);
    assert(word_stores(offset, bytes).subrange(0, n as int) =~= word_stores(offset, bytes));
    let m = window_after(mem, word_stores(offset, bytes));
    assert forall|i: int| 0 <= i < bytes.len() implies #[trigger] loaded_bytes(m, window_loads(offset, bytes.len()))[i]
        == bytes[i] by {
        assert(window_byte(m, (offset + i) as u32) == padded_byte(bytes, i));
    }
    assert(loaded_bytes(m, window_loads(offset, bytes.len())) =~= bytes);
}

/// A controller bound to one port and device, split into its ports.
pub struct FlexSPI {
    /// The IP command port.
    pub cmdport: FlexSpiCmdPort,
    /// The memory-mapped data port.
    pub dataport: FlexSpiDataPort,
    /// The configuration port; only code running from RAM may reconfigure.
    pub configport: Option<FlexSpiConfigurationPort>,
}

impl FlexSPI {
    /// A controller for code executing in place: the boot ROM configured it.
    pub fn new_blocking_xip(port: FlexSpiFlashPort, dev_instance: FlexSpiFlashPortDeviceInstance) -> (r: Self)
        ensures
            r.cmdport.spec_mode() == ExecMode::XipBlocking,
            r.cmdport.spec_rx_watermark() == 8,
            r.cmdport.spec_tx_watermark() == 8,
            r.cmdport.spec_wip() == (WipTracker { pending: false, polls: 0 }),
            r.dataport == (FlexSpiDataPort {
                mode: ExecMode::XipBlocking,
                flash_port: port,
                device_instance: dev_instance,
            }),
            r.configport is None,
    {
        FlexSPI {
            cmdport: FlexSpiCmdPort::new(ExecMode::XipBlocking),
            dataport: FlexSpiDataPort { mode: ExecMode::XipBlocking, flash_port: port, device_instance: dev_instance },
            configport: None,
        }
    }

    /// A controller for code running from RAM, with its configuration port.
    pub fn new_blocking_ram(
        port: FlexSpiFlashPort,
        bus_width: FlexSpiBusWidth,
        dev_instance: FlexSpiFlashPortDeviceInstance,
    ) -> (r: Self)
        ensures
            r.cmdport.spec_mode() == ExecMode::RamBlocking,
            r.cmdport.spec_rx_watermark() == 8,
            r.cmdport.spec_tx_watermark() == 8,
            r.cmdport.spec_wip() == (WipTracker { pending: false, polls: 0 }),
            r.dataport == (FlexSpiDataPort {
                mode: ExecMode::RamBlocking,
                flash_port: port,
                device_instance: dev_instance,
            }),
            r.configport == Some(
                FlexSpiConfigurationPort { bus_width, flash_port: port, device_instance: dev_instance },
            ),
    {
        FlexSPI {
            cmdport: FlexSpiCmdPort::new(ExecMode::RamBlocking),
            dataport: FlexSpiDataPort { mode: ExecMode::RamBlocking, flash_port: port, device_instance: dev_instance },
            configport: Some(FlexSpiConfigurationPort { bus_width, flash_port: port, device_instance: dev_instance }),
        }
    }
}

} // verus!
