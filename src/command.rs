//! The well-known flash commands and the IP command programs that run them.
use vstd::prelude::*;
use crate::lut::{build_lut_program, lut_program, LUT_SLOTS};
use crate::regs;
use crate::regs::{apply_ops, lemma_last_store, lemma_untouched, reg, stores_to, RegOp};
use crate::storage::{NorStorageCmd, NorStorageCmdMode, NorStorageCmdType};

verus! {

/// The logical commands the engine issues through the IP command path.
#[derive(Debug, Clone, Copy, PartialEq, Eq, Structural)]
pub enum FlexSpiCmd {
    /// Set the device's write-enable latch.
    WriteEnable,
    /// Read the device's status register.
    ReadStatusRegister,
    /// Erase one sector.
    EraseSector,
    /// Read the device identification.
    ReadId,
    /// Program one page.
    PageProgram,
}

/// The LUT slot assigned to each command; fixed, one slot per command.
pub open spec fn slot_of(c: FlexSpiCmd) -> u32 {
    match c {
        FlexSpiCmd::ReadId => 1,
        FlexSpiCmd::WriteEnable => 3,
        FlexSpiCmd::ReadStatusRegister => 4,
        FlexSpiCmd::EraseSector => 6,
        FlexSpiCmd::PageProgram => 12,
    }
}

/// The wire protocol of each command, for an octal double-data-rate device
/// (the identification is read in single-line mode).
pub open spec fn descriptor_of(c: FlexSpiCmd) -> NorStorageCmd {
    match c {
        FlexSpiCmd::WriteEnable => NorStorageCmd {
            cmd_lb: 0x06,
            cmd_ub: Some(0xF9),
            addr: None,
            addr_width: None,
            mode: NorStorageCmdMode::DDR,
            dummy: None,
            cmdtype: None,
            bus_width: 8,
            data_bytes: None,
        },
        FlexSpiCmd::ReadStatusRegister => NorStorageCmd {
            cmd_lb: 0x05,
            cmd_ub: Some(0xFA),
            addr: None,
            addr_width: Some(4),
            mode: NorStorageCmdMode::DDR,
            dummy: Some(0x18),
            cmdtype: Some(NorStorageCmdType::Read),
            bus_width: 8,
            data_bytes: Some(1),
        },
        FlexSpiCmd::EraseSector => NorStorageCmd {
            cmd_lb: 0x21,
            cmd_ub: Some(0xDE),
            addr: None,
            addr_width: Some(4),
            mode: NorStorageCmdMode::DDR,
            dummy: None,
            cmdtype: None,
            bus_width: 8,
            data_bytes: None,
        },
        FlexSpiCmd::ReadId => NorStorageCmd {
            cmd_lb: 0x9F,
            cmd_ub: None,
            addr: None,
            addr_width: None,
            mode: NorStorageCmdMode::SDR,
            dummy: None,
            cmdtype: Some(NorStorageCmdType::Read),
            bus_width: 1,
            data_bytes: Some(4),
        },
        FlexSpiCmd::PageProgram => NorStorageCmd {
            cmd_lb: 0x12,
            cmd_ub: Some(0xED),
            addr: None,
            addr_width: Some(4),
            mode: NorStorageCmdMode::DDR,
            dummy: None,
            cmdtype: Some(NorStorageCmdType::Write),
            bus_width: 8,
            data_bytes: Some(4),
        },
    }
}

/// The four LUT words of a command: the LUT program of its descriptor.
pub open spec fn cmd_words(c: FlexSpiCmd) -> Seq<u32> {
    match lut_program(descriptor_of(c)) {
        Ok(words) => words,
        Err(_) => Seq::empty(),
    }
}

impl FlexSpiCmd {
    /// The LUT slot of this command.
    pub fn slot(self) -> (r: u32)
        ensures
            r == slot_of(self),
            r < LUT_SLOTS,
    {
        match self {
            FlexSpiCmd::ReadId => 1,
            FlexSpiCmd::WriteEnable => 3,
            FlexSpiCmd::ReadStatusRegister => 4,
            FlexSpiCmd::EraseSector => 6,
            FlexSpiCmd::PageProgram => 12,
        }
    }

    /// The wire protocol of this command.
    pub fn descriptor(self) -> (r: NorStorageCmd)
        ensures
            r == descriptor_of(self),
    {
        match self {
            FlexSpiCmd::WriteEnable => NorStorageCmd {
                cmd_lb: 0x06,
                cmd_ub: Some(0xF9),
                addr: None,
                addr_width: None,
                mode: NorStorageCmdMode::DDR,
                dummy: None,
                cmdtype: None,
                bus_width: 8,
                data_bytes: None,
            },
            FlexSpiCmd::ReadStatusRegister => NorStorageCmd {
                cmd_lb: 0x05,
                cmd_ub: Some(0xFA),
                addr: None,
                addr_width: Some(4),
                mode: NorStorageCmdMode::DDR,
                dummy: Some(0x18),
                cmdtype: Some(NorStorageCmdType::Read),
                bus_width: 8,
                data_bytes: Some(1),
            },
            FlexSpiCmd::EraseSector => NorStorageCmd {
                cmd_lb: 0x21,
                cmd_ub: Some(0xDE),
                addr: None,
                addr_width: Some(4),
                mode: NorStorageCmdMode::DDR,
                dummy: None,
                cmdtype: None,
                bus_width: 8,
                data_bytes: None,
            },
            FlexSpiCmd::ReadId => NorStorageCmd {
                cmd_lb: 0x9F,
                cmd_ub: None,
                addr: None,
                addr_width: None,
                mode: NorStorageCmdMode::SDR,
                dummy: None,
                cmdtype: Some(NorStorageCmdType::Read),
                bus_width: 1,
                data_bytes: Some(4),
            },
            FlexSpiCmd::PageProgram => NorStorageCmd {
                cmd_lb: 0x12,
                cmd_ub: Some(0xED),
                addr: None,
                addr_width: Some(4),
                mode: NorStorageCmdMode::DDR,
                dummy: None,
                cmdtype: Some(NorStorageCmdType::Write),
                bus_width: 8,
                data_bytes: Some(4),
            },
        }
    }

    /// The LUT words of this command.
    pub fn lut_words(self) -> (r: Vec<u32>)
        ensures
            r@ == cmd_words(self),
            r@.len() == 4,
    {
        let d = self.descriptor();
        match build_lut_program(&d) {
            Ok(w) => w,
            Err(_) => {
                proof {
                    assert(lut_program(d) is Ok);
                }
                Vec::new()
            },
        }
    }
}


/// Offset of word `k` of LUT slot `slot`.
pub open spec fn lut_word_offset(slot: u32, k: int) -> u32 {
    (regs::LUT + 16 * slot + 4 * k) as u32
}

/// Loads `words` into LUT slot `slot`: unlock the LUT with its key, write all four
/// words, then reset the instruction pointer of all four flash ports.
pub open spec fn lut_load_ops(slot: u32, words: Seq<u32>) -> Seq<RegOp> {
    seq![
        RegOp::Write { offset: regs::LUTKEY, value: regs::LUT_KEY_VALUE },
        RegOp::Write { offset: regs::LUTCR, value: regs::LUTCR_UNLOCK },
        RegOp::Write { offset: lut_word_offset(slot, 0), value: words[0] },
        RegOp::Write { offset: lut_word_offset(slot, 1), value: words[1] },
        RegOp::Write { offset: lut_word_offset(slot, 2), value: words[2] },
        RegOp::Write { offset: lut_word_offset(slot, 3), value: words[3] },
        RegOp::Modify { offset: regs::FLSHCR2, clear: 0, set: regs::FLSHCR2_CLRINSTRPTR },
        RegOp::Modify { offset: (regs::FLSHCR2 + 4) as u32, clear: 0, set: regs::FLSHCR2_CLRINSTRPTR },
        RegOp::Modify { offset: (regs::FLSHCR2 + 8) as u32, clear: 0, set: regs::FLSHCR2_CLRINSTRPTR },
        RegOp::Modify { offset: (regs::FLSHCR2 + 12) as u32, clear: 0, set: regs::FLSHCR2_CLRINSTRPTR },
    ]
}

/// A FIFO watermark in bytes that the hardware can hold: a multiple of 8, from 8
/// up to the 128 bytes of the FIFO.
pub open spec fn watermark_ok(wm: u8) -> bool {
    8 <= wm <= 128 && wm % 8 == 0
}

/// The watermark field of a FIFO control register: bytes / 8 - 1, at bit 2.
pub open spec fn watermark_field(wm: u8) -> u32 {
    (((wm / 8) - 1) as u32) << 2u32
}

/// Prepares the transfer session of one IP command: target address, sequence id and
/// byte count, DMA off, watermarks, and both FIFOs cleared.
pub open spec fn session_ops(slot: u32, addr: u32, size: u32, rx_wm: u8, tx_wm: u8) -> Seq<RegOp> {
    seq![
        RegOp::Write { offset: regs::IPCR0, value: addr },
        RegOp::Write { offset: regs::IPCR1, value: (slot << 16u32) | (size & 0xFFFFu32) },
        RegOp::Modify {
            offset: regs::IPRXFCR,
            clear: regs::FIFO_DMAEN | regs::FIFO_WMRK_MASK,
            set: watermark_field(rx_wm) | regs::FIFO_CLR,
        },
        RegOp::Modify {
            offset: regs::IPTXFCR,
            clear: regs::FIFO_DMAEN | regs::FIFO_WMRK_MASK,
            set: watermark_field(tx_wm) | regs::FIFO_CLR,
        },
    ]
}

/// The operation that starts the programmed command.
pub open spec fn trigger_op() -> RegOp {
    RegOp::Write { offset: regs::IPCMD, value: regs::IPCMD_TRG }
}

/// The wait for the started command to complete.
pub open spec fn completion_wait() -> RegOp {
    RegOp::WaitBits { offset: regs::INTR, mask: regs::INTR_IPCMDDONE, until_set: true }
}

/// Trigger, wait for completion, then acknowledge the completion flag.
pub open spec fn trigger_ops() -> Seq<RegOp> {
    seq![trigger_op(), completion_wait(), RegOp::Write { offset: regs::INTR, value: regs::INTR_IPCMDDONE }]
}

/// Everything up to and including the completion of one IP command.
pub open spec fn command_ops(c: FlexSpiCmd, addr: u32, size: u32, rx_wm: u8, tx_wm: u8) -> Seq<RegOp> {
    lut_load_ops(slot_of(c), cmd_words(c)) + session_ops(slot_of(c), addr, size, rx_wm, tx_wm) + trigger_ops()
}

/// Reads of receive FIFO words 0 .. n.
pub open spec fn fifo_reads(n: nat) -> Seq<RegOp> {
    Seq::new(n, |i: int| RegOp::Read { offset: (regs::RFDR + 4 * i) as u32 })
}

/// Drains `size` bytes from the receive FIFO. While more than a watermark remains,
/// wait for the watermark flag, read one watermark of words and acknowledge; the
/// rest is awaited by fill level (in 8-byte units) and read whole words at once.
pub open spec fn drain_ops(size: nat, wm: nat) -> Seq<RegOp>
    decreases size,
{
    if size == 0 || wm == 0 {
        Seq::empty()
    } else if size <= wm {
        seq![RegOp::WaitAtLeast { offset: regs::IPRXFSTS, mask: regs::IPRXFSTS_FILL_MASK, min: ((size + 7) / 8) as u32 }]
            + fifo_reads(((size + 3) / 4) as nat) + seq![RegOp::Write { offset: regs::INTR, value: regs::INTR_IPRXWA }]
    } else {
        seq![RegOp::WaitBits { offset: regs::INTR, mask: regs::INTR_IPRXWA, until_set: true }] + fifo_reads(wm / 4)
            + seq![RegOp::Write { offset: regs::INTR, value: regs::INTR_IPRXWA }] + drain_ops((size - wm) as nat, wm)
    }
}

/// Byte `i` of data drained from the FIFO, words taken little-endian.
pub open spec fn fifo_byte(words: Seq<u32>, i: int) -> u8 {
    ((words[i / 4] >> (8 * (i % 4)) as u32) & 0xffu32) as u8
}

/// Builds the operations that load `words` into LUT slot `slot`.
pub fn lut_load(slot: u32, words: &Vec<u32>) -> (r: Vec<RegOp>)
    requires
        slot < LUT_SLOTS,
        words@.len() == 4,
    ensures
        r@ == lut_load_ops(slot, words@),
{
    let base: u32 = regs::LUT + 16 * slot;
    let mut ops: Vec<RegOp> = Vec::new();
    ops.push(RegOp::Write { offset: regs::LUTKEY, value: regs::LUT_KEY_VALUE });
    ops.push(RegOp::Write { offset: regs::LUTCR, value: regs::LUTCR_UNLOCK });
    ops.push(RegOp::Write { offset: base, value: words[0] });
    ops.push(RegOp::Write { offset: base + 4, value: words[1] });
    ops.push(RegOp::Write { offset: base + 8, value: words[2] });
    ops.push(RegOp::Write { offset: base + 12, value: words[3] });
    ops.push(RegOp::Modify { offset: regs::FLSHCR2, clear: 0, set: regs::FLSHCR2_CLRINSTRPTR });
    ops.push(RegOp::Modify { offset: regs::FLSHCR2 + 4, clear: 0, set: regs::FLSHCR2_CLRINSTRPTR });
    ops.push(RegOp::Modify { offset: regs::FLSHCR2 + 8, clear: 0, set: regs::FLSHCR2_CLRINSTRPTR });
    ops.push(RegOp::Modify { offset: regs::FLSHCR2 + 12, clear: 0, set: regs::FLSHCR2_CLRINSTRPTR });
    assert(ops@ =~= lut_load_ops(slot, words@));
    ops
}

/// Builds the program of one IP command up to its acknowledged completion:
/// LUT load, session setup, trigger, completion wait.
pub fn command_program(c: FlexSpiCmd, addr: u32, size: u32, rx_wm: u8, tx_wm: u8) -> (r: Vec<RegOp>)
    requires
        watermark_ok(rx_wm),
        watermark_ok(tx_wm),
    ensures
        r@ == command_ops(c, addr, size, rx_wm, tx_wm),
{
    let slot = c.slot();
    let words = c.lut_words();
    let mut ops = lut_load(slot, &words);
    let ghost load = ops@;
    ops.push(RegOp::Write { offset: regs::IPCR0, value: addr });
    ops.push(RegOp::Write { offset: regs::IPCR1, value: (slot << 16u32) | (size & 0xFFFF) });
    let rx_field: u32 = ((rx_wm / 8 - 1) as u32) << 2u32;
    let tx_field: u32 = ((tx_wm / 8 - 1) as u32) << 2u32;
    ops.push(RegOp::Modify { offset: regs::IPRXFCR, clear: regs::FIFO_DMAEN | regs::FIFO_WMRK_MASK, set: rx_field | regs::FIFO_CLR });
    ops.push(RegOp::Modify { offset: regs::IPTXFCR, clear: regs::FIFO_DMAEN | regs::FIFO_WMRK_MASK, set: tx_field | regs::FIFO_CLR });
    ops.push(RegOp::Write { offset: regs::IPCMD, value: regs::IPCMD_TRG });
    ops.push(RegOp::WaitBits { offset: regs::INTR, mask: regs::INTR_IPCMDDONE, until_set: true });
    ops.push(RegOp::Write { offset: regs::INTR, value: regs::INTR_IPCMDDONE });
    assert(ops@ =~= command_ops(c, addr, size, rx_wm, tx_wm));
    ops
}

/// Appends reads of receive FIFO words 0 .. n.
fn push_fifo_reads(ops: &mut Vec<RegOp>, n: u32)
    requires
        n <= 32,
    ensures
        final(ops)@ == old(ops)@ + fifo_reads(n as nat),
{
    let mut i: u32 = 0;
    while i < n
        invariant
            i <= n <= 32,
            ops@ == old(ops)@ + fifo_reads(i as nat),
        decreases n - i,
    {
        ops.push(RegOp::Read { offset: regs::RFDR + 4 * i });
        i = i + 1;
        assert(ops@ =~= old(ops)@ + fifo_reads(i as nat));
    }
}

/// Appends the operations that drain `size` bytes from the receive FIFO.
pub fn push_drain(ops: &mut Vec<RegOp>, size: u32, wm: u8)
    requires
        watermark_ok(wm),
    ensures
        final(ops)@ == old(ops)@ + drain_ops(size as nat, wm as nat),
{
    let mut rem: u32 = size;
    while rem > 0
        invariant
            watermark_ok(wm),
            ops@ + drain_ops(rem as nat, wm as nat) == old(ops)@ + drain_ops(size as nat, wm as nat),
        decreases rem,
    {
        let ghost before = ops@;
        if rem <= wm as u32 {
            ops.push(RegOp::WaitAtLeast { offset: regs::IPRXFSTS, mask: regs::IPRXFSTS_FILL_MASK, min: (rem + 7) / 8 });
            push_fifo_reads(ops, (rem + 3) / 4);
            ops.push(RegOp::Write { offset: regs::INTR, value: regs::INTR_IPRXWA });
            assert(ops@ =~= before + drain_ops(rem as nat, wm as nat));
            assert(drain_ops(0, wm as nat) =~= Seq::<RegOp>::empty());
            assert(ops@ + drain_ops(0, wm as nat) =~= ops@);
            rem = 0;
        } else {
            ops.push(RegOp::WaitBits { offset: regs::INTR, mask: regs::INTR_IPRXWA, until_set: true });
            push_fifo_reads(ops, wm as u32 / 4);
            ops.push(RegOp::Write { offset: regs::INTR, value: regs::INTR_IPRXWA });
            let next: u32 = rem - wm as u32;
            assert(before + drain_ops(rem as nat, wm as nat) =~= ops@ + drain_ops(next as nat, wm as nat));
            rem = next;
        }
    }
    assert(drain_ops(0, wm as nat) =~= Seq::<RegOp>::empty());
    assert(ops@ =~= ops@ + drain_ops(0, wm as nat));
}

/// The first `size` bytes of data drained from the receive FIFO, or all of them
/// when fewer were read; words are taken little-endian.
pub fn bytes_from_fifo_words(words: &Vec<u32>, size: usize) -> (r: Vec<u8>)
    ensures
        r@.len() == if size <= 4 * words@.len() { size as int } else { (4 * words@.len()) as int },
        forall|i: int| 0 <= i < r@.len() ==> r@[i] == fifo_byte(words@, i),
{
    let total: usize = if words.len() <= usize::MAX / 4 && size <= 4 * words.len() {
        size
    } else if words.len() <= usize::MAX / 4 {
        4 * words.len()
    } else {
        size
    };
    let mut out: Vec<u8> = Vec::new();
    let mut i: usize = 0;
    while i < total
        invariant
            i <= total,
            total == if size <= 4 * words@.len() { size as int } else { (4 * words@.len()) as int },
            out@.len() == i,
            forall|j: int| 0 <= j < i ==> out@[j] == fifo_byte(words@, j),
        decreases total - i,
    {
        let w = words[i / 4];
        let b: u8 = ((w >> (8 * (i % 4)) as u32) & 0xff) as u8;
        out.push(b);
        i = i + 1;
    }
    out
}


/// The FIFO drain stores into the interrupt status register only.
pub proof fn lemma_drain_stores(size: nat, wm: nat)
    ensures
        forall|j: int, off: u32|
            0 <= j < drain_ops(size, wm).len() && #[trigger] stores_to(drain_ops(size, wm)[j], off) ==> off
                == regs::INTR,
    decreases size,
{
    if size == 0 || wm == 0 {
    } else if size <= wm {
    } else {
        lemma_drain_stores((size - wm) as nat, wm);
        let head = seq![RegOp::WaitBits { offset: regs::INTR, mask: regs::INTR_IPRXWA, until_set: true }] + fifo_reads(
            wm / 4,
        ) + seq![RegOp::Write { offset: regs::INTR, value: regs::INTR_IPRXWA }];
        let tail = drain_ops((size - wm) as nat, wm);
        assert(drain_ops(size, wm) == head + tail);
        assert forall|j: int, off: u32|
            0 <= j < drain_ops(size, wm).len() && #[trigger] stores_to(drain_ops(size, wm)[j], off) implies off
                == regs::INTR by {
            if j >= head.len() {
                assert(drain_ops(size, wm)[j] == tail[j - head.len()]);
            }
        }
    }
}

/// Every operation of a command program, drain included, stores either below the
/// LUT or into the command's own slot.
proof fn lemma_program_stores(
    c: FlexSpiCmd,
    addr: u32,
    size: u32,
    rx_wm: u8,
    tx_wm: u8,
    n: nat,
    wm: nat,
    j: int,
    off: u32,
)
    requires
        0 <= j < (command_ops(c, addr, size, rx_wm, tx_wm) + drain_ops(n, wm)).len(),
        stores_to((command_ops(c, addr, size, rx_wm, tx_wm) + drain_ops(n, wm))[j], off),
    ensures
        off < regs::LUT || (lut_word_offset(slot_of(c), 0) <= off < lut_word_offset(slot_of(c), 0) + 16 && 2 <= j
            < 6 && off == lut_word_offset(slot_of(c), j - 2)),
        off == regs::IPCMD ==> j == 14,
{
    let p = command_ops(c, addr, size, rx_wm, tx_wm) + drain_ops(n, wm);
    let q = command_ops(c, addr, size, rx_wm, tx_wm);
    if j >= q.len() {
        lemma_drain_stores(n, wm);
        assert(p[j] == drain_ops(n, wm)[j - q.len()]);
    } else {
        assert(p[j] == q[j]);
    }
}

/// Exactly one command is in flight per program: a command program, with its FIFO
/// drain, triggers once, and the operation right after the trigger is the wait for
/// that command's completion, so no register is written while it runs.
pub proof fn lemma_single_outstanding_command(c: FlexSpiCmd, addr: u32, size: u32, rx_wm: u8, tx_wm: u8, n: nat, wm: nat)
    ensures
        ({
            let p = command_ops(c, addr, size, rx_wm, tx_wm) + drain_ops(n, wm);
            exists|t: int|
                0 <= t && t + 1 < p.len() && #[trigger] p[t] == trigger_op() && p[t + 1] == completion_wait() && forall|i: int|
                    0 <= i < p.len() && #[trigger] p[i] == trigger_op() ==> i == t
        }),
{
    let p = command_ops(c, addr, size, rx_wm, tx_wm) + drain_ops(n, wm);
    let q = command_ops(c, addr, size, rx_wm, tx_wm);
    assert(p[14] == q[14]);
    assert(p[15] == q[15]);
    assert forall|i: int| 0 <= i < p.len() && p[i] == trigger_op() implies i == 14 by {
        assert(stores_to(p[i], regs::IPCMD));
        lemma_program_stores(c, addr, size, rx_wm, tx_wm, n, wm, i, regs::IPCMD);
    }
}

/// Programming one command never alters a LUT word outside that command's slot.
pub proof fn lemma_slot_isolation(
    m: Map<u32, u32>,
    c: FlexSpiCmd,
    addr: u32,
    size: u32,
    rx_wm: u8,
    tx_wm: u8,
    n: nat,
    wm: nat,
    off: u32,
)
    requires
        regs::LUT <= off,
        !(lut_word_offset(slot_of(c), 0) <= off < lut_word_offset(slot_of(c), 0) + 16),
    ensures
        reg(apply_ops(m, command_ops(c, addr, size, rx_wm, tx_wm) + drain_ops(n, wm)), off) == reg(m, off),
{
    let p = command_ops(c, addr, size, rx_wm, tx_wm) + drain_ops(n, wm);
    assert forall|i: int| 0 <= i < p.len() implies !stores_to(#[trigger] p[i], off) by {
        if stores_to(p[i], off) {
            lemma_program_stores(c, addr, size, rx_wm, tx_wm, n, wm, i, off);
        }
    }
    lemma_untouched(m, p, off);
}

/// A command program leaves its slot holding exactly the command's LUT words,
/// whatever the registers held before; so running it twice in a row yields the same
/// instruction words as running it once.
pub proof fn lemma_lut_deterministic(
    m: Map<u32, u32>,
    c: FlexSpiCmd,
    addr: u32,
    size: u32,
    rx_wm: u8,
    tx_wm: u8,
    n: nat,
    wm: nat,
)
    ensures
        ({
            let p = command_ops(c, addr, size, rx_wm, tx_wm) + drain_ops(n, wm);
            forall|k: int|
                0 <= k < 4 ==> reg(apply_ops(m, p), #[trigger] lut_word_offset(slot_of(c), k)) == cmd_words(c)[k]
                    && reg(apply_ops(apply_ops(m, p), p), lut_word_offset(slot_of(c), k)) == reg(
                    apply_ops(m, p),
                    lut_word_offset(slot_of(c), k),
                )
        }),
{
    let p = command_ops(c, addr, size, rx_wm, tx_wm) + drain_ops(n, wm);
    let q = command_ops(c, addr, size, rx_wm, tx_wm);
    assert forall|k: int| 0 <= k < 4 implies reg(apply_ops(m, p), #[trigger] lut_word_offset(slot_of(c), k))
        == cmd_words(c)[k] && reg(apply_ops(apply_ops(m, p), p), lut_word_offset(slot_of(c), k)) == reg(
        apply_ops(m, p),
        lut_word_offset(slot_of(c), k),
    ) by {
        let off = lut_word_offset(slot_of(c), k);
        assert(p[2 + k] == q[2 + k]);
        assert forall|j: int| 2 + k < j < p.len() implies !stores_to(#[trigger] p[j], off) by {
            if stores_to(p[j], off) {
                lemma_program_stores(c, addr, size, rx_wm, tx_wm, n, wm, j, off);
            }
        }
        lemma_last_store(m, p, 2 + k, off, cmd_words(c)[k]);
        lemma_last_store(apply_ops(m, p), p, 2 + k, off, cmd_words(c)[k]);
    }
}

} // verus!
