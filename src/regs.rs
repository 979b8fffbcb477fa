//! The controller's register layout and the register operations the engine emits.
use vstd::prelude::*;

verus! {

/// Module control register 0: software reset, module disable, sample clock, grant waits.
pub const MCR0: u32 = 0x00;
/// Module control register 1: AHB bus and sequence timeouts.
pub const MCR1: u32 = 0x04;
/// Module control register 2: shared-device, differential clock, buffer clearing, resume wait.
pub const MCR2: u32 = 0x08;
/// AHB bus control register.
pub const AHBCR: u32 = 0x0C;
/// Interrupt status register (write one to clear).
pub const INTR: u32 = 0x14;
/// LUT key register.
pub const LUTKEY: u32 = 0x18;
/// LUT control register.
pub const LUTCR: u32 = 0x1C;
/// First of the eight AHB receive-buffer control registers.
pub const AHBRXBUFCR0: u32 = 0x20;
/// First of the four flash control registers 0 (flash size).
pub const FLSHCR0: u32 = 0x60;
/// First of the four flash control registers 1 (chip-select timing).
pub const FLSHCR1: u32 = 0x70;
/// First of the four flash control registers 2 (AHB sequences, instruction pointer).
pub const FLSHCR2: u32 = 0x80;
/// Flash control register 4 (write mask).
pub const FLSHCR4: u32 = 0x94;
/// IP control register 0: serial flash address.
pub const IPCR0: u32 = 0xA0;
/// IP control register 1: sequence id and data size.
pub const IPCR1: u32 = 0xA4;
/// IP command register.
pub const IPCMD: u32 = 0xB0;
/// IP receive FIFO control register.
pub const IPRXFCR: u32 = 0xB8;
/// IP transmit FIFO control register.
pub const IPTXFCR: u32 = 0xBC;
/// First of the two DLL control registers.
pub const DLLCR: u32 = 0xC0;
/// Status register 0: arbitrator and sequence engine idle.
pub const STS0: u32 = 0xE0;
/// Status register 2: DLL lock.
pub const STS2: u32 = 0xE8;
/// IP receive FIFO status register.
pub const IPRXFSTS: u32 = 0xF0;
/// First receive FIFO data register.
pub const RFDR: u32 = 0x100;
/// First transmit FIFO data register.
pub const TFDR: u32 = 0x180;
/// First LUT word.
pub const LUT: u32 = 0x200;
/// Number of LUT words.
pub const LUT_LEN: u32 = 120;

/// The key that unlocks the LUT store.
pub const LUT_KEY_VALUE: u32 = 0x5AF0_5AF0;
/// LUTCR: unlock request.
pub const LUTCR_UNLOCK: u32 = 0x2;
/// IPCMD: trigger.
pub const IPCMD_TRG: u32 = 0x1;
/// INTR: IP command done.
pub const INTR_IPCMDDONE: u32 = 0x1;
/// INTR: IP receive FIFO watermark available.
pub const INTR_IPRXWA: u32 = 0x20;
/// INTR: IP transmit FIFO watermark empty (writable).
pub const INTR_IPTXWE: u32 = 0x40;
/// FLSHCR2: clear the instruction pointer of the sequence engine.
pub const FLSHCR2_CLRINSTRPTR: u32 = 0x8000_0000;
/// Base address of the memory-mapped flash window.
pub const FLASH_WINDOW_BASE: u32 = 0x0800_0000;
/// IPRXFCR / IPTXFCR: clear the FIFO.
pub const FIFO_CLR: u32 = 0x1;
/// IPRXFCR / IPTXFCR: DMA enable.
pub const FIFO_DMAEN: u32 = 0x2;
/// IPRXFCR / IPTXFCR: watermark field.
pub const FIFO_WMRK_MASK: u32 = 0xFC;
/// IPRXFSTS: fill level, in 64-bit units.
pub const IPRXFSTS_FILL_MASK: u32 = 0xFF;
/// IPCR1: sequence id field.
pub const IPCR1_ISEQID_SHIFT: u32 = 16;

/// One access to the controller, as a runtime performs it.
#[derive(Debug, Clone, Copy, PartialEq, Eq, Structural)]
pub enum RegOp {
    /// Store `value` into the register at `offset`.
    Write { offset: u32, value: u32 },
    /// Read-modify-write: clear the bits of `clear`, then set the bits of `set`.
    Modify { offset: u32, clear: u32, set: u32 },
    /// Spin until every bit of `mask` reads as one (`until_set`) or as zero (otherwise).
    WaitBits { offset: u32, mask: u32, until_set: bool },
    /// Spin until the field under `mask` reads at least `min`.
    WaitAtLeast { offset: u32, mask: u32, min: u32 },
    /// Read the register and hand its value back.
    Read { offset: u32 },
    /// Execute `cycles` no-operation instructions.
    Delay { cycles: u32 },
    /// Load one byte from the memory-mapped flash window, at `offset` past its base.
    LoadWindowByte { offset: u32 },
    /// Store one byte into the memory-mapped flash window.
    StoreWindowByte { offset: u32, byte: u8 },
    /// Store one little-endian word into the memory-mapped flash window.
    StoreWindowWord { offset: u32, value: u32 },
}

/// Whether `value`, read from the register a wait names, ends the wait.
pub open spec fn wait_done(op: RegOp, value: u32) -> bool {
    match op {
        RegOp::WaitBits { mask, until_set, .. } => if until_set {
            value & mask == mask
        } else {
            value & mask == 0
        },
        RegOp::WaitAtLeast { mask, min, .. } => value & mask >= min,
        _ => true,
    }
}

/// Decides whether a wait is over, given the value just read from its register.
/// Every operation but a wait is over at once.
pub fn wait_satisfied(op: &RegOp, value: u32) -> (r: bool)
    ensures
        r == wait_done(*op, value),
{
    match *op {
        RegOp::WaitBits { mask, until_set, .. } => if until_set {
            value & mask == mask
        } else {
            value & mask == 0
        },
        RegOp::WaitAtLeast { mask, min, .. } => value & mask >= min,
        _ => true,
    }
}

/// Whether an operation stores into the register at `off`.
pub open spec fn stores_to(op: RegOp, off: u32) -> bool {
    match op {
        RegOp::Write { offset, .. } => offset == off,
        RegOp::Modify { offset, .. } => offset == off,
        _ => false,
    }
}

/// The value that the driver last left in a register; zero if it never stored one.
pub open spec fn reg(m: Map<u32, u32>, off: u32) -> u32 {
    if m.contains_key(off) {
        m[off]
    } else {
        0
    }
}

/// The register contents after one operation, as far as the driver's stores decide them.
pub open spec fn apply_op(m: Map<u32, u32>, op: RegOp) -> Map<u32, u32> {
    match op {
        RegOp::Write { offset, value } => m.insert(offset, value),
        RegOp::Modify { offset, clear, set } => m.insert(offset, (reg(m, offset) & !clear) | set),
        _ => m,
    }
}

/// The register contents after a program of operations, in order.
pub open spec fn apply_ops(m: Map<u32, u32>, ops: Seq<RegOp>) -> Map<u32, u32>
    decreases ops.len(),
{
    if ops.len() == 0 {
        m
    } else {
        apply_ops(apply_op(m, ops[0]), ops.drop_first())
    }
}

/// Running two programs one after the other is running their concatenation.
pub proof fn lemma_apply_concat(m: Map<u32, u32>, a: Seq<RegOp>, b: Seq<RegOp>)
    ensures
        apply_ops(m, a + b) == apply_ops(apply_ops(m, a), b),
    decreases a.len(),
{
    if a.len() == 0 {
        assert(a + b =~= b);
    } else {
        assert((a + b).drop_first() =~= a.drop_first() + b);
        lemma_apply_concat(apply_op(m, a[0]), a.drop_first(), b);
    }
}

/// A register that no operation of a program stores into keeps its value.
pub proof fn lemma_untouched(m: Map<u32, u32>, ops: Seq<RegOp>, off: u32)
    requires
        forall|i: int| 0 <= i < ops.len() ==> !stores_to(#[trigger] ops[i], off),
    ensures
        reg(apply_ops(m, ops), off) == reg(m, off),
    decreases ops.len(),
{
    if ops.len() > 0 {
        assert(!stores_to(ops[0], off));
        let m1 = apply_op(m, ops[0]);
        assert(reg(m1, off) == reg(m, off));
        assert forall|i: int| 0 <= i < ops.drop_first().len() implies !stores_to(
            #[trigger] ops.drop_first()[i],
            off,
        ) by {
            assert(ops.drop_first()[i] == ops[i + 1]);
        }
        lemma_untouched(m1, ops.drop_first(), off);
    }
}


/// A register holds the value of the last plain store into it.
pub proof fn lemma_last_store(m: Map<u32, u32>, ops: Seq<RegOp>, i: int, off: u32, v: u32)
    requires
        0 <= i < ops.len(),
        ops[i] == (RegOp::Write { offset: off, value: v }),
        forall|j: int| i < j < ops.len() ==> !stores_to(#[trigger] ops[j], off),
    ensures
        reg(apply_ops(m, ops), off) == v,
{
    let a = ops.subrange(0, i);
    let b = ops.subrange(i, ops.len() as int);
    assert(ops =~= a + b);
    lemma_apply_concat(m, a, b);
    let m1 = apply_ops(m, a);
    assert(b[0] == ops[i]);
    let m2 = apply_op(m1, b[0]);
    assert(reg(m2, off) == v);
    let rest = b.drop_first();
    assert forall|j: int| 0 <= j < rest.len() implies !stores_to(#[trigger] rest[j], off) by {
        assert(rest[j] == ops[i + 1 + j]);
    }
    lemma_untouched(m2, rest, off);
}

} // verus!

verus! {

/// MCR0: software reset.
pub const MCR0_SWRESET: u32 = 0x1;
/// MCR0: module disable.
pub const MCR0_MDIS: u32 = 0x2;
/// MCR0: receive sample clock source field.
pub const MCR0_RXCLKSRC_MASK: u32 = 0x30;
/// MCR0: half-speed serial clock.
pub const MCR0_HSEN: u32 = 0x800;
/// MCR0: doze mode.
pub const MCR0_DOZEEN: u32 = 0x1000;
/// MCR0: free-running serial clock.
pub const MCR0_SCKFREERUNEN: u32 = 0x4000;
/// MCR0: IP command grant timeout field.
pub const MCR0_IPGRANTWAIT_MASK: u32 = 0x00FF_0000;
/// MCR0: AHB command grant timeout field.
pub const MCR0_AHBGRANTWAIT_MASK: u32 = 0xFF00_0000;
/// MCR2: clear AHB buffers on stop.
pub const MCR2_CLRAHBBUFOPT: u32 = 0x800;
/// MCR2: same configuration for all devices.
pub const MCR2_SAMEDEVICEEN: u32 = 0x8000;
/// MCR2: port B clock pad as differential clock of port A.
pub const MCR2_SCKBDIFFOPT: u32 = 0x8_0000;
/// MCR2: resume wait field.
pub const MCR2_RESUMEWAIT_MASK: u32 = 0xFF00_0000;
/// AHBCR: cacheable reads.
pub const AHBCR_CACHABLEEN: u32 = 0x8;
/// AHBCR: bufferable writes.
pub const AHBCR_BUFFERABLEEN: u32 = 0x10;
/// AHBCR: read prefetch.
pub const AHBCR_PREFETCHEN: u32 = 0x20;
/// AHBCR: no alignment limit on read bursts.
pub const AHBCR_READADDROPT: u32 = 0x40;
/// AHBRXBUFCR0: buffer size field, in 8-byte units.
pub const RXBUF_BUFSZ_MASK: u32 = 0x1FF;
/// AHBRXBUFCR0: master id field.
pub const RXBUF_MSTRID_MASK: u32 = 0xF_0000;
/// AHBRXBUFCR0: priority field.
pub const RXBUF_PRIORITY_MASK: u32 = 0x700_0000;
/// AHBRXBUFCR0: prefetch for this buffer.
pub const RXBUF_PREFETCHEN: u32 = 0x8000_0000;
/// FLSHCR0: flash size field, in KB.
pub const FLSHCR0_FLSHSZ_MASK: u32 = 0x7F_FFFF;
/// FLSHCR1: every field (setup, hold, word addressing, column space, interval).
pub const FLSHCR1_ALL: u32 = 0xFFFF_FFFF;
/// FLSHCR1: chip-select interval unit of 256 cycles.
pub const FLSHCR1_CSINTERVALUNIT: u32 = 0x8000;
/// FLSHCR1: word addressing.
pub const FLSHCR1_WA: u32 = 0x400;
/// FLSHCR2: AHB read sequence id field.
pub const FLSHCR2_ARDSEQID_MASK: u32 = 0x1F;
/// FLSHCR2: AHB read sequence number field.
pub const FLSHCR2_ARDSEQNUM_MASK: u32 = 0xE0;
/// FLSHCR2: AHB write sequence id field.
pub const FLSHCR2_AWRSEQID_MASK: u32 = 0x1F00;
/// FLSHCR2: AHB write wait unit field.
pub const FLSHCR2_AWRWAITUNIT_MASK: u32 = 0x7000_0000;
/// FLSHCR4: write mask option 1.
pub const FLSHCR4_WMOPT1: u32 = 0x1;
/// FLSHCR4: write mask on port A.
pub const FLSHCR4_WMENA: u32 = 0x4;
/// FLSHCR4: write mask on port B.
pub const FLSHCR4_WMENB: u32 = 0x8;
/// STS0: sequence engine idle.
pub const STS0_SEQIDLE: u32 = 0x1;
/// STS0: arbitrator idle.
pub const STS0_ARBIDLE: u32 = 0x2;
/// STS2: port A slave delay line locked.
pub const STS2_ASLVLOCK: u32 = 0x1;
/// STS2: port A reference delay line locked.
pub const STS2_AREFLOCK: u32 = 0x2;
/// STS2: port B slave delay line locked.
pub const STS2_BSLVLOCK: u32 = 0x1_0000;
/// STS2: port B reference delay line locked.
pub const STS2_BREFLOCK: u32 = 0x2_0000;

} // verus!
