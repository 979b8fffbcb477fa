//! Translation of logical commands into FlexSPI lookup-table (LUT) programs.
use vstd::prelude::*;
use mimxrt600_fcb::{FlexSpiLutOpcode, FlexSpiNumPads};
use crate::storage::{NorStorageCmd, NorStorageCmdMode, NorStorageCmdType};

verus! {

#[verifier::external_type_specification]
pub struct ExFlexSpiLutOpcode(FlexSpiLutOpcode);

#[verifier::external_type_specification]
pub struct ExFlexSpiNumPads(FlexSpiNumPads);

/// Number of LUT slots of the controller (the LUT store holds 120 words).
pub const LUT_SLOTS: usize = 30;

/// The 6-bit hardware code of an instruction opcode.
pub open spec fn opcode_code(op: FlexSpiLutOpcode) -> u32 {
    match op {
        FlexSpiLutOpcode::CMD_SDR => 0x01,
        FlexSpiLutOpcode::CMD_DDR => 0x21,
        FlexSpiLutOpcode::RADDR_SDR => 0x02,
        FlexSpiLutOpcode::RADDR_DDR => 0x22,
        FlexSpiLutOpcode::CADDR_SDR => 0x03,
        FlexSpiLutOpcode::CADDR_DDR => 0x23,
        FlexSpiLutOpcode::MODE1_SDR => 0x04,
        FlexSpiLutOpcode::MODE1_DDR => 0x24,
        FlexSpiLutOpcode::MODE2_SDR => 0x05,
        FlexSpiLutOpcode::MODE2_DDR => 0x25,
        FlexSpiLutOpcode::MODE4_SDR => 0x06,
        FlexSpiLutOpcode::MODE4_DDR => 0x26,
        FlexSpiLutOpcode::MODE8_SDR => 0x07,
        FlexSpiLutOpcode::MODE8_DDR => 0x27,
        FlexSpiLutOpcode::WRITE_SDR => 0x08,
        FlexSpiLutOpcode::WRITE_DDR => 0x28,
        FlexSpiLutOpcode::READ_SDR => 0x09,
        FlexSpiLutOpcode::READ_DDR => 0x29,
        FlexSpiLutOpcode::LEARN_SDR => 0x0a,
        FlexSpiLutOpcode::LEARN_DDR => 0x2a,
        FlexSpiLutOpcode::DATSZ_SDR => 0x0b,
        FlexSpiLutOpcode::DATSZ_DDR => 0x2b,
        FlexSpiLutOpcode::DUMMY_SDR => 0x0c,
        FlexSpiLutOpcode::DUMMY_DDR => 0x2c,
        FlexSpiLutOpcode::DUMMY_RWDS_SDR => 0x0d,
        FlexSpiLutOpcode::DUMMY_RWDS_DDR => 0x2d,
        FlexSpiLutOpcode::JMP_ON_CS => 0x1f,
        FlexSpiLutOpcode::STOP => 0x00,
    }
}

/// The 2-bit hardware code of a pad count.
pub open spec fn pads_code(p: FlexSpiNumPads) -> u32 {
    match p {
        FlexSpiNumPads::Single => 0,
        FlexSpiNumPads::Dual => 1,
        FlexSpiNumPads::Quad => 2,
        FlexSpiNumPads::Octal => 3,
    }
}

/// One LUT word: instruction 0 in the low half, instruction 1 in the high half.
/// Each half is `opcode[15:10] | pads[9:8] | operand[7:0]`.
pub open spec fn lut_word(
    op0: FlexSpiLutOpcode,
    pads0: FlexSpiNumPads,
    operand0: u8,
    op1: FlexSpiLutOpcode,
    pads1: FlexSpiNumPads,
    operand1: u8,
) -> u32 {
    ((opcode_code(op0) << 10u32) & 0xfc00u32) | ((pads_code(pads0) << 8u32) & 0x0300u32) | (
    operand0 as u32 & 0xffu32) | ((opcode_code(op1) << 26u32) & 0xfc00_0000u32) | ((pads_code(
        pads1,
    ) << 24u32) & 0x0300_0000u32) | (((operand1 as u32) << 16u32) & 0x00ff_0000u32)
}

/// Relies on mimxrt600_fcb::flexspi_lut_seq: packs two instructions into one LUT
/// word with the field layout of `lut_word`.
#[verifier::external_body]
fn pack_lut_word(
    op0: FlexSpiLutOpcode,
    pads0: FlexSpiNumPads,
    operand0: u8,
    op1: FlexSpiLutOpcode,
    pads1: FlexSpiNumPads,
    operand1: u8,
) -> (r: u32)
    ensures
        r == lut_word(op0, pads0, operand0, op1, pads1, operand1),
{
    mimxrt600_fcb::flexspi_lut_seq(op0, pads0, operand0, op1, pads1, operand1)
}


/// One LUT instruction: an opcode, the number of pads it drives, and its operand.
#[derive(Clone, Copy)]
pub struct LutInstr {
    /// What the instruction does.
    pub opcode: FlexSpiLutOpcode,
    /// How many data lines it drives.
    pub pads: FlexSpiNumPads,
    /// Its operand: an opcode byte, a bit or cycle count, a byte count.
    pub operand: u8,
}

/// Why a logical command has no LUT program.
#[derive(Debug, Clone, Copy, PartialEq, Eq, Structural)]
pub enum LutError {
    /// The bus width is not 1, 2, 4 or 8 signal lines.
    InvalidBusWidth,
    /// The address is wider than the 255 bits that an instruction operand can count.
    InvalidAddressWidth,
}

/// The instruction that ends a sequence; it encodes as zero.
pub open spec fn stop_instr() -> LutInstr {
    LutInstr { opcode: FlexSpiLutOpcode::STOP, pads: FlexSpiNumPads::Single, operand: 0 }
}

/// Pads used by a bus of `width` signal lines.
pub open spec fn pads_of_width(width: u8) -> Option<FlexSpiNumPads> {
    if width == 1 {
        Some(FlexSpiNumPads::Single)
    } else if width == 2 {
        Some(FlexSpiNumPads::Dual)
    } else if width == 4 {
        Some(FlexSpiNumPads::Quad)
    } else if width == 8 {
        Some(FlexSpiNumPads::Octal)
    } else {
        None
    }
}

/// The single- or double-data-rate form of an opcode.
pub open spec fn rate_op(mode: NorStorageCmdMode, sdr: FlexSpiLutOpcode, ddr: FlexSpiLutOpcode) -> FlexSpiLutOpcode {
    match mode {
        NorStorageCmdMode::DDR => ddr,
        NorStorageCmdMode::SDR => sdr,
    }
}

/// The instructions of a command, in wire order and without the final STOP:
/// opcode, second opcode byte, address, dummy cycles, data.
pub open spec fn cmd_instrs(cmd: NorStorageCmd, pads: FlexSpiNumPads) -> Seq<LutInstr> {
    let m = cmd.mode;
    seq![LutInstr { opcode: rate_op(m, FlexSpiLutOpcode::CMD_SDR, FlexSpiLutOpcode::CMD_DDR), pads, operand: cmd.cmd_lb }]
    + match cmd.cmd_ub {
        Some(ub) => seq![LutInstr { opcode: rate_op(m, FlexSpiLutOpcode::CMD_SDR, FlexSpiLutOpcode::CMD_DDR), pads, operand: ub }],
        None => Seq::<LutInstr>::empty(),
    } + match cmd.addr_width {
        Some(w) => seq![LutInstr { opcode: rate_op(m, FlexSpiLutOpcode::RADDR_SDR, FlexSpiLutOpcode::RADDR_DDR), pads, operand: (w * 8) as u8 }],
        None => Seq::<LutInstr>::empty(),
    } + match cmd.dummy {
        Some(d) => seq![LutInstr { opcode: rate_op(m, FlexSpiLutOpcode::DUMMY_SDR, FlexSpiLutOpcode::DUMMY_DDR), pads, operand: d }],
        None => Seq::<LutInstr>::empty(),
    } + match cmd.cmdtype {
        Some(NorStorageCmdType::Read) => seq![LutInstr { opcode: rate_op(m, FlexSpiLutOpcode::READ_SDR, FlexSpiLutOpcode::READ_DDR), pads, operand: data_operand(cmd) }],
        Some(NorStorageCmdType::Write) => seq![LutInstr { opcode: rate_op(m, FlexSpiLutOpcode::WRITE_SDR, FlexSpiLutOpcode::WRITE_DDR), pads, operand: data_operand(cmd) }],
        None => Seq::<LutInstr>::empty(),
    }
}

/// Operand of the data instruction: the data byte count, zero when none is given.
pub open spec fn data_operand(cmd: NorStorageCmd) -> u8 {
    match cmd.data_bytes {
        Some(n) => n,
        None => 0,
    }
}

/// Instruction `i` of a sequence, STOP past its end.
pub open spec fn instr_at(s: Seq<LutInstr>, i: int) -> LutInstr {
    if 0 <= i < s.len() {
        s[i]
    } else {
        stop_instr()
    }
}

/// The LUT word that holds instructions `i` and `i + 1` of a sequence.
pub open spec fn pair_word(s: Seq<LutInstr>, i: int) -> u32 {
    let a = instr_at(s, i);
    let b = instr_at(s, i + 1);
    lut_word(a.opcode, a.pads, a.operand, b.opcode, b.pads, b.operand)
}

/// The four words of a slot holding `s`, two instructions per word, STOP-filled.
pub open spec fn slot_words(s: Seq<LutInstr>) -> Seq<u32> {
    seq![pair_word(s, 0), pair_word(s, 2), pair_word(s, 4), pair_word(s, 6)]
}

/// The LUT program of a logical command.
pub open spec fn lut_program(cmd: NorStorageCmd) -> Result<Seq<u32>, LutError> {
    match pads_of_width(cmd.bus_width) {
        None => Err(LutError::InvalidBusWidth),
        Some(pads) => match cmd.addr_width {
            Some(w) if w > 31 => Err(LutError::InvalidAddressWidth),
            _ => Ok(slot_words(cmd_instrs(cmd, pads))),
        },
    }
}

fn pads_for_width(width: u8) -> (r: Option<FlexSpiNumPads>)
    ensures
        r == pads_of_width(width),
{
    if width == 1 {
        Some(FlexSpiNumPads::Single)
    } else if width == 2 {
        Some(FlexSpiNumPads::Dual)
    } else if width == 4 {
        Some(FlexSpiNumPads::Quad)
    } else if width == 8 {
        Some(FlexSpiNumPads::Octal)
    } else {
        None
    }
}

fn rate_opcode(mode: NorStorageCmdMode, sdr: FlexSpiLutOpcode, ddr: FlexSpiLutOpcode) -> (r: FlexSpiLutOpcode)
    ensures
        r == rate_op(mode, sdr, ddr),
{
    match mode {
        NorStorageCmdMode::DDR => ddr,
        NorStorageCmdMode::SDR => sdr,
    }
}

fn word_of_pair(s: &Vec<LutInstr>, i: usize) -> (r: u32)
    requires
        i < 8,
    ensures
        r == pair_word(s@, i as int),
{
    let stop = LutInstr { opcode: FlexSpiLutOpcode::STOP, pads: FlexSpiNumPads::Single, operand: 0 };
    let a = if i < s.len() { s[i] } else { stop };
    let b = if i + 1 < s.len() { s[i + 1] } else { stop };
    pack_lut_word(a.opcode, a.pads, a.operand, b.opcode, b.pads, b.operand)
}

/// Builds the four instruction words of a logical command's LUT slot.
///
/// The words hold, two per word, the command opcode, the optional second opcode
/// byte, address, dummy and data instructions, then STOP; unused words are zero.
pub fn build_lut_program(cmd: &NorStorageCmd) -> (r: Result<Vec<u32>, LutError>)
    ensures
        match r {
            Ok(words) => lut_program(*cmd) == Ok::<Seq<u32>, LutError>(words@),
            Err(e) => lut_program(*cmd) == Err::<Seq<u32>, LutError>(e),
        },
{
    let pads = match pads_for_width(cmd.bus_width) {
        Some(p) => p,
        None => {
            return Err(LutError::InvalidBusWidth);
        },
    };
    let m = cmd.mode;
    let mut instrs: Vec<LutInstr> = Vec::new();
    instrs.push(LutInstr { opcode: rate_opcode(m, FlexSpiLutOpcode::CMD_SDR, FlexSpiLutOpcode::CMD_DDR), pads, operand: cmd.cmd_lb });
    if let Some(ub) = cmd.cmd_ub {
        instrs.push(LutInstr { opcode: rate_opcode(m, FlexSpiLutOpcode::CMD_SDR, FlexSpiLutOpcode::CMD_DDR), pads, operand: ub });
    }
    if let Some(w) = cmd.addr_width {
        if w > 31 {
            return Err(LutError::InvalidAddressWidth);
        }
        instrs.push(LutInstr { opcode: rate_opcode(m, FlexSpiLutOpcode::RADDR_SDR, FlexSpiLutOpcode::RADDR_DDR), pads, operand: w * 8 });
    }
    if let Some(d) = cmd.dummy {
        instrs.push(LutInstr { opcode: rate_opcode(m, FlexSpiLutOpcode::DUMMY_SDR, FlexSpiLutOpcode::DUMMY_DDR), pads, operand: d });
    }
    let operand: u8 = match cmd.data_bytes {
        Some(n) => n,
        None => 0,
    };
    match cmd.cmdtype {
        Some(NorStorageCmdType::Read) => {
            instrs.push(LutInstr { opcode: rate_opcode(m, FlexSpiLutOpcode::READ_SDR, FlexSpiLutOpcode::READ_DDR), pads, operand });
        },
        Some(NorStorageCmdType::Write) => {
            instrs.push(LutInstr { opcode: rate_opcode(m, FlexSpiLutOpcode::WRITE_SDR, FlexSpiLutOpcode::WRITE_DDR), pads, operand });
        },
        None => {},
    }
    assert(instrs@ =~= cmd_instrs(*cmd, pads));
    let mut words: Vec<u32> = Vec::new();
    words.push(word_of_pair(&instrs, 0));
    words.push(word_of_pair(&instrs, 2));
    words.push(word_of_pair(&instrs, 4));
    words.push(word_of_pair(&instrs, 6));
    assert(words@ =~= slot_words(instrs@));
    Ok(words)
}

} // verus!
