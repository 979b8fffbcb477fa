//! Sequencing and configuration engine for a FlexSPI serial-flash controller.
//!
//! The library turns logical flash commands and controller settings into exact
//! programs of register operations ([`regs::RegOp`]) over the controller's fixed
//! register layout. A thin runtime executes those programs against the hardware
//! and feeds observed values back (status bytes, FIFO words).
//!
//! - [`storage`]: the bus-independent description of a NOR flash command.
//! - [`lut`]: translation of a command into the four instruction words of a LUT slot.
//! - [`regs`]: register layout, register operations and their effect on a register file.
//! - [`command`]: the well-known commands, their fixed slots and IP command programs.
//! - [`config`]: controller and device configuration, and the DLL value.
//! - [`error`]: the controller's error kinds and the library's own.
//! - [`port`]: command, data and configuration ports, execution modes, erase tracking.
pub mod storage;
pub mod lut;
pub mod regs;
pub mod command;
pub mod config;
pub mod error;
pub mod port;

pub use storage::{
    AsyncNandStorageDriver, BlockingNandStorageDriver, BlockingNorStorageBusDriver, NorStorageBusError,
    NorStorageCmd, NorStorageCmdMode, NorStorageCmdType,
};
pub use lut::{LutError, LutInstr};
pub use port::{ExecMode, FlexSPI, FlexSpiCmdPort, FlexSpiDataPort};
pub use error::{FlexSpiError, FlexSpiOpError};
