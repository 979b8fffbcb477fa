//! Bus-independent description of NOR flash commands.
use vstd::prelude::*;

verus! {

/// Data transfer rate of a command.
#[derive(Debug, Copy, Clone, PartialEq, Eq, Structural)]
pub enum NorStorageCmdMode {
    /// Double data rate: data is sampled on both clock edges.
    DDR,
    /// Single data rate.
    SDR,
}

/// Direction of the data phase of a command.
#[derive(Debug, Copy, Clone, PartialEq, Eq, Structural)]
pub enum NorStorageCmdType {
    /// Data flows from the flash device.
    Read,
    /// Data flows to the flash device.
    Write,
}

/// A logical NOR flash command, as handed over by a storage device driver.
#[derive(Debug, Copy, Clone)]
pub struct NorStorageCmd {
    /// Command opcode, lower byte.
    pub cmd_lb: u8,
    /// Command opcode, upper byte (second phase of a double-phase protocol).
    pub cmd_ub: Option<u8>,
    /// Target address of the command.
    pub addr: Option<u32>,
    /// Address width in bytes.
    pub addr_width: Option<u8>,
    /// Transfer rate.
    pub mode: NorStorageCmdMode,
    /// Number of dummy clock cycles.
    pub dummy: Option<u8>,
    /// Direction of the data phase, if the command has one.
    pub cmdtype: Option<NorStorageCmdType>,
    /// Number of signal lines used: 1, 2, 4 or 8.
    pub bus_width: u8,
    /// Number of data bytes of the data phase.
    pub data_bytes: Option<u8>,
}

/// An error reported by a NOR storage bus.
pub trait NorStorageBusError {
    /// Reports the cause of the error.
    fn decode_bus_error(&self);
}

/// A NOR storage bus that executes commands one at a time and blocks until each is done.
pub trait BlockingNorStorageBusDriver {
    /// The error the bus reports.
    type Error: NorStorageBusError;

    /// Sends one command over the bus, reading into `read_buf` or writing from `write_buf`.
    fn execute_cmd(
        &mut self,
        cmd: NorStorageCmd,
        read_buf: Option<&mut [u8]>,
        write_buf: Option<&[u8]>,
    ) -> Result<(), Self::Error>;
}

/// A NAND storage driver that blocks until each operation is done.
pub trait BlockingNandStorageDriver {}

/// A NAND storage driver whose operations suspend.
pub trait AsyncNandStorageDriver {}

} // verus!
