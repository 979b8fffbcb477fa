//! Error kinds of the controller and of the operations of this library.
use vstd::prelude::*;

verus! {

/// Cause text of a command grant timeout on an AHB read.
pub const GRANT_AHB_READ: &'static str = "AHB bus error response for Read Command. Command grant timeout";
/// Cause text of a command grant timeout on an AHB write.
pub const GRANT_AHB_WRITE: &'static str = "AHB bus error response for Write Command. Command grant timeout";
/// Cause text of a command grant timeout on an IP command.
pub const GRANT_IP: &'static str = "IP command grant timeout. Command grant timeout";
/// Cause text of a command grant error with no path flagged.
pub const GRANT_UNKNOWN: &'static str = "Unknown Flash command grant error";
/// Cause text of a command check error on an AHB write.
pub const CHECK_AHB_WRITE: &'static str = "Command is not executed when error detected in command check. Following are the possible reasons:\n - AHB write command with JMP_ON_CS instruction used in the sequence\n - There is unknown instruction opcode in the sequence.\n - Instruction DUMMY_SDR/DUMMY_RWDS_SDR used in DDR sequence.\n - Instruction DUMMY_DDR/DUMMY_RWDS_DDR used in SDR sequence.";
/// Cause text of a command check error on an AHB read.
pub const CHECK_AHB_READ: &'static str = "Command is not executed when error detected in command check. Following are the possible reasons:\n - There is unknown instruction opcode in the sequence\n - Instruction DUMMY_SDR/DUMMY_RWDS_SDR used in DDR sequence.\n - Instruction DUMMY_DDR/DUMMY_RWDS_DDR used in SDR sequence.";
/// Cause text of a command check error on an IP command.
pub const CHECK_IP: &'static str = "Command is not executed when error detected in command check. Following are the possible reasons:\n - IP command with JMP_ON_CS instruction used in the sequence\n - There is unknown instruction opcode in the sequence.\n - Instruction DUMMY_SDR/DUMMY_RWDS_SDR used in DDR sequence\n - Instruction DUMMY_DDR/DUMMY_RWDS_DDR used in SDR sequence\n - Flash boundary across";
/// Cause text of a command check error with no path flagged.
pub const CHECK_UNKNOWN: &'static str = "Unknown Flash command check error";
/// Cause text of a command execution error on an AHB write.
pub const EXEC_AHB_WRITE: &'static str = "There will be AHB bus error response except the following cases:\n - AHB write command is triggered by flush (INCR burst ended with AHB_TX_BUF not empty)\n - AHB bufferable write access and bufferable enabled (AHBCR[BUFFERABLEEN]=0x1)\nFollowing are possible reasons for this error -\n - Command timeout during execution";
/// Cause text of a command execution error on an AHB read.
pub const EXEC_AHB_READ: &'static str = "There will be AHB bus error response. Following are possible reasons for this error -\n - Command timeout during execution";
/// Cause text of a command execution error on an IP command.
pub const EXEC_IP: &'static str = "Following are possible reasons for this error -\n - Command timeout during execution";
/// Cause text of a command execution error with no path flagged.
pub const EXEC_UNKNOWN: &'static str = "Unknown Flash command execution error";
/// Cause text of an AHB bus timeout.
pub const BUS_TIMEOUT: &'static str = "There will be AHB bus error response. Following are possible reasons for this error -\n - AHB bus timeout (no bus ready return)";
/// Cause text of an AHB bus timeout with no path flagged.
pub const BUS_TIMEOUT_UNKNOWN: &'static str = "Unknown AHB bus timeout error";
/// Cause text of a failed data learning sequence.
pub const DATA_LEARNING: &'static str = "Data learning failed";

/// Errors the controller reports in its interrupt status, with the access path that failed.
#[allow(non_snake_case)]
#[derive(Debug, Clone, Copy, PartialEq, Eq, Structural)]
pub enum FlexSpiError {
    /// The command was not granted the bus in time.
    CmdGrantErr {
        /// An AHB read command failed.
        AhbReadCmdErr: bool,
        /// An AHB write command failed.
        AhbWriteCmdErr: bool,
        /// An IP command failed.
        IpCmdErr: bool,
    },
    /// The hardware rejected the programmed sequence.
    CmdCheckErr {
        /// An AHB read command failed.
        AhbReadCmdErr: bool,
        /// An AHB write command failed.
        AhbWriteCmdErr: bool,
        /// An IP command failed.
        IpCmdErr: bool,
    },
    /// The command timed out while running.
    CmdExecErr {
        /// An AHB read command failed.
        AhbReadCmdErr: bool,
        /// An AHB write command failed.
        AhbWriteCmdErr: bool,
        /// An IP command failed.
        IpCmdErr: bool,
    },
    /// No bus-ready response within the AHB timeout.
    AhbBusTimeout {
        /// An AHB read command failed.
        AhbReadCmdErr: bool,
        /// An AHB write command failed.
        AhbWriteCmdErr: bool,
    },
    /// The receive strobe calibration failed.
    DataLearningFailed,
}

/// The cause text of an error. A grant error names the read path first, a check
/// or execution error the write path first, then the other AHB path, then the IP path.
pub open spec fn description(e: FlexSpiError) -> &'static str {
    match e {
        FlexSpiError::CmdGrantErr { AhbReadCmdErr, AhbWriteCmdErr, IpCmdErr } => if AhbReadCmdErr {
            GRANT_AHB_READ
        } else if AhbWriteCmdErr {
            GRANT_AHB_WRITE
        } else if IpCmdErr {
            GRANT_IP
        } else {
            GRANT_UNKNOWN
        },
        FlexSpiError::CmdCheckErr { AhbReadCmdErr, AhbWriteCmdErr, IpCmdErr } => if AhbWriteCmdErr {
            CHECK_AHB_WRITE
        } else if AhbReadCmdErr {
            CHECK_AHB_READ
        } else if IpCmdErr {
            CHECK_IP
        } else {
            CHECK_UNKNOWN
        },
        FlexSpiError::CmdExecErr { AhbReadCmdErr, AhbWriteCmdErr, IpCmdErr } => if AhbWriteCmdErr {
            EXEC_AHB_WRITE
        } else if AhbReadCmdErr {
            EXEC_AHB_READ
        } else if IpCmdErr {
            EXEC_IP
        } else {
            EXEC_UNKNOWN
        },
        FlexSpiError::AhbBusTimeout { AhbReadCmdErr, AhbWriteCmdErr } => if AhbReadCmdErr || AhbWriteCmdErr {
            BUS_TIMEOUT
        } else {
            BUS_TIMEOUT_UNKNOWN
        },
        FlexSpiError::DataLearningFailed => DATA_LEARNING,
    }
}

impl FlexSpiError {
    /// The human-readable cause of this error.
    pub fn describe(&self) -> (r: &'static str)
        ensures
            r == description(*self),
    {
        match *self {
            FlexSpiError::CmdGrantErr { AhbReadCmdErr, AhbWriteCmdErr, IpCmdErr } => if AhbReadCmdErr {
                GRANT_AHB_READ
            } else if AhbWriteCmdErr {
                GRANT_AHB_WRITE
            } else if IpCmdErr {
                GRANT_IP
            } else {
                GRANT_UNKNOWN
            },
            FlexSpiError::CmdCheckErr { AhbReadCmdErr, AhbWriteCmdErr, IpCmdErr } => if AhbWriteCmdErr {
                CHECK_AHB_WRITE
            } else if AhbReadCmdErr {
                CHECK_AHB_READ
            } else if IpCmdErr {
                CHECK_IP
            } else {
                CHECK_UNKNOWN
            },
            FlexSpiError::CmdExecErr { AhbReadCmdErr, AhbWriteCmdErr, IpCmdErr } => if AhbWriteCmdErr {
                EXEC_AHB_WRITE
            } else if AhbReadCmdErr {
                EXEC_AHB_READ
            } else if IpCmdErr {
                EXEC_IP
            } else {
                EXEC_UNKNOWN
            },
            FlexSpiError::AhbBusTimeout { AhbReadCmdErr, AhbWriteCmdErr } => if AhbReadCmdErr || AhbWriteCmdErr {
                BUS_TIMEOUT
            } else {
                BUS_TIMEOUT_UNKNOWN
            },
            FlexSpiError::DataLearningFailed => DATA_LEARNING,
        }
    }
}

/// Why an operation of this library did not produce a program.
#[derive(Debug, Clone, Copy, PartialEq, Eq, Structural)]
pub enum FlexSpiOpError {
    /// The port does not offer the operation (erase on the data path, bulk
    /// transfers on the command path).
    NotSupportedOnPort,
    /// The execution mode forbids the operation (command-path erase while
    /// executing in place).
    NotSupportedInMode,
    /// An erase is still running on the device: its write-in-progress bit has not
    /// been seen clear yet.
    DeviceBusy,
    /// The data does not fit in one page.
    TooLarge,
    /// A hardware condition did not come within the allowed number of polls.
    Timeout,
}

} // verus!
