use flexspi::error::FlexSpiError;

#[test]
fn grant_error_descriptions() {
    let e = FlexSpiError::CmdGrantErr { AhbReadCmdErr: true, AhbWriteCmdErr: true, IpCmdErr: false };
    assert_eq!(e.describe(), "AHB bus error response for Read Command. Command grant timeout");
    let e = FlexSpiError::CmdGrantErr { AhbReadCmdErr: false, AhbWriteCmdErr: false, IpCmdErr: true };
    assert_eq!(e.describe(), "IP command grant timeout. Command grant timeout");
    let e = FlexSpiError::CmdGrantErr { AhbReadCmdErr: false, AhbWriteCmdErr: false, IpCmdErr: false };
    assert_eq!(e.describe(), "Unknown Flash command grant error");
}

#[test]
fn check_error_prefers_write_path() {
    let e = FlexSpiError::CmdCheckErr { AhbReadCmdErr: true, AhbWriteCmdErr: true, IpCmdErr: true };
    assert!(e.describe().contains("AHB write command with JMP_ON_CS"));
    let e = FlexSpiError::CmdCheckErr { AhbReadCmdErr: false, AhbWriteCmdErr: false, IpCmdErr: true };
    assert!(e.describe().ends_with("Flash boundary across"));
}

#[test]
fn execution_and_bus_errors() {
    let e = FlexSpiError::CmdExecErr { AhbReadCmdErr: true, AhbWriteCmdErr: false, IpCmdErr: false };
    assert!(e.describe().starts_with("There will be AHB bus error response."));
    let e = FlexSpiError::CmdExecErr { AhbReadCmdErr: false, AhbWriteCmdErr: false, IpCmdErr: false };
    assert_eq!(e.describe(), "Unknown Flash command execution error");
    let e = FlexSpiError::AhbBusTimeout { AhbReadCmdErr: false, AhbWriteCmdErr: true };
    assert!(e.describe().ends_with("AHB bus timeout (no bus ready return)"));
    let e = FlexSpiError::AhbBusTimeout { AhbReadCmdErr: false, AhbWriteCmdErr: false };
    assert_eq!(e.describe(), "Unknown AHB bus timeout error");
    assert_eq!(FlexSpiError::DataLearningFailed.describe(), "Data learning failed");
}
