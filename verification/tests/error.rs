use datalogger::error::{
    controller_error_to_str, device_error_to_str, ControllerError, DatalogError, DeviceError,
    FilenameError,
};

#[test]
fn device_errors_have_their_short_names() {
    let names = [
        (DeviceError::Transport, "Transport"),
        (DeviceError::CantEnableCRC, "EnableCrc"),
        (DeviceError::TimeoutReadBuffer, "TOReadBuf"),
        (DeviceError::TimeoutWaitNotBusy, "TOWaitNoBusy"),
        (DeviceError::TimeoutCommand(17), "TOCommand"),
        (DeviceError::TimeoutACommand(41), "TOACommand"),
        (DeviceError::Cmd58Error, "Cmd58Err"),
        (DeviceError::RegisterReadError, "RegReadErr"),
        (DeviceError::CrcError(1, 2), "Crc"),
        (DeviceError::ReadError, "ReadErr"),
        (DeviceError::WriteError, "WriteErr"),
        (DeviceError::BadState, "BadState"),
        (DeviceError::CardNotFound, "CardNotFound"),
        (DeviceError::GpioError, "GpioErr"),
    ];
    for (error, name) in names {
        assert_eq!(device_error_to_str(&error), name);
    }
}

#[test]
fn controller_errors_have_their_short_names() {
    let names = [
        (ControllerError::DeviceError(DeviceError::ReadError), "DevErr"),
        (ControllerError::FormatError("bad"), "FormatErr"),
        (ControllerError::NoSuchVolume, "NoVol"),
        (ControllerError::FilenameError(FilenameError::NameTooLong), "FNameErr"),
        (ControllerError::TooManyOpenDirs, "ManyOpenDirs"),
        (ControllerError::TooManyOpenFiles, "ManyOpenFiles"),
        (ControllerError::FileNotFound, "FileNotFound"),
        (ControllerError::FileAlreadyOpen, "FAlreadyOpen"),
        (ControllerError::DirAlreadyOpen, "DirAlreadyOpen"),
        (ControllerError::OpenedDirAsFile, "OpenDirAsFile"),
        (ControllerError::Unsupported, "Unsupported"),
        (ControllerError::EndOfFile, "EOF"),
        (ControllerError::BadCluster, "BadCluster"),
        (ControllerError::ConversionError, "ConvertErr"),
        (ControllerError::NotEnoughSpace, "NoSpace"),
        (ControllerError::AllocationError, "AllocErr"),
        (ControllerError::JumpedFree, "JumpedFree"),
        (ControllerError::ReadOnly, "ReadOnly"),
        (ControllerError::FileAlreadyExists, "FileExists"),
    ];
    for (error, name) in names {
        assert_eq!(controller_error_to_str(&error), name);
    }
}

#[test]
fn datalog_errors_are_encoded_as_tag_and_cause() {
    assert_eq!(
        DatalogError::CannotConnect(DeviceError::CardNotFound).to_string(),
        "Conn:CardNotFound"
    );
    assert_eq!(
        DatalogError::CannotReadCardSize(DeviceError::RegisterReadError).to_string(),
        "Size:RegReadErr"
    );
    assert_eq!(DatalogError::NoSuitableVolume.to_string(), "Volu");
    assert_eq!(
        DatalogError::CannotReadRootDir(ControllerError::DeviceError(DeviceError::Transport))
            .to_string(),
        "Root:DevErr"
    );
    assert_eq!(
        DatalogError::CannotOpenFile(ControllerError::TooManyOpenFiles).to_string(),
        "Open:ManyOpenFiles"
    );
    assert_eq!(
        DatalogError::CannotWriteToOpenedFile(ControllerError::NotEnoughSpace).to_string(),
        "WrEr:NoSpace"
    );
}

#[test]
fn error_code_is_appended_to_what_the_buffer_holds() {
    let mut text = String::from("Err: ");
    DatalogError::CannotOpenFile(ControllerError::FilenameError(FilenameError::InvalidCharacter))
        .fmt(&mut text);
    assert_eq!(text, "Err: Open:FNameErr");
}

#[test]
fn error_codes_are_compact() {
    let longest = DatalogError::CannotReadRootDir(ControllerError::DirAlreadyOpen).to_string();
    assert_eq!(longest, "Root:DirAlreadyOpen");
    assert_eq!(longest.len(), 19);
    assert!(longest.is_ascii());
}
