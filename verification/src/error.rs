//! The ways card logging fails, and the short codes that report them.
//!
//! A code is made for a narrow display: a tag of four characters that names
//! the step which failed and, where the step has an underlying cause, a colon
//! and the short name of that cause.

use vstd::prelude::*;
use vstd::utf8::is_ascii_chars;

verus! {

/// A failure of the card device itself.
#[derive(Debug, Clone, Copy, PartialEq, Eq)]
pub enum DeviceError {
    /// The bus to the card reported an error.
    Transport,
    /// Checksums could not be switched on.
    CantEnableCRC,
    /// No response while reading data.
    TimeoutReadBuffer,
    /// The card stayed busy.
    TimeoutWaitNotBusy,
    /// No response to the command with this number.
    TimeoutCommand(u8),
    /// No response to the application command with this number.
    TimeoutACommand(u8),
    /// Bad response to command 58.
    Cmd58Error,
    /// The card's data register could not be read.
    RegisterReadError,
    /// Checksum mismatch: what the card gave, what was computed.
    CrcError(u16, u16),
    /// Reading from the card failed.
    ReadError,
    /// Writing to the card failed.
    WriteError,
    /// The card is in a state that does not allow the operation.
    BadState,
    /// No card answered.
    CardNotFound,
    /// A pin could not be set.
    GpioError,
}

/// What is wrong with a file name.
#[derive(Debug, Clone, Copy, PartialEq, Eq)]
pub enum FilenameError {
    /// The name holds a character that is not allowed.
    InvalidCharacter,
    /// The name is empty.
    FilenameEmpty,
    /// The name is longer than eight characters and three of extension.
    NameTooLong,
    /// A period stands first or after the eighth character.
    MisplacedPeriod,
}

/// A failure of the volume and file layer above the device.
#[derive(Debug, Clone, Copy, PartialEq, Eq)]
pub enum ControllerError {
    /// The device below failed.
    DeviceError(DeviceError),
    /// The volume is badly formatted.
    FormatError(&'static str),
    /// There is no volume in that slot.
    NoSuchVolume,
    /// The file name was refused.
    FilenameError(FilenameError),
    /// Too many directories are open.
    TooManyOpenDirs,
    /// Too many files are open.
    TooManyOpenFiles,
    /// The file does not exist.
    FileNotFound,
    /// The file is open already.
    FileAlreadyOpen,
    /// The directory is open already.
    DirAlreadyOpen,
    /// A directory was opened as a file.
    OpenedDirAsFile,
    /// The operation is not supported.
    Unsupported,
    /// Read beyond the end of the file.
    EndOfFile,
    /// A bad cluster was found.
    BadCluster,
    /// A value could not be converted.
    ConversionError,
    /// The volume is full.
    NotEnoughSpace,
    /// A cluster was not allocated properly.
    AllocationError,
    /// The cluster chain led into free space.
    JumpedFree,
    /// The file is read-only.
    ReadOnly,
    /// The file exists already.
    FileAlreadyExists,
}

/// Why the card size could not be read or a record could not be appended.
#[derive(Debug, Clone, Copy, PartialEq, Eq)]
pub enum DatalogError {
    /// The device session could not be started.
    CannotConnect(DeviceError),
    /// The card did not tell its size.
    CannotReadCardSize(DeviceError),
    /// None of the volume slots could be opened.
    NoSuitableVolume,
    /// The root directory could not be opened.
    CannotReadRootDir(ControllerError),
    /// The file could not be opened or created.
    CannotOpenFile(ControllerError),
    /// The record could not be written to the open file.
    CannotWriteToOpenedFile(ControllerError),
}

/// The short name of a device failure. Numbers carried by the failure are
/// not part of the name.
pub open spec fn device_error_code(error: DeviceError) -> Seq<char> {
    match error {
        DeviceError::Transport => "Transport"@,
        DeviceError::CantEnableCRC => "EnableCrc"@,
        DeviceError::TimeoutReadBuffer => "TOReadBuf"@,
        DeviceError::TimeoutWaitNotBusy => "TOWaitNoBusy"@,
        DeviceError::TimeoutCommand(_) => "TOCommand"@,
        DeviceError::TimeoutACommand(_) => "TOACommand"@,
        DeviceError::Cmd58Error => "Cmd58Err"@,
        DeviceError::RegisterReadError => "RegReadErr"@,
        DeviceError::CrcError(_, _) => "Crc"@,
        DeviceError::ReadError => "ReadErr"@,
        DeviceError::WriteError => "WriteErr"@,
        DeviceError::BadState => "BadState"@,
        DeviceError::CardNotFound => "CardNotFound"@,
        DeviceError::GpioError => "GpioErr"@,
    }
}

/// The short name of a controller failure. What the failure carries is not
/// part of the name.
pub open spec fn controller_error_code(error: ControllerError) -> Seq<char> {
    match error {
        ControllerError::DeviceError(_) => "DevErr"@,
        ControllerError::FormatError(_) => "FormatErr"@,
        ControllerError::NoSuchVolume => "NoVol"@,
        ControllerError::FilenameError(_) => "FNameErr"@,
        ControllerError::TooManyOpenDirs => "ManyOpenDirs"@,
        ControllerError::TooManyOpenFiles => "ManyOpenFiles"@,
        ControllerError::FileNotFound => "FileNotFound"@,
        ControllerError::FileAlreadyOpen => "FAlreadyOpen"@,
        ControllerError::DirAlreadyOpen => "DirAlreadyOpen"@,
        ControllerError::OpenedDirAsFile => "OpenDirAsFile"@,
        ControllerError::Unsupported => "Unsupported"@,
        ControllerError::EndOfFile => "EOF"@,
        ControllerError::BadCluster => "BadCluster"@,
        ControllerError::ConversionError => "ConvertErr"@,
        ControllerError::NotEnoughSpace => "NoSpace"@,
        ControllerError::AllocationError => "AllocErr"@,
        ControllerError::JumpedFree => "JumpedFree"@,
        ControllerError::ReadOnly => "ReadOnly"@,
        ControllerError::FileAlreadyExists => "FileExists"@,
    }
}

/// The short name of a device failure.
pub fn device_error_to_str(error: &DeviceError) -> (code: &'static str)
    ensures
        code@ == device_error_code(*error),
{
    match error {
        DeviceError::Transport => "Transport",
        DeviceError::CantEnableCRC => "EnableCrc",
        DeviceError::TimeoutReadBuffer => "TOReadBuf",
        DeviceError::TimeoutWaitNotBusy => "TOWaitNoBusy",
        DeviceError::TimeoutCommand(_) => "TOCommand",
        DeviceError::TimeoutACommand(_) => "TOACommand",
        DeviceError::Cmd58Error => "Cmd58Err",
        DeviceError::RegisterReadError => "RegReadErr",
        DeviceError::CrcError(_, _) => "Crc",
        DeviceError::ReadError => "ReadErr",
        DeviceError::WriteError => "WriteErr",
        DeviceError::BadState => "BadState",
        DeviceError::CardNotFound => "CardNotFound",
        DeviceError::GpioError => "GpioErr",
    }
}

/// The short name of a controller failure.
pub fn controller_error_to_str(error: &ControllerError) -> (code: &'static str)
    ensures
        code@ == controller_error_code(*error),
{
    match error {
        ControllerError::DeviceError(_) => "DevErr",
        ControllerError::FormatError(_) => "FormatErr",
        ControllerError::NoSuchVolume => "NoVol",
        ControllerError::FilenameError(_) => "FNameErr",
        ControllerError::TooManyOpenDirs => "ManyOpenDirs",
        ControllerError::TooManyOpenFiles => "ManyOpenFiles",
        ControllerError::FileNotFound => "FileNotFound",
        ControllerError::FileAlreadyOpen => "FAlreadyOpen",
        ControllerError::DirAlreadyOpen => "DirAlreadyOpen",
        ControllerError::OpenedDirAsFile => "OpenDirAsFile",
        ControllerError::Unsupported => "Unsupported",
        ControllerError::EndOfFile => "EOF",
        ControllerError::BadCluster => "BadCluster",
        ControllerError::ConversionError => "ConvertErr",
        ControllerError::NotEnoughSpace => "NoSpace",
        ControllerError::AllocationError => "AllocErr",
        ControllerError::JumpedFree => "JumpedFree",
        ControllerError::ReadOnly => "ReadOnly",
        ControllerError::FileAlreadyExists => "FileExists",
    }
}

/// The short name of a device failure is ASCII and no longer than twelve
/// characters.
pub proof fn lemma_device_error_code_is_short(error: DeviceError)
    ensures
        is_ascii_chars(device_error_code(error)),
        1 <= device_error_code(error).len() <= 12,
{
    reveal_strlit("Transport");
    reveal_strlit("EnableCrc");
    reveal_strlit("TOReadBuf");
    reveal_strlit("TOWaitNoBusy");
    reveal_strlit("TOCommand");
    reveal_strlit("TOACommand");
    reveal_strlit("Cmd58Err");
    reveal_strlit("RegReadErr");
    reveal_strlit("Crc");
    reveal_strlit("ReadErr");
    reveal_strlit("WriteErr");
    reveal_strlit("BadState");
    reveal_strlit("CardNotFound");
    reveal_strlit("GpioErr");
}

/// The short name of a controller failure is ASCII and no longer than
/// fourteen characters.
pub proof fn lemma_controller_error_code_is_short(error: ControllerError)
    ensures
        is_ascii_chars(controller_error_code(error)),
        1 <= controller_error_code(error).len() <= 14,
{
    reveal_strlit("DevErr");
    reveal_strlit("FormatErr");
    reveal_strlit("NoVol");
    reveal_strlit("FNameErr");
    reveal_strlit("ManyOpenDirs");
    reveal_strlit("ManyOpenFiles");
    reveal_strlit("FileNotFound");
    reveal_strlit("FAlreadyOpen");
    reveal_strlit("DirAlreadyOpen");
    reveal_strlit("OpenDirAsFile");
    reveal_strlit("Unsupported");
    reveal_strlit("EOF");
    reveal_strlit("BadCluster");
    reveal_strlit("ConvertErr");
    reveal_strlit("NoSpace");
    reveal_strlit("AllocErr");
    reveal_strlit("JumpedFree");
    reveal_strlit("ReadOnly");
    reveal_strlit("FileExists");
}

/// The code of a failure is compact: ASCII, a tag of four characters that
/// tells the step, and nineteen characters at most in all. Failures of
/// different steps have different tags.
pub proof fn lemma_code_is_compact(error: DatalogError)
    ensures
        is_ascii_chars(error.code()),
        error.tag().len() == 4,
        4 <= error.code().len() <= 19,
        forall|other: DatalogError|
            (#[trigger] other.tag()) == error.tag() ==> {
                &&& other is CannotConnect <==> error is CannotConnect
                &&& other is CannotReadCardSize <==> error is CannotReadCardSize
                &&& other is NoSuitableVolume <==> error is NoSuitableVolume
                &&& other is CannotReadRootDir <==> error is CannotReadRootDir
                &&& other is CannotOpenFile <==> error is CannotOpenFile
                &&& other is CannotWriteToOpenedFile <==> error is CannotWriteToOpenedFile
            },
{
    reveal_strlit("Conn");
    reveal_strlit("Size");
    reveal_strlit("Volu");
    reveal_strlit("Root");
    reveal_strlit("Open");
    reveal_strlit("WrEr");
    match error {
        DatalogError::CannotConnect(cause) => lemma_device_error_code_is_short(cause),
        DatalogError::CannotReadCardSize(cause) => lemma_device_error_code_is_short(cause),
        DatalogError::NoSuitableVolume => {},
        DatalogError::CannotReadRootDir(cause) => lemma_controller_error_code_is_short(cause),
        DatalogError::CannotOpenFile(cause) => lemma_controller_error_code_is_short(cause),
        DatalogError::CannotWriteToOpenedFile(cause) => lemma_controller_error_code_is_short(
            cause,
        ),
    }
    assert forall|other: DatalogError| (#[trigger] other.tag()) == error.tag() implies {
        &&& other is CannotConnect <==> error is CannotConnect
        &&& other is CannotReadCardSize <==> error is CannotReadCardSize
        &&& other is NoSuitableVolume <==> error is NoSuitableVolume
        &&& other is CannotReadRootDir <==> error is CannotReadRootDir
        &&& other is CannotOpenFile <==> error is CannotOpenFile
        &&& other is CannotWriteToOpenedFile <==> error is CannotWriteToOpenedFile
    } by {
        assert(other.tag()[0] == error.tag()[0]);
        assert(other.tag()[1] == error.tag()[1]);
    }
}

impl DatalogError {
    /// The tag of four characters that names the step which failed.
    pub open spec fn tag(self) -> Seq<char> {
        match self {
            DatalogError::CannotConnect(_) => "Conn"@,
            DatalogError::CannotReadCardSize(_) => "Size"@,
            DatalogError::NoSuitableVolume => "Volu"@,
            DatalogError::CannotReadRootDir(_) => "Root"@,
            DatalogError::CannotOpenFile(_) => "Open"@,
            DatalogError::CannotWriteToOpenedFile(_) => "WrEr"@,
        }
    }

    /// The short name of the underlying cause, where the failure has one.
    pub open spec fn cause(self) -> Option<Seq<char>> {
        match self {
            DatalogError::CannotConnect(error) => Some(device_error_code(error)),
            DatalogError::CannotReadCardSize(error) => Some(device_error_code(error)),
            DatalogError::NoSuitableVolume => None,
            DatalogError::CannotReadRootDir(error) => Some(controller_error_code(error)),
            DatalogError::CannotOpenFile(error) => Some(controller_error_code(error)),
            DatalogError::CannotWriteToOpenedFile(error) => Some(controller_error_code(error)),
        }
    }

    /// The code shown for the failure: the tag, then a colon and the cause
    /// where there is one.
    pub open spec fn code(self) -> Seq<char> {
        match self.cause() {
            Some(cause) => self.tag() + seq![':'] + cause,
            None => self.tag(),
        }
    }

    /// Appends the code of the failure to `f`.
    pub fn fmt(&self, f: &mut String)
        ensures
            final(f)@ == old(f)@ + self.code(),
    {
        proof {
            reveal_strlit("Conn");
            reveal_strlit("Size");
            reveal_strlit("Root");
            reveal_strlit("Open");
            reveal_strlit("WrEr");
            reveal_strlit("Conn:");
            reveal_strlit("Size:");
            reveal_strlit("Root:");
            reveal_strlit("Open:");
            reveal_strlit("WrEr:");
        }
        match self {
            DatalogError::CannotConnect(error) => {
                f.append("Conn:");
                f.append(device_error_to_str(error));
            },
            DatalogError::CannotReadCardSize(error) => {
                f.append("Size:");
                f.append(device_error_to_str(error));
            },
            DatalogError::NoSuitableVolume => {
                f.append("Volu");
            },
            DatalogError::CannotReadRootDir(error) => {
                f.append("Root:");
                f.append(controller_error_to_str(error));
            },
            DatalogError::CannotOpenFile(error) => {
                f.append("Open:");
                f.append(controller_error_to_str(error));
            },
            DatalogError::CannotWriteToOpenedFile(error) => {
                f.append("WrEr:");
                f.append(controller_error_to_str(error));
            },
        }
        assert(f@ =~= old(f)@ + self.code());
    }

    /// The code of the failure as a string of its own.
    pub fn to_string(&self) -> (text: String)
        ensures
            text@ == self.code(),
    {
        let mut text = String::new();
        self.fmt(&mut text);
        assert(text@ =~= self.code());
        text
    }
}

} // verus!
