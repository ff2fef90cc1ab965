use datalogger::error::{DatalogError, DeviceError};
use datalogger::reader::detect_sd_card_size;
use datalogger::storage::{StorageAction, StorageReply, Turn};

#[test]
fn card_size_is_read_between_connect_and_disconnect() {
    let mut session = detect_sd_card_size();
    assert_eq!(session.request(), Some(StorageAction::Connect));
    assert!(session.advance(StorageReply::Done));
    assert_eq!(session.request(), Some(StorageAction::ReadCardSize));
    assert!(session.advance(StorageReply::CardSize(2_000_000_000)));
    assert_eq!(session.request(), Some(StorageAction::Disconnect));
    assert_eq!(session.result(), None);
    assert!(session.advance(StorageReply::Done));
    assert_eq!(session.request(), None);
    assert_eq!(session.result(), Some(Ok(2_000_000_000)));
}

#[test]
fn size_session_turn_is_the_request_or_the_result() {
    let mut session = detect_sd_card_size();
    assert_eq!(session.turn(), Turn::Perform(StorageAction::Connect));
    assert!(session.advance(StorageReply::Done));
    assert_eq!(session.turn(), Turn::Perform(StorageAction::ReadCardSize));
    assert!(session.advance(StorageReply::CardSize(512)));
    assert_eq!(session.turn(), Turn::Perform(StorageAction::Disconnect));
    assert!(session.advance(StorageReply::Done));
    assert_eq!(session.turn(), Turn::Over(Ok(512)));
}

#[test]
fn card_that_does_not_connect_is_not_disconnected() {
    let mut session = detect_sd_card_size();
    assert!(session.advance(StorageReply::DeviceFault(DeviceError::CardNotFound)));
    assert_eq!(session.request(), None);
    assert_eq!(session.result(), Some(Err(DatalogError::CannotConnect(DeviceError::CardNotFound))));
}

#[test]
fn size_read_failure_still_disconnects() {
    let mut session = detect_sd_card_size();
    assert!(session.advance(StorageReply::Done));
    assert!(session.advance(StorageReply::DeviceFault(DeviceError::RegisterReadError)));
    assert_eq!(session.request(), Some(StorageAction::Disconnect));
    assert!(session.advance(StorageReply::Done));
    assert_eq!(
        session.result(),
        Some(Err(DatalogError::CannotReadCardSize(DeviceError::RegisterReadError)))
    );
}

#[test]
fn size_session_refuses_replies_that_do_not_answer() {
    let mut session = detect_sd_card_size();
    assert!(!session.advance(StorageReply::CardSize(1)));
    assert!(session.advance(StorageReply::Done));
    assert!(!session.advance(StorageReply::Done));
    assert_eq!(session.request(), Some(StorageAction::ReadCardSize));
}

#[test]
fn replies_are_matched_to_operations() {
    let done = StorageReply::Done;
    let size = StorageReply::CardSize(1);
    let device = StorageReply::DeviceFault(DeviceError::Transport);
    let controller = StorageReply::ControllerFault(datalogger::error::ControllerError::EndOfFile);
    assert!(StorageAction::Connect.is_answered_by(&done));
    assert!(StorageAction::Connect.is_answered_by(&device));
    assert!(!StorageAction::Connect.is_answered_by(&controller));
    assert!(StorageAction::ReadCardSize.is_answered_by(&size));
    assert!(!StorageAction::ReadCardSize.is_answered_by(&done));
    for action in [
        StorageAction::OpenVolume(0),
        StorageAction::OpenRootDir(0),
        StorageAction::OpenFile(datalogger::storage::Mode::ReadWriteCreateOrAppend),
        StorageAction::Write,
    ] {
        assert!(action.is_answered_by(&done));
        assert!(action.is_answered_by(&controller));
        assert!(!action.is_answered_by(&device));
        assert!(!action.is_answered_by(&size));
    }
    for action in [StorageAction::CloseFile, StorageAction::CloseDir, StorageAction::Disconnect] {
        for reply in [done, size, device, controller] {
            assert!(action.is_answered_by(&reply));
        }
    }
}
