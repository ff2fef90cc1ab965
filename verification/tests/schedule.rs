use datalogger::error::{ControllerError, DatalogError};
use arrayvec::ArrayString;
use datalogger::error::DeviceError;
use datalogger::schedule::{card_size_status, schedule_write, write_status, WriteAttemptState};
use datalogger::sensors::{DateTime, Measurement, Sensors, Time};

fn snapshot(day: u8, hours: u8, minutes: u8, seconds: u8) -> Sensors {
    Sensors {
        time: Some(DateTime { year: 24, month: 3, weekday: 4, day, hours, minutes, seconds }),
        temperature_pressure: None,
        temperature_humidity: [None; 6],
    }
}

#[test]
fn writes_are_attempted_on_the_tens_and_once_per_second() {
    let mut state = WriteAttemptState::new();
    let mut attempted = Vec::new();
    for seconds in [5u8, 9, 10, 10, 11, 20] {
        let write = schedule_write(&mut state, &snapshot(7, 12, 30, seconds));
        attempted.push(write.is_some());
    }
    assert_eq!(attempted, vec![false, false, true, false, false, true]);
    assert_eq!(state.last_write_attempt, Some(Time { hours: 12, minutes: 30, seconds: 20 }));
}

#[test]
fn snapshot_without_time_is_not_written() {
    let mut state = WriteAttemptState::new();
    let sensors = Sensors { time: None, temperature_pressure: None, temperature_humidity: [None; 6] };
    assert!(schedule_write(&mut state, &sensors).is_none());
    assert_eq!(state, WriteAttemptState::new());
}

#[test]
fn first_write_is_due_at_midnight_too() {
    let mut state = WriteAttemptState::new();
    assert!(state.is_due(Time { hours: 0, minutes: 0, seconds: 0 }));
    assert!(schedule_write(&mut state, &snapshot(7, 0, 0, 0)).is_some());
    assert!(!state.is_due(Time { hours: 0, minutes: 0, seconds: 0 }));
    assert!(schedule_write(&mut state, &snapshot(7, 0, 0, 0)).is_none());
}

#[test]
fn same_second_of_another_minute_is_written() {
    let mut state = WriteAttemptState::new();
    assert!(schedule_write(&mut state, &snapshot(7, 12, 30, 10)).is_some());
    assert!(schedule_write(&mut state, &snapshot(7, 12, 31, 10)).is_some());
    assert!(schedule_write(&mut state, &snapshot(7, 13, 31, 10)).is_some());
    assert!(schedule_write(&mut state, &snapshot(7, 13, 31, 10)).is_none());
}

#[test]
fn state_is_left_alone_when_no_write_is_due() {
    let mut state =
        WriteAttemptState { last_write_attempt: Some(Time { hours: 1, minutes: 2, seconds: 10 }) };
    assert!(schedule_write(&mut state, &snapshot(7, 1, 2, 13)).is_none());
    assert_eq!(state.last_write_attempt, Some(Time { hours: 1, minutes: 2, seconds: 10 }));
    assert!(schedule_write(&mut state, &snapshot(7, 1, 2, 10)).is_none());
    assert_eq!(state.last_write_attempt, Some(Time { hours: 1, minutes: 2, seconds: 10 }));
}

#[test]
fn due_write_names_the_file_and_holds_the_record() {
    let mut state = WriteAttemptState::new();
    let mut sensors = snapshot(7, 23, 59, 50);
    sensors.temperature_humidity[1] = Some(Measurement { temperature: 215, humidity: 456 });
    let write = schedule_write(&mut state, &sensors).unwrap();
    assert_eq!(write.time, Time { hours: 23, minutes: 59, seconds: 50 });
    assert_eq!(write.file_name.as_str(), "20240307.log");
    assert_eq!(
        write.file_data.as_str(),
        "2024-03-0723:59:50? ? ? ? 21.545.6 %? ? ? ? ? ? ? ? End"
    );
    assert_eq!(write.name(), "20240307.log");
    assert_eq!(write.data(), "2024-03-0723:59:50? ? ? ? 21.545.6 %? ? ? ? ? ? ? ? End");
    assert_eq!(write.file_data.capacity(), 200);

    let next = schedule_write(&mut state, &snapshot(8, 0, 0, 0)).unwrap();
    assert_eq!(next.file_name.as_str(), "20240308.log");
}

fn name(text: &str) -> ArrayString<15> {
    ArrayString::from(text).unwrap()
}

#[test]
fn status_of_a_written_record() {
    let mut status = card_size_status(Ok(2_000_000_000));
    assert_eq!(status.as_str(), "SD Card 1907 MB");
    write_status(
        &mut status,
        &name("20240307.log"),
        &Time { hours: 12, minutes: 30, seconds: 40 },
        &Ok(()),
    );
    assert_eq!(status.as_str(), "OK: 20240307.log\nWritten: 12:30:40");
}

#[test]
fn status_of_a_failed_write() {
    let mut status = ArrayString::<40>::from("OK: 20240307.log\nWritten: 12:30:40").unwrap();
    write_status(
        &mut status,
        &name("20240307.log"),
        &Time { hours: 12, minutes: 30, seconds: 50 },
        &Err(DatalogError::CannotWriteToOpenedFile(ControllerError::NotEnoughSpace)),
    );
    assert_eq!(status.as_str(), "Err: WrEr:NoSpace");

    write_status(
        &mut status,
        &name("20240307.log"),
        &Time { hours: 12, minutes: 31, seconds: 0 },
        &Err(DatalogError::NoSuitableVolume),
    );
    assert_eq!(status.as_str(), "Err: Volu");
}

#[test]
fn longest_status_fills_the_buffer() {
    let mut status = ArrayString::<40>::new();
    write_status(
        &mut status,
        &name("20255255255.log"),
        &Time { hours: 255, minutes: 255, seconds: 255 },
        &Ok(()),
    );
    assert_eq!(status.as_str(), "OK: 20255255255.log\nWritten: 255:255:255");
    assert_eq!(status.len(), 40);
    assert_eq!(status.capacity(), 40);
}

#[test]
fn status_holds_a_file_name_that_is_not_ascii() {
    let mut status = ArrayString::<40>::new();
    write_status(
        &mut status,
        &name("\u{20ac}\u{20ac}\u{20ac}\u{20ac}\u{20ac}"),
        &Time { hours: 255, minutes: 255, seconds: 255 },
        &Ok(()),
    );
    assert_eq!(
        status.as_str(),
        "OK: \u{20ac}\u{20ac}\u{20ac}\u{20ac}\u{20ac}\nWritten: 255:255:255"
    );
    assert_eq!(status.len(), 40);
}

#[test]
fn card_status_is_the_line_on_the_card() {
    assert_eq!(card_size_status(Ok(u64::MAX)).as_str(), "SD Card 17592186044415 MB");
    assert_eq!(
        card_size_status(Err(DatalogError::CannotConnect(DeviceError::CardNotFound))).as_str(),
        "SD Card undetected\nConn:CardNotFound"
    );
    assert_eq!(
        card_size_status(Err(DatalogError::CannotReadRootDir(ControllerError::DirAlreadyOpen)))
            .len(),
        38
    );
}
