//! When a record is written, and what the display says of the attempt.
//!
//! A write is attempted when the clock shows a multiple of ten seconds, and
//! once only for a time of day: the time of the last attempt is kept between
//! cycles and a snapshot with that same time is passed over.

use vstd::prelude::*;
use vstd::utf8::{encode_utf8, is_ascii_chars, is_ascii_chars_encode_utf8};
use arrayvec::ArrayString;
use crate::buffer::{
    lemma_encoding_of_joined, name_buffer_str, name_buffer_text, record_buffer,
    record_buffer_str, record_buffer_text, status_buffer, status_buffer_text,
};
use crate::error::{lemma_code_is_compact, DatalogError};
use crate::format::{card_size_text, lemma_card_size_line_fits, print_card_size};
use crate::log::{
    file_name_text, format_log_file, format_sensors_log, lemma_log_record_fits, log_record,
};
use crate::sensors::{Sensors, Time};
use crate::text::{lemma_two_wide, power_of_ten};

verus! {

/// The time of day of the last write that was attempted, if there was one.
#[derive(Debug, Clone, Copy, PartialEq, Eq)]
pub struct WriteAttemptState {
    pub last_write_attempt: Option<Time>,
}

/// A write that is due: the time of the snapshot, the file that takes the
/// record, and the record.
#[derive(Debug)]
pub struct LogWrite {
    pub time: Time,
    pub file_name: ArrayString<15>,
    pub file_data: ArrayString<200>,
}

/// Whether a snapshot taken at `time` is to be written.
pub open spec fn write_due(time: Time, state: WriteAttemptState) -> bool {
    time.seconds % 10 == 0 && state.last_write_attempt != Some(time)
}

/// The state after a cycle that read `time`: the time is recorded where a
/// write is due, and the state stays otherwise.
pub open spec fn after_cycle(state: WriteAttemptState, time: Option<Time>) -> WriteAttemptState {
    match time {
        Some(t) => if write_due(t, state) {
            WriteAttemptState { last_write_attempt: Some(t) }
        } else {
            state
        },
        None => state,
    }
}

/// The state after cycles that read these times one after the other, from
/// the state before any attempt.
pub open spec fn after_cycles(times: Seq<Option<Time>>) -> WriteAttemptState
    decreases times.len(),
{
    if times.len() == 0 {
        WriteAttemptState { last_write_attempt: None }
    } else {
        after_cycle(after_cycles(times.drop_last()), times.last())
    }
}

/// Whether the last of the cycles attempts a write.
pub open spec fn attempts_write(times: Seq<Option<Time>>) -> bool {
    &&& times.len() > 0
    &&& times.last() matches Some(t)
    &&& write_due(t, after_cycles(times.drop_last()))
}

/// What the display says of a write: the file and the time of the snapshot
/// after a success, the code of the failure otherwise.
pub open spec fn status_text(
    file_name: Seq<char>,
    time: Time,
    result: Result<(), DatalogError>,
) -> Seq<char> {
    match result {
        Ok(_) => "OK: "@ + file_name + "\nWritten: "@ + time.text(),
        Err(error) => "Err: "@ + error.code(),
    }
}

impl WriteAttemptState {
    /// The state before any write was attempted. It differs from the state
    /// after an attempt at any time of day.
    pub fn new() -> (state: Self)
        ensures
            state.last_write_attempt is None,
    {
        WriteAttemptState { last_write_attempt: None }
    }

    /// Whether a snapshot taken at `time` is to be written.
    pub fn is_due(&self, time: Time) -> (due: bool)
        ensures
            due == write_due(time, *self),
    {
        let repeated = match self.last_write_attempt {
            Some(last) => time == last,
            None => false,
        };
        time.seconds % 10 == 0 && !repeated
    }
}

/// Decides whether the snapshot is written in this cycle. Where its time is
/// known and due, the time is recorded in `state` as the last attempt and
/// the write is handed back; otherwise there is no write and `state` stays.
pub fn schedule_write(state: &mut WriteAttemptState, sensors: &Sensors) -> (write: Option<LogWrite>)
    ensures
        write is Some <==> sensors.get_time() is Some && write_due(
            sensors.get_time()->0,
            *old(state),
        ),
        write matches Some(w) ==> {
            &&& w.time == sensors.get_time()->0
            &&& name_buffer_text(w.file_name) == file_name_text(sensors.time->0)
            &&& record_buffer_text(w.file_data) == log_record(*sensors)
            &&& final(state).last_write_attempt == Some(w.time)
        },
        write is None ==> *final(state) == *old(state),
        *final(state) == after_cycle(*old(state), sensors.get_time()),
{
    if let Some(time) = sensors.get_time() {
        if state.is_due(time) {
            if let Some(file_name) = format_log_file(sensors) {
                let mut text = String::new();
                format_sensors_log(&mut text, sensors);
                proof {
                    assert(text@ =~= log_record(*sensors));
                    lemma_log_record_fits(*sensors);
                    is_ascii_chars_encode_utf8(text@);
                }
                let file_data = record_buffer(text.as_str()).unwrap();
                state.last_write_attempt = Some(time);
                return Some(LogWrite { time, file_name, file_data });
            }
        }
    }
    None
}

impl LogWrite {
    /// The name of the file that takes the record.
    pub fn name(&self) -> (name: &str)
        ensures
            name@ == name_buffer_text(self.file_name),
    {
        name_buffer_str(&self.file_name)
    }

    /// The record, as it is to be written.
    pub fn data(&self) -> (data: &str)
        ensures
            data@ == record_buffer_text(self.file_data),
    {
        record_buffer_str(&self.file_data)
    }
}

/// The line on the card in a status buffer of its own.
pub fn card_size_status(card_size: Result<u64, DatalogError>) -> (sd_result: ArrayString<40>)
    ensures
        status_buffer_text(sd_result) == card_size_text(card_size),
{
    let mut text = String::new();
    print_card_size(&mut text, card_size);
    proof {
        assert(text@ =~= card_size_text(card_size));
        lemma_card_size_line_fits(card_size);
        is_ascii_chars_encode_utf8(text@);
    }
    status_buffer(text.as_str()).unwrap()
}

/// Replaces the text in `sd_result` by what the display says of the write.
pub fn write_status(
    sd_result: &mut ArrayString<40>,
    file_name: &ArrayString<15>,
    time: &Time,
    result: &Result<(), DatalogError>,
)
    ensures
        status_buffer_text(*final(sd_result)) == status_text(
            name_buffer_text(*file_name),
            *time,
            *result,
        ),
{
    let name = name_buffer_str(file_name);
    let mut text = String::new();
    match result {
        Ok(_) => {
            text.append("OK: ");
            text.append(name);
            text.append("\nWritten: ");
            time.fmt(&mut text);
        },
        Err(error) => {
            text.append("Err: ");
            error.fmt(&mut text);
        },
    }
    proof {
        assert(text@ =~= status_text(name_buffer_text(*file_name), *time, *result));
        lemma_status_fits(name_buffer_text(*file_name), *time, *result);
    }
    *sd_result = status_buffer(text.as_str()).unwrap();
}

/// Writes are attempted on the tens of seconds only, and a time of day is
/// attempted once: whatever the state before a cycle, a second cycle that
/// reads the same time attempts no write, however the first write ended.
pub proof fn lemma_one_attempt_per_second(time: Time, state: WriteAttemptState)
    ensures
        write_due(time, state) ==> time.seconds % 10 == 0,
        !write_due(
            time,
            if write_due(time, state) {
                WriteAttemptState { last_write_attempt: Some(time) }
            } else {
                state
            },
        ),
{
}

/// Over any run of cycles, a write is attempted only in a cycle that reads
/// a time on the tens of seconds; and once a write was attempted at a time
/// of day, no write is attempted in the cycles that follow for as long as
/// they read that same time or none, however many they are.
pub proof fn lemma_writes_are_gated(
    earlier: Seq<Option<Time>>,
    time: Time,
    following: Seq<Option<Time>>,
)
    requires
        attempts_write(earlier.push(Some(time))),
        forall|i: int|
            0 <= i < following.len() ==> following[i] == Some(time) || following[i] is None,
    ensures
        time.seconds % 10 == 0,
        after_cycles(earlier.push(Some(time)) + following).last_write_attempt == Some(time),
        following.len() > 0 ==> !attempts_write(earlier.push(Some(time)) + following),
    decreases following.len(),
{
    let cycles = earlier.push(Some(time));
    assert(cycles.drop_last() =~= earlier);
    if following.len() == 0 {
        assert(cycles + following =~= cycles);
    } else {
        let before = following.drop_last();
        lemma_writes_are_gated(earlier, time, before);
        assert((cycles + following).drop_last() =~= cycles + before);
    }
}

/// Before any attempt, every time on the tens of seconds is due.
pub proof fn lemma_first_attempt(time: Time)
    ensures
        write_due(time, WriteAttemptState { last_write_attempt: None }) <==> time.seconds % 10
            == 0,
{
}

/// What the display says of a write to a file with a name of fifteen
/// bytes at most takes no more than forty bytes: the status buffer holds
/// it.
pub proof fn lemma_status_fits(file_name: Seq<char>, time: Time, result: Result<(), DatalogError>)
    requires
        encode_utf8(file_name).len() <= 15,
    ensures
        encode_utf8(status_text(file_name, time, result)).len() <= 40,
{
    reveal_strlit("OK: ");
    reveal_strlit("\nWritten: ");
    reveal_strlit("Err: ");
    match result {
        Ok(_) => {
            reveal_with_fuel(power_of_ten, 4);
            lemma_two_wide(time.hours as int, 3);
            lemma_two_wide(time.minutes as int, 3);
            lemma_two_wide(time.seconds as int, 3);
            assert(is_ascii_chars(time.text()) && time.text().len() <= 11);
            is_ascii_chars_encode_utf8("OK: "@);
            is_ascii_chars_encode_utf8("\nWritten: "@);
            is_ascii_chars_encode_utf8(time.text());
            lemma_encoding_of_joined("OK: "@, file_name);
            lemma_encoding_of_joined("OK: "@ + file_name, "\nWritten: "@);
            lemma_encoding_of_joined("OK: "@ + file_name + "\nWritten: "@, time.text());
        },
        Err(error) => {
            lemma_code_is_compact(error);
            is_ascii_chars_encode_utf8("Err: "@);
            is_ascii_chars_encode_utf8(error.code());
            lemma_encoding_of_joined("Err: "@, error.code());
        },
    }
}

} // verus!
