//! The readings of one acquisition cycle.

use vstd::prelude::*;
use crate::text::{two_wide, write_two_wide};

verus! {

/// Date and time as the clock gives them. The year counts from 2000.
#[derive(Debug, Clone, Copy, PartialEq, Eq)]
pub struct DateTime {
    pub year: u8,
    pub month: u8,
    pub weekday: u8,
    pub day: u8,
    pub hours: u8,
    pub minutes: u8,
    pub seconds: u8,
}

/// Time of day. Two times are equal when all three fields are.
#[derive(Debug, Clone, Copy, PartialEq, Eq, Structural)]
pub struct Time {
    pub hours: u8,
    pub minutes: u8,
    pub seconds: u8,
}

/// Reading of the pressure sensor.
#[derive(Debug, Clone, Copy, PartialEq, Eq)]
pub struct TemperaturePressure {
    /// In 1/100 degrees celsius
    pub temperature: i32,
    /// In pascals
    pub pressure: i32,
}

/// Reading of one humidity probe.
#[derive(Debug, Clone, Copy, PartialEq, Eq)]
pub struct Measurement {
    /// In 1/10 degrees celsius
    pub temperature: i16,
    /// In 1/10 percent
    pub humidity: u16,
}

/// What one acquisition cycle read. A field is absent when its channel was
/// unavailable in the cycle; every combination of absent fields is a
/// snapshot.
#[derive(Debug, Clone, Copy, PartialEq, Eq)]
pub struct Sensors {
    pub time: Option<DateTime>,
    pub temperature_pressure: Option<TemperaturePressure>,
    /// One slot per humidity probe, in the order of the probes.
    pub temperature_humidity: [Option<Measurement>; 6],
}

impl DateTime {
    /// The time of day of the reading.
    pub open spec fn time(self) -> Time {
        Time { hours: self.hours, minutes: self.minutes, seconds: self.seconds }
    }
}

impl Sensors {
    /// The time of day of the snapshot, where the clock was read.
    pub open spec fn spec_get_time(&self) -> Option<Time> {
        match self.time {
            Some(date_time) => Some(date_time.time()),
            None => None,
        }
    }

    /// The time of day of the snapshot, where the clock was read.
    #[verifier::when_used_as_spec(spec_get_time)]
    pub fn get_time(&self) -> (time: Option<Time>)
        ensures
            time == self.spec_get_time(),
    {
        match self.time {
            Some(date_time) => Some(
                Time {
                    hours: date_time.hours,
                    minutes: date_time.minutes,
                    seconds: date_time.seconds,
                },
            ),
            None => None,
        }
    }
}

impl Default for Time {
    /// Midnight.
    fn default() -> (time: Self)
        ensures
            time == (Time { hours: 0, minutes: 0, seconds: 0 }),
    {
        Self { hours: 0, minutes: 0, seconds: 0 }
    }
}

impl Time {
    /// The time as `HH:MM:SS`, each field zero filled to two digits.
    pub open spec fn text(self) -> Seq<char> {
        two_wide(self.hours as int) + seq![':'] + two_wide(self.minutes as int) + seq![':']
            + two_wide(self.seconds as int)
    }

    /// Appends the time as `HH:MM:SS` to `f`.
    pub fn fmt(&self, f: &mut String)
        ensures
            final(f)@ == old(f)@ + self.text(),
    {
        proof {
            reveal_strlit(":");
        }
        write_two_wide(f, self.hours as i64);
        f.append(":");
        write_two_wide(f, self.minutes as i64);
        f.append(":");
        write_two_wide(f, self.seconds as i64);
        assert(f@ =~= old(f)@ + self.text());
    }

    /// The time as `HH:MM:SS` in a string of its own.
    pub fn to_string(&self) -> (text: String)
        ensures
            text@ == self.text(),
    {
        let mut text = String::new();
        self.fmt(&mut text);
        assert(text@ =~= self.text());
        text
    }
}

} // verus!
