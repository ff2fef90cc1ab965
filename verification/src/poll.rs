//! Reading all the sensors once.
//!
//! A poll asks for the clock first, then for the pressure sensor, then for
//! each humidity probe in the order of the slots. A channel that fails
//! leaves its field of the snapshot absent; the poll goes on with the next
//! channel and always ends with a snapshot.
//!
//! A poll does no input or output. It names the next request; whoever
//! drives it reads the sensor and hands the reply back.

use vstd::prelude::*;
use crate::sensors::{DateTime, Measurement, Sensors, TemperaturePressure};
use crate::text::quotient;

verus! {

/// How many humidity probes there are.
pub const PROBES: usize = 6;

/// Why a channel gave no reading.
#[derive(Debug, Clone, Copy, PartialEq, Eq)]
pub enum ChannelFault {
    /// The sensor did not answer in time.
    Timeout,
    /// The sensor answered with a bad checksum.
    BadChecksum,
    /// The bus or pin to the sensor failed, or the sensor refused.
    Bus,
}

/// One reading to take from a sensor.
#[derive(Debug, Clone, Copy, PartialEq, Eq)]
pub enum SensorRequest {
    /// Read date and time from the clock.
    Clock,
    /// Find the pressure sensor and configure it.
    PressureSetup,
    /// Start one measurement of the pressure sensor.
    PressureTrigger,
    /// Read the pressure, in 1/256 pascal.
    Pressure,
    /// Read the temperature of the pressure sensor, in 1/100 degree.
    Temperature,
    /// Measure with the humidity probe of this slot.
    Humidity(usize),
}

/// What a sensor answered.
#[derive(Debug, Clone, Copy, PartialEq, Eq)]
pub enum SensorReply {
    /// The channel failed.
    Fault(ChannelFault),
    /// Date and time of the clock.
    Time(DateTime),
    /// The sensor did what was asked.
    Ready,
    /// A value of the pressure sensor.
    Value(i32),
    /// The reading of a humidity probe.
    Climate(Measurement),
}

/// Where a poll stands: the reading that it waits for, or its end.
#[derive(Debug, Clone, Copy, PartialEq, Eq)]
pub enum PollPhase {
    /// The clock is to be read.
    Clock,
    /// The pressure sensor is to be set up.
    PressureSetup,
    /// A measurement of the pressure sensor is to be started.
    PressureTrigger,
    /// The pressure is to be read.
    Pressure,
    /// The temperature is to be read; the pressure that was read, in 1/256
    /// pascal, is kept.
    Temperature(i32),
    /// The humidity probe of this slot is to be read.
    Humidity(usize),
    /// The poll is over.
    Finished,
}

/// A poll of all the sensors, with the snapshot as far as it is filled.
#[derive(Debug, Clone, Copy, PartialEq, Eq)]
pub struct SensorPoll {
    pub phase: PollPhase,
    pub sensors: Sensors,
}

/// A poll as the contracts see it.
pub struct PollState {
    pub phase: PollPhase,
    pub time: Option<DateTime>,
    pub temperature_pressure: Option<TemperaturePressure>,
    pub temperature_humidity: Seq<Option<Measurement>>,
}

impl SensorRequest {
    /// Whether `reply` is an answer to the request. A fault answers every
    /// request.
    pub open spec fn answered_by(self, reply: SensorReply) -> bool {
        match self {
            SensorRequest::Clock => reply is Time || reply is Fault,
            SensorRequest::PressureSetup => reply is Ready || reply is Fault,
            SensorRequest::PressureTrigger => reply is Ready || reply is Fault,
            SensorRequest::Pressure => reply is Value || reply is Fault,
            SensorRequest::Temperature => reply is Value || reply is Fault,
            SensorRequest::Humidity(_) => reply is Climate || reply is Fault,
        }
    }

    /// Whether `reply` answers the request.
    pub fn is_answered_by(&self, reply: &SensorReply) -> (answered: bool)
        ensures
            answered == self.answered_by(*reply),
    {
        match self {
            SensorRequest::Clock => matches!(reply, SensorReply::Time(_) | SensorReply::Fault(_)),
            SensorRequest::PressureSetup | SensorRequest::PressureTrigger => matches!(
                reply,
                SensorReply::Ready | SensorReply::Fault(_)
            ),
            SensorRequest::Pressure | SensorRequest::Temperature => matches!(
                reply,
                SensorReply::Value(_) | SensorReply::Fault(_)
            ),
            SensorRequest::Humidity(_) => matches!(
                reply,
                SensorReply::Climate(_) | SensorReply::Fault(_)
            ),
        }
    }
}

impl PollPhase {
    /// The reading that the poll waits for, if it is not over.
    pub open spec fn request(self) -> Option<SensorRequest> {
        match self {
            PollPhase::Clock => Some(SensorRequest::Clock),
            PollPhase::PressureSetup => Some(SensorRequest::PressureSetup),
            PollPhase::PressureTrigger => Some(SensorRequest::PressureTrigger),
            PollPhase::Pressure => Some(SensorRequest::Pressure),
            PollPhase::Temperature(_) => Some(SensorRequest::Temperature),
            PollPhase::Humidity(slot) => Some(SensorRequest::Humidity(slot)),
            PollPhase::Finished => None,
        }
    }

    /// Whether `reply` answers the reading that the poll waits for.
    pub open spec fn accepts(self, reply: SensorReply) -> bool {
        self.request() matches Some(request) && request.answered_by(reply)
    }

    /// The place of the phase in the order of a poll.
    pub open spec fn rank(self) -> nat {
        match self {
            PollPhase::Clock => 0,
            PollPhase::PressureSetup => 1,
            PollPhase::PressureTrigger => 2,
            PollPhase::Pressure => 3,
            PollPhase::Temperature(_) => 4,
            PollPhase::Humidity(slot) => if slot < PROBES {
                (5 + slot) as nat
            } else {
                10
            },
            PollPhase::Finished => 11,
        }
    }
}

/// The reading of the clock in an answer: absent after a fault.
pub open spec fn clock_reading(reply: SensorReply) -> Option<DateTime> {
    match reply {
        SensorReply::Time(time) => Some(time),
        _ => None,
    }
}

/// The reading of a humidity probe in an answer: absent after a fault.
pub open spec fn humidity_reading(reply: SensorReply) -> Option<Measurement> {
    match reply {
        SensorReply::Climate(measurement) => Some(measurement),
        _ => None,
    }
}

/// The reading of the pressure sensor from its temperature in 1/100 degree
/// and its pressure in 1/256 pascal: the pressure is given in whole
/// pascals, rounded towards zero.
pub open spec fn pressure_reading(temperature: i32, raw_pressure: i32) -> TemperaturePressure {
    TemperaturePressure {
        temperature,
        pressure: quotient(raw_pressure as int, 256) as i32,
    }
}

/// One step of reading the pressure sensor: the phase after `reply` and,
/// once the temperature has been read, the reading. The sensor is set up,
/// a measurement is started, the pressure is read, then the temperature;
/// a fault at any step leaves the reading absent and ends it. Outside these
/// four steps, and for a reply that is not accepted, nothing changes.
pub open spec fn pressure_step(phase: PollPhase, reply: SensorReply) -> (
    PollPhase,
    Option<TemperaturePressure>,
) {
    if !phase.accepts(reply) {
        (phase, None)
    } else {
        match phase {
            PollPhase::PressureSetup => if reply is Ready {
                (PollPhase::PressureTrigger, None)
            } else {
                (PollPhase::Humidity(0), None)
            },
            PollPhase::PressureTrigger => if reply is Ready {
                (PollPhase::Pressure, None)
            } else {
                (PollPhase::Humidity(0), None)
            },
            PollPhase::Pressure => match reply {
                SensorReply::Value(raw_pressure) => (PollPhase::Temperature(raw_pressure), None),
                _ => (PollPhase::Humidity(0), None),
            },
            PollPhase::Temperature(raw_pressure) => match reply {
                SensorReply::Value(temperature) => (
                    PollPhase::Humidity(0),
                    Some(pressure_reading(temperature, raw_pressure)),
                ),
                _ => (PollPhase::Humidity(0), None),
            },
            _ => (phase, None),
        }
    }
}

/// The phase after the humidity probe of `slot`: the next probe, or the end
/// after the last.
pub open spec fn after_probe(slot: usize) -> PollPhase {
    if slot + 1 < PROBES {
        PollPhase::Humidity((slot + 1) as usize)
    } else {
        PollPhase::Finished
    }
}

impl PollState {
    /// The poll after `reply`. A reply that is not accepted changes
    /// nothing. A fault leaves the field of its channel absent and the
    /// other fields as they are.
    pub open spec fn next(self, reply: SensorReply) -> PollState {
        if !self.phase.accepts(reply) {
            self
        } else {
            match self.phase {
                PollPhase::Clock => PollState {
                    phase: PollPhase::PressureSetup,
                    time: clock_reading(reply),
                    ..self
                },
                PollPhase::Humidity(slot) => PollState {
                    phase: after_probe(slot),
                    temperature_humidity: if slot < PROBES {
                        self.temperature_humidity.update(slot as int, humidity_reading(reply))
                    } else {
                        self.temperature_humidity
                    },
                    ..self
                },
                PollPhase::Finished => self,
                _ => PollState {
                    phase: pressure_step(self.phase, reply).0,
                    temperature_pressure: match pressure_step(self.phase, reply).1 {
                        Some(reading) => Some(reading),
                        None => self.temperature_pressure,
                    },
                    ..self
                },
            }
        }
    }
}

impl View for SensorPoll {
    type V = PollState;

    open spec fn view(&self) -> PollState {
        PollState {
            phase: self.phase,
            time: self.sensors.time,
            temperature_pressure: self.sensors.temperature_pressure,
            temperature_humidity: self.sensors.temperature_humidity@,
        }
    }
}

/// The poll at its beginning: the clock is to be read and every field of
/// the snapshot is absent.
pub open spec fn beginning() -> PollState {
    PollState {
        phase: PollPhase::Clock,
        time: None,
        temperature_pressure: None,
        temperature_humidity: Seq::new(PROBES as nat, |slot: int| None),
    }
}

/// A poll of all the sensors. It begins with the clock.
pub fn read_sensors() -> (poll: SensorPoll)
    ensures
        poll@ == beginning(),
{
    let poll = SensorPoll {
        phase: PollPhase::Clock,
        sensors: Sensors {
            time: None,
            temperature_pressure: None,
            temperature_humidity: [None, None, None, None, None, None],
        },
    };
    assert(poll@.temperature_humidity =~= beginning().temperature_humidity);
    poll
}

/// The reading of a humidity probe in its answer: the measurement, or
/// nothing when the probe failed.
pub fn read_dht11(reply: &SensorReply) -> (reading: Option<Measurement>)
    ensures
        reading == humidity_reading(*reply),
{
    match reply {
        SensorReply::Climate(measurement) => Some(*measurement),
        _ => None,
    }
}

/// One step of reading the pressure sensor: where the poll stands after
/// `reply` and, once the temperature has been read, the reading.
pub fn read_bmp280(phase: PollPhase, reply: &SensorReply) -> (step: (
    PollPhase,
    Option<TemperaturePressure>,
))
    ensures
        step == pressure_step(phase, *reply),
{
    match (phase, reply) {
        (PollPhase::PressureSetup, SensorReply::Ready) => (PollPhase::PressureTrigger, None),
        (PollPhase::PressureTrigger, SensorReply::Ready) => (PollPhase::Pressure, None),
        (PollPhase::Pressure, SensorReply::Value(raw_pressure)) => (
            PollPhase::Temperature(*raw_pressure),
            None,
        ),
        (PollPhase::Temperature(raw_pressure), SensorReply::Value(temperature)) => {
            let values = TemperaturePressure {
                temperature: *temperature,
                pressure: raw_pressure / 256,
            };
            (PollPhase::Humidity(0), Some(values))
        },
        (PollPhase::PressureSetup, SensorReply::Fault(_))
        | (PollPhase::PressureTrigger, SensorReply::Fault(_))
        | (PollPhase::Pressure, SensorReply::Fault(_))
        | (PollPhase::Temperature(_), SensorReply::Fault(_)) => (PollPhase::Humidity(0), None),
        _ => (phase, None),
    }
}

impl SensorPoll {
    /// The reading to take next, or none when the poll is over.
    pub fn request(&self) -> (request: Option<SensorRequest>)
        ensures
            request == self.phase.request(),
    {
        match self.phase {
            PollPhase::Clock => Some(SensorRequest::Clock),
            PollPhase::PressureSetup => Some(SensorRequest::PressureSetup),
            PollPhase::PressureTrigger => Some(SensorRequest::PressureTrigger),
            PollPhase::Pressure => Some(SensorRequest::Pressure),
            PollPhase::Temperature(_) => Some(SensorRequest::Temperature),
            PollPhase::Humidity(slot) => Some(SensorRequest::Humidity(slot)),
            PollPhase::Finished => None,
        }
    }

    /// Takes the reply to the reading that was asked for and moves on. A
    /// reply that does not answer that reading is refused and leaves the
    /// poll as it was.
    pub fn advance(&mut self, reply: SensorReply) -> (accepted: bool)
        ensures
            accepted == old(self).phase.accepts(reply),
            final(self)@ == old(self)@.next(reply),
    {
        let accepted = match self.request() {
            Some(request) => request.is_answered_by(&reply),
            None => false,
        };
        if accepted {
            match self.phase {
                PollPhase::Clock => {
                    self.sensors.time = match reply {
                        SensorReply::Time(time) => Some(time),
                        _ => None,
                    };
                    self.phase = PollPhase::PressureSetup;
                },
                PollPhase::Humidity(slot) => {
                    if slot < PROBES {
                        self.sensors.temperature_humidity[slot] = read_dht11(&reply);
                    }
                    self.phase = if slot < PROBES - 1 {
                        PollPhase::Humidity(slot + 1)
                    } else {
                        PollPhase::Finished
                    };
                },
                PollPhase::Finished => {},
                _ => {
                    let (phase, reading) = read_bmp280(self.phase, &reply);
                    if reading.is_some() {
                        self.sensors.temperature_pressure = reading;
                    }
                    self.phase = phase;
                },
            }
        }
        assert(self@.temperature_humidity =~= old(self)@.next(reply).temperature_humidity);
        accepted
    }

    /// The snapshot, once the poll is over.
    pub fn snapshot(&self) -> (sensors: Option<Sensors>)
        ensures
            sensors is Some <==> self.phase is Finished,
            sensors matches Some(s) ==> s == self.sensors,
    {
        match self.phase {
            PollPhase::Finished => Some(self.sensors),
            _ => None,
        }
    }
}

/// A poll after it took the replies, from its beginning.
pub open spec fn state_after(replies: Seq<SensorReply>) -> PollState
    decreases replies.len(),
{
    if replies.len() == 0 {
        beginning()
    } else {
        state_after(replies.drop_last()).next(replies.last())
    }
}

/// Whether a poll accepts the replies one after the other, from its
/// beginning.
pub open spec fn accepted(replies: Seq<SensorReply>) -> bool
    decreases replies.len(),
{
    replies.len() == 0 || (accepted(replies.drop_last()) && state_after(
        replies.drop_last(),
    ).phase.accepts(replies.last()))
}

/// The phases that a poll went through while it took the replies: the
/// phase in which it took each.
pub open spec fn phases_passed(replies: Seq<SensorReply>) -> Seq<PollPhase>
    decreases replies.len(),
{
    if replies.len() == 0 {
        Seq::empty()
    } else {
        phases_passed(replies.drop_last()).push(state_after(replies.drop_last()).phase)
    }
}

/// What the pressure sensor read, from the answers to its steps: a reading
/// when all four steps were answered without a fault, nothing otherwise.
pub open spec fn pressure_channel_reading(answers: Seq<SensorReply>) -> Option<
    TemperaturePressure,
> {
    if answers.len() == 4 && answers[0] is Ready && answers[1] is Ready && answers[2] is Value
        && answers[3] is Value {
        Some(pressure_reading(answers[3]->Value_0, answers[2]->Value_0))
    } else {
        None
    }
}

/// The readings are asked for in a fixed order: the clock, the pressure
/// sensor, the humidity probes by their slots. No reading is asked for
/// twice, and a poll is over after eleven replies at most. No fault stops
/// it: as long as it is not over, it accepts a fault and goes on.
pub proof fn lemma_poll_keeps_order(replies: Seq<SensorReply>)
    requires
        accepted(replies),
    ensures
        replies.len() <= state_after(replies).phase.rank() <= 11,
        state_after(replies).phase.rank() == 11 <==> state_after(replies).phase is Finished,
        !(state_after(replies).phase is Finished) ==> forall|fault: ChannelFault|
            #![auto]
            state_after(replies).phase.accepts(SensorReply::Fault(fault)) && state_after(
                replies,
            ).next(SensorReply::Fault(fault)).phase.rank() > state_after(replies).phase.rank(),
        phases_passed(replies).len() == replies.len(),
        forall|i: int|
            0 <= i < replies.len() ==> (#[trigger] phases_passed(replies)[i]).rank()
                < state_after(replies).phase.rank(),
        forall|i: int, j: int|
            0 <= i < j < replies.len() ==> (#[trigger] phases_passed(replies)[i]).rank() < (
            #[trigger] phases_passed(replies)[j]).rank(),
    decreases replies.len(),
{
    if replies.len() > 0 {
        let earlier = replies.drop_last();
        lemma_poll_keeps_order(earlier);
        lemma_poll_fills_snapshot(earlier);
        assert(phases_passed(replies).drop_last() =~= phases_passed(earlier));
        assert forall|i: int| 0 <= i < replies.len() implies (#[trigger] phases_passed(
            replies,
        )[i]).rank() < state_after(replies).phase.rank() by {
            if i < earlier.len() {
                assert(phases_passed(replies)[i] == phases_passed(earlier)[i]);
            }
        }
        assert forall|i: int, j: int| 0 <= i < j < replies.len() implies (
        #[trigger] phases_passed(replies)[i]).rank() < (#[trigger] phases_passed(
            replies,
        )[j]).rank() by {
            assert(phases_passed(replies)[i] == phases_passed(earlier)[i]);
            if j < earlier.len() {
                assert(phases_passed(replies)[j] == phases_passed(earlier)[j]);
            }
        }
    }
}

/// How far the snapshot of a poll is filled, by its phase. The time is
/// what the clock answered. Up to the pressure sensor's last step no other
/// field is filled. From then on the pressure reading is what the sensor's
/// steps gave, the slot of every probe that has answered holds what that
/// probe gave, and the other slots are empty.
pub proof fn lemma_poll_fills_snapshot(replies: Seq<SensorReply>)
    requires
        accepted(replies),
    ensures
        ({
            let state = state_after(replies);
            let count = replies.len() as int;
            let probed = match state.phase {
                PollPhase::Humidity(slot) => slot as int,
                PollPhase::Finished => PROBES as int,
                _ => 0,
            };
            &&& state.temperature_humidity.len() == PROBES
            &&& if count == 0 {
                state.time is None
            } else {
                state.time == clock_reading(replies[0])
            }
            &&& forall|slot: int|
                probed <= slot < PROBES ==> (#[trigger] state.temperature_humidity[slot]) is None
            &&& state.phase is Humidity ==> probed < PROBES
            &&& match state.phase {
                PollPhase::Clock => count == 0 && state.temperature_pressure is None,
                PollPhase::PressureSetup => count == 1 && state.temperature_pressure is None,
                PollPhase::PressureTrigger => {
                    &&& count == 2
                    &&& replies[1] is Ready
                    &&& state.temperature_pressure is None
                },
                PollPhase::Pressure => {
                    &&& count == 3
                    &&& replies[1] is Ready
                    &&& replies[2] is Ready
                    &&& state.temperature_pressure is None
                },
                PollPhase::Temperature(raw_pressure) => {
                    &&& count == 4
                    &&& replies[1] is Ready
                    &&& replies[2] is Ready
                    &&& replies[3] == SensorReply::Value(raw_pressure)
                    &&& state.temperature_pressure is None
                },
                _ => {
                    &&& probed <= PROBES
                    &&& 2 <= count - probed <= 5
                    &&& state.temperature_pressure == pressure_channel_reading(
                        replies.subrange(1, count - probed),
                    )
                    &&& forall|slot: int|
                        0 <= slot < probed ==> #[trigger] state.temperature_humidity[slot]
                            == humidity_reading(replies[count - probed + slot])
                },
            }
        }),
    decreases replies.len(),
{
    if replies.len() > 0 {
        let earlier = replies.drop_last();
        lemma_poll_fills_snapshot(earlier);
        let before = state_after(earlier);
        let state = state_after(replies);
        let count = replies.len() as int;
        if count >= 2 {
            assert(replies[0] == earlier[0]);
        }
        match before.phase {
            PollPhase::Humidity(slot) => {
                let first = count - 1 - slot;
                assert(replies.subrange(1, first) =~= earlier.subrange(1, first));
                assert forall|other: int| 0 <= other < slot + 1 implies 
                    #[trigger] state.temperature_humidity[other] == humidity_reading(
                    replies[first + other],
                ) by {
                    if other < slot {
                        assert(before.temperature_humidity[other] == humidity_reading(
                            earlier[first + other],
                        ));
                        assert(replies[first + other] == earlier[first + other]);
                    }
                }
            },
            PollPhase::PressureSetup => {
                assert(replies.subrange(1, count).len() == 1);
            },
            PollPhase::PressureTrigger => {
                assert(replies.subrange(1, count).len() == 2);
            },
            PollPhase::Pressure => {
                assert(replies[1] == earlier[1]);
                if state.phase is Humidity {
                    assert(replies.subrange(1, count).len() == 3);
                }
            },
            PollPhase::Temperature(raw_pressure) => {
                let answers = replies.subrange(1, count);
                assert(answers.len() == 4);
                assert(answers[0] == earlier[1]);
                assert(answers[1] == earlier[2]);
                assert(answers[2] == earlier[3]);
                assert(answers[3] == replies.last());
            },
            _ => {},
        }
    }
}

/// A poll always ends with a snapshot, and each field of the snapshot is
/// decided by the answers of its own channel alone. The time is what the
/// clock answered to the first request, absent after a fault. The slot of
/// each humidity probe is what that probe answered, absent after a fault;
/// the probes answer the last six requests. The pressure reading is what
/// the steps in between gave, absent if any of them failed.
pub proof fn lemma_snapshot_is_what_the_channels_gave(replies: Seq<SensorReply>)
    requires
        accepted(replies),
        state_after(replies).phase is Finished,
    ensures
        8 <= replies.len() <= 11,
        state_after(replies).time == clock_reading(replies[0]),
        state_after(replies).temperature_pressure == pressure_channel_reading(
            replies.subrange(1, replies.len() - PROBES),
        ),
        state_after(replies).temperature_humidity.len() == PROBES,
        forall|slot: int|
            0 <= slot < PROBES ==> #[trigger] state_after(replies).temperature_humidity[slot]
                == humidity_reading(replies[replies.len() - PROBES + slot]),
{
    lemma_poll_fills_snapshot(replies);
}

} // verus!
