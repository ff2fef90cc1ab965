use datalogger::poll::{
    read_bmp280, read_dht11, read_sensors, ChannelFault, PollPhase, SensorReply, SensorRequest,
};
use datalogger::sensors::{DateTime, Measurement, Sensors, TemperaturePressure};

fn clock(seconds: u8) -> DateTime {
    DateTime { year: 24, month: 3, weekday: 4, day: 7, hours: 12, minutes: 30, seconds }
}

fn probe(slot: usize) -> Measurement {
    Measurement { temperature: 200 + slot as i16, humidity: 400 + slot as u16 }
}

/// Runs one poll. `answer` gives the reply to each request.
fn poll(answer: impl Fn(SensorRequest) -> SensorReply) -> (Vec<SensorRequest>, Sensors) {
    let mut poll = read_sensors();
    let mut asked = Vec::new();
    while let Some(request) = poll.request() {
        asked.push(request);
        assert_eq!(poll.snapshot(), None);
        assert!(poll.advance(answer(request)));
    }
    (asked, poll.snapshot().unwrap())
}

fn healthy(request: SensorRequest) -> SensorReply {
    match request {
        SensorRequest::Clock => SensorReply::Time(clock(40)),
        SensorRequest::PressureSetup | SensorRequest::PressureTrigger => SensorReply::Ready,
        SensorRequest::Pressure => SensorReply::Value(101325 * 256 + 255),
        SensorRequest::Temperature => SensorReply::Value(2345),
        SensorRequest::Humidity(slot) => SensorReply::Climate(probe(slot)),
    }
}

#[test]
fn sensors_are_read_in_their_order() {
    let (asked, sensors) = poll(healthy);
    assert_eq!(
        asked,
        vec![
            SensorRequest::Clock,
            SensorRequest::PressureSetup,
            SensorRequest::PressureTrigger,
            SensorRequest::Pressure,
            SensorRequest::Temperature,
            SensorRequest::Humidity(0),
            SensorRequest::Humidity(1),
            SensorRequest::Humidity(2),
            SensorRequest::Humidity(3),
            SensorRequest::Humidity(4),
            SensorRequest::Humidity(5),
        ]
    );
    assert_eq!(
        sensors,
        Sensors {
            time: Some(clock(40)),
            temperature_pressure: Some(TemperaturePressure { temperature: 2345, pressure: 101325 }),
            temperature_humidity: [
                Some(probe(0)),
                Some(probe(1)),
                Some(probe(2)),
                Some(probe(3)),
                Some(probe(4)),
                Some(probe(5)),
            ],
        }
    );
}

#[test]
fn probe_that_times_out_leaves_its_slot_empty_in_every_cycle() {
    for cycle in 0..3u8 {
        let (asked, sensors) = poll(|request| match request {
            SensorRequest::Humidity(3) => SensorReply::Fault(ChannelFault::Timeout),
            SensorRequest::Clock => SensorReply::Time(clock(cycle)),
            other => healthy(other),
        });
        assert_eq!(asked.len(), 11);
        assert_eq!(sensors.time, Some(clock(cycle)));
        assert_eq!(
            sensors.temperature_pressure,
            Some(TemperaturePressure { temperature: 2345, pressure: 101325 })
        );
        for slot in 0..6 {
            if slot == 3 {
                assert_eq!(sensors.temperature_humidity[slot], None);
            } else {
                assert_eq!(sensors.temperature_humidity[slot], Some(probe(slot)));
            }
        }
    }
}

#[test]
fn poll_with_every_channel_failing_gives_an_empty_snapshot() {
    let (asked, sensors) = poll(|_| SensorReply::Fault(ChannelFault::Bus));
    assert_eq!(
        asked,
        vec![
            SensorRequest::Clock,
            SensorRequest::PressureSetup,
            SensorRequest::Humidity(0),
            SensorRequest::Humidity(1),
            SensorRequest::Humidity(2),
            SensorRequest::Humidity(3),
            SensorRequest::Humidity(4),
            SensorRequest::Humidity(5),
        ]
    );
    assert_eq!(
        sensors,
        Sensors { time: None, temperature_pressure: None, temperature_humidity: [None; 6] }
    );
}

#[test]
fn clock_failure_leaves_the_other_channels_alone() {
    let (_, sensors) = poll(|request| match request {
        SensorRequest::Clock => SensorReply::Fault(ChannelFault::Bus),
        other => healthy(other),
    });
    assert_eq!(sensors.time, None);
    assert!(sensors.temperature_pressure.is_some());
    assert!(sensors.temperature_humidity.iter().all(|slot| slot.is_some()));
}

#[test]
fn pressure_sensor_failure_at_any_step_leaves_its_field_empty() {
    let steps = [
        SensorRequest::PressureSetup,
        SensorRequest::PressureTrigger,
        SensorRequest::Pressure,
        SensorRequest::Temperature,
    ];
    for (index, failing) in steps.iter().enumerate() {
        let (asked, sensors) = poll(|request| {
            if request == *failing {
                SensorReply::Fault(ChannelFault::Bus)
            } else {
                healthy(request)
            }
        });
        assert_eq!(asked.len(), 1 + (index + 1) + 6);
        assert_eq!(asked[index + 1], *failing);
        assert_eq!(asked[index + 2], SensorRequest::Humidity(0));
        assert_eq!(sensors.temperature_pressure, None);
        assert_eq!(sensors.time, Some(clock(40)));
        assert!(sensors.temperature_humidity.iter().all(|slot| slot.is_some()));
    }
}

#[test]
fn pressure_is_given_in_whole_pascals_rounded_towards_zero() {
    for (raw, pascals) in [(0, 0), (255, 0), (256, 1), (-255, 0), (-256, -1), (-257, -1), (25939455, 101325), (i32::MAX, 8388607), (i32::MIN, -8388608)] {
        let (phase, reading) = read_bmp280(PollPhase::Temperature(raw), &SensorReply::Value(-1234));
        assert_eq!(phase, PollPhase::Humidity(0));
        assert_eq!(reading, Some(TemperaturePressure { temperature: -1234, pressure: pascals }));
    }
}

#[test]
fn steps_of_the_pressure_sensor_one_by_one() {
    let fault = SensorReply::Fault(ChannelFault::Timeout);
    assert_eq!(
        read_bmp280(PollPhase::PressureSetup, &SensorReply::Ready),
        (PollPhase::PressureTrigger, None)
    );
    assert_eq!(
        read_bmp280(PollPhase::PressureTrigger, &SensorReply::Ready),
        (PollPhase::Pressure, None)
    );
    assert_eq!(
        read_bmp280(PollPhase::Pressure, &SensorReply::Value(77)),
        (PollPhase::Temperature(77), None)
    );
    assert_eq!(read_bmp280(PollPhase::PressureSetup, &fault), (PollPhase::Humidity(0), None));
    assert_eq!(read_bmp280(PollPhase::PressureTrigger, &fault), (PollPhase::Humidity(0), None));
    assert_eq!(read_bmp280(PollPhase::Pressure, &fault), (PollPhase::Humidity(0), None));
    assert_eq!(read_bmp280(PollPhase::Temperature(5), &fault), (PollPhase::Humidity(0), None));
    assert_eq!(
        read_bmp280(PollPhase::Pressure, &SensorReply::Ready),
        (PollPhase::Pressure, None)
    );
    assert_eq!(read_bmp280(PollPhase::Clock, &SensorReply::Ready), (PollPhase::Clock, None));
}

#[test]
fn probe_reading_is_absent_after_any_fault() {
    let measurement = Measurement { temperature: -15, humidity: 990 };
    assert_eq!(read_dht11(&SensorReply::Climate(measurement)), Some(measurement));
    assert_eq!(read_dht11(&SensorReply::Fault(ChannelFault::Timeout)), None);
    assert_eq!(read_dht11(&SensorReply::Fault(ChannelFault::BadChecksum)), None);
    assert_eq!(read_dht11(&SensorReply::Fault(ChannelFault::Bus)), None);
}

#[test]
fn poll_refuses_replies_that_do_not_answer() {
    let mut poll = read_sensors();
    assert!(!poll.advance(SensorReply::Ready));
    assert!(!poll.advance(SensorReply::Climate(probe(0))));
    assert_eq!(poll.request(), Some(SensorRequest::Clock));
    assert!(poll.advance(SensorReply::Time(clock(1))));
    assert!(!poll.advance(SensorReply::Time(clock(2))));
    assert_eq!(poll.request(), Some(SensorRequest::PressureSetup));
    assert_eq!(poll.sensors.time, Some(clock(1)));
}

#[test]
fn finished_poll_takes_no_more_replies() {
    let mut poll = read_sensors();
    while poll.request().is_some() {
        assert!(poll.advance(SensorReply::Fault(ChannelFault::Timeout)));
    }
    let snapshot = poll.snapshot();
    assert!(!poll.advance(SensorReply::Fault(ChannelFault::Timeout)));
    assert!(!poll.advance(SensorReply::Climate(probe(0))));
    assert_eq!(poll.snapshot(), snapshot);
}

#[test]
fn every_poll_starts_from_an_empty_snapshot() {
    let (_, first) = poll(healthy);
    assert!(first.temperature_humidity[0].is_some());
    let fresh = read_sensors();
    assert_eq!(
        fresh.sensors,
        Sensors { time: None, temperature_pressure: None, temperature_humidity: [None; 6] }
    );
    assert_eq!(fresh.phase, PollPhase::Clock);
}
