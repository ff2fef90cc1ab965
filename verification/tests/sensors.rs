use datalogger::sensors::{DateTime, Sensors, Time};

fn noon() -> DateTime {
    DateTime { year: 24, month: 3, weekday: 4, day: 7, hours: 12, minutes: 30, seconds: 40 }
}

#[test]
fn time_of_a_snapshot_is_the_time_of_day_of_its_clock() {
    let sensors =
        Sensors { time: Some(noon()), temperature_pressure: None, temperature_humidity: [None; 6] };
    assert_eq!(sensors.get_time(), Some(Time { hours: 12, minutes: 30, seconds: 40 }));
}

#[test]
fn snapshot_without_clock_has_no_time() {
    let sensors = Sensors { time: None, temperature_pressure: None, temperature_humidity: [None; 6] };
    assert_eq!(sensors.get_time(), None);
}

#[test]
fn default_time_is_midnight() {
    assert_eq!(Time::default(), Time { hours: 0, minutes: 0, seconds: 0 });
}

#[test]
fn times_are_equal_when_all_fields_are() {
    let time = Time { hours: 1, minutes: 2, seconds: 3 };
    assert_eq!(time, Time { hours: 1, minutes: 2, seconds: 3 });
    assert_ne!(time, Time { hours: 2, minutes: 2, seconds: 3 });
    assert_ne!(time, Time { hours: 1, minutes: 3, seconds: 3 });
    assert_ne!(time, Time { hours: 1, minutes: 2, seconds: 4 });
}

#[test]
fn time_is_shown_zero_filled() {
    assert_eq!(Time { hours: 7, minutes: 5, seconds: 0 }.to_string(), "07:05:00");
    assert_eq!(Time { hours: 23, minutes: 59, seconds: 59 }.to_string(), "23:59:59");
    let mut text = String::from("Written: ");
    Time { hours: 12, minutes: 30, seconds: 40 }.fmt(&mut text);
    assert_eq!(text, "Written: 12:30:40");
}
