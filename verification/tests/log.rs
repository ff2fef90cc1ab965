use datalogger::log::{
    format_bmp280_pressure, format_bmp280_temperature, format_date, format_dht11_humidity,
    format_dht11_temperature, format_log_file, format_log_file_name, format_sensors_log,
    format_time, print_optional,
};
use datalogger::sensors::{DateTime, Measurement, Sensors, TemperaturePressure};

fn date(year: u8, month: u8, day: u8, hours: u8, minutes: u8, seconds: u8) -> DateTime {
    DateTime { year, month, weekday: 0, day, hours, minutes, seconds }
}

fn at(time: DateTime) -> Sensors {
    Sensors { time: Some(time), temperature_pressure: None, temperature_humidity: [None; 6] }
}

fn full() -> Sensors {
    Sensors {
        time: Some(date(24, 3, 7, 9, 5, 40)),
        temperature_pressure: Some(TemperaturePressure { temperature: 2345, pressure: 101325 }),
        temperature_humidity: [
            Some(Measurement { temperature: 215, humidity: 456 }),
            None,
            Some(Measurement { temperature: -35, humidity: 1000 }),
            Some(Measurement { temperature: 0, humidity: 0 }),
            None,
            Some(Measurement { temperature: 1234, humidity: 7 }),
        ],
    }
}

#[test]
fn file_name_is_derived_from_the_date() {
    let name = format_log_file(&at(date(24, 3, 7, 12, 30, 40))).unwrap();
    assert_eq!(name.as_str(), "20240307.log");
}

#[test]
fn file_name_changes_with_the_day_and_not_with_the_time() {
    let last_of_day = format_log_file(&at(date(24, 3, 7, 23, 59, 50))).unwrap();
    let early = format_log_file(&at(date(24, 3, 7, 0, 0, 10))).unwrap();
    let next_day = format_log_file(&at(date(24, 3, 8, 0, 0, 0))).unwrap();
    assert_eq!(last_of_day.as_str(), "20240307.log");
    assert_eq!(early.as_str(), last_of_day.as_str());
    assert_eq!(next_day.as_str(), "20240308.log");
    assert_ne!(next_day.as_str(), last_of_day.as_str());
}

#[test]
fn file_name_needs_the_clock() {
    let sensors = Sensors { time: None, temperature_pressure: None, temperature_humidity: [None; 6] };
    assert!(format_log_file(&sensors).is_none());
}

#[test]
fn longest_file_name_fills_the_buffer() {
    let name = format_log_file(&at(date(255, 255, 255, 0, 0, 0))).unwrap();
    assert_eq!(name.as_str(), "20255255255.log");
    assert_eq!(name.len(), 15);
    assert_eq!(name.capacity(), 15);
}

#[test]
fn file_name_is_appended_as_text() {
    let mut text = String::from("OK: ");
    format_log_file_name(&mut text, &date(5, 12, 31, 1, 2, 3));
    assert_eq!(text, "OK: 20051231.log");
}

#[test]
fn record_parts_match_their_formats() {
    let mut text = String::new();
    format_date(&mut text, &date(24, 3, 7, 9, 5, 40));
    assert_eq!(text, "2024-03-07");

    let mut text = String::new();
    format_time(&mut text, &date(24, 3, 7, 9, 5, 40));
    assert_eq!(text, "09:05:40");

    let values = TemperaturePressure { temperature: 2345, pressure: 101325 };
    let mut text = String::new();
    format_bmp280_temperature(&mut text, &values);
    assert_eq!(text, "23.45");
    let mut text = String::new();
    format_bmp280_pressure(&mut text, &values);
    assert_eq!(text, "1013.25 hPa");

    let probe = Measurement { temperature: 215, humidity: 456 };
    let mut text = String::new();
    format_dht11_temperature(&mut text, &probe);
    assert_eq!(text, "21.5");
    let mut text = String::new();
    format_dht11_humidity(&mut text, &probe);
    assert_eq!(text, "45.6 %");
}

#[test]
fn hundredths_and_tenths_follow_their_formats_for_every_sign() {
    for temperature in [i32::MIN, -2345, -150, -100, -99, -5, 0, 5, 99, 100, 905, i32::MAX] {
        let values = TemperaturePressure { temperature, pressure: temperature };
        let mut text = String::new();
        format_bmp280_temperature(&mut text, &values);
        assert_eq!(text, format!("{}.{:02}", temperature / 100, temperature % 100));
        let mut text = String::new();
        format_bmp280_pressure(&mut text, &values);
        assert_eq!(text, format!("{}.{:02} hPa", temperature / 100, temperature % 100));
    }
    for temperature in [i16::MIN, -215, -100, -7, 0, 7, 100, 215, i16::MAX] {
        let probe = Measurement { temperature, humidity: 0 };
        let mut text = String::new();
        format_dht11_temperature(&mut text, &probe);
        assert_eq!(text, format!("{}.{}", temperature / 10, temperature % 10));
    }
    for humidity in [0u16, 9, 10, 456, 1000, u16::MAX] {
        let probe = Measurement { temperature: 0, humidity };
        let mut text = String::new();
        format_dht11_humidity(&mut text, &probe);
        assert_eq!(text, format!("{}.{} %", humidity / 10, humidity % 10));
    }
}

#[test]
fn probe_temperature_is_written_in_degrees_and_tenths() {
    let probe = Measurement { temperature: 235, humidity: 405 };
    let mut text = String::new();
    format_dht11_temperature(&mut text, &probe);
    assert_eq!(text, "23.5");
    let mut text = String::new();
    format_dht11_humidity(&mut text, &probe);
    assert_eq!(text, "40.5 %");

    let mut text = String::new();
    format_dht11_temperature(&mut text, &Measurement { temperature: 7, humidity: 0 });
    assert_eq!(text, "0.7");
    let mut text = String::new();
    format_dht11_temperature(&mut text, &Measurement { temperature: 500, humidity: 0 });
    assert_eq!(text, "50.0");
}

#[test]
fn absent_value_is_a_question_mark() {
    let mut text = String::from("x");
    print_optional(&mut text, None::<&DateTime>, format_date);
    assert_eq!(text, "x? ");
}

#[test]
fn present_value_is_written_by_the_formatter() {
    let mut text = String::from("x");
    print_optional(&mut text, Some(&date(24, 3, 7, 0, 0, 0)), format_date);
    assert_eq!(text, "x2024-03-07");
    let mut text = String::new();
    print_optional(&mut text, Some(&7u8), |sink: &mut String, value: &u8| {
        sink.push_str(&"*".repeat(*value as usize))
    });
    assert_eq!(text, "*******");
}

#[test]
fn record_of_a_full_snapshot() {
    let mut text = String::new();
    format_sensors_log(&mut text, &full());
    assert_eq!(
        text,
        "2024-03-0709:05:4023.451013.25 hPa21.545.6 %? ? -3.-5100.0 %0.00.0 %? ? 123.40.7 %End"
    );
}

#[test]
fn record_of_a_snapshot_with_all_fields_absent() {
    let sensors = Sensors { time: None, temperature_pressure: None, temperature_humidity: [None; 6] };
    let mut text = String::new();
    format_sensors_log(&mut text, &sensors);
    assert_eq!(text, "? ? ? ? ? ? ? ? ? ? ? ? ? ? ? ? End");
}

#[test]
fn each_field_of_a_record_is_absent_on_its_own() {
    let mut sensors = full();
    sensors.time = None;
    let mut text = String::new();
    format_sensors_log(&mut text, &sensors);
    assert_eq!(text, "? ? 23.451013.25 hPa21.545.6 %? ? -3.-5100.0 %0.00.0 %? ? 123.40.7 %End");

    let mut sensors = full();
    sensors.temperature_pressure = None;
    let mut text = String::new();
    format_sensors_log(&mut text, &sensors);
    assert_eq!(
        text,
        "2024-03-0709:05:40? ? 21.545.6 %? ? -3.-5100.0 %0.00.0 %? ? 123.40.7 %End"
    );

    let mut sensors = full();
    sensors.temperature_humidity[0] = None;
    let mut text = String::new();
    format_sensors_log(&mut text, &sensors);
    assert_eq!(
        text,
        "2024-03-0709:05:4023.451013.25 hPa? ? ? ? -3.-5100.0 %0.00.0 %? ? 123.40.7 %End"
    );
}

#[test]
fn record_is_appended_to_what_the_buffer_holds() {
    let mut text = String::from("End");
    let sensors = Sensors { time: None, temperature_pressure: None, temperature_humidity: [None; 6] };
    format_sensors_log(&mut text, &sensors);
    assert_eq!(text, "End? ? ? ? ? ? ? ? ? ? ? ? ? ? ? ? End");
}

#[test]
fn formatting_a_snapshot_twice_gives_the_same_bytes() {
    let sensors = full();
    let mut first = String::new();
    format_sensors_log(&mut first, &sensors);
    let mut second = String::new();
    format_sensors_log(&mut second, &sensors);
    assert_eq!(first.as_bytes(), second.as_bytes());
    assert_eq!(sensors, full());
}

#[test]
fn longest_record_fits_two_hundred_bytes() {
    let sensors = Sensors {
        time: Some(date(255, 255, 255, 255, 255, 255)),
        temperature_pressure: Some(TemperaturePressure {
            temperature: i32::MIN,
            pressure: i32::MIN,
        }),
        temperature_humidity: [Some(Measurement { temperature: i16::MIN, humidity: u16::MAX }); 6],
    };
    let mut text = String::new();
    format_sensors_log(&mut text, &sensors);
    assert_eq!(text.len(), 153);
    assert!(text.is_ascii());
    assert!(text.ends_with("End"));
}
