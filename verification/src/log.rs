//! The log record of a snapshot and the name of the file that takes it.

use vstd::prelude::*;
use vstd::utf8::{encode_utf8, is_ascii_chars, is_ascii_chars_encode_utf8};
use arrayvec::ArrayString;
use crate::buffer::{name_buffer, name_buffer_text};
use crate::sensors::{DateTime, Measurement, Sensors, TemperaturePressure};
use crate::text::{
    decimal, hundredths_text, lemma_decimal_is_ascii, lemma_decimal_len, lemma_hundredths_fit,
    lemma_tenths_fit, lemma_two_digits, lemma_two_wide, power_of_ten, tenths_text, two_wide,
    write_signed, write_two_wide, write_unsigned,
};

verus! {

/// What stands in a record for a value that is absent.
pub open spec fn placeholder() -> Seq<char> {
    "? "@
}

/// The name of the log file of a day: `YYYYMMDD.log`, whatever the time.
pub open spec fn file_name_text(date: DateTime) -> Seq<char> {
    "20"@ + two_wide(date.year as int) + two_wide(date.month as int) + two_wide(date.day as int)
        + ".log"@
}

/// The date as `YYYY-MM-DD`.
pub open spec fn date_text(value: DateTime) -> Seq<char> {
    "20"@ + two_wide(value.year as int) + "-"@ + two_wide(value.month as int) + "-"@ + two_wide(
        value.day as int,
    )
}

/// The time as `HH:MM:SS`.
pub open spec fn time_text(value: DateTime) -> Seq<char> {
    value.time().text()
}

/// The temperature of the pressure sensor in degrees.
pub open spec fn bmp280_temperature_text(value: TemperaturePressure) -> Seq<char> {
    hundredths_text(value.temperature as int)
}

/// The pressure in hectopascals.
pub open spec fn bmp280_pressure_text(value: TemperaturePressure) -> Seq<char> {
    hundredths_text(value.pressure as int) + " hPa"@
}

/// The temperature of a humidity probe in degrees.
pub open spec fn dht11_temperature_text(value: Measurement) -> Seq<char> {
    tenths_text(value.temperature as int)
}

/// The humidity in percent.
pub open spec fn dht11_humidity_text(value: Measurement) -> Seq<char> {
    decimal((value.humidity / 10) as nat) + "."@ + decimal((value.humidity % 10) as nat) + " %"@
}

/// The text of a value, or the placeholder where there is none.
pub open spec fn optional_text<T>(value: Option<T>, text: spec_fn(T) -> Seq<char>) -> Seq<char> {
    match value {
        Some(v) => text(v),
        None => placeholder(),
    }
}

/// The part of a record that the first `count` humidity probes fill:
/// temperature and humidity of each, in the order of the probes.
pub open spec fn humidity_log(readings: Seq<Option<Measurement>>, count: nat) -> Seq<char>
    decreases count,
{
    if count == 0 {
        Seq::empty()
    } else {
        humidity_log(readings, (count - 1) as nat) + optional_text(
            readings[count - 1],
            |m: Measurement| dht11_temperature_text(m),
        ) + optional_text(readings[count - 1], |m: Measurement| dht11_humidity_text(m))
    }
}

/// The log record of a snapshot: date, time, temperature and pressure of
/// the pressure sensor, temperature and humidity of each probe, and the end
/// marker. Nothing separates the parts.
pub open spec fn log_record(sensors: Sensors) -> Seq<char> {
    optional_text(sensors.time, |t: DateTime| date_text(t)) + optional_text(
        sensors.time,
        |t: DateTime| time_text(t),
    ) + optional_text(
        sensors.temperature_pressure,
        |v: TemperaturePressure| bmp280_temperature_text(v),
    ) + optional_text(
        sensors.temperature_pressure,
        |v: TemperaturePressure| bmp280_pressure_text(v),
    ) + humidity_log(sensors.temperature_humidity@, 6) + "End"@
}

/// A file name is made of ASCII characters, at least twelve of them and at
/// most fifteen.
pub proof fn lemma_file_name_fits(date: DateTime)
    ensures
        is_ascii_chars(file_name_text(date)),
        12 <= file_name_text(date).len() <= 15,
{
    reveal_strlit("20");
    reveal_strlit(".log");
    reveal_with_fuel(power_of_ten, 4);
    lemma_two_wide(date.year as int, 3);
    lemma_two_wide(date.month as int, 3);
    lemma_two_wide(date.day as int, 3);
}

/// The name of the log file is decided by the date alone: snapshots of one
/// day go to one file, whatever their time of day.
pub proof fn lemma_file_name_follows_date(first: DateTime, second: DateTime)
    requires
        first.year == second.year,
        first.month == second.month,
        first.day == second.day,
    ensures
        file_name_text(first) == file_name_text(second),
{
}

/// Days have files of their own: two dates with the same file name are the
/// same day. This holds of dates whose year, month and day have two digits.
pub proof fn lemma_file_name_tells_days_apart(first: DateTime, second: DateTime)
    requires
        first.year < 100 && first.month < 100 && first.day < 100,
        second.year < 100 && second.month < 100 && second.day < 100,
        file_name_text(first) == file_name_text(second),
    ensures
        first.year == second.year,
        first.month == second.month,
        first.day == second.day,
{
    reveal_strlit("20");
    reveal_strlit(".log");
    lemma_two_digits(first.year as int);
    lemma_two_digits(first.month as int);
    lemma_two_digits(first.day as int);
    lemma_two_digits(second.year as int);
    lemma_two_digits(second.month as int);
    lemma_two_digits(second.day as int);
    let a = file_name_text(first);
    let b = file_name_text(second);
    assert(a[2] == b[2] && a[3] == b[3] && a[4] == b[4] && a[5] == b[5] && a[6] == b[6] && a[7]
        == b[7]);
}

/// The name of the log file for the snapshot, where its date is known.
pub fn format_log_file(sensors: &Sensors) -> (name: Option<ArrayString<15>>)
    ensures
        name is Some <==> sensors.time is Some,
        name matches Some(buffer) ==> name_buffer_text(buffer) == file_name_text(
            sensors.time->0,
        ),
{
    match &sensors.time {
        Some(time) => {
            let mut text = String::new();
            format_log_file_name(&mut text, time);
            proof {
                lemma_file_name_fits(*time);
                assert(text@ =~= file_name_text(*time));
                is_ascii_chars_encode_utf8(text@);
            }
            name_buffer(text.as_str())
        },
        None => None,
    }
}

/// Appends the log record of the snapshot to `output`.
pub fn format_sensors_log(output: &mut String, sensors: &Sensors)
    ensures
        final(output)@ == old(output)@ + log_record(*sensors),
{
    print_optional(output, sensors.time.as_ref(), format_date);
    print_optional(output, sensors.time.as_ref(), format_time);
    print_optional(output, sensors.temperature_pressure.as_ref(), format_bmp280_temperature);
    print_optional(output, sensors.temperature_pressure.as_ref(), format_bmp280_pressure);
    let ghost head = output@;
    assert(head =~= old(output)@ + optional_text(sensors.time, |t: DateTime| date_text(t))
        + optional_text(sensors.time, |t: DateTime| time_text(t)) + optional_text(
        sensors.temperature_pressure,
        |v: TemperaturePressure| bmp280_temperature_text(v),
    ) + optional_text(
        sensors.temperature_pressure,
        |v: TemperaturePressure| bmp280_pressure_text(v),
    ));

    let mut index: usize = 0;
    while index < 6
        invariant
            index <= 6,
            output@ == head + humidity_log(sensors.temperature_humidity@, index as nat),
        decreases 6 - index,
    {
        let temperature_humidity = &sensors.temperature_humidity[index];
        print_optional(output, temperature_humidity.as_ref(), format_dht11_temperature);
        print_optional(output, temperature_humidity.as_ref(), format_dht11_humidity);
        index += 1;
        assert(output@ =~= head + humidity_log(sensors.temperature_humidity@, index as nat));
    }

    output.append("End");
    assert(output@ =~= old(output)@ + log_record(*sensors));
}

/// Appends what `formatter` writes for the value, or the placeholder where
/// there is no value.
pub fn print_optional<T, F>(output: &mut String, value: Option<&T>, formatter: F) where
    F: Fn(&mut String, &T),

    requires
        forall|sink: &mut String, v: &T| call_requires(formatter, (sink, v)),
    ensures
        match value {
            Some(v) => exists|sink: &mut String|
                *sink == *old(output) && *final(sink) == *final(output) && call_ensures(
                    formatter,
                    (sink, v),
                    (),
                ),
            None => final(output)@ == old(output)@ + placeholder(),
        },
{
    match value {
        Some(value) => {
            formatter(output, value);
        },
        None => {
            output.append("? ");
        },
    }
}

/// Appends the name of the log file of the day.
pub fn format_log_file_name(output: &mut String, value: &DateTime)
    ensures
        final(output)@ == old(output)@ + file_name_text(*value),
{
    output.append("20");
    write_two_wide(output, value.year as i64);
    write_two_wide(output, value.month as i64);
    write_two_wide(output, value.day as i64);
    output.append(".log");
    assert(output@ =~= old(output)@ + file_name_text(*value));
}

/// Appends the date as `YYYY-MM-DD`.
pub fn format_date(output: &mut String, value: &DateTime)
    ensures
        final(output)@ == old(output)@ + date_text(*value),
{
    output.append("20");
    write_two_wide(output, value.year as i64);
    output.append("-");
    write_two_wide(output, value.month as i64);
    output.append("-");
    write_two_wide(output, value.day as i64);
    assert(output@ =~= old(output)@ + date_text(*value));
}

/// Appends the time as `HH:MM:SS`.
pub fn format_time(output: &mut String, value: &DateTime)
    ensures
        final(output)@ == old(output)@ + time_text(*value),
{
    write_two_wide(output, value.hours as i64);
    output.append(":");
    write_two_wide(output, value.minutes as i64);
    output.append(":");
    write_two_wide(output, value.seconds as i64);
    proof {
        reveal_strlit(":");
    }
    assert(output@ =~= old(output)@ + time_text(*value));
}

/// Appends the temperature of the pressure sensor in degrees.
pub fn format_bmp280_temperature(output: &mut String, value: &TemperaturePressure)
    ensures
        final(output)@ == old(output)@ + bmp280_temperature_text(*value),
{
    write_signed(output, (value.temperature / 100) as i64);
    output.append(".");
    write_two_wide(output, (value.temperature % 100) as i64);
    assert(output@ =~= old(output)@ + bmp280_temperature_text(*value));
}

/// Appends the pressure in hectopascals.
pub fn format_bmp280_pressure(output: &mut String, value: &TemperaturePressure)
    ensures
        final(output)@ == old(output)@ + bmp280_pressure_text(*value),
{
    write_signed(output, (value.pressure / 100) as i64);
    output.append(".");
    write_two_wide(output, (value.pressure % 100) as i64);
    output.append(" hPa");
    assert(output@ =~= old(output)@ + bmp280_pressure_text(*value));
}

/// Appends the temperature of a humidity probe.
pub fn format_dht11_temperature(output: &mut String, value: &Measurement)
    ensures
        final(output)@ == old(output)@ + dht11_temperature_text(*value),
{
    write_signed(output, (value.temperature / 10) as i64);
    output.append(".");
    write_signed(output, (value.temperature % 10) as i64);
    assert(output@ =~= old(output)@ + dht11_temperature_text(*value));
}

/// Appends the humidity in percent.
pub fn format_dht11_humidity(output: &mut String, value: &Measurement)
    ensures
        final(output)@ == old(output)@ + dht11_humidity_text(*value),
{
    write_unsigned(output, (value.humidity / 10) as u64);
    output.append(".");
    write_unsigned(output, (value.humidity % 10) as u64);
    output.append(" %");
    assert(output@ =~= old(output)@ + dht11_humidity_text(*value));
}

/// Two ASCII texts, one behind the other, are an ASCII text.
proof fn lemma_ascii_joined(first: Seq<char>, second: Seq<char>)
    requires
        is_ascii_chars(first),
        is_ascii_chars(second),
    ensures
        is_ascii_chars(first + second),
        (first + second).len() == first.len() + second.len(),
{
}

/// Date and time of a record are ASCII, thirteen and eleven characters at
/// most.
proof fn lemma_date_and_time_fit(value: DateTime)
    ensures
        is_ascii_chars(date_text(value)),
        date_text(value).len() <= 13,
        is_ascii_chars(time_text(value)),
        time_text(value).len() <= 11,
{
    reveal_strlit("20");
    reveal_strlit("-");
    reveal_strlit(":");
    reveal_with_fuel(power_of_ten, 4);
    lemma_two_wide(value.year as int, 3);
    lemma_two_wide(value.month as int, 3);
    lemma_two_wide(value.day as int, 3);
    lemma_two_wide(value.hours as int, 3);
    lemma_two_wide(value.minutes as int, 3);
    lemma_two_wide(value.seconds as int, 3);
}

/// Temperature and pressure of a record are ASCII, thirteen and seventeen
/// characters at most.
proof fn lemma_temperature_and_pressure_fit(value: TemperaturePressure)
    ensures
        is_ascii_chars(bmp280_temperature_text(value)),
        bmp280_temperature_text(value).len() <= 13,
        is_ascii_chars(bmp280_pressure_text(value)),
        bmp280_pressure_text(value).len() <= 17,
{
    reveal_strlit(" hPa");
    reveal_with_fuel(power_of_ten, 9);
    lemma_hundredths_fit(value.temperature as int, 8);
    lemma_hundredths_fit(value.pressure as int, 8);
}

/// Temperature and humidity of a probe are ASCII, eight characters at most
/// each.
proof fn lemma_probe_fits(value: Measurement)
    ensures
        is_ascii_chars(dht11_temperature_text(value)),
        dht11_temperature_text(value).len() <= 8,
        is_ascii_chars(dht11_humidity_text(value)),
        dht11_humidity_text(value).len() <= 8,
{
    reveal_strlit(".");
    reveal_strlit(" %");
    reveal_with_fuel(power_of_ten, 5);
    lemma_tenths_fit(value.temperature as int, 4);
    lemma_decimal_is_ascii((value.humidity / 10) as nat);
    lemma_decimal_len((value.humidity / 10) as nat, 4);
    lemma_decimal_is_ascii((value.humidity % 10) as nat);
    lemma_decimal_len((value.humidity % 10) as nat, 1);
}

/// The part of a record that humidity probes fill is ASCII, sixteen
/// characters at most for each probe.
proof fn lemma_humidity_log_fits(readings: Seq<Option<Measurement>>, count: nat)
    requires
        count <= readings.len(),
    ensures
        is_ascii_chars(humidity_log(readings, count)),
        humidity_log(readings, count).len() <= 16 * count,
    decreases count,
{
    if count > 0 {
        lemma_humidity_log_fits(readings, (count - 1) as nat);
        reveal_strlit("? ");
        let temperature = optional_text(
            readings[count - 1],
            |m: Measurement| dht11_temperature_text(m),
        );
        let humidity = optional_text(readings[count - 1], |m: Measurement| dht11_humidity_text(m));
        if readings[count - 1] is Some {
            lemma_probe_fits(readings[count - 1]->0);
        }
        let earlier = humidity_log(readings, (count - 1) as nat);
        lemma_ascii_joined(earlier, temperature);
        lemma_ascii_joined(earlier + temperature, humidity);
    }
}

/// Every snapshot has a record, whichever of its fields are absent. The
/// record is ASCII, so its bytes are its characters, and it is no longer
/// than 153 characters: a buffer of 200 bytes holds it.
pub proof fn lemma_log_record_fits(sensors: Sensors)
    ensures
        is_ascii_chars(log_record(sensors)),
        log_record(sensors).len() <= 153,
{
    reveal_strlit("? ");
    reveal_strlit("End");
    let date = optional_text(sensors.time, |t: DateTime| date_text(t));
    let time = optional_text(sensors.time, |t: DateTime| time_text(t));
    let temperature = optional_text(
        sensors.temperature_pressure,
        |v: TemperaturePressure| bmp280_temperature_text(v),
    );
    let pressure = optional_text(
        sensors.temperature_pressure,
        |v: TemperaturePressure| bmp280_pressure_text(v),
    );
    let probes = humidity_log(sensors.temperature_humidity@, 6);
    if sensors.time is Some {
        lemma_date_and_time_fit(sensors.time->0);
    }
    if sensors.temperature_pressure is Some {
        lemma_temperature_and_pressure_fit(sensors.temperature_pressure->0);
    }
    lemma_humidity_log_fits(sensors.temperature_humidity@, 6);
    lemma_ascii_joined(date, time);
    lemma_ascii_joined(date + time, temperature);
    lemma_ascii_joined(date + time + temperature, pressure);
    lemma_ascii_joined(date + time + temperature + pressure, probes);
    lemma_ascii_joined(date + time + temperature + pressure + probes, "End"@);
}

/// Formatting is repeatable. The record is decided by the snapshot, so two
/// buffers that held the same text and took the record of the same snapshot
/// hold the same text afterwards, and the same bytes.
pub proof fn lemma_formatting_is_repeatable(
    sensors: Sensors,
    before: Seq<char>,
    first: Seq<char>,
    second: Seq<char>,
)
    requires
        first == before + log_record(sensors),
        second == before + log_record(sensors),
    ensures
        first == second,
        encode_utf8(first) == encode_utf8(second),
{
}

} // verus!
