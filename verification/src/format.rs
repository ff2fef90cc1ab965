//! The lines that the display shows.

use vstd::prelude::*;
use vstd::utf8::is_ascii_chars;
use crate::error::{lemma_code_is_compact, DatalogError};
use crate::sensors::{DateTime, Measurement, Sensors, TemperaturePressure};
use crate::text::{
    decimal, hundredths_text, lemma_decimal_is_ascii, lemma_decimal_len, power_of_ten,
    tenths_text, two_wide, write_signed, write_two_wide, write_unsigned,
};

verus! {

/// The line on the card: its size in whole mebibytes, or that no card was
/// detected and, on a line of its own, the code of the failure.
pub open spec fn card_size_text(card_size: Result<u64, DatalogError>) -> Seq<char> {
    match card_size {
        Ok(size) => "SD Card "@ + decimal((size / 1048576) as nat) + " MB"@,
        Err(error) => "SD Card undetected\n"@ + error.code(),
    }
}

/// Date and time as `DD.MM.YYYY HH:MM:SS`.
pub open spec fn date_text(datetime: DateTime) -> Seq<char> {
    two_wide(datetime.day as int) + "."@ + two_wide(datetime.month as int) + ".20"@ + two_wide(
        datetime.year as int,
    ) + " "@ + two_wide(datetime.hours as int) + ":"@ + two_wide(datetime.minutes as int) + ":"@
        + two_wide(datetime.seconds as int)
}

/// Temperature in degrees and pressure in hectopascals.
pub open spec fn temperature_pressure_text(values: TemperaturePressure) -> Seq<char> {
    hundredths_text(values.temperature as int) + " C"@ + "  "@ + hundredths_text(
        values.pressure as int,
    ) + " hPa"@
}

/// Temperature in degrees and humidity in percent.
pub open spec fn temperature_humidity_text(values: Measurement) -> Seq<char> {
    tenths_text(values.temperature as int) + " C"@ + "   "@ + tenths_text(values.humidity as int)
        + " %"@
}

/// The line of the clock.
pub open spec fn time_line(reading: Option<DateTime>) -> Seq<char> {
    match reading {
        Some(time) => date_text(time) + "\n"@,
        None => "Time unknown"@ + "\n"@,
    }
}

/// The line of the pressure sensor.
pub open spec fn pressure_line(reading: Option<TemperaturePressure>) -> Seq<char> {
    match reading {
        Some(values) => temperature_pressure_text(values) + "\n"@,
        None => "TempPres unknown"@ + "\n"@,
    }
}

/// The line of one humidity probe.
pub open spec fn humidity_line(reading: Option<Measurement>) -> Seq<char> {
    match reading {
        Some(values) => temperature_humidity_text(values) + "\n"@,
        None => "TempHumi unknown"@ + "\n"@,
    }
}

/// The lines of the first `count` humidity probes, in the order of the
/// probes.
pub open spec fn humidity_lines(readings: Seq<Option<Measurement>>, count: nat) -> Seq<char>
    decreases count,
{
    if count == 0 {
        Seq::empty()
    } else {
        humidity_lines(readings, (count - 1) as nat) + humidity_line(readings[count - 1])
    }
}

/// What the display shows of a snapshot: a line for the time, a line for
/// the pressure sensor and a line for each humidity probe. A line says
/// `unknown` where its reading is absent.
pub open spec fn sensors_display_text(sensors: Sensors) -> Seq<char> {
    time_line(sensors.time) + pressure_line(sensors.temperature_pressure) + humidity_lines(
        sensors.temperature_humidity@,
        6,
    )
}

/// Appends the line on the card to `debug`.
pub fn print_card_size(debug: &mut String, card_size: Result<u64, DatalogError>)
    ensures
        final(debug)@ == old(debug)@ + card_size_text(card_size),
{
    match card_size {
        Ok(size) => {
            assert(size >> 20 == size / 1048576) by (bit_vector);
            debug.append("SD Card ");
            write_unsigned(debug, size >> 20);
            debug.append(" MB");
        },
        Err(error) => {
            debug.append("SD Card undetected\n");
            error.fmt(debug);
        },
    }
    assert(debug@ =~= old(debug)@ + card_size_text(card_size));
}

/// Appends what the display shows of the snapshot to `output`.
pub fn format_sensors_display(output: &mut String, sensors: &Sensors)
    ensures
        final(output)@ == old(output)@ + sensors_display_text(*sensors),
{
    match sensors.time {
        Some(time) => format_date(output, time),
        None => {
            output.append("Time unknown");
        },
    };

    output.append("\n");

    match sensors.temperature_pressure {
        Some(ref values) => format_temperature_pressure(output, values),
        None => {
            output.append("TempPres unknown");
        },
    };

    output.append("\n");

    let ghost head = output@;
    assert(head =~= old(output)@ + time_line(sensors.time) + pressure_line(
        sensors.temperature_pressure,
    ));

    let mut index: usize = 0;
    while index < 6
        invariant
            index <= 6,
            output@ == head + humidity_lines(sensors.temperature_humidity@, index as nat),
        decreases 6 - index,
    {
        match sensors.temperature_humidity[index] {
            Some(ref values) => format_temperature_humidity(output, values),
            None => {
                output.append("TempHumi unknown");
            },
        };

        output.append("\n");
        index += 1;
        assert(output@ =~= head + humidity_lines(sensors.temperature_humidity@, index as nat));
    }
    assert(output@ =~= old(output)@ + sensors_display_text(*sensors));
}

/// Appends temperature and humidity of a probe.
pub fn format_temperature_humidity(output: &mut String, values: &Measurement)
    ensures
        final(output)@ == old(output)@ + temperature_humidity_text(*values),
{
    write_signed(output, (values.temperature / 10) as i64);
    output.append(".");
    write_signed(output, (values.temperature % 10) as i64);
    output.append(" C");
    output.append("   ");
    write_signed(output, (values.humidity / 10) as i64);
    output.append(".");
    write_signed(output, (values.humidity % 10) as i64);
    output.append(" %");
    assert(output@ =~= old(output)@ + temperature_humidity_text(*values));
}

/// Appends temperature and pressure of the pressure sensor.
pub fn format_temperature_pressure(output: &mut String, values: &TemperaturePressure)
    ensures
        final(output)@ == old(output)@ + temperature_pressure_text(*values),
{
    write_signed(output, (values.temperature / 100) as i64);
    output.append(".");
    write_two_wide(output, (values.temperature % 100) as i64);
    output.append(" C");
    output.append("  ");
    write_signed(output, (values.pressure / 100) as i64);
    output.append(".");
    write_two_wide(output, (values.pressure % 100) as i64);
    output.append(" hPa");
    assert(output@ =~= old(output)@ + temperature_pressure_text(*values));
}

/// Appends date and time as `DD.MM.YYYY HH:MM:SS`.
pub fn format_date(destination: &mut String, datetime: DateTime)
    ensures
        final(destination)@ == old(destination)@ + date_text(datetime),
{
    write_two_wide(destination, datetime.day as i64);
    destination.append(".");
    write_two_wide(destination, datetime.month as i64);
    destination.append(".20");
    write_two_wide(destination, datetime.year as i64);
    destination.append(" ");
    write_two_wide(destination, datetime.hours as i64);
    destination.append(":");
    write_two_wide(destination, datetime.minutes as i64);
    destination.append(":");
    write_two_wide(destination, datetime.seconds as i64);
    assert(destination@ =~= old(destination)@ + date_text(datetime));
}

/// The line on the card is ASCII and no longer than forty characters.
pub proof fn lemma_card_size_line_fits(card_size: Result<u64, DatalogError>)
    ensures
        is_ascii_chars(card_size_text(card_size)),
        card_size_text(card_size).len() <= 40,
{
    reveal_strlit("SD Card ");
    reveal_strlit(" MB");
    reveal_strlit("SD Card undetected\n");
    match card_size {
        Ok(size) => {
            reveal_with_fuel(power_of_ten, 15);
            lemma_decimal_is_ascii((size / 1048576) as nat);
            lemma_decimal_len((size / 1048576) as nat, 14);
        },
        Err(error) => lemma_code_is_compact(error),
    }
}

/// Showing is repeatable: what the display shows is decided by the
/// snapshot, so two buffers that held the same text and took the lines of
/// the same snapshot hold the same text afterwards.
pub proof fn lemma_display_is_repeatable(
    sensors: Sensors,
    before: Seq<char>,
    first: Seq<char>,
    second: Seq<char>,
)
    requires
        first == before + sensors_display_text(sensors),
        second == before + sensors_display_text(sensors),
    ensures
        first == second,
{
}

} // verus!
