use arrayvec::ArrayString;
use datalogger::display::render_display;
use datalogger::sensors::{DateTime, Sensors};

#[test]
fn screen_shows_the_card_status_above_the_readings() {
    let sensors = Sensors {
        time: Some(DateTime {
            year: 24,
            month: 3,
            weekday: 4,
            day: 7,
            hours: 9,
            minutes: 5,
            seconds: 40,
        }),
        temperature_pressure: None,
        temperature_humidity: [None; 6],
    };
    let mut text = String::new();
    let status = ArrayString::<40>::from("SD Card 1907 MB").unwrap();
    render_display(&mut text, &status, &sensors);
    assert_eq!(
        text,
        "SD Card 1907 MB\n07.03.2024 09:05:40\nTempPres unknown\nTempHumi unknown\n\
         TempHumi unknown\nTempHumi unknown\nTempHumi unknown\nTempHumi unknown\nTempHumi unknown\n"
    );
}
