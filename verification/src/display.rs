//! The text of the screen.

use vstd::prelude::*;
use arrayvec::ArrayString;
use crate::buffer::{status_buffer_str, status_buffer_text};
use crate::format::{format_sensors_display, sensors_display_text};
use crate::sensors::Sensors;

verus! {

/// The text of the screen: the status of the card on top, then what the
/// display shows of the snapshot.
pub open spec fn screen_text(sd_result: Seq<char>, sensors: Sensors) -> Seq<char> {
    sd_result + "\n"@ + sensors_display_text(sensors)
}

/// Appends the text of the screen to `text`.
pub fn render_display(text: &mut String, sd_result: &ArrayString<40>, sensors: &Sensors)
    ensures
        final(text)@ == old(text)@ + screen_text(status_buffer_text(*sd_result), *sensors),
{
    text.append(status_buffer_str(sd_result));
    text.append("\n");
    format_sensors_display(text, sensors);
    assert(text@ =~= old(text)@ + screen_text(status_buffer_text(*sd_result), *sensors));
}

} // verus!
