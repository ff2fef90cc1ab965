//! Sensor acquisition, record formatting, write scheduling and card logging
//! for a data logger of temperature, pressure and humidity.
//!
//! The library decides and formats; it performs no input or output itself.
//! Sensor polls and card sessions are plans: each hands out one request at a
//! time and is advanced with the reply that the request received.

pub mod text;
pub mod buffer;
pub mod error;
pub mod sensors;
pub mod poll;
pub mod format;
pub mod display;
pub mod log;
pub mod schedule;
pub mod storage;
pub mod reader;
pub mod writer;

pub use error::DatalogError;
pub use reader::detect_sd_card_size;
pub use writer::append_to_file;
