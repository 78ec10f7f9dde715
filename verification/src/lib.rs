//! Terminal monitor for a discrete thermal-pressure signal.
//!
//! The library holds the logic of the monitor: classifying raw state codes
//! into pressure levels, keeping a bounded rolling history of samples,
//! quantizing that history into partial-block glyph cells, dispatching a
//! uniform event stream to either a plain or a bar renderer, and detecting
//! value changes between polls. The surrounding binary owns the signal
//! source and the terminal and feeds plain values in and out.

pub mod bar;
pub mod decimal;
pub mod mode;
pub mod poll;
pub mod term;
pub mod thermal;

pub use thermal::ThermalPressure;
