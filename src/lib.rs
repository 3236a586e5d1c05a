//! Driver and rendering logic for a desk clock built from a chain of 8x8 LED
//! matrices and a humidity/temperature sensor.

pub mod aht10;
pub mod clock;
pub mod display;
pub mod error;
pub mod glyphs;
pub mod model;
pub mod pwm;
pub mod scheduler;
pub mod weather;
