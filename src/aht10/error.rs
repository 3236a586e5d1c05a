//! Errors of the humidity/temperature sensor driver.
use vstd::prelude::*;

verus! {

/// `E` is the error type of the two-wire bus.
#[derive(Debug)]
pub enum Error<E> {
    /// Writing the initialization command failed.
    InitError { source: E },
    /// Writing the measurement command or reading the reply failed.
    MeasureError { source: E },
    /// The sensor has not finished calibrating; its reading means nothing.
    UncalibratedError,
}

impl<E> Error<E> {
    /// A one-line human-readable description.
    pub fn message(&self) -> (r: String) {
        match self {
            Error::InitError { .. } => "AHT10 init error".to_string(),
            Error::MeasureError { .. } => "AHT10 measure error".to_string(),
            Error::UncalibratedError => "AHT10 is not calibrated yet".to_string(),
        }
    }
}

} // verus!
