//! Errors raised by the display logic itself.
use vstd::prelude::*;

verus! {

#[derive(Debug, Clone, Copy, PartialEq, Eq, Structural)]
pub enum Error {
    /// The chain must hold between 1 and 16 matrices; `number` was asked for.
    Max7219NumberError { number: u32 },
}

impl Error {
    /// A one-line human-readable description.
    pub fn message(&self) -> (r: String) {
        match self {
            Error::Max7219NumberError { .. } => "Limit of 16 matrixes exceeded.".to_string(),
        }
    }
}

} // verus!
