//! The AHT10 humidity/temperature sensor on a two-wire bus.
//!
//! The driver fixes what is sent and decides what a reply means; the caller
//! moves the bytes: for `init`, write `CMD_INIT` to `I2C_ADDRESS` and wait
//! `INIT_DELAY_MS`; for a measurement, write `CMD_MEASURE`, wait
//! `MEASURE_DELAY_MS`, then read `REPLY_LEN` bytes.
use vstd::prelude::*;

pub mod error;

use self::error::Error;

verus! {

/// The sensor's fixed bus address.
pub const I2C_ADDRESS: u8 = 0x38;

pub const CMD_INIT: [u8; 3] = [0b11100001, 0b00001000, 0];

pub const CMD_MEASURE: [u8; 3] = [0b10101100, 0b00110011, 0];

/// Settle time after the initialization command.
pub const INIT_DELAY_MS: u32 = 300;

/// Conversion time between the measurement command and the reply.
pub const MEASURE_DELAY_MS: u32 = 100;

/// Length of a measurement reply.
pub const REPLY_LEN: usize = 6;

/// Status bit: the sensor is busy.
pub const STATUS_BUSY: u8 = 0x80;

/// Status bits: the working mode (0 normal, 1 cycle, 2 or 3 command).
pub const STATUS_MODE: u8 = 0x60;

/// Status bit: the sensor is calibrated.
pub const STATUS_CALIBRATION: u8 = 0x08;

/// The status byte that opens a reply.
#[derive(Debug, Clone, Copy, PartialEq, Eq, Structural)]
pub struct StatusFlags {
    pub bits: u8,
}

impl StatusFlags {
    pub fn is_busy(&self) -> (r: bool)
        ensures
            r == (self.bits & STATUS_BUSY != 0),
    {
        self.bits & STATUS_BUSY != 0
    }

    /// The two mode bits, as a number from 0 to 3.
    pub fn mode(&self) -> (r: u8)
        ensures
            r == (self.bits & STATUS_MODE) >> 5u8,
            r < 4,
    {
        let b = self.bits;
        assert((b & 0x60u8) >> 5u8 < 4) by (bit_vector);
        (self.bits & STATUS_MODE) >> 5
    }

    pub fn is_calibrated(&self) -> (r: bool)
        ensures
            r == is_calibrated(self.bits),
    {
        self.bits & STATUS_CALIBRATION != 0
    }
}

/// Whether a status byte carries the calibration bit.
pub open spec fn is_calibrated(status: u8) -> bool {
    status & STATUS_CALIBRATION != 0
}

/// The raw 20-bit counts of one measurement.
#[derive(Debug, Clone, Copy, PartialEq, Eq, Structural)]
pub struct RawReading {
    /// Relative humidity is `100 * humidity / 2^20` percent.
    pub humidity: u32,
    /// Temperature is `200 * temperature / 2^20 - 50` degrees Celsius.
    pub temperature: u32,
}

/// The humidity count: the top 20 bits of bytes 1 to 3.
pub open spec fn humidity_count(reply: [u8; 6]) -> int {
    reply[1] * 4096 + reply[2] * 16 + reply[3] / 16
}

/// The temperature count: the low nibble of byte 3, then bytes 4 and 5.
pub open spec fn temperature_count(reply: [u8; 6]) -> int {
    (reply[3] % 16) * 65536 + reply[4] * 256 + reply[5]
}

/// What a reply means: its counts when the calibration bit is set, else the
/// uncalibrated error, whatever the other bytes hold.
pub open spec fn decoded<E>(reply: [u8; 6]) -> Result<RawReading, Error<E>> {
    if is_calibrated(reply[0]) {
        Ok(RawReading { humidity: humidity_count(reply) as u32, temperature: temperature_count(reply) as u32 })
    } else {
        Err(Error::UncalibratedError)
    }
}

/// Decodes a measurement reply.
pub fn decode<E>(reply: [u8; 6]) -> (r: Result<RawReading, Error<E>>)
    ensures
        r == decoded::<E>(reply),
        r matches Ok(reading) ==> reading.humidity < 0x100000 && reading.temperature < 0x100000,
{
    let status = StatusFlags { bits: reply[0] };
    if !status.is_calibrated() {
        return Err(Error::UncalibratedError);
    }
    let b1 = reply[1] as u32;
    let b2 = reply[2] as u32;
    let b3 = reply[3] as u32;
    let b4 = reply[4] as u32;
    let b5 = reply[5] as u32;
    let hum = (b1 << 12u32) | (b2 << 4u32) | (b3 >> 4u32);
    let temp = ((b3 & 0x0fu32) << 16u32) | (b4 << 8u32) | b5;
    assert(hum == b1 * 4096 + b2 * 16 + b3 / 16 && hum < 0x100000) by (bit_vector)
        requires
            b1 < 256,
            b2 < 256,
            b3 < 256,
            hum == (b1 << 12u32) | (b2 << 4u32) | (b3 >> 4u32),
    ;
    assert(temp == (b3 % 16) * 65536 + b4 * 256 + b5 && temp < 0x100000) by (bit_vector)
        requires
            b3 < 256,
            b4 < 256,
            b5 < 256,
            temp == ((b3 & 0x0fu32) << 16u32) | (b4 << 8u32) | b5,
    ;
    Ok(RawReading { humidity: hum, temperature: temp })
}

/// A reply whose status byte lacks the calibration bit decodes to the
/// uncalibrated error and to no reading, whatever its other bytes hold.
pub proof fn lemma_uncalibrated_reply<E>(reply: [u8; 6], other: [u8; 6])
    requires
        !is_calibrated(reply[0]),
        other[0] == reply[0],
    ensures
        decoded::<E>(reply) == Err::<RawReading, Error<E>>(Error::UncalibratedError),
        decoded::<E>(other) == decoded::<E>(reply),
{
}

/// Driver state: whether the sensor was initialized.
pub struct AHT10 {
    ready: bool,
}

impl AHT10 {
    pub closed spec fn is_ready(&self) -> bool {
        self.ready
    }

    /// A sensor that has not been initialized yet.
    pub fn new() -> (r: AHT10)
        ensures
            !r.is_ready(),
    {
        AHT10 { ready: false }
    }

    pub fn ready(&self) -> (r: bool)
        ensures
            r == self.is_ready(),
    {
        self.ready
    }

    /// Completes initialization, given how writing `CMD_INIT` went: the
    /// sensor is ready after a successful write; a failed write is an init
    /// error and leaves the state as it was.
    pub fn init<E>(&mut self, written: Result<(), E>) -> (r: Result<(), Error<E>>)
        ensures
            match written {
                Ok(()) => r is Ok && final(self).is_ready(),
                Err(e) => r == Err::<(), Error<E>>(Error::InitError { source: e }) && final(self).is_ready()
                    == old(self).is_ready(),
            },
    {
        match written {
            Ok(()) => {
                self.ready = true;
                Ok(())
            },
            Err(e) => Err(Error::InitError { source: e }),
        }
    }

    /// Completes a measurement, given the reply read after `CMD_MEASURE`, or
    /// the bus error of the write or the read.
    pub fn measure<E>(&self, reply: Result<[u8; 6], E>) -> (r: Result<RawReading, Error<E>>)
        requires
            self.is_ready(),
        ensures
            match reply {
                Ok(bytes) => r == decoded::<E>(bytes),
                Err(e) => r == Err::<RawReading, Error<E>>(Error::MeasureError { source: e }),
            },
    {
        match reply {
            Ok(bytes) => decode(bytes),
            Err(e) => Err(Error::MeasureError { source: e }),
        }
    }
}

} // verus!
