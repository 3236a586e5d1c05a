//! The weather faces: relative humidity, or temperature to a tenth of a degree.
use vstd::prelude::*;

use crate::display::{frames_match, lemma_frames_match, Command, LinearMatrixDisplay};
use crate::glyphs::{
    digit, digit_glyph, glyph_bit, CELSIUS, DOT, HUMIDITY, PERCENT, SLIM_CELSIUS, SLIM_DOT, SLIM_HUMIDITY,
    SLIM_PERCENT,
};

verus! {

/// Which reading a weather face shows.
#[derive(Debug, Clone, Copy, PartialEq, Eq, Structural)]
pub enum WeatherType {
    Humidity,
    Temperature,
}

pub open spec fn humidity_sign_of(slim: bool) -> [u8; 8] {
    if slim { SLIM_HUMIDITY } else { HUMIDITY }
}

pub open spec fn percent_of(slim: bool) -> [u8; 8] {
    if slim { SLIM_PERCENT } else { PERCENT }
}

pub open spec fn dot_of(slim: bool) -> [u8; 8] {
    if slim { SLIM_DOT } else { DOT }
}

pub open spec fn celsius_of(slim: bool) -> [u8; 8] {
    if slim { SLIM_CELSIUS } else { CELSIUS }
}

/// Intensity of the humidity face at `(x, y)`: the humidity sign in columns
/// 1-7, the tens and units of `humidity` in columns 10-15 and 17-22, the
/// percent sign in columns 24-29. Column `x` of a band ending at `e` shows bit
/// `e - x` of the glyph row.
pub open spec fn humidity_pixel_spec(slim: bool, humidity: u8, x: int, y: int) -> u8 {
    if 1 <= x <= 7 {
        glyph_bit(humidity_sign_of(slim)[y], 7 - x)
    } else if 10 <= x <= 15 {
        glyph_bit(digit_glyph(slim, humidity as int / 10)[y], 15 - x)
    } else if 17 <= x <= 22 {
        glyph_bit(digit_glyph(slim, humidity as int % 10)[y], 22 - x)
    } else if 24 <= x <= 29 {
        glyph_bit(percent_of(slim)[y], 29 - x)
    } else {
        0
    }
}

/// Intensity of the temperature face at `(x, y)` for a temperature of
/// `tenths` tenths of a degree: its hundreds, tens and units digits in columns
/// 1-6, 8-13 and 18-23, the decimal point in columns 15-16, the degree sign in
/// columns 25-30.
pub open spec fn temperature_pixel_spec(slim: bool, tenths: u32, x: int, y: int) -> u8 {
    if 1 <= x <= 6 {
        glyph_bit(digit_glyph(slim, tenths as int / 100)[y], 6 - x)
    } else if 8 <= x <= 13 {
        glyph_bit(digit_glyph(slim, tenths as int % 100 / 10)[y], 13 - x)
    } else if 15 <= x <= 16 {
        glyph_bit(dot_of(slim)[y], 16 - x)
    } else if 18 <= x <= 23 {
        glyph_bit(digit_glyph(slim, tenths as int % 10)[y], 23 - x)
    } else if 25 <= x <= 30 {
        glyph_bit(celsius_of(slim)[y], 30 - x)
    } else {
        0
    }
}

/// The weather face of the given kind as a canvas.
pub open spec fn weather_image(weather_type: WeatherType, slim: bool, humidity: u8, tenths: u32) -> spec_fn(
    int,
    int,
) -> u8 {
    |x: int, y: int|
        match weather_type {
            WeatherType::Humidity => humidity_pixel_spec(slim, humidity, x, y),
            WeatherType::Temperature => temperature_pixel_spec(slim, tenths, x, y),
        }
}

/// Intensity of the humidity face at `(x, y)`; any value is accepted, each
/// digit being taken modulo ten.
pub fn humidity_pixel(slim: bool, humidity: u8, x: usize, y: usize) -> (r: u8)
    requires
        y < 8,
    ensures
        r == humidity_pixel_spec(slim, humidity, x as int, y as int),
{
    if 1 <= x && x <= 7 {
        let sign = if slim { SLIM_HUMIDITY } else { HUMIDITY };
        sign[y] & (1u8 << ((7 - x) as u8))
    } else if 10 <= x && x <= 15 {
        digit(slim, (humidity / 10) as u32)[y] & (1u8 << ((15 - x) as u8))
    } else if 17 <= x && x <= 22 {
        digit(slim, (humidity % 10) as u32)[y] & (1u8 << ((22 - x) as u8))
    } else if 24 <= x && x <= 29 {
        let percent = if slim { SLIM_PERCENT } else { PERCENT };
        percent[y] & (1u8 << ((29 - x) as u8))
    } else {
        0
    }
}

/// Intensity of the temperature face at `(x, y)`; any value is accepted, each
/// digit being taken modulo ten.
pub fn temperature_pixel(slim: bool, tenths: u32, x: usize, y: usize) -> (r: u8)
    requires
        y < 8,
    ensures
        r == temperature_pixel_spec(slim, tenths, x as int, y as int),
{
    if 1 <= x && x <= 6 {
        digit(slim, tenths / 100)[y] & (1u8 << ((6 - x) as u8))
    } else if 8 <= x && x <= 13 {
        digit(slim, tenths % 100 / 10)[y] & (1u8 << ((13 - x) as u8))
    } else if 15 <= x && x <= 16 {
        let dot = if slim { SLIM_DOT } else { DOT };
        dot[y] & (1u8 << ((16 - x) as u8))
    } else if 18 <= x && x <= 23 {
        digit(slim, tenths % 10)[y] & (1u8 << ((23 - x) as u8))
    } else if 25 <= x && x <= 30 {
        let celsius = if slim { SLIM_CELSIUS } else { CELSIUS };
        celsius[y] & (1u8 << ((30 - x) as u8))
    } else {
        0
    }
}

/// The frames that show one reading on `display`: `humidity` in percent, or
/// the temperature as `temperature_tenths` tenths of a degree Celsius.
pub fn draw(
    display: &LinearMatrixDisplay,
    weather_type: WeatherType,
    slim: bool,
    humidity: u8,
    temperature_tenths: u32,
) -> (r: Vec<Command>)
    requires
        display.wf(),
    ensures
        frames_match(display.matrices(), r@, weather_image(weather_type, slim, humidity, temperature_tenths)),
{
    let pixel = move |x: usize, y: usize| -> (r: u8)
        requires
            y < 8,
        ensures
            r == weather_image(weather_type, slim, humidity, temperature_tenths)(x as int, y as int),
        {
            match weather_type {
                WeatherType::Humidity => humidity_pixel(slim, humidity, x, y),
                WeatherType::Temperature => temperature_pixel(slim, temperature_tenths, x, y),
            }
        };
    let r = display.draw(pixel);
    proof {
        display.lemma_size();
        lemma_frames_match(
            pixel,
            display.matrices(),
            r@,
            weather_image(weather_type, slim, humidity, temperature_tenths),
        );
    }
    r
}

} // verus!
