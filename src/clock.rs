//! The clock face: four digits and a blinking separator.
use vstd::prelude::*;

use chrono::Timelike;

use crate::display::{frames_match, lemma_frames_match, Command, LinearMatrixDisplay};
use crate::glyphs::{
    bit_set, digit, digit_glyph, digits_of, glyph_bit, lemma_glyph_bit, SEMICOLON, SLIM_SEMICOLON,
};

verus! {

/// The separator glyph of the chosen set.
pub open spec fn separator_of(slim: bool) -> [u8; 8] {
    if slim { SLIM_SEMICOLON } else { SEMICOLON }
}

/// Intensity of the clock face at column `x`, row `y`: the tens and units of
/// `hours` in columns 1-6 and 8-13, the separator in columns 15-16 when
/// `draw_dots` holds, the tens and units of `minutes` in columns 18-23 and
/// 25-30, nothing elsewhere. Column `x` of a band ending at `e` shows bit
/// `e - x` of the glyph row.
pub open spec fn clock_pixel_spec(slim: bool, hours: u32, minutes: u32, draw_dots: bool, x: int, y: int) -> u8 {
    if 1 <= x <= 6 {
        glyph_bit(digit_glyph(slim, hours as int / 10)[y], 6 - x)
    } else if 8 <= x <= 13 {
        glyph_bit(digit_glyph(slim, hours as int)[y], 13 - x)
    } else if 15 <= x <= 16 && draw_dots {
        glyph_bit(separator_of(slim)[y], 16 - x)
    } else if 18 <= x <= 23 {
        glyph_bit(digit_glyph(slim, minutes as int / 10)[y], 23 - x)
    } else if 25 <= x <= 30 {
        glyph_bit(digit_glyph(slim, minutes as int)[y], 30 - x)
    } else {
        0
    }
}

/// The whole clock face as a canvas.
pub open spec fn clock_image(slim: bool, hours: u32, minutes: u32, draw_dots: bool) -> spec_fn(int, int) -> u8 {
    |x: int, y: int| clock_pixel_spec(slim, hours, minutes, draw_dots, x, y)
}

/// Intensity of the clock face at `(x, y)`; any hour and minute are accepted,
/// each digit being taken modulo ten.
pub fn clock_pixel(slim: bool, hours: u32, minutes: u32, draw_dots: bool, x: usize, y: usize) -> (r: u8)
    requires
        y < 8,
    ensures
        r == clock_pixel_spec(slim, hours, minutes, draw_dots, x as int, y as int),
{
    if 1 <= x && x <= 6 {
        digit(slim, hours / 10)[y] & (1u8 << ((6 - x) as u8))
    } else if 8 <= x && x <= 13 {
        digit(slim, hours)[y] & (1u8 << ((13 - x) as u8))
    } else if 15 <= x && x <= 16 && draw_dots {
        let semicolon = if slim { SLIM_SEMICOLON } else { SEMICOLON };
        semicolon[y] & (1u8 << ((16 - x) as u8))
    } else if 18 <= x && x <= 23 {
        digit(slim, minutes / 10)[y] & (1u8 << ((23 - x) as u8))
    } else if 25 <= x && x <= 30 {
        digit(slim, minutes)[y] & (1u8 << ((30 - x) as u8))
    } else {
        0
    }
}

/// The frames that show `hours:minutes` on `display`, with the separator
/// when `draw_dots` holds.
pub fn draw_time(display: &LinearMatrixDisplay, hours: u32, minutes: u32, draw_dots: bool, slim: bool) -> (r: Vec<Command>)
    requires
        display.wf(),
    ensures
        frames_match(
            display.matrices(),
            r@,
            clock_image(slim, hours, minutes, draw_dots),
        ),
{
    let pixel = move |x: usize, y: usize| -> (r: u8)
        requires
            y < 8,
        ensures
            r == clock_pixel_spec(slim, hours, minutes, draw_dots, x as int, y as int),
        { clock_pixel(slim, hours, minutes, draw_dots, x, y) };
    let r = display.draw(pixel);
    proof {
        display.lemma_size();
        lemma_frames_match(
            pixel,
            display.matrices(),
            r@,
            clock_image(slim, hours, minutes, draw_dots),
        );
    }
    r
}

/// Relies on chrono::Local::now with Timelike::hour and Timelike::minute: the
/// local wall-clock time, an hour from 0 to 23 and a minute from 0 to 59.
#[verifier::external_body]
fn local_time() -> (r: (u32, u32))
    ensures
        r.0 < 24,
        r.1 < 60,
{
    let now = chrono::Local::now();
    (now.hour(), now.minute())
}

/// The frames that show the current local time on `display`, with the
/// separator when `draw_dots` holds.
pub fn draw(display: &LinearMatrixDisplay, draw_dots: bool, slim: bool) -> (r: Vec<Command>)
    requires
        display.wf(),
    ensures
        exists|hours: u32, minutes: u32|
            hours < 24 && minutes < 60 && #[trigger] frames_match(
                display.matrices(),
                r@,
                clock_image(slim, hours, minutes, draw_dots),
            ),
{
    let (hours, minutes) = local_time();
    draw_time(display, hours, minutes, draw_dots, slim)
}

/// A clock face for `hours:minutes` shows in its four digit bands exactly the
/// glyphs of `hours / 10`, `hours % 10`, `minutes / 10` and `minutes % 10`,
/// whether or not the separator is drawn.
pub proof fn lemma_clock_glyphs(slim: bool, hours: u32, minutes: u32, draw_dots: bool, x: int, y: int)
    requires
        hours < 24,
        minutes < 60,
        0 <= y < 8,
    ensures
        1 <= x <= 6 ==> (clock_pixel_spec(slim, hours, minutes, draw_dots, x, y) != 0 <==> bit_set(
            digits_of(slim)[hours as int / 10][y],
            6 - x,
        )),
        8 <= x <= 13 ==> (clock_pixel_spec(slim, hours, minutes, draw_dots, x, y) != 0 <==> bit_set(
            digits_of(slim)[hours as int % 10][y],
            13 - x,
        )),
        18 <= x <= 23 ==> (clock_pixel_spec(slim, hours, minutes, draw_dots, x, y) != 0 <==> bit_set(
            digits_of(slim)[minutes as int / 10][y],
            23 - x,
        )),
        25 <= x <= 30 ==> (clock_pixel_spec(slim, hours, minutes, draw_dots, x, y) != 0 <==> bit_set(
            digits_of(slim)[minutes as int % 10][y],
            30 - x,
        )),
        (1 <= x <= 6 || 8 <= x <= 13 || 18 <= x <= 23 || 25 <= x <= 30) ==> clock_pixel_spec(
            slim,
            hours,
            minutes,
            draw_dots,
            x,
            y,
        ) == clock_pixel_spec(slim, hours, minutes, !draw_dots, x, y),
{
    if 1 <= x <= 6 {
        lemma_glyph_bit(digit_glyph(slim, hours as int / 10)[y], (6 - x) as u8);
    } else if 8 <= x <= 13 {
        lemma_glyph_bit(digit_glyph(slim, hours as int)[y], (13 - x) as u8);
    } else if 18 <= x <= 23 {
        lemma_glyph_bit(digit_glyph(slim, minutes as int / 10)[y], (23 - x) as u8);
    } else if 25 <= x <= 30 {
        lemma_glyph_bit(digit_glyph(slim, minutes as int)[y], (30 - x) as u8);
    }
}

} // verus!
