use clock::clock::{clock_pixel, draw, draw_time};
use clock::display::{Command, LinearMatrixDisplay};
use clock::glyphs::{digit, DOT, NUMS, PERCENT, SEMICOLON, SLIM_NUMS, SLIM_SEMICOLON};
use clock::weather::{self, humidity_pixel, temperature_pixel, WeatherType};

fn frames(cmds: &[Command]) -> Vec<[u8; 8]> {
    cmds.iter()
        .map(|c| match c {
            Command::WriteRaw { rows, .. } => *rows,
            other => panic!("unexpected command {:?}", other),
        })
        .collect()
}

fn lit(frames: &[[u8; 8]], x: usize, y: usize) -> bool {
    (frames[x / 8][y] >> (7 - x % 8)) & 1 == 1
}

/// Whether band `[start, start + width)` of the canvas shows `glyph`, bit
/// `width - 1 - (x - start)` of each row.
fn band_shows(frames: &[[u8; 8]], start: usize, width: usize, glyph: &[u8; 8]) -> bool {
    (0..8).all(|y| (0..width).all(|i| lit(frames, start + i, y) == ((glyph[y] >> (width - 1 - i)) & 1 == 1)))
}

fn display(n: u32) -> LinearMatrixDisplay {
    LinearMatrixDisplay::new(n, 1).ok().unwrap().0
}

#[test]
fn clock_places_the_four_digit_glyphs() {
    let d = display(4);
    for &(h, m) in &[(12u32, 34u32), (0, 0), (23, 59), (9, 5)] {
        for dots in [true, false] {
            for slim in [true, false] {
                let nums = if slim { SLIM_NUMS } else { NUMS };
                let f = frames(&draw_time(&d, h, m, dots, slim));
                assert!(band_shows(&f, 1, 6, &nums[(h / 10) as usize]));
                assert!(band_shows(&f, 8, 6, &nums[(h % 10) as usize]));
                assert!(band_shows(&f, 18, 6, &nums[(m / 10) as usize]));
                assert!(band_shows(&f, 25, 6, &nums[(m % 10) as usize]));
            }
        }
    }
}

#[test]
fn clock_separator_blinks() {
    let d = display(4);
    let on = frames(&draw_time(&d, 7, 30, true, false));
    let off = frames(&draw_time(&d, 7, 30, false, false));
    assert!(band_shows(&on, 15, 2, &SEMICOLON));
    assert!(band_shows(&off, 15, 2, &[0; 8]));
    let slim = frames(&draw_time(&d, 7, 30, true, true));
    assert!(band_shows(&slim, 15, 2, &SLIM_SEMICOLON));
}

#[test]
fn clock_gaps_stay_dark() {
    let d = display(4);
    let f = frames(&draw_time(&d, 18, 88, true, false));
    for y in 0..8 {
        for x in [0usize, 7, 14, 17, 24, 31] {
            assert!(!lit(&f, x, y));
        }
    }
}

#[test]
fn digits_wrap_modulo_ten() {
    for v in [0u32, 9, 10, 25, 255, u32::MAX] {
        assert_eq!(digit(false, v), NUMS[(v % 10) as usize]);
        assert_eq!(digit(true, v), SLIM_NUMS[(v % 10) as usize]);
    }
    for h in 0..=255u32 {
        for m in [0u32, 59, 60, 255] {
            for x in 0..40 {
                let _ = clock_pixel(false, h, m, true, x, 7);
            }
        }
    }
    // 25:61 shows tens digit 2 % 10 and units 5, then 6 and 1.
    let f = frames(&draw_time(&display(4), 255, 61, false, false));
    assert!(band_shows(&f, 1, 6, &NUMS[5]));
    assert!(band_shows(&f, 8, 6, &NUMS[5]));
    assert!(band_shows(&f, 18, 6, &NUMS[6]));
    assert!(band_shows(&f, 25, 6, &NUMS[1]));
}

#[test]
fn clock_pixel_exact_values() {
    // Row 0 of glyph 1 is 0b001100: columns 3 and 4 of the first band.
    assert_eq!(clock_pixel(false, 10, 0, false, 3, 0), 0b001000);
    assert_eq!(clock_pixel(false, 10, 0, false, 4, 0), 0b000100);
    assert_eq!(clock_pixel(false, 10, 0, false, 2, 0), 0);
    assert_eq!(clock_pixel(false, 10, 0, true, 15, 1), 0b10);
    assert_eq!(clock_pixel(false, 10, 0, false, 15, 1), 0);
}

#[test]
fn clock_now_shows_a_valid_time() {
    let d = display(4);
    let f = frames(&draw(&d, true, false));
    assert_eq!(f.len(), 4);
    assert!(band_shows(&f, 15, 2, &SEMICOLON));
    let shown = |start: usize| (0..10).find(|&k| band_shows(&f, start, 6, &NUMS[k])).unwrap();
    let hours = shown(1) * 10 + shown(8);
    let minutes = shown(18) * 10 + shown(25);
    assert!(hours < 24);
    assert!(minutes < 60);
}

#[test]
fn humidity_face() {
    let d = display(4);
    let f = frames(&weather::draw(&d, WeatherType::Humidity, false, 47, 0));
    assert!(band_shows(&f, 10, 6, &NUMS[4]));
    assert!(band_shows(&f, 17, 6, &NUMS[7]));
    assert!(band_shows(&f, 24, 6, &PERCENT));
    assert_eq!(humidity_pixel(false, 47, 1, 5), 0b1000000);
    assert_eq!(humidity_pixel(false, 47, 0, 5), 0);
}

#[test]
fn temperature_face() {
    let d = display(4);
    let f = frames(&weather::draw(&d, WeatherType::Temperature, false, 0, 235));
    assert!(band_shows(&f, 1, 6, &NUMS[2]));
    assert!(band_shows(&f, 8, 6, &NUMS[3]));
    assert!(band_shows(&f, 15, 2, &DOT));
    assert!(band_shows(&f, 18, 6, &NUMS[5]));
    assert_eq!(temperature_pixel(false, 235, 16, 7), 1);
}

#[test]
fn weather_values_out_of_range_do_not_panic() {
    for x in 0..40 {
        for y in 0..8 {
            let _ = humidity_pixel(true, 255, x, y);
            let _ = temperature_pixel(true, u32::MAX, x, y);
        }
    }
    // 1234 tenths: hundreds digit 12 % 10.
    let f = frames(&weather::draw(&display(4), WeatherType::Temperature, false, 0, 1234));
    assert!(band_shows(&f, 1, 6, &NUMS[2]));
}
