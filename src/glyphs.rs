//! Static 8x8 bitmaps: decimal digits, unit symbols and separators, in a
//! "normal" and a "slim" variant.
use vstd::prelude::*;

verus! {

pub const N_0: [u8; 8] = [0b011110, 0b110011, 0b110011, 0b110011, 0b110011, 0b110011, 0b110011, 0b011110];
pub const N_1: [u8; 8] = [0b001100, 0b011100, 0b001100, 0b001100, 0b001100, 0b001100, 0b001100, 0b011110];
pub const N_2: [u8; 8] = [0b011110, 0b110011, 0b000011, 0b000110, 0b001100, 0b011000, 0b110000, 0b111111];
pub const N_3: [u8; 8] = [0b011110, 0b110011, 0b000011, 0b001110, 0b000011, 0b000011, 0b110011, 0b011110];
pub const N_4: [u8; 8] = [0b000011, 0b000111, 0b001111, 0b011011, 0b110011, 0b111111, 0b000011, 0b000011];
pub const N_5: [u8; 8] = [0b111111, 0b110000, 0b110000, 0b111110, 0b000011, 0b000011, 0b110011, 0b011110];
pub const N_6: [u8; 8] = [0b011110, 0b110011, 0b110000, 0b111110, 0b110011, 0b110011, 0b110011, 0b011110];
pub const N_7: [u8; 8] = [0b111111, 0b000011, 0b000110, 0b000110, 0b001100, 0b001100, 0b011000, 0b011000];
pub const N_8: [u8; 8] = [0b011110, 0b110011, 0b110011, 0b011110, 0b110011, 0b110011, 0b110011, 0b011110];
pub const N_9: [u8; 8] = [0b011110, 0b110011, 0b110011, 0b110011, 0b011111, 0b000011, 0b110011, 0b011110];

pub const NUMS: [[u8; 8]; 10] = [N_0, N_1, N_2, N_3, N_4, N_5, N_6, N_7, N_8, N_9];

pub const PERCENT: [u8; 8] = [0b000000, 0b000000, 0b110001, 0b110010, 0b000100, 0b001000, 0b010011, 0b100011];
pub const CELSIUS: [u8; 8] = [0b000000, 0b000000, 0b100111, 0b001100, 0b001100, 0b001100, 0b001100, 0b000111];
pub const HUMIDITY: [u8; 8] = [0b0000000, 0b0000000, 0b0000000, 0b1000000, 0b1000000, 0b1110101, 0b1010101, 0b1010111];
pub const SEMICOLON: [u8; 8] = [0b00, 0b11, 0b11, 0b00, 0b00, 0b11, 0b11, 0b00];
pub const DOT: [u8; 8] = [0b00, 0b00, 0b00, 0b00, 0b00, 0b00, 0b11, 0b11];

pub const SLIM_N_0: [u8; 8] = [0b001110, 0b010001, 0b010001, 0b010001, 0b010001, 0b010001, 0b010001, 0b001110];
pub const SLIM_N_1: [u8; 8] = [0b000100, 0b001100, 0b000100, 0b000100, 0b000100, 0b000100, 0b000100, 0b001110];
pub const SLIM_N_2: [u8; 8] = [0b001110, 0b010001, 0b000001, 0b000010, 0b000100, 0b001000, 0b010000, 0b011111];
pub const SLIM_N_3: [u8; 8] = [0b001110, 0b010001, 0b000001, 0b000110, 0b000001, 0b000001, 0b010001, 0b001110];
pub const SLIM_N_4: [u8; 8] = [0b000001, 0b000011, 0b000101, 0b001001, 0b010001, 0b011111, 0b000001, 0b000001];
pub const SLIM_N_5: [u8; 8] = [0b011111, 0b010000, 0b010000, 0b011110, 0b000001, 0b000001, 0b010001, 0b001110];
pub const SLIM_N_6: [u8; 8] = [0b001110, 0b010001, 0b010000, 0b011110, 0b010001, 0b010001, 0b010001, 0b001110];
pub const SLIM_N_7: [u8; 8] = [0b011111, 0b000001, 0b000010, 0b000010, 0b000100, 0b000100, 0b000100, 0b000100];
pub const SLIM_N_8: [u8; 8] = [0b001110, 0b010001, 0b010001, 0b001110, 0b010001, 0b010001, 0b010001, 0b001110];
pub const SLIM_N_9: [u8; 8] = [0b001110, 0b010001, 0b010001, 0b010001, 0b001111, 0b000001, 0b010001, 0b001110];

pub const SLIM_NUMS: [[u8; 8]; 10] = [
    SLIM_N_0, SLIM_N_1, SLIM_N_2, SLIM_N_3, SLIM_N_4, SLIM_N_5, SLIM_N_6, SLIM_N_7, SLIM_N_8, SLIM_N_9,
];

pub const SLIM_PERCENT: [u8; 8] = [0b000000, 0b000000, 0b110001, 0b110010, 0b000100, 0b001000, 0b010011, 0b100011];
pub const SLIM_CELSIUS: [u8; 8] = [0b000000, 0b000000, 0b100111, 0b001000, 0b001000, 0b001000, 0b001000, 0b000111];
pub const SLIM_HUMIDITY: [u8; 8] = [0b0000000, 0b0000000, 0b0000000, 0b1000000, 0b1000000, 0b1110101, 0b1010101, 0b1010111];
pub const SLIM_SEMICOLON: [u8; 8] = [0b00, 0b00, 0b01, 0b00, 0b00, 0b01, 0b00, 0b00];
pub const SLIM_DOT: [u8; 8] = [0b00, 0b00, 0b00, 0b00, 0b00, 0b00, 0b00, 0b01];

/// Which of the two glyph sets a display uses.
pub open spec fn digits_of(slim: bool) -> [[u8; 8]; 10] {
    if slim { SLIM_NUMS } else { NUMS }
}

/// The decimal digit of `v` used to pick a glyph: always below ten, so a
/// lookup in a digit table can never leave it.
pub open spec fn digit_index(v: int) -> int {
    v % 10
}

/// The glyph of digit `v % 10` in the chosen set.
pub open spec fn digit_glyph(slim: bool, v: int) -> [u8; 8] {
    digits_of(slim)[digit_index(v)]
}

/// Looks up the glyph for the last decimal digit of `v`; any `v` is accepted.
pub fn digit(slim: bool, v: u32) -> (r: [u8; 8])
    ensures
        r == digit_glyph(slim, v as int),
        0 <= digit_index(v as int) < 10,
{
    let d = (v % 10) as usize;
    if slim {
        SLIM_NUMS[d]
    } else {
        NUMS[d]
    }
}

/// Whether bit `k` (0 = least significant) of `row` is set.
pub open spec fn bit_set(row: u8, k: int) -> bool {
    (row >> (k as u8)) & 1u8 == 1u8
}

/// The intensity a glyph contributes at bit `k` of one of its rows: the row
/// masked to that bit, so nonzero exactly when the bit is set.
pub open spec fn glyph_bit(row: u8, k: int) -> u8 {
    row & (1u8 << (k as u8))
}

pub proof fn lemma_glyph_bit(row: u8, k: u8)
    requires
        k < 8,
    ensures
        (row & (1u8 << k)) != 0 <==> (row >> k) & 1u8 == 1u8,
{
    assert((row & (1u8 << k)) != 0 <==> (row >> k) & 1u8 == 1u8) by (bit_vector)
        requires k < 8;
}

} // verus!
