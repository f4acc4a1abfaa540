//! Where each board's LEDs sit in the chip's register space.
//!
//! A board maps a coordinate `(x, y)` to the index, below 144, of the LED's
//! brightness register. On the boards with colour LEDs, `x` counts the LEDs
//! and `y` is the colour channel: 0 red, 1 green, 2 blue. A coordinate is in
//! bounds when `x` is below the board's width and `y` below its height.

use crate::error::Error;
use vstd::prelude::*;

verus! {

/// Why `(x, y)` is refused, if it is: the first coordinate that is out of
/// bounds, `x` before `y`.
pub open spec fn refusal<E>(x: u8, y: u8, width: u8, height: u8) -> Option<Error<E>> {
    if x >= width {
        Some(Error::InvalidLocation(x))
    } else if y >= height {
        Some(Error::InvalidLocation(y))
    } else {
        None
    }
}

/// What a board answers for `(x, y)`, where `led` is the LED there.
pub open spec fn located<E>(x: u8, y: u8, width: u8, height: u8, led: int) -> Result<
    u8,
    Error<E>,
> {
    match refusal::<E>(x, y, width, height) {
        Some(refused) => Err(refused),
        None => Ok(led as u8),
    }
}

/// Columns of the Charlie bonnet.
pub const CHARLIE_BONNET_WIDTH: u8 = 16;

/// Rows of the Charlie bonnet.
pub const CHARLIE_BONNET_HEIGHT: u8 = 8;

/// The LED at `(x, y)` of the Charlie bonnet. The left and the right half of
/// the board share the register rows 1 to 8: the left half fills the lower 8
/// registers of a row, the right half the upper 8, both with `y` inverted.
pub open spec fn charlie_bonnet_led(x: u8, y: u8) -> int {
    if x >= 8 {
        (x - 6) * 16 - (y + 1)
    } else {
        (x + 1) * 16 + (7 - y)
    }
}

/// Columns that the Charlie wing's map takes, one more than the board has
/// LEDs in a row.
pub const CHARLIE_WING_WIDTH: u8 = 16;

/// Rows that the Charlie wing's map takes, one more than the board has rows
/// of LEDs.
pub const CHARLIE_WING_HEIGHT: u8 = 8;

/// The LED at `(x, y)` of the Charlie wing. The right half of the board is
/// wired mirrored, into the upper 8 registers of the rows; the left half has
/// `y` inverted.
pub open spec fn charlie_wing_led(x: u8, y: u8) -> int {
    if x > 7 {
        (15 - x) * 16 + (y + 8)
    } else {
        x * 16 + (7 - y)
    }
}

/// Columns of the 16x9 matrix.
pub const MATRIX_WIDTH: u8 = 16;

/// Rows of the 16x9 matrix.
pub const MATRIX_HEIGHT: u8 = 9;

/// The LED at `(x, y)` of the 16x9 matrix: row by row.
pub open spec fn matrix_led(x: u8, y: u8) -> int {
    x + y * 16
}

/// Columns of the Scroll pHAT HD.
pub const SCROLL_PHAT_HD_WIDTH: u8 = 17;

/// Rows of the Scroll pHAT HD.
pub const SCROLL_PHAT_HD_HEIGHT: u8 = 7;

/// The LED at `(x, y)` of the Scroll pHAT HD. Columns 0 to 8 run backwards
/// through the lower registers of the rows with `y` inverted; columns 9 to 16
/// run forwards through the upper registers of the row before.
pub open spec fn scroll_phat_hd_led(x: u8, y: u8) -> int {
    if x <= 8 {
        (8 - x) * 16 + (6 - y)
    } else {
        (x - 8) * 16 + (y - 8)
    }
}

/// Keys of the Keybow 2040.
pub const KEYBOW_2040_WIDTH: u8 = 16;

/// Colour channels of a key.
pub const KEYBOW_2040_HEIGHT: u8 = 3;

/// The LEDs of the Keybow 2040: for each key its red, green and blue LED.
pub const KEYBOW_2040_LOOKUP: [[u8; 3]; 16] = [
    [120, 88, 104],
    [136, 40, 72],
    [112, 80, 96],
    [128, 32, 64],
    [121, 89, 105],
    [137, 41, 73],
    [113, 81, 97],
    [129, 33, 65],
    [122, 90, 106],
    [138, 25, 74],
    [114, 82, 98],
    [130, 17, 66],
    [123, 91, 107],
    [139, 26, 75],
    [115, 83, 99],
    [131, 18, 67],
];

/// The LED of channel `y` of key `x` of the Keybow 2040.
pub open spec fn keybow_2040_led(x: u8, y: u8) -> int {
    KEYBOW_2040_LOOKUP[x as int][y as int] as int
}

/// The red, green and blue LED of key `x` of the Keybow 2040.
pub open spec fn keybow_2040_leds(x: int) -> (u8, u8, u8) {
    (KEYBOW_2040_LOOKUP[x][0], KEYBOW_2040_LOOKUP[x][1], KEYBOW_2040_LOOKUP[x][2])
}

/// Keys in a row of the Keybow 2040, and rows.
pub const KEYBOW_2040_SIDE: u8 = 4;

/// The key at column `x`, row `y` of the Keybow 2040's keypad.
pub open spec fn keybow_2040_key(x: u8, y: u8) -> int {
    4 * (3 - x) + y
}

/// Why the place `(x, y)` of the Keybow 2040's keypad is refused, if it is.
pub open spec fn keybow_2040_refusal<E>(x: u8, y: u8) -> Option<Error<E>> {
    refusal::<E>(x, y, KEYBOW_2040_SIDE, KEYBOW_2040_SIDE)
}

/// LEDs of the LED SHIM.
pub const LED_SHIM_WIDTH: u8 = 28;

/// Colour channels of an LED.
pub const LED_SHIM_HEIGHT: u8 = 3;

/// The LEDs of the LED SHIM: for each pixel its red, green and blue LED.
pub const LED_SHIM_LOOKUP: [[u8; 3]; 28] = [
    [118, 69, 85],
    [117, 68, 101],
    [116, 84, 100],
    [115, 83, 99],
    [114, 82, 98],
    [113, 81, 97],
    [112, 80, 96],
    [134, 21, 37],
    [133, 20, 36],
    [132, 19, 35],
    [131, 18, 34],
    [130, 17, 53],
    [129, 33, 54],
    [128, 32, 55],
    [127, 47, 63],
    [121, 41, 57],
    [122, 25, 58],
    [123, 26, 42],
    [124, 27, 43],
    [125, 28, 44],
    [126, 29, 45],
    [14, 95, 111],
    [8, 89, 105],
    [9, 90, 106],
    [10, 91, 107],
    [11, 92, 108],
    [12, 76, 109],
    [13, 77, 93],
];

/// The LED of channel `y` of pixel `x` of the LED SHIM.
pub open spec fn led_shim_led(x: u8, y: u8) -> int {
    LED_SHIM_LOOKUP[x as int][y as int] as int
}

/// The red, green and blue LED of pixel `x` of the LED SHIM.
pub open spec fn led_shim_leds(x: int) -> (u8, u8, u8) {
    (LED_SHIM_LOOKUP[x][0], LED_SHIM_LOOKUP[x][1], LED_SHIM_LOOKUP[x][2])
}

/// Why pixel `x` of the LED SHIM is refused, if it is.
pub open spec fn led_shim_refusal<E>(x: u8) -> Option<Error<E>> {
    refusal::<E>(x, 0, LED_SHIM_WIDTH, LED_SHIM_HEIGHT)
}

/// Pixels of the 5x5 RGB matrix.
pub const RGB_MATRIX_5X5_WIDTH: u8 = 25;

/// Colour channels of a pixel.
pub const RGB_MATRIX_5X5_HEIGHT: u8 = 3;

/// The LEDs of the 5x5 RGB matrix: for each pixel its red, green and blue
/// LED.
pub const RGB_MATRIX_5X5_LOOKUP: [[u8; 3]; 25] = [
    [118, 69, 85],
    [117, 68, 101],
    [116, 84, 100],
    [115, 83, 99],
    [114, 82, 98],
    [132, 19, 35],
    [133, 20, 36],
    [134, 21, 37],
    [112, 80, 96],
    [113, 81, 97],
    [131, 18, 34],
    [130, 17, 50],
    [129, 33, 49],
    [128, 32, 48],
    [127, 47, 63],
    [125, 28, 44],
    [124, 27, 43],
    [123, 26, 42],
    [122, 25, 58],
    [121, 41, 57],
    [126, 29, 45],
    [15, 95, 111],
    [8, 89, 105],
    [9, 90, 106],
    [10, 91, 107],
];

/// The LED of channel `y` of pixel `x` of the 5x5 RGB matrix.
pub open spec fn rgb_matrix_5x5_led(x: u8, y: u8) -> int {
    RGB_MATRIX_5X5_LOOKUP[x as int][y as int] as int
}

/// The red, green and blue LED of pixel `x` of the 5x5 RGB matrix.
pub open spec fn rgb_matrix_5x5_leds(x: int) -> (u8, u8, u8) {
    (RGB_MATRIX_5X5_LOOKUP[x][0], RGB_MATRIX_5X5_LOOKUP[x][1], RGB_MATRIX_5X5_LOOKUP[x][2])
}

/// Pixels in a row of the 5x5 RGB matrix, and rows.
pub const RGB_MATRIX_5X5_SIDE: u8 = 5;

/// The pixel at column `x`, row `y` of the 5x5 RGB matrix.
pub open spec fn rgb_matrix_5x5_pixel(x: u8, y: u8) -> int {
    x + y * 5
}

/// Why the place `(x, y)` of the 5x5 RGB matrix is refused, if it is.
pub open spec fn rgb_matrix_5x5_refusal<E>(x: u8, y: u8) -> Option<Error<E>> {
    refusal::<E>(x, y, RGB_MATRIX_5X5_SIDE, RGB_MATRIX_5X5_SIDE)
}

/// On the Charlie bonnet every coordinate in bounds has an LED, and no two
/// share one.
pub proof fn lemma_charlie_bonnet(x1: u8, y1: u8, x2: u8, y2: u8)
    requires
        x1 < CHARLIE_BONNET_WIDTH && y1 < CHARLIE_BONNET_HEIGHT,
        x2 < CHARLIE_BONNET_WIDTH && y2 < CHARLIE_BONNET_HEIGHT,
    ensures
        0 <= charlie_bonnet_led(x1, y1) < 144,
        charlie_bonnet_led(x1, y1) == charlie_bonnet_led(x2, y2) ==> x1 == x2 && y1 == y2,
{
}

/// On the Charlie wing every coordinate in bounds has an LED index, and no
/// two share one.
pub proof fn lemma_charlie_wing(x1: u8, y1: u8, x2: u8, y2: u8)
    requires
        x1 < CHARLIE_WING_WIDTH && y1 < CHARLIE_WING_HEIGHT,
        x2 < CHARLIE_WING_WIDTH && y2 < CHARLIE_WING_HEIGHT,
    ensures
        0 <= charlie_wing_led(x1, y1) < 144,
        charlie_wing_led(x1, y1) == charlie_wing_led(x2, y2) ==> x1 == x2 && y1 == y2,
{
}

/// On the 16x9 matrix every coordinate in bounds has an LED, and no two
/// share one.
pub proof fn lemma_matrix(x1: u8, y1: u8, x2: u8, y2: u8)
    requires
        x1 < MATRIX_WIDTH && y1 < MATRIX_HEIGHT,
        x2 < MATRIX_WIDTH && y2 < MATRIX_HEIGHT,
    ensures
        0 <= matrix_led(x1, y1) < 144,
        matrix_led(x1, y1) == matrix_led(x2, y2) ==> x1 == x2 && y1 == y2,
{
}

/// On the Scroll pHAT HD every coordinate in bounds has an LED, and no two
/// share one.
pub proof fn lemma_scroll_phat_hd(x1: u8, y1: u8, x2: u8, y2: u8)
    requires
        x1 < SCROLL_PHAT_HD_WIDTH && y1 < SCROLL_PHAT_HD_HEIGHT,
        x2 < SCROLL_PHAT_HD_WIDTH && y2 < SCROLL_PHAT_HD_HEIGHT,
    ensures
        0 <= scroll_phat_hd_led(x1, y1) < 144,
        scroll_phat_hd_led(x1, y1) == scroll_phat_hd_led(x2, y2) ==> x1 == x2 && y1 == y2,
{
}

/// On the Keybow 2040 every channel of every key has an LED, and no two
/// share one.
pub proof fn lemma_keybow_2040(x1: u8, y1: u8, x2: u8, y2: u8)
    requires
        x1 < KEYBOW_2040_WIDTH && y1 < KEYBOW_2040_HEIGHT,
        x2 < KEYBOW_2040_WIDTH && y2 < KEYBOW_2040_HEIGHT,
    ensures
        0 <= keybow_2040_led(x1, y1) < 144,
        keybow_2040_led(x1, y1) == keybow_2040_led(x2, y2) ==> x1 == x2 && y1 == y2,
{
}

/// On the Keybow 2040 every place of the keypad has a key, and no two share
/// one.
pub proof fn lemma_keybow_2040_key(x1: u8, y1: u8, x2: u8, y2: u8)
    requires
        x1 < KEYBOW_2040_SIDE && y1 < KEYBOW_2040_SIDE,
        x2 < KEYBOW_2040_SIDE && y2 < KEYBOW_2040_SIDE,
    ensures
        0 <= keybow_2040_key(x1, y1) < KEYBOW_2040_WIDTH,
        keybow_2040_key(x1, y1) == keybow_2040_key(x2, y2) ==> x1 == x2 && y1 == y2,
{
}

/// On the LED SHIM every channel of every pixel has an LED, and no two share
/// one.
pub proof fn lemma_led_shim(x1: u8, y1: u8, x2: u8, y2: u8)
    requires
        x1 < LED_SHIM_WIDTH && y1 < LED_SHIM_HEIGHT,
        x2 < LED_SHIM_WIDTH && y2 < LED_SHIM_HEIGHT,
    ensures
        0 <= led_shim_led(x1, y1) < 144,
        led_shim_led(x1, y1) == led_shim_led(x2, y2) ==> x1 == x2 && y1 == y2,
{
}

/// On the 5x5 RGB matrix every channel of every pixel has an LED, and no two
/// share one.
pub proof fn lemma_rgb_matrix_5x5(x1: u8, y1: u8, x2: u8, y2: u8)
    requires
        x1 < RGB_MATRIX_5X5_WIDTH && y1 < RGB_MATRIX_5X5_HEIGHT,
        x2 < RGB_MATRIX_5X5_WIDTH && y2 < RGB_MATRIX_5X5_HEIGHT,
    ensures
        0 <= rgb_matrix_5x5_led(x1, y1) < 144,
        rgb_matrix_5x5_led(x1, y1) == rgb_matrix_5x5_led(x2, y2) ==> x1 == x2 && y1 == y2,
{
}

/// On the 5x5 RGB matrix every place of the grid has a pixel, and no two
/// share one.
pub proof fn lemma_rgb_matrix_5x5_pixel(x1: u8, y1: u8, x2: u8, y2: u8)
    requires
        x1 < RGB_MATRIX_5X5_SIDE && y1 < RGB_MATRIX_5X5_SIDE,
        x2 < RGB_MATRIX_5X5_SIDE && y2 < RGB_MATRIX_5X5_SIDE,
    ensures
        0 <= rgb_matrix_5x5_pixel(x1, y1) < RGB_MATRIX_5X5_WIDTH,
        rgb_matrix_5x5_pixel(x1, y1) == rgb_matrix_5x5_pixel(x2, y2) ==> x1 == x2 && y1 == y2,
{
}

} // verus!
