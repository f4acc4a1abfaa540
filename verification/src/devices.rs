//! The boards built around the chip.
//!
//! Each board brings the address its chip answers at and the map from its
//! own coordinates to LED indices. The boards with colour LEDs also set a
//! pixel's three LEDs in one operation.

use crate::device::IS31FL3731;
use crate::error::{bus_result, from_bus, lift, Error};
use crate::layout::{
    charlie_bonnet_led, charlie_wing_led, keybow_2040_key, keybow_2040_led, keybow_2040_leds,
    keybow_2040_refusal, led_shim_led, led_shim_leds, led_shim_refusal, located, matrix_led,
    rgb_matrix_5x5_led, rgb_matrix_5x5_leds, rgb_matrix_5x5_pixel, rgb_matrix_5x5_refusal,
    scroll_phat_hd_led, CHARLIE_BONNET_HEIGHT,
    CHARLIE_BONNET_WIDTH, CHARLIE_WING_HEIGHT, CHARLIE_WING_WIDTH, KEYBOW_2040_HEIGHT,
    KEYBOW_2040_LOOKUP, KEYBOW_2040_SIDE, KEYBOW_2040_WIDTH, LED_SHIM_HEIGHT, LED_SHIM_WIDTH,
    MATRIX_HEIGHT, MATRIX_WIDTH, RGB_MATRIX_5X5_HEIGHT, RGB_MATRIX_5X5_LOOKUP,
    RGB_MATRIX_5X5_SIDE, RGB_MATRIX_5X5_WIDTH, SCROLL_PHAT_HD_HEIGHT, SCROLL_PHAT_HD_WIDTH,
};
use crate::script::{lemma_rgb_script, rgb_script};
use crate::sequence::Sequence;
use crate::trace::Exchange;
use crate::transport::{ErrorType, Transport};
use vstd::prelude::*;

verus! {

/// The address most boards answer at.
pub const DEFAULT_ADDRESS: u8 = 0x74;

/// The address the LED SHIM and the 5x5 RGB matrix answer at.
pub const ALTERNATE_ADDRESS: u8 = 0x75;

/// Adafruit's 16x8 CharliePlex bonnet.
pub struct CharlieBonnet<I2C: ErrorType> {
    /// The handle on the board's chip.
    pub device: IS31FL3731<I2C>,
}

/// Adafruit's CharliePlex FeatherWing, of 15x7 LEDs.
pub struct CharlieWing<I2C: ErrorType> {
    /// The handle on the board's chip.
    pub device: IS31FL3731<I2C>,
}

/// Pimoroni's Keybow 2040: 16 keys with a colour LED each.
pub struct Keybow2040<I2C: ErrorType> {
    /// The handle on the board's chip.
    pub device: IS31FL3731<I2C>,
}

/// Pimoroni's LED SHIM: a strip of 28 colour LEDs.
pub struct LEDShim<I2C: ErrorType> {
    /// The handle on the board's chip.
    pub device: IS31FL3731<I2C>,
}

/// Adafruit's 16x9 matrix.
pub struct Matrix<I2C: ErrorType> {
    /// The handle on the board's chip.
    pub device: IS31FL3731<I2C>,
}

/// Pimoroni's 5x5 RGB matrix.
pub struct RGBMatrix5x5<I2C: ErrorType> {
    /// The handle on the board's chip.
    pub device: IS31FL3731<I2C>,
}

/// Pimoroni's Scroll pHAT HD: 17x7 LEDs.
pub struct ScrollPhatHD<I2C: ErrorType> {
    /// The handle on the board's chip.
    pub device: IS31FL3731<I2C>,
}

/// True when `device` is a fresh handle on the chip at `address` on `i2c`.
pub open spec fn fresh<I2C: ErrorType>(device: IS31FL3731<I2C>, i2c: I2C, address: u8) -> bool {
    &&& device.bus() == i2c
    &&& device.bus_address() == address
    &&& device.selected_frame() == 0
    &&& device.trace() == Seq::<Exchange<I2C::Error>>::empty()
}

impl<I2C: ErrorType> CharlieBonnet<I2C> {
    /// A handle on the bonnet's chip.
    pub fn configure(i2c: I2C) -> (device: IS31FL3731<I2C>)
        ensures
            fresh(device, i2c, DEFAULT_ADDRESS),
    {
        IS31FL3731::new(i2c, DEFAULT_ADDRESS)
    }

    /// The LED at column `x`, row `y`.
    pub fn calc_pixel(x: u8, y: u8) -> (led: Result<u8, Error<I2C::Error>>)
        ensures
            led == located::<I2C::Error>(
                x,
                y,
                CHARLIE_BONNET_WIDTH,
                CHARLIE_BONNET_HEIGHT,
                charlie_bonnet_led(x, y),
            ),
            led is Ok ==> led->Ok_0 < 144,
    {
        if x >= CHARLIE_BONNET_WIDTH {
            return Err(Error::InvalidLocation(x));
        }
        if y >= CHARLIE_BONNET_HEIGHT {
            return Err(Error::InvalidLocation(y));
        }
        Ok(
            if x >= 8 {
                (x - 6) * 16 - (y + 1)
            } else {
                (x + 1) * 16 + (7 - y)
            },
        )
    }
}

impl<I2C: ErrorType> CharlieWing<I2C> {
    /// A handle on the wing's chip.
    pub fn configure(i2c: I2C) -> (device: IS31FL3731<I2C>)
        ensures
            fresh(device, i2c, DEFAULT_ADDRESS),
    {
        IS31FL3731::new(i2c, DEFAULT_ADDRESS)
    }

    /// The LED at column `x`, row `y`.
    pub fn calc_pixel(x: u8, y: u8) -> (led: Result<u8, Error<I2C::Error>>)
        ensures
            led == located::<I2C::Error>(
                x,
                y,
                CHARLIE_WING_WIDTH,
                CHARLIE_WING_HEIGHT,
                charlie_wing_led(x, y),
            ),
            led is Ok ==> led->Ok_0 < 144,
    {
        if x >= CHARLIE_WING_WIDTH {
            return Err(Error::InvalidLocation(x));
        }
        if y >= CHARLIE_WING_HEIGHT {
            return Err(Error::InvalidLocation(y));
        }
        let mut x = x;
        let mut y = y;
        if x > 7 {
            x = 15 - x;
            y += 8;
        } else {
            y = 7 - y
        }
        Ok(x * 16 + y)
    }
}

impl<I2C: ErrorType> Matrix<I2C> {
    /// The matrix on `i2c`.
    pub fn configure(i2c: I2C) -> (board: Self)
        ensures
            fresh(board.device, i2c, DEFAULT_ADDRESS),
    {
        Self { device: IS31FL3731::new(i2c, DEFAULT_ADDRESS) }
    }

    /// The LED at column `x`, row `y`.
    pub fn calc_pixel(x: u8, y: u8) -> (led: Result<u8, Error<I2C::Error>>)
        ensures
            led == located::<I2C::Error>(x, y, MATRIX_WIDTH, MATRIX_HEIGHT, matrix_led(x, y)),
            led is Ok ==> led->Ok_0 < 144,
    {
        if x >= MATRIX_WIDTH {
            return Err(Error::InvalidLocation(x));
        }
        if y >= MATRIX_HEIGHT {
            return Err(Error::InvalidLocation(y));
        }
        Ok(x + y * 16)
    }
}

impl<I2C: ErrorType> ScrollPhatHD<I2C> {
    /// The Scroll pHAT HD on `i2c`.
    pub fn configure(i2c: I2C) -> (board: Self)
        ensures
            fresh(board.device, i2c, DEFAULT_ADDRESS),
    {
        Self { device: IS31FL3731::new(i2c, DEFAULT_ADDRESS) }
    }

    /// The LED at column `x`, row `y`.
    pub fn calc_pixel(x: u8, y: u8) -> (led: Result<u8, Error<I2C::Error>>)
        ensures
            led == located::<I2C::Error>(
                x,
                y,
                SCROLL_PHAT_HD_WIDTH,
                SCROLL_PHAT_HD_HEIGHT,
                scroll_phat_hd_led(x, y),
            ),
            led is Ok ==> led->Ok_0 < 144,
    {
        if x >= SCROLL_PHAT_HD_WIDTH {
            return Err(Error::InvalidLocation(x));
        }
        if y >= SCROLL_PHAT_HD_HEIGHT {
            return Err(Error::InvalidLocation(y));
        }
        if x <= 8 {
            Ok((8 - x) * 16 + (6 - y))
        } else {
            Ok((x - 8) * 16 - (8 - y))
        }
    }
}

impl<I2C: ErrorType> Keybow2040<I2C> {
    /// The Keybow 2040 on `i2c`.
    pub fn configure(i2c: I2C) -> (board: Self)
        ensures
            fresh(board.device, i2c, DEFAULT_ADDRESS),
    {
        Self { device: IS31FL3731::new(i2c, DEFAULT_ADDRESS) }
    }

    /// The LED of colour channel `y` of key `x`.
    pub fn calc_pixel<E>(x: u8, y: u8) -> (led: Result<u8, Error<E>>)
        ensures
            led == located::<E>(x, y, KEYBOW_2040_WIDTH, KEYBOW_2040_HEIGHT, keybow_2040_led(x, y)),
            led is Ok ==> led->Ok_0 < 144,
    {
        if x >= KEYBOW_2040_WIDTH {
            return Err(Error::InvalidLocation(x));
        }
        if y >= KEYBOW_2040_HEIGHT {
            return Err(Error::InvalidLocation(y));
        }
        Ok(KEYBOW_2040_LOOKUP[x as usize][y as usize])
    }

    /// Begins setting the colour of the key at column `x`, row `y`: its red,
    /// green and blue LED in the selected frame. A place off the keypad is
    /// refused.
    pub fn pixel_rgb(&self, x: u8, y: u8, r: u8, g: u8, b: u8) -> (seq: Result<
        Sequence,
        Error<I2C::Error>,
    >)
        ensures
            match seq {
                Ok(seq) => {
                    &&& keybow_2040_refusal::<I2C::Error>(x, y) is None
                    &&& seq.script() == rgb_script(
                        self.device.selected_frame(),
                        keybow_2040_leds(keybow_2040_key(x, y)),
                        (r, g, b),
                    )
                    &&& seq.position() == 0
                    &&& seq.selects() is None
                },
                Err(refused) => keybow_2040_refusal::<I2C::Error>(x, y) == Some(refused),
            },
    {
        if x >= KEYBOW_2040_SIDE {
            return Err(Error::InvalidLocation(x));
        }
        if y >= KEYBOW_2040_SIDE {
            return Err(Error::InvalidLocation(y));
        }
        let at: u8 = (4 * (3 - x)) + y;
        let red = match Self::calc_pixel::<I2C::Error>(at, 0) {
            Ok(led) => led,
            Err(refused) => {
                return Err(refused);
            },
        };
        let green = match Self::calc_pixel::<I2C::Error>(at, 1) {
            Ok(led) => led,
            Err(refused) => {
                return Err(refused);
            },
        };
        let blue = match Self::calc_pixel::<I2C::Error>(at, 2) {
            Ok(led) => led,
            Err(refused) => {
                return Err(refused);
            },
        };
        Ok(self.device.pixel_rgb((red, green, blue), (r, g, b)))
    }
}

impl<I2C: Transport> Keybow2040<I2C> {
    /// Sets the colour of the key at column `x`, row `y`: its red, green and
    /// blue LED in the selected frame, in that order and each only after the
    /// one before it was taken. A place off the keypad is refused before
    /// anything is sent.
    pub fn pixel_rgb_blocking(&mut self, x: u8, y: u8, r: u8, g: u8, b: u8) -> (done: Result<
        (),
        Error<I2C::Error>,
    >)
        ensures
            final(self).device.selected_frame() == old(self).device.selected_frame(),
            match keybow_2040_refusal::<I2C::Error>(x, y) {
                Some(refused) => {
                    &&& done == Err::<(), Error<I2C::Error>>(refused)
                    &&& final(self).device.untouched(&old(self).device)
                },
                None => {
                    &&& from_bus(done)
                    &&& final(self).device.issued(
                        &old(self).device,
                        rgb_script(
                            old(self).device.selected_frame(),
                            keybow_2040_leds(keybow_2040_key(x, y)),
                            (r, g, b),
                        ),
                        bus_result(done),
                    )
                },
            },
    {
        match self.pixel_rgb(x, y, r, g, b) {
            Ok(seq) => {
                proof {
                    lemma_rgb_script(
                        self.device.selected_frame(),
                        keybow_2040_leds(keybow_2040_key(x, y)),
                        (r, g, b),
                    );
                }
                lift(self.device.run(seq))
            },
            Err(refused) => Err(refused),
        }
    }
}

impl<I2C: ErrorType> LEDShim<I2C> {
    /// The LED SHIM on `i2c`.
    pub fn configure(i2c: I2C) -> (board: Self)
        ensures
            fresh(board.device, i2c, ALTERNATE_ADDRESS),
    {
        Self { device: IS31FL3731::new(i2c, ALTERNATE_ADDRESS) }
    }

    /// The LED of colour channel `y` of pixel `x`.
    pub fn calc_pixel<E>(x: u8, y: u8) -> (led: Result<u8, Error<E>>)
        ensures
            led == located::<E>(x, y, LED_SHIM_WIDTH, LED_SHIM_HEIGHT, led_shim_led(x, y)),
            led is Ok ==> led->Ok_0 < 144,
    {
        if x >= LED_SHIM_WIDTH {
            return Err(Error::InvalidLocation(x));
        }
        if y >= LED_SHIM_HEIGHT {
            return Err(Error::InvalidLocation(y));
        }
        if y == 0 {
            if x < 7 {
                return Ok(118 - x);
            }
            if x < 15 {
                return Ok(141 - x);
            }
            if x < 21 {
                return Ok(106 + x);
            }
            if x == 21 {
                return Ok(14);
            }
            return Ok(x - 14);
        }
        if y == 1 {
            if x < 2 {
                return Ok(69 - x);
            }
            if x < 7 {
                return Ok(86 - x);
            }
            if x < 12 {
                return Ok(28 - x);
            }
            if x < 14 {
                return Ok(45 - x);
            }
            if x == 14 {
                return Ok(47);
            }
            if x == 15 {
                return Ok(41);
            }
            if x < 21 {
                return Ok(x + 9);
            }
            if x == 21 {
                return Ok(95);
            }
            if x < 26 {
                return Ok(x + 67);
            }
            return Ok(x + 50);
        }
        if x == 0 {
            return Ok(85);
        }
        if x < 7 {
            return Ok(102 - x);
        }
        if x < 11 {
            return Ok(44 - x);
        }
        if x == 14 {
            return Ok(63);
        }
        if x < 17 {
            return Ok(42 + x);
        }
        if x < 21 {
            return Ok(x + 25);
        }
        if x == 21 {
            return Ok(111);
        }
        if x < 27 {
            return Ok(x + 83);
        }
        Ok(93)
    }

    /// Begins setting the colour of pixel `x`: its red, green and blue LED in
    /// the selected frame. A pixel off the strip is refused.
    pub fn pixel_rgb(&self, x: u8, r: u8, g: u8, b: u8) -> (seq: Result<
        Sequence,
        Error<I2C::Error>,
    >)
        ensures
            match seq {
                Ok(seq) => {
                    &&& led_shim_refusal::<I2C::Error>(x) is None
                    &&& seq.script() == rgb_script(
                        self.device.selected_frame(),
                        led_shim_leds(x as int),
                        (r, g, b),
                    )
                    &&& seq.position() == 0
                    &&& seq.selects() is None
                },
                Err(refused) => led_shim_refusal::<I2C::Error>(x) == Some(refused),
            },
    {
        if x >= LED_SHIM_WIDTH {
            return Err(Error::InvalidLocation(x));
        }
        let at: u8 = x;
        let red = match Self::calc_pixel::<I2C::Error>(at, 0) {
            Ok(led) => led,
            Err(refused) => {
                return Err(refused);
            },
        };
        let green = match Self::calc_pixel::<I2C::Error>(at, 1) {
            Ok(led) => led,
            Err(refused) => {
                return Err(refused);
            },
        };
        let blue = match Self::calc_pixel::<I2C::Error>(at, 2) {
            Ok(led) => led,
            Err(refused) => {
                return Err(refused);
            },
        };
        Ok(self.device.pixel_rgb((red, green, blue), (r, g, b)))
    }
}

impl<I2C: Transport> LEDShim<I2C> {
    /// Sets the colour of pixel `x`: its red, green and blue LED in the
    /// selected frame, in that order and each only after the one before it
    /// was taken. A pixel off the strip is refused before anything is sent.
    pub fn pixel_rgb_blocking(&mut self, x: u8, r: u8, g: u8, b: u8) -> (done: Result<
        (),
        Error<I2C::Error>,
    >)
        ensures
            final(self).device.selected_frame() == old(self).device.selected_frame(),
            match led_shim_refusal::<I2C::Error>(x) {
                Some(refused) => {
                    &&& done == Err::<(), Error<I2C::Error>>(refused)
                    &&& final(self).device.untouched(&old(self).device)
                },
                None => {
                    &&& from_bus(done)
                    &&& final(self).device.issued(
                        &old(self).device,
                        rgb_script(
                            old(self).device.selected_frame(),
                            led_shim_leds(x as int),
                            (r, g, b),
                        ),
                        bus_result(done),
                    )
                },
            },
    {
        match self.pixel_rgb(x, r, g, b) {
            Ok(seq) => {
                proof {
                    lemma_rgb_script(
                        self.device.selected_frame(),
                        led_shim_leds(x as int),
                        (r, g, b),
                    );
                }
                lift(self.device.run(seq))
            },
            Err(refused) => Err(refused),
        }
    }
}

impl<I2C: ErrorType> RGBMatrix5x5<I2C> {
    /// The 5x5 RGB matrix on `i2c`.
    pub fn configure(i2c: I2C) -> (board: Self)
        ensures
            fresh(board.device, i2c, ALTERNATE_ADDRESS),
    {
        Self { device: IS31FL3731::new(i2c, ALTERNATE_ADDRESS) }
    }

    /// The LED of colour channel `y` of pixel `x`.
    pub fn calc_pixel<E>(x: u8, y: u8) -> (led: Result<u8, Error<E>>)
        ensures
            led == located::<E>(
                x,
                y,
                RGB_MATRIX_5X5_WIDTH,
                RGB_MATRIX_5X5_HEIGHT,
                rgb_matrix_5x5_led(x, y),
            ),
            led is Ok ==> led->Ok_0 < 144,
    {
        if x >= RGB_MATRIX_5X5_WIDTH {
            return Err(Error::InvalidLocation(x));
        }
        if y >= RGB_MATRIX_5X5_HEIGHT {
            return Err(Error::InvalidLocation(y));
        }
        Ok(RGB_MATRIX_5X5_LOOKUP[x as usize][y as usize])
    }

    /// Begins setting the colour of the pixel at column `x`, row `y`: its red,
    /// green and blue LED in the selected frame. A place off the grid is
    /// refused.
    pub fn pixel_rgb(&self, x: u8, y: u8, r: u8, g: u8, b: u8) -> (seq: Result<
        Sequence,
        Error<I2C::Error>,
    >)
        ensures
            match seq {
                Ok(seq) => {
                    &&& rgb_matrix_5x5_refusal::<I2C::Error>(x, y) is None
                    &&& seq.script() == rgb_script(
                        self.device.selected_frame(),
                        rgb_matrix_5x5_leds(rgb_matrix_5x5_pixel(x, y)),
                        (r, g, b),
                    )
                    &&& seq.position() == 0
                    &&& seq.selects() is None
                },
                Err(refused) => rgb_matrix_5x5_refusal::<I2C::Error>(x, y) == Some(refused),
            },
    {
        if x >= RGB_MATRIX_5X5_SIDE {
            return Err(Error::InvalidLocation(x));
        }
        if y >= RGB_MATRIX_5X5_SIDE {
            return Err(Error::InvalidLocation(y));
        }
        let at: u8 = x + y * 5;
        let red = match Self::calc_pixel::<I2C::Error>(at, 0) {
            Ok(led) => led,
            Err(refused) => {
                return Err(refused);
            },
        };
        let green = match Self::calc_pixel::<I2C::Error>(at, 1) {
            Ok(led) => led,
            Err(refused) => {
                return Err(refused);
            },
        };
        let blue = match Self::calc_pixel::<I2C::Error>(at, 2) {
            Ok(led) => led,
            Err(refused) => {
                return Err(refused);
            },
        };
        Ok(self.device.pixel_rgb((red, green, blue), (r, g, b)))
    }
}

impl<I2C: Transport> RGBMatrix5x5<I2C> {
    /// Sets the colour of the pixel at column `x`, row `y`: its red, green
    /// and blue LED in the selected frame, in that order and each only after
    /// the one before it was taken. A place off the grid is refused before
    /// anything is sent.
    pub fn pixel_rgb_blocking(&mut self, x: u8, y: u8, r: u8, g: u8, b: u8) -> (done: Result<
        (),
        Error<I2C::Error>,
    >)
        ensures
            final(self).device.selected_frame() == old(self).device.selected_frame(),
            match rgb_matrix_5x5_refusal::<I2C::Error>(x, y) {
                Some(refused) => {
                    &&& done == Err::<(), Error<I2C::Error>>(refused)
                    &&& final(self).device.untouched(&old(self).device)
                },
                None => {
                    &&& from_bus(done)
                    &&& final(self).device.issued(
                        &old(self).device,
                        rgb_script(
                            old(self).device.selected_frame(),
                            rgb_matrix_5x5_leds(rgb_matrix_5x5_pixel(x, y)),
                            (r, g, b),
                        ),
                        bus_result(done),
                    )
                },
            },
    {
        match self.pixel_rgb(x, y, r, g, b) {
            Ok(seq) => {
                proof {
                    lemma_rgb_script(
                        self.device.selected_frame(),
                        rgb_matrix_5x5_leds(rgb_matrix_5x5_pixel(x, y)),
                        (r, g, b),
                    );
                }
                lift(self.device.run(seq))
            },
            Err(refused) => Err(refused),
        }
    }
}

} // verus!
