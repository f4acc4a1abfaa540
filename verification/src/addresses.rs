//! Register map of the IS31FL3731.
//!
//! Registers live in banks: the configuration bank holds the device-wide
//! registers, and each of the frame banks holds one page of per-LED
//! registers.

use vstd::prelude::*;

verus! {

/// Frames of the chip; a frame number is below this.
pub const FRAMES: u8 = 9;

/// LEDs of a frame; an LED index is below this.
pub const LEDS: u8 = 144;

/// Configuration register: display mode.
pub const MODE_REGISTER: u8 = 0x00;

/// Configuration register: the frame shown in picture mode.
pub const FRAME: u8 = 0x01;

/// Configuration register: first auto-play control.
pub const AUTOPLAY1: u8 = 0x02;

/// Configuration register: second auto-play control.
pub const AUTOPLAY2: u8 = 0x03;

/// Configuration register: blink control.
pub const BLINK: u8 = 0x05;

/// Configuration register: audio synchronisation.
pub const AUDIOSYNC: u8 = 0x06;

/// Configuration register: first breath control.
pub const BREATH1: u8 = 0x08;

/// Configuration register: second breath control.
pub const BREATH2: u8 = 0x09;

/// Configuration register: software shutdown.
pub const SHUTDOWN: u8 = 0x0A;

/// Configuration register: audio gain control.
pub const GAIN: u8 = 0x0B;

/// Configuration register: audio ADC rate.
pub const ADC: u8 = 0x0C;

/// Bank number of the configuration bank.
pub const CONFIG_BANK: u8 = 0x0B;

/// The register that selects the bank of the writes that follow.
pub const BANK_ADDRESS: u8 = 0xFD;

/// Mode value: show one frame.
pub const PICTURE_MODE: u8 = 0x00;

/// Mode value: play the frames in turn.
pub const AUTOPLAY_MODE: u8 = 0x08;

/// Mode value: play the frames in step with the audio input.
pub const AUDIOPLAY_MODE: u8 = 0x18;

/// Frame register: first of the 18 display-enable registers.
pub const ENABLE_OFFSET: u8 = 0x00;

/// Frame register: first of the 18 blink-enable registers.
pub const BLINK_OFFSET: u8 = 0x12;

/// Frame register: first of the 144 brightness registers.
pub const COLOR_OFFSET: u8 = 0x24;

} // verus!
