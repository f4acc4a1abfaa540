use is31fl3731::devices::{
    CharlieBonnet, CharlieWing, Keybow2040, LEDShim, Matrix, RGBMatrix5x5, ScrollPhatHD,
};
use is31fl3731::{Error, ErrorType, Progress, Sequence, Step, Transport, IS31FL3731};

/// A bus that records what it is handed and fails where it is told to.
struct Bus {
    log: Vec<(u8, Vec<u8>)>,
    fail_at: Option<usize>,
}

impl ErrorType for Bus {
    type Error = u8;
}

impl Transport for Bus {
    fn write(&mut self, address: u8, bytes: &[u8]) -> Result<(), u8> {
        self.log.push((address, bytes.to_vec()));
        if self.fail_at == Some(self.log.len()) {
            Err(0xEE)
        } else {
            Ok(())
        }
    }
}

fn bus(fail_at: Option<usize>) -> Bus {
    Bus { log: Vec::new(), fail_at }
}

fn pixel(address: u8, frame: u8, led: u8, value: u8) -> Vec<(u8, Vec<u8>)> {
    vec![(address, vec![0xFD, frame]), (address, vec![0x24 + led, value])]
}

fn colour(address: u8, leds: [u8; 3], values: [u8; 3]) -> Vec<(u8, Vec<u8>)> {
    let mut log = Vec::new();
    for channel in 0..3 {
        log.extend(pixel(address, 0, leds[channel], values[channel]));
    }
    log
}

/// A bus that nothing is written to: the steps are only looked at.
struct Wire;

impl ErrorType for Wire {
    type Error = ();
}

/// All the steps of a sequence, in order.
fn steps_of<I2C: ErrorType>(device: &mut IS31FL3731<I2C>, seq: Sequence) -> Vec<Step> {
    let mut steps = Vec::new();
    let mut seq = seq;
    loop {
        steps.push(seq.current().clone());
        match device.advance(seq, Ok(())) {
            Progress::Next(rest) => seq = rest,
            Progress::Done(_) => return steps,
        }
    }
}

fn as_steps(log: Vec<(u8, Vec<u8>)>) -> Vec<Step> {
    log.into_iter().map(|(_, bytes)| Step::Write(bytes)).collect()
}

#[test]
fn boards_answer_at_their_addresses() {
    assert_eq!(CharlieBonnet::configure(bus(None)).address, 0x74);
    assert_eq!(CharlieWing::configure(bus(None)).address, 0x74);
    assert_eq!(Keybow2040::configure(bus(None)).device.address, 0x74);
    assert_eq!(LEDShim::configure(bus(None)).device.address, 0x75);
    assert_eq!(Matrix::configure(bus(None)).device.address, 0x74);
    assert_eq!(RGBMatrix5x5::configure(bus(None)).device.address, 0x75);
    assert_eq!(ScrollPhatHD::configure(bus(None)).device.address, 0x74);
}

#[test]
fn a_configured_board_starts_on_frame_zero() {
    let mut dev = CharlieBonnet::configure(bus(None));
    assert!(dev.pixel_blocking(1, 2).is_ok());
    assert_eq!(dev.i2c.log, pixel(0x74, 0, 1, 2));
    let mut board = LEDShim::configure(bus(None));
    assert!(board.device.pixel_blocking(1, 2).is_ok());
    assert_eq!(board.device.i2c.log, pixel(0x75, 0, 1, 2));
}

#[test]
fn keybow_2040_sets_the_three_leds_of_a_key() {
    let mut board = Keybow2040::configure(bus(None));
    assert!(board.pixel_rgb_blocking(3, 0, 10, 20, 30).is_ok());
    assert_eq!(board.device.i2c.log, colour(0x74, [120, 88, 104], [10, 20, 30]));
    let mut board = Keybow2040::configure(bus(None));
    assert!(board.pixel_rgb_blocking(0, 3, 1, 2, 3).is_ok());
    assert_eq!(board.device.i2c.log, colour(0x74, [131, 18, 67], [1, 2, 3]));
    let mut board = Keybow2040::configure(bus(None));
    assert!(board.pixel_rgb_blocking(1, 1, 1, 2, 3).is_ok());
    assert_eq!(board.device.i2c.log, colour(0x74, [138, 25, 74], [1, 2, 3]));
}

#[test]
fn keybow_2040_reaches_every_key_once() {
    let mut seen = Vec::new();
    for x in 0..4u8 {
        for y in 0..4u8 {
            let mut board = Keybow2040::configure(bus(None));
            assert!(board.pixel_rgb_blocking(x, y, 1, 2, 3).is_ok());
            let red = board.device.i2c.log[1].1[0];
            assert!(!seen.contains(&red));
            seen.push(red);
        }
    }
    assert_eq!(seen.len(), 16);
}

#[test]
fn keybow_2040_refuses_places_off_the_keypad() {
    let mut board = Keybow2040::configure(bus(None));
    assert!(matches!(board.pixel_rgb_blocking(4, 0, 1, 2, 3), Err(Error::InvalidLocation(4))));
    assert!(matches!(board.pixel_rgb_blocking(0, 4, 1, 2, 3), Err(Error::InvalidLocation(4))));
    assert!(matches!(board.pixel_rgb_blocking(9, 200, 1, 2, 3), Err(Error::InvalidLocation(9))));
    assert!(matches!(board.pixel_rgb_blocking(2, 255, 1, 2, 3), Err(Error::InvalidLocation(255))));
    assert!(board.device.i2c.log.is_empty());
}

#[test]
fn led_shim_sets_the_three_leds_of_a_pixel() {
    let mut board = LEDShim::configure(bus(None));
    assert!(board.pixel_rgb_blocking(0, 9, 8, 7).is_ok());
    assert_eq!(board.device.i2c.log, colour(0x75, [118, 69, 85], [9, 8, 7]));
    let mut board = LEDShim::configure(bus(None));
    assert!(board.pixel_rgb_blocking(27, 9, 8, 7).is_ok());
    assert_eq!(board.device.i2c.log, colour(0x75, [13, 77, 93], [9, 8, 7]));
}

#[test]
fn led_shim_refuses_pixels_off_the_strip() {
    let mut board = LEDShim::configure(bus(None));
    assert!(matches!(board.pixel_rgb_blocking(28, 1, 2, 3), Err(Error::InvalidLocation(28))));
    assert!(matches!(board.pixel_rgb_blocking(255, 1, 2, 3), Err(Error::InvalidLocation(255))));
    assert!(board.device.i2c.log.is_empty());
}

#[test]
fn rgb_matrix_5x5_sets_the_three_leds_of_a_pixel() {
    let mut board = RGBMatrix5x5::configure(bus(None));
    assert!(board.pixel_rgb_blocking(0, 0, 4, 5, 6).is_ok());
    assert_eq!(board.device.i2c.log, colour(0x75, [118, 69, 85], [4, 5, 6]));
    let mut board = RGBMatrix5x5::configure(bus(None));
    assert!(board.pixel_rgb_blocking(1, 2, 4, 5, 6).is_ok());
    assert_eq!(board.device.i2c.log, colour(0x75, [130, 17, 50], [4, 5, 6]));
    let mut board = RGBMatrix5x5::configure(bus(None));
    assert!(board.pixel_rgb_blocking(4, 4, 4, 5, 6).is_ok());
    assert_eq!(board.device.i2c.log, colour(0x75, [10, 91, 107], [4, 5, 6]));
}

#[test]
fn rgb_matrix_5x5_refuses_places_off_the_grid() {
    let mut board = RGBMatrix5x5::configure(bus(None));
    assert!(matches!(board.pixel_rgb_blocking(5, 0, 1, 2, 3), Err(Error::InvalidLocation(5))));
    assert!(matches!(board.pixel_rgb_blocking(0, 5, 1, 2, 3), Err(Error::InvalidLocation(5))));
    assert!(matches!(board.pixel_rgb_blocking(7, 0, 1, 2, 3), Err(Error::InvalidLocation(7))));
    assert!(matches!(board.pixel_rgb_blocking(3, 60, 1, 2, 3), Err(Error::InvalidLocation(60))));
    assert!(board.device.i2c.log.is_empty());
}

#[test]
fn a_colour_stops_at_the_channel_that_failed() {
    for fail_at in 1..=6usize {
        let mut board = RGBMatrix5x5::configure(bus(Some(fail_at)));
        let result = board.pixel_rgb_blocking(2, 0, 4, 5, 6);
        assert!(matches!(result, Err(Error::I2cError(0xEE))));
        let whole = colour(0x75, [116, 84, 100], [4, 5, 6]);
        assert_eq!(board.device.i2c.log, whole[..fail_at].to_vec());
    }
}

#[test]
fn a_colour_goes_to_the_selected_frame() {
    let mut board = Keybow2040::configure(bus(None));
    assert!(board.device.frame_blocking(6).is_ok());
    board.device.i2c.log.clear();
    assert!(board.pixel_rgb_blocking(3, 0, 10, 20, 30).is_ok());
    let mut expected = Vec::new();
    expected.extend(pixel(0x74, 6, 120, 10));
    expected.extend(pixel(0x74, 6, 88, 20));
    expected.extend(pixel(0x74, 6, 104, 30));
    assert_eq!(board.device.i2c.log, expected);
}

#[test]
fn the_stepped_colour_is_the_blocking_one() {
    let mut keys = Keybow2040::configure(Wire);
    let seq = match keys.pixel_rgb(2, 1, 7, 8, 9) {
        Ok(seq) => seq,
        Err(_) => panic!("the key is refused"),
    };
    let mut blocking = Keybow2040::configure(bus(None));
    assert!(blocking.pixel_rgb_blocking(2, 1, 7, 8, 9).is_ok());
    assert_eq!(steps_of(&mut keys.device, seq), as_steps(blocking.device.i2c.log));

    let mut shim = LEDShim::configure(Wire);
    let seq = match shim.pixel_rgb(21, 7, 8, 9) {
        Ok(seq) => seq,
        Err(_) => panic!("the pixel is refused"),
    };
    assert_eq!(steps_of(&mut shim.device, seq), as_steps(colour(0, [14, 95, 111], [7, 8, 9])));

    let mut grid = RGBMatrix5x5::configure(Wire);
    let seq = match grid.pixel_rgb(3, 3, 7, 8, 9) {
        Ok(seq) => seq,
        Err(_) => panic!("the pixel is refused"),
    };
    assert_eq!(steps_of(&mut grid.device, seq), as_steps(colour(0, [122, 25, 58], [7, 8, 9])));
}

#[test]
fn the_stepped_colour_refuses_as_the_blocking_one() {
    let keys = Keybow2040::configure(Wire);
    assert!(matches!(keys.pixel_rgb(4, 0, 1, 2, 3), Err(Error::InvalidLocation(4))));
    assert!(matches!(keys.pixel_rgb(0, 4, 1, 2, 3), Err(Error::InvalidLocation(4))));
    let shim = LEDShim::configure(Wire);
    assert!(matches!(shim.pixel_rgb(28, 1, 2, 3), Err(Error::InvalidLocation(28))));
    let grid = RGBMatrix5x5::configure(Wire);
    assert!(matches!(grid.pixel_rgb(5, 0, 1, 2, 3), Err(Error::InvalidLocation(5))));
    assert!(matches!(grid.pixel_rgb(0, 5, 1, 2, 3), Err(Error::InvalidLocation(5))));
}

#[test]
fn matrix_pixels_go_through_the_translation() {
    let mut board = Matrix::configure(bus(None));
    let led = match Matrix::<Bus>::calc_pixel(15, 8) {
        Ok(led) => led,
        Err(_) => panic!("the corner is refused"),
    };
    assert!(board.device.pixel_blocking(led, 50).is_ok());
    assert_eq!(board.device.i2c.log, pixel(0x74, 0, 143, 50));
    let mut board = ScrollPhatHD::configure(bus(None));
    let led = match ScrollPhatHD::<Bus>::calc_pixel(0, 0) {
        Ok(led) => led,
        Err(_) => panic!("the corner is refused"),
    };
    assert!(board.device.pixel_blocking(led, 50).is_ok());
    assert_eq!(board.device.i2c.log, pixel(0x74, 0, 134, 50));
}
