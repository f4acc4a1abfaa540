use is31fl3731::error::lift;
use is31fl3731::{Error, ErrorType, Progress, Sequence, Step, IS31FL3731};

/// A bus that nothing is written to here: the steps are carried out by hand.
struct Wire;

impl ErrorType for Wire {
    type Error = &'static str;
}

/// Carries a sequence out with `perform` and gives back what it ended with.
fn drive(
    device: &mut IS31FL3731<Wire>,
    seq: Sequence,
    mut perform: impl FnMut(&Step) -> Result<(), &'static str>,
) -> Result<(), &'static str> {
    let mut seq = seq;
    loop {
        let outcome = perform(seq.current());
        match device.advance(seq, outcome) {
            Progress::Next(rest) => seq = rest,
            Progress::Done(result) => return result,
        }
    }
}

/// All the steps of a sequence, in order.
fn steps_of(device: &mut IS31FL3731<Wire>, seq: Sequence) -> Vec<Step> {
    let mut steps = Vec::new();
    let result = drive(device, seq, |step| {
        steps.push(step.clone());
        Ok(())
    });
    assert!(result.is_ok());
    steps
}

fn write(bytes: &[u8]) -> Step {
    Step::Write(bytes.to_vec())
}

fn register(bank: u8, register: u8, value: u8) -> Vec<Step> {
    vec![write(&[0xFD, bank]), write(&[register, value])]
}

fn fill_steps(brightness: u8, blink: Option<bool>, frame: u8) -> Vec<Step> {
    let mut steps = vec![write(&[0xFD, frame])];
    for row in 0..6u8 {
        let mut payload = vec![brightness; 25];
        payload[0] = 0x24 + row * 24;
        steps.push(Step::Write(payload));
    }
    if let Some(on) = blink {
        for col in 0..18u8 {
            steps.extend(register(frame, 0x12 + col, if on { 0xFF } else { 0x00 }));
        }
    }
    steps
}

fn setup_steps() -> Vec<Step> {
    let mut steps = register(0x0B, 0x0A, 0);
    steps.push(Step::Delay(10));
    steps.extend(register(0x0B, 0x00, 0x00));
    steps.extend(register(0x0B, 0x01, 0));
    for frame in 0..8u8 {
        steps.extend(fill_steps(0, Some(false), frame));
        for col in 0..18u8 {
            steps.extend(register(frame, col, 0xFF));
        }
    }
    steps.extend(register(0x0B, 0x06, 0));
    steps.extend(register(0x0B, 0x0A, 1));
    steps
}

fn device() -> IS31FL3731<Wire> {
    IS31FL3731::new(Wire, 0x74)
}

#[test]
fn bank_is_one_write() {
    let mut dev = device();
    let seq = dev.bank(3);
    assert_eq!(steps_of(&mut dev, seq), vec![write(&[0xFD, 3])]);
}

#[test]
fn write_register_selects_the_bank_first() {
    let mut dev = device();
    let seq = dev.write_register(0x0B, 0x06, 1);
    assert_eq!(steps_of(&mut dev, seq), vec![write(&[0xFD, 0x0B]), write(&[0x06, 1])]);
}

#[test]
fn fill_without_blink_is_six_rows() {
    let mut dev = device();
    let seq = dev.fill(100, None, 2);
    let steps = steps_of(&mut dev, seq);
    assert_eq!(steps.len(), 7);
    assert_eq!(steps[0], write(&[0xFD, 2]));
    let firsts: [u8; 6] = [0x24, 0x3C, 0x54, 0x6C, 0x84, 0x9C];
    for row in 0..6 {
        match &steps[1 + row] {
            Step::Write(bytes) => {
                assert_eq!(bytes.len(), 25);
                assert_eq!(bytes[0], firsts[row]);
                assert!(bytes[1..].iter().all(|value| *value == 100));
            }
            Step::Delay(_) => panic!("a fill does not pause"),
        }
    }
    assert_eq!(steps, fill_steps(100, None, 2));
}

#[test]
fn fill_with_blink_sets_the_18_blink_registers() {
    let mut dev = device();
    let seq = dev.fill(100, Some(true), 2);
    let steps = steps_of(&mut dev, seq);
    assert_eq!(steps.len(), 43);
    for col in 0..18u8 {
        assert_eq!(steps[7 + 2 * col as usize], write(&[0xFD, 2]));
        assert_eq!(steps[8 + 2 * col as usize], write(&[0x12 + col, 0xFF]));
    }
    assert_eq!(steps, fill_steps(100, Some(true), 2));
}

#[test]
fn fill_with_blink_off_writes_zeros() {
    let mut dev = device();
    let seq = dev.fill(7, Some(false), 8);
    let steps = steps_of(&mut dev, seq);
    for col in 0..18u8 {
        assert_eq!(steps[8 + 2 * col as usize], write(&[0x12 + col, 0x00]));
    }
    assert_eq!(steps, fill_steps(7, Some(false), 8));
}

#[test]
fn fill_takes_any_bank() {
    let mut dev = device();
    let seq = dev.fill(1, None, 200);
    assert_eq!(steps_of(&mut dev, seq), fill_steps(1, None, 200));
}

#[test]
fn setup_is_the_whole_bring_up() {
    let mut dev = device();
    let seq = dev.setup();
    assert_eq!(seq.len(), 643);
    let steps = steps_of(&mut dev, seq);
    assert_eq!(steps.len(), 643);
    assert_eq!(steps[0], write(&[0xFD, 0x0B]));
    assert_eq!(steps[1], write(&[0x0A, 0]));
    assert_eq!(steps[2], Step::Delay(10));
    assert_eq!(steps[4], write(&[0x00, 0x00]));
    assert_eq!(steps[6], write(&[0x01, 0]));
    assert_eq!(steps[7], write(&[0xFD, 0]));
    assert_eq!(steps[7 + 79], write(&[0xFD, 1]));
    assert_eq!(steps[7 + 7 * 79 + 78], write(&[17, 0xFF]));
    assert_eq!(steps[640], write(&[0x06, 0]));
    assert_eq!(steps[642], write(&[0x0A, 1]));
    assert_eq!(steps.iter().filter(|step| matches!(step, Step::Delay(_))).count(), 1);
    assert_eq!(steps, setup_steps());
}

#[test]
fn reset_sleeps_waits_and_wakes() {
    let mut dev = device();
    let seq = dev.reset();
    let mut expected = register(0x0B, 0x0A, 0);
    expected.push(Step::Delay(10));
    expected.extend(register(0x0B, 0x0A, 1));
    assert_eq!(steps_of(&mut dev, seq), expected);
}

#[test]
fn mode_writes_the_mode_register() {
    let mut dev = device();
    let seq = dev.mode(0x08);
    assert_eq!(steps_of(&mut dev, seq), register(0x0B, 0x00, 0x08));
}

#[test]
fn audio_sync_writes_one_or_zero() {
    let mut dev = device();
    let on = dev.audio_sync(true);
    assert_eq!(steps_of(&mut dev, on), register(0x0B, 0x06, 1));
    let off = dev.audio_sync(false);
    assert_eq!(steps_of(&mut dev, off), register(0x0B, 0x06, 0));
}

#[test]
fn sleep_writes_zero_and_wake_writes_one() {
    let mut dev = device();
    let asleep = dev.sleep(true);
    assert_eq!(steps_of(&mut dev, asleep), register(0x0B, 0x0A, 0));
    let awake = dev.sleep(false);
    assert_eq!(steps_of(&mut dev, awake), register(0x0B, 0x0A, 1));
}

#[test]
fn pixel_writes_the_brightness_register() {
    let mut dev = device();
    for led in [0u8, 1, 77, 143] {
        let seq = match dev.pixel(led, 9) {
            Ok(seq) => seq,
            Err(_) => panic!("LED {} is refused", led),
        };
        assert_eq!(steps_of(&mut dev, seq), register(0, 0x24 + led, 9));
    }
}

#[test]
fn pixel_refuses_what_is_no_led() {
    let dev = device();
    for led in 144..=255u8 {
        assert!(matches!(dev.pixel(led, 9), Err(Error::InvalidLocation(at)) if at == led));
    }
}

#[test]
fn all_pixels_is_one_bulk_write() {
    let mut dev = device();
    let mut buf = [0u8; 144];
    for (i, value) in buf.iter_mut().enumerate() {
        *value = (i as u8).wrapping_mul(3);
    }
    let seq = dev.all_pixels(&buf);
    let steps = steps_of(&mut dev, seq);
    assert_eq!(steps.len(), 2);
    assert_eq!(steps[0], write(&[0xFD, 0]));
    let mut payload = vec![0x24u8];
    payload.extend_from_slice(&buf);
    assert_eq!(payload.len(), 145);
    assert_eq!(steps[1], Step::Write(payload));
}

#[test]
fn frame_takes_the_nine_frames() {
    for frame in 0..=8u8 {
        let mut dev = device();
        let seq = match dev.frame(frame) {
            Ok(seq) => seq,
            Err(_) => panic!("frame {} is refused", frame),
        };
        assert_eq!(steps_of(&mut dev, seq), register(0x0B, 0x01, frame));
        let pixel = match dev.pixel(0, 1) {
            Ok(seq) => seq,
            Err(_) => panic!("LED 0 is refused"),
        };
        assert_eq!(steps_of(&mut dev, pixel), register(frame, 0x24, 1));
    }
}

#[test]
fn frame_refuses_what_is_no_frame() {
    let dev = device();
    assert!(matches!(dev.frame(9), Err(Error::InvalidLocation(9))));
    for frame in 9..=255u8 {
        assert!(matches!(dev.frame(frame), Err(Error::InvalidLocation(at)) if at == frame));
    }
}

#[test]
fn a_failure_ends_the_sequence_with_that_failure() {
    let mut dev = device();
    let seq = dev.fill(5, Some(true), 1);
    let mut performed = 0;
    let result = drive(&mut dev, seq, |_step| {
        performed += 1;
        if performed == 3 {
            Err("nack")
        } else {
            Ok(())
        }
    });
    assert_eq!(result, Err("nack"));
    assert_eq!(performed, 3);
}

#[test]
fn advance_counts_the_completed_steps() {
    let mut dev = device();
    let seq = dev.mode(0);
    assert_eq!(seq.len(), 2);
    assert_eq!(seq.completed(), 0);
    assert_eq!(seq.current(), &write(&[0xFD, 0x0B]));
    let seq = match dev.advance(seq, Ok(())) {
        Progress::Next(rest) => rest,
        Progress::Done(_) => panic!("one step is left"),
    };
    assert_eq!(seq.len(), 2);
    assert_eq!(seq.completed(), 1);
    assert_eq!(seq.current(), &write(&[0x00, 0]));
    assert!(matches!(dev.advance(seq, Ok(())), Progress::Done(Ok(()))));
}

#[test]
fn a_failed_frame_select_leaves_the_frame() {
    let mut dev = device();
    let first = match dev.frame(4) {
        Ok(seq) => seq,
        Err(_) => panic!("frame 4 is refused"),
    };
    assert_eq!(drive(&mut dev, first, |_step| Ok(())), Ok(()));
    for failing in 1..=2 {
        let second = match dev.frame(6) {
            Ok(seq) => seq,
            Err(_) => panic!("frame 6 is refused"),
        };
        let mut performed = 0;
        let result = drive(&mut dev, second, |_step| {
            performed += 1;
            if performed == failing {
                Err("lost")
            } else {
                Ok(())
            }
        });
        assert_eq!(result, Err("lost"));
        let pixel = match dev.pixel(10, 1) {
            Ok(seq) => seq,
            Err(_) => panic!("LED 10 is refused"),
        };
        assert_eq!(steps_of(&mut dev, pixel), register(4, 0x24 + 10, 1));
    }
}

#[test]
fn setup_selects_frame_zero_once_the_chip_took_it() {
    for failing in [6usize, 7, 8, 100] {
        let mut dev = device();
        let first = match dev.frame(5) {
            Ok(seq) => seq,
            Err(_) => panic!("frame 5 is refused"),
        };
        steps_of(&mut dev, first);
        let seq = dev.setup();
        let mut performed = 0;
        let result = drive(&mut dev, seq, |_step| {
            performed += 1;
            if performed == failing {
                Err("nack")
            } else {
                Ok(())
            }
        });
        assert_eq!(result, Err("nack"));
        assert_eq!(performed, failing);
        let pixel = match dev.pixel(0, 1) {
            Ok(seq) => seq,
            Err(_) => panic!("LED 0 is refused"),
        };
        let frame = if failing > 7 { 0 } else { 5 };
        assert_eq!(steps_of(&mut dev, pixel), register(frame, 0x24, 1));
    }
}

#[test]
fn an_error_of_the_bus_becomes_an_i2c_error() {
    let error: Error<u16> = Error::from(7u16);
    assert!(matches!(error, Error::I2cError(7)));
    let same: Error<u16> = 9u16.into();
    assert!(matches!(same, Error::I2cError(9)));
}

#[test]
fn the_reserved_error_is_never_returned() {
    let dev = device();
    for value in 0..=255u8 {
        assert!(!matches!(dev.frame(value), Err(Error::InvalidFrame(_))));
        assert!(!matches!(dev.pixel(value, 0), Err(Error::InvalidFrame(_))));
    }
}

#[test]
fn lift_keeps_what_the_bus_answered() {
    assert!(matches!(lift::<u8>(Ok(())), Ok(())));
    assert!(matches!(lift(Err(7u8)), Err(Error::I2cError(7))));
}
