//! Builds the scripts of the operations, step by step.

use crate::addresses::{
    AUDIOSYNC, BANK_ADDRESS, BLINK_OFFSET, COLOR_OFFSET, CONFIG_BANK, ENABLE_OFFSET, FRAME,
    MODE_REGISTER, PICTURE_MODE, SHUTDOWN,
};
use crate::script::{
    actions, all_pixels_script, audio_sync_script, bank_select, blink_value, clear_frame_script,
    clear_frames_script, fill_script, frame_script, lemma_register_run_step, mode_script,
    pixel_script, register_run, register_write, reset_script, row_bytes, rows, setup_script,
    sleep_script, Action, Step, BITMAP_LEN, ROWS, ROW_LEN, SETTLE_MS, SETUP_FRAMES,
};
use vstd::prelude::*;

verus! {

/// Appends one step.
pub(crate) fn push_step(steps: &mut Vec<Step>, step: Step)
    ensures
        actions(final(steps)@) == actions(old(steps)@).push(step@),
{
    steps.push(step);
    assert(actions(steps@) =~= actions(old(steps)@).push(step@));
}

/// Appends the bank-select write.
pub(crate) fn push_bank(steps: &mut Vec<Step>, bank: u8)
    ensures
        actions(final(steps)@) == actions(old(steps)@).push(bank_select(bank)),
{
    let mut bytes: Vec<u8> = Vec::new();
    bytes.push(BANK_ADDRESS);
    bytes.push(bank);
    assert(bytes@ =~= seq![BANK_ADDRESS, bank]);
    push_step(steps, Step::Write(bytes));
}

/// Appends the two writes that set one register.
pub(crate) fn push_register(steps: &mut Vec<Step>, bank: u8, register: u8, value: u8)
    ensures
        actions(final(steps)@) == actions(old(steps)@) + register_write(bank, register, value),
{
    push_bank(steps, bank);
    let mut bytes: Vec<u8> = Vec::new();
    bytes.push(register);
    bytes.push(value);
    assert(bytes@ =~= seq![register, value]);
    push_step(steps, Step::Write(bytes));
    assert(actions(steps@) =~= actions(old(steps)@) + register_write(bank, register, value));
}

/// Appends the writes that set `count` registers from `base` upwards.
pub(crate) fn push_register_run(steps: &mut Vec<Step>, bank: u8, base: u8, count: u8, value: u8)
    requires
        base + count <= 256,
    ensures
        actions(final(steps)@) == actions(old(steps)@) + register_run(
            bank,
            base,
            count as nat,
            value,
        ),
{
    let mut done: u8 = 0;
    assert(actions(steps@) =~= actions(old(steps)@) + register_run(bank, base, 0, value));
    while done < count
        invariant
            done <= count,
            base + count <= 256,
            actions(steps@) == actions(old(steps)@) + register_run(bank, base, done as nat, value),
        decreases count - done,
    {
        proof {
            lemma_register_run_step(bank, base, done as nat, value);
        }
        push_register(steps, bank, base + done, value);
        done = done + 1;
    }
}

/// The bytes of the transaction that fills one row.
fn row_payload(row: u8, brightness: u8) -> (bytes: Vec<u8>)
    requires
        row < ROWS,
    ensures
        bytes@ == row_bytes(row as int, brightness),
{
    let mut bytes: Vec<u8> = Vec::new();
    bytes.push(COLOR_OFFSET + row * ROW_LEN);
    let mut filled: u8 = 0;
    while filled < ROW_LEN
        invariant
            filled <= ROW_LEN,
            bytes@.len() == filled + 1,
            bytes@[0] == COLOR_OFFSET + row * ROW_LEN,
            forall|i: int| 1 <= i <= filled ==> bytes@[i] == brightness,
        decreases ROW_LEN - filled,
    {
        bytes.push(brightness);
        filled = filled + 1;
    }
    assert(bytes@ =~= row_bytes(row as int, brightness));
    bytes
}

/// Appends the work of a fill.
pub(crate) fn push_fill(steps: &mut Vec<Step>, brightness: u8, blink: Option<bool>, frame: u8)
    ensures
        actions(final(steps)@) == actions(old(steps)@) + fill_script(brightness, blink, frame),
{
    push_bank(steps, frame);
    let mut row: u8 = 0;
    assert(actions(steps@) =~= actions(old(steps)@) + (seq![bank_select(frame)] + rows(
        0,
        brightness,
    )));
    while row < ROWS
        invariant
            row <= ROWS,
            actions(steps@) == actions(old(steps)@) + (seq![bank_select(frame)] + rows(
                row as nat,
                brightness,
            )),
        decreases ROWS - row,
    {
        let bytes = row_payload(row, brightness);
        push_step(steps, Step::Write(bytes));
        row = row + 1;
        assert(actions(steps@) =~= actions(old(steps)@) + (seq![bank_select(frame)] + rows(
            row as nat,
            brightness,
        )));
    }
    match blink {
        Some(on) => {
            let data: u8 = if on {
                0xFF
            } else {
                0x00
            };
            push_register_run(steps, frame, BLINK_OFFSET, BITMAP_LEN, data);
        },
        None => {},
    }
    assert(actions(steps@) =~= actions(old(steps)@) + fill_script(brightness, blink, frame));
}

/// Appends the register write that puts the chip to sleep or wakes it.
pub(crate) fn push_sleep(steps: &mut Vec<Step>, yes: bool)
    ensures
        actions(final(steps)@) == actions(old(steps)@) + sleep_script(yes),
{
    let value: u8 = if yes {
        0
    } else {
        1
    };
    push_register(steps, CONFIG_BANK, SHUTDOWN, value);
}

/// Appends the register write that sets the display mode.
pub(crate) fn push_mode(steps: &mut Vec<Step>, mode: u8)
    ensures
        actions(final(steps)@) == actions(old(steps)@) + mode_script(mode),
{
    push_register(steps, CONFIG_BANK, MODE_REGISTER, mode);
}

/// Appends the register write that switches audio sync.
pub(crate) fn push_audio_sync(steps: &mut Vec<Step>, yes: bool)
    ensures
        actions(final(steps)@) == actions(old(steps)@) + audio_sync_script(yes),
{
    let value: u8 = if yes {
        1
    } else {
        0
    };
    push_register(steps, CONFIG_BANK, AUDIOSYNC, value);
}

/// Appends the register write that selects the shown frame.
pub(crate) fn push_frame(steps: &mut Vec<Step>, frame: u8)
    ensures
        actions(final(steps)@) == actions(old(steps)@) + frame_script(frame),
{
    push_register(steps, CONFIG_BANK, FRAME, frame);
}

/// Appends the register write that sets one LED's brightness.
pub(crate) fn push_pixel(steps: &mut Vec<Step>, frame: u8, led: u8, brightness: u8)
    requires
        led < 144,
    ensures
        actions(final(steps)@) == actions(old(steps)@) + pixel_script(frame, led, brightness),
{
    push_register(steps, frame, COLOR_OFFSET + led, brightness);
}

/// Appends the bulk write of a whole frame's brightness values.
pub(crate) fn push_all_pixels(steps: &mut Vec<Step>, frame: u8, values: &[u8; 144])
    ensures
        actions(final(steps)@) == actions(old(steps)@) + all_pixels_script(frame, values@),
{
    push_bank(steps, frame);
    let mut bytes: Vec<u8> = Vec::new();
    bytes.push(COLOR_OFFSET);
    let mut copied: usize = 0;
    while copied < 144
        invariant
            copied <= 144,
            bytes@.len() == copied + 1,
            bytes@[0] == COLOR_OFFSET,
            forall|i: int| 0 <= i < copied ==> bytes@[i + 1] == values@[i],
        decreases 144 - copied,
    {
        bytes.push(values[copied]);
        copied = copied + 1;
    }
    assert(bytes@ =~= seq![COLOR_OFFSET] + values@);
    push_step(steps, Step::Write(bytes));
    assert(actions(steps@) =~= actions(old(steps)@) + all_pixels_script(frame, values@));
}

/// Appends the work of a reset.
pub(crate) fn push_reset(steps: &mut Vec<Step>)
    ensures
        actions(final(steps)@) == actions(old(steps)@) + reset_script(),
{
    push_sleep(steps, true);
    push_step(steps, Step::Delay(SETTLE_MS));
    push_sleep(steps, false);
    assert(actions(steps@) =~= actions(old(steps)@) + reset_script());
}

/// Appends the work of the bring-up.
pub(crate) fn push_setup(steps: &mut Vec<Step>)
    ensures
        actions(final(steps)@) == actions(old(steps)@) + setup_script(),
{
    push_sleep(steps, true);
    push_step(steps, Step::Delay(SETTLE_MS));
    push_mode(steps, PICTURE_MODE);
    push_frame(steps, 0);
    let ghost head = sleep_script(true) + seq![Action::Delay { ms: SETTLE_MS }] + mode_script(
        PICTURE_MODE,
    ) + frame_script(0);
    assert(actions(steps@) =~= actions(old(steps)@) + (head + clear_frames_script(0)));
    let mut frame: u8 = 0;
    while frame < SETUP_FRAMES
        invariant
            frame <= SETUP_FRAMES,
            head == sleep_script(true) + seq![Action::Delay { ms: SETTLE_MS }] + mode_script(
                PICTURE_MODE,
            ) + frame_script(0),
            actions(steps@) == actions(old(steps)@) + (head + clear_frames_script(frame as nat)),
        decreases SETUP_FRAMES - frame,
    {
        push_fill(steps, 0, Some(false), frame);
        push_register_run(steps, frame, ENABLE_OFFSET, BITMAP_LEN, 0xFF);
        frame = frame + 1;
        assert(actions(steps@) =~= actions(old(steps)@) + (head + clear_frames_script(
            frame as nat,
        )));
    }
    push_audio_sync(steps, false);
    push_sleep(steps, false);
    assert(actions(steps@) =~= actions(old(steps)@) + setup_script());
}

} // verus!
