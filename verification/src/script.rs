//! The register protocol: which bus work each operation consists of, in which
//! order.
//!
//! A script is the list of the units of work of one operation. Every register
//! write is preceded by a write that selects the bank, and the chip takes at
//! most one 24-register row in one transaction.

use crate::addresses::{
    AUDIOSYNC, BANK_ADDRESS, BLINK_OFFSET, COLOR_OFFSET, CONFIG_BANK, ENABLE_OFFSET, FRAME,
    MODE_REGISTER, PICTURE_MODE, SHUTDOWN,
};
use vstd::prelude::*;

verus! {

/// One unit of work, as a mathematical value.
pub enum Action {
    /// One bus transaction that sends `bytes`.
    Write { bytes: Seq<u8> },
    /// A pause of at least `ms` milliseconds.
    Delay { ms: u32 },
}

/// One unit of work, ready to be carried out.
#[derive(Clone, Debug, PartialEq, Eq)]
pub enum Step {
    /// Send these bytes in one bus transaction.
    Write(Vec<u8>),
    /// Pause for at least this many milliseconds.
    Delay(u32),
}

impl View for Step {
    type V = Action;

    open spec fn view(&self) -> Action {
        match self {
            Step::Write(bytes) => Action::Write { bytes: bytes@ },
            Step::Delay(ms) => Action::Delay { ms: *ms },
        }
    }
}

/// The actions that a list of steps stands for.
pub open spec fn actions(steps: Seq<Step>) -> Seq<Action> {
    steps.map_values(|step: Step| step@)
}

/// Milliseconds the chip needs to settle after it was shut down.
pub const SETTLE_MS: u32 = 10;

/// Registers written by one transaction of a fill.
pub const ROW_LEN: u8 = 24;

/// Transactions that cover the 144 brightness registers of a frame.
pub const ROWS: u8 = 6;

/// Blink-enable registers of a frame, and display-enable registers likewise.
pub const BITMAP_LEN: u8 = 18;

/// Frames that the bring-up clears.
pub const SETUP_FRAMES: u8 = 8;

/// Where the script of a frame select writes the frame register.
pub const FRAME_SELECT_AT: usize = 1;

/// Where the script of the bring-up writes the frame register.
pub const SETUP_SELECT_AT: usize = 6;

/// The write that makes `bank` the target of the writes that follow.
pub open spec fn bank_select(bank: u8) -> Action {
    Action::Write { bytes: seq![BANK_ADDRESS, bank] }
}

/// Sets one register: selects `bank`, then sends the register and its value.
pub open spec fn register_write(bank: u8, register: u8, value: u8) -> Seq<Action> {
    seq![bank_select(bank), Action::Write { bytes: seq![register, value] }]
}

/// Action `i` of a register run: the writes come in pairs, the bank select
/// and then the register, which is `base` plus the number of the pair.
pub open spec fn register_run_at(bank: u8, base: u8, value: u8, i: int) -> Action {
    if i % 2 == 0 {
        bank_select(bank)
    } else {
        Action::Write { bytes: seq![(base + i / 2) as u8, value] }
    }
}

/// Sets the `count` registers from `base` upwards to `value`, one
/// `register_write` each, lowest register first.
pub open spec fn register_run(bank: u8, base: u8, count: nat, value: u8) -> Seq<Action> {
    Seq::new(2 * count, |i: int| register_run_at(bank, base, value, i))
}

/// The bytes of the transaction that fills row `row` of the brightness
/// registers: the first register of the row, then `brightness` 24 times.
pub open spec fn row_bytes(row: int, brightness: u8) -> Seq<u8> {
    Seq::new(
        ROW_LEN as nat + 1,
        |i: int|
            if i == 0 {
                (COLOR_OFFSET + ROW_LEN * row) as u8
            } else {
                brightness
            },
    )
}

/// The first `count` row transactions of a fill.
pub open spec fn rows(count: nat, brightness: u8) -> Seq<Action> {
    Seq::new(count, |row: int| Action::Write { bytes: row_bytes(row, brightness) })
}

/// The value written to every blink-enable register.
pub open spec fn blink_value(on: bool) -> u8 {
    if on {
        0xFF
    } else {
        0x00
    }
}

/// Fill: select the frame, write the six rows, then, only where `blink` is
/// given, set all 18 blink-enable registers.
pub open spec fn fill_script(brightness: u8, blink: Option<bool>, frame: u8) -> Seq<Action> {
    seq![bank_select(frame)] + rows(ROWS as nat, brightness) + match blink {
        Some(on) => register_run(frame, BLINK_OFFSET, BITMAP_LEN as nat, blink_value(on)),
        None => Seq::empty(),
    }
}

/// Sleep: the shutdown register holds 0 while the chip sleeps and 1 while it
/// runs.
pub open spec fn sleep_script(yes: bool) -> Seq<Action> {
    register_write(
        CONFIG_BANK,
        SHUTDOWN,
        if yes {
            0
        } else {
            1
        },
    )
}

/// Mode: one write to the mode register.
pub open spec fn mode_script(mode: u8) -> Seq<Action> {
    register_write(CONFIG_BANK, MODE_REGISTER, mode)
}

/// Audio sync: the register holds 1 when enabled, 0 when not.
pub open spec fn audio_sync_script(yes: bool) -> Seq<Action> {
    register_write(
        CONFIG_BANK,
        AUDIOSYNC,
        if yes {
            1
        } else {
            0
        },
    )
}

/// Frame select: one write to the frame register.
pub open spec fn frame_script(frame: u8) -> Seq<Action> {
    register_write(CONFIG_BANK, FRAME, frame)
}

/// Pixel: one write to the brightness register of `led` in `frame`.
pub open spec fn pixel_script(frame: u8, led: u8, brightness: u8) -> Seq<Action> {
    register_write(frame, (COLOR_OFFSET + led) as u8, brightness)
}

/// Colour pixel: the writes of its red, green and blue LED, in that order.
pub open spec fn rgb_script(frame: u8, leds: (u8, u8, u8), values: (u8, u8, u8)) -> Seq<Action> {
    pixel_script(frame, leds.0, values.0) + pixel_script(frame, leds.1, values.1) + pixel_script(
        frame,
        leds.2,
        values.2,
    )
}

/// All pixels: select the frame, then one transaction that carries the first
/// brightness register followed by all the values.
pub open spec fn all_pixels_script(frame: u8, values: Seq<u8>) -> Seq<Action> {
    seq![bank_select(frame), Action::Write { bytes: seq![COLOR_OFFSET] + values }]
}

/// Reset: sleep, let the chip settle, wake.
pub open spec fn reset_script() -> Seq<Action> {
    sleep_script(true) + seq![Action::Delay { ms: SETTLE_MS }] + sleep_script(false)
}

/// What the bring-up does to one frame: all LEDs dark and not blinking, then
/// all LEDs enabled.
pub open spec fn clear_frame_script(frame: u8) -> Seq<Action> {
    fill_script(0, Some(false), frame) + register_run(
        frame,
        ENABLE_OFFSET,
        BITMAP_LEN as nat,
        0xFF,
    )
}

/// The bring-up's work on the frames below `count`, lowest frame first.
pub open spec fn clear_frames_script(count: nat) -> Seq<Action>
    decreases count,
{
    if count == 0 {
        Seq::empty()
    } else {
        clear_frames_script((count - 1) as nat) + clear_frame_script((count - 1) as u8)
    }
}

/// Bring-up: sleep, settle, picture mode, frame 0, clear the frames, audio
/// sync off, wake.
pub open spec fn setup_script() -> Seq<Action> {
    sleep_script(true) + seq![Action::Delay { ms: SETTLE_MS }] + mode_script(PICTURE_MODE)
        + frame_script(0) + clear_frames_script(SETUP_FRAMES as nat) + audio_sync_script(false)
        + sleep_script(false)
}

/// True when no action of `script` is a pause.
pub open spec fn writes_only(script: Seq<Action>) -> bool {
    forall|i: int| 0 <= i < script.len() ==> #[trigger] script[i] is Write
}

/// A register run grows by the write of its next register.
pub proof fn lemma_register_run_step(bank: u8, base: u8, count: nat, value: u8)
    ensures
        register_run(bank, base, count + 1, value) == register_run(bank, base, count, value)
            + register_write(bank, (base + count) as u8, value),
{
    let longer = register_run(bank, base, count + 1, value);
    let joined = register_run(bank, base, count, value) + register_write(
        bank,
        (base + count) as u8,
        value,
    );
    assert(longer.len() == joined.len());
    assert forall|i: int| 0 <= i < longer.len() implies longer[i] == joined[i] by {
        if i == 2 * count {
            assert(i % 2 == 0);
        } else if i == 2 * count + 1 {
            assert(i % 2 == 1 && i / 2 == count);
        }
    }
    assert(longer =~= joined);
}

/// A colour pixel is six writes and holds no pause.
pub proof fn lemma_rgb_script(frame: u8, leds: (u8, u8, u8), values: (u8, u8, u8))
    ensures
        rgb_script(frame, leds, values).len() == 6,
        writes_only(rgb_script(frame, leds, values)),
{
}

/// How many actions a fill has.
pub open spec fn fill_len(blink: Option<bool>) -> nat {
    if blink.is_some() {
        43
    } else {
        7
    }
}

/// A fill is the bank select, the six row writes and, where blink is given,
/// the run over the 18 blink registers; it holds no pause.
pub proof fn lemma_fill_script(brightness: u8, blink: Option<bool>, frame: u8)
    ensures
        fill_script(brightness, blink, frame).len() == fill_len(blink),
        fill_script(brightness, blink, frame)[0] == bank_select(frame),
        forall|i: int|
            1 <= i < 7 ==> #[trigger] fill_script(brightness, blink, frame)[i] == (Action::Write {
                bytes: row_bytes(i - 1, brightness),
            }),
        forall|i: int|
            7 <= i < fill_len(blink) ==> #[trigger] fill_script(brightness, blink, frame)[i]
                == register_run_at(frame, BLINK_OFFSET, blink_value(blink.unwrap()), i - 7),
        writes_only(fill_script(brightness, blink, frame)),
{
    let script = fill_script(brightness, blink, frame);
    let head = seq![bank_select(frame)] + rows(ROWS as nat, brightness);
    match blink {
        Some(on) => {
            let run = register_run(frame, BLINK_OFFSET, BITMAP_LEN as nat, blink_value(on));
            assert(script == head + run);
            assert forall|i: int| 7 <= i < 43 implies #[trigger] script[i] == register_run_at(
                frame,
                BLINK_OFFSET,
                blink_value(on),
                i - 7,
            ) by {
                assert(script[i] == run[i - 7]);
            }
        },
        None => {
            assert(script =~= head);
        },
    }
}

/// The bring-up's work on one frame is 79 writes, and on the frames below
/// `count` that many for each.
pub proof fn lemma_clear_frames_script(count: nat)
    ensures
        clear_frames_script(count).len() == 79 * count,
        writes_only(clear_frames_script(count)),
    decreases count,
{
    if count > 0 {
        let frame = (count - 1) as u8;
        let shorter = clear_frames_script((count - 1) as nat);
        let fill = fill_script(0, Some(false), frame);
        let enable = register_run(frame, ENABLE_OFFSET, BITMAP_LEN as nat, 0xFF);
        lemma_clear_frames_script((count - 1) as nat);
        lemma_fill_script(0, Some(false), frame);
        let all = clear_frames_script(count);
        assert(all == shorter + (fill + enable));
        assert forall|i: int| 0 <= i < all.len() implies #[trigger] all[i] is Write by {
            if i < shorter.len() {
                assert(all[i] == shorter[i]);
            } else if i < shorter.len() + fill.len() {
                assert(all[i] == fill[i - shorter.len()]);
            } else {
                assert(all[i] == enable[i - shorter.len() - fill.len()]);
            }
        }
    }
}

/// In the bring-up's work on the frames, frame `frame` has the 79 actions
/// from the 79 of each frame before it onwards: its fill, then the run over
/// its 18 enable registers.
pub proof fn lemma_clear_frames_at(count: nat, frame: int)
    requires
        0 <= frame < count,
    ensures
        clear_frames_script(count).subrange(79 * frame, 79 * frame + 43) == fill_script(
            0,
            Some(false),
            frame as u8,
        ),
        clear_frames_script(count).subrange(79 * frame + 43, 79 * frame + 79) == register_run(
            frame as u8,
            ENABLE_OFFSET,
            BITMAP_LEN as nat,
            0xFF,
        ),
    decreases count,
{
    let all = clear_frames_script(count);
    let shorter = clear_frames_script((count - 1) as nat);
    let last = (count - 1) as u8;
    let fill = fill_script(0, Some(false), last);
    let enable = register_run(last, ENABLE_OFFSET, BITMAP_LEN as nat, 0xFF);
    lemma_clear_frames_script((count - 1) as nat);
    lemma_clear_frames_script(count);
    lemma_fill_script(0, Some(false), last);
    assert(all == shorter + (fill + enable));
    if frame + 1 == count {
        assert(all.subrange(79 * frame, 79 * frame + 43) =~= fill);
        assert(all.subrange(79 * frame + 43, 79 * frame + 79) =~= enable);
    } else {
        lemma_clear_frames_at((count - 1) as nat, frame);
        assert(all.subrange(79 * frame, 79 * frame + 43) =~= shorter.subrange(
            79 * frame,
            79 * frame + 43,
        ));
        assert(all.subrange(79 * frame + 43, 79 * frame + 79) =~= shorter.subrange(
            79 * frame + 43,
            79 * frame + 79,
        ));
    }
}

/// The bring-up is 643 actions: its one pause is the third, straight after
/// the two writes that put the chip to sleep, and the write of the frame
/// register is the seventh.
pub proof fn lemma_setup_script()
    ensures
        setup_script().len() == 643,
        setup_script().take(2) == sleep_script(true),
        setup_script()[2] == (Action::Delay { ms: SETTLE_MS }),
        setup_script().subrange(3, 5) == mode_script(PICTURE_MODE),
        setup_script().subrange(5, 7) == frame_script(0),
        setup_script().subrange(7, 639) == clear_frames_script(SETUP_FRAMES as nat),
        setup_script().subrange(639, 641) == audio_sync_script(false),
        setup_script().subrange(641, 643) == sleep_script(false),
        setup_script()[SETUP_SELECT_AT as int] == (Action::Write { bytes: seq![FRAME, 0u8] }),
        forall|i: int| 0 <= i < 643 && i != 2 ==> #[trigger] setup_script()[i] is Write,
{
    let script = setup_script();
    let frames = clear_frames_script(SETUP_FRAMES as nat);
    lemma_clear_frames_script(SETUP_FRAMES as nat);
    assert(script.take(2) =~= sleep_script(true));
    assert(script.subrange(3, 5) =~= mode_script(PICTURE_MODE));
    assert(script.subrange(5, 7) =~= frame_script(0));
    assert(script.subrange(7, 639) =~= frames);
    assert(script.subrange(639, 641) =~= audio_sync_script(false));
    assert(script.subrange(641, 643) =~= sleep_script(false));
    assert forall|i: int| 0 <= i < 643 && i != 2 implies #[trigger] script[i] is Write by {
        if 7 <= i < 639 {
            assert(script[i] == frames[i - 7]);
        }
    }
}

} // verus!
