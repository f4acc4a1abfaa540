//! The device handle: the bus, the chip's address and the frame that is
//! selected on the chip.
//!
//! Every operation exists twice. The plain form (`fill`, `frame`, ...) checks
//! its arguments and hands back the operation as a [`Sequence`] for the caller
//! to drive, one step at a time, through [`IS31FL3731::advance`]. The blocking
//! form (`fill_blocking`, `frame_blocking`, ...) drives the same sequence
//! itself on a [`Transport`].
//!
//! What a blocking operation does on the bus is stated over the handle's
//! trace: the list of the transactions it handed to the bus, each with the
//! answer of the bus, and of the pauses it took. Two private functions make
//! those calls, and each of them extends the trace by the call it makes.

use crate::addresses::{FRAMES, LEDS};
use crate::builder::{
    push_all_pixels, push_audio_sync, push_bank, push_fill, push_frame, push_mode, push_pixel,
    push_register, push_reset, push_setup, push_sleep,
};
use crate::error::{bus_result, from_bus, lemma_one_success, lift, Error};
use crate::script::{
    actions, all_pixels_script, audio_sync_script, bank_select, fill_script, frame_script,
    lemma_fill_script, mode_script, pixel_script, register_write, reset_script, rgb_script,
    setup_script, sleep_script, writes_only, Action, Step, FRAME_SELECT_AT, SETUP_SELECT_AT,
};
use crate::sequence::{Progress, Sequence};
use crate::trace::{frame_once, performed, ran, successes, Exchange};
use crate::transport::{Delay, ErrorType, Transport};
use vstd::prelude::*;

verus! {

/// The pause handed to the sequences that hold none.
struct NoPause;

impl Delay for NoPause {
    fn delay_ms(&mut self, _ms: u32) {
    }
}

/// A handle on one IS31FL3731.
pub struct IS31FL3731<I2C: ErrorType> {
    /// The bus the chip is on.
    pub i2c: I2C,
    /// The 7-bit address of the chip on the bus.
    pub address: u8,
    /// The frame last selected on the chip.
    frame: u8,
    /// The work carried out by the blocking operations so far.
    trace: Ghost<Seq<Exchange<I2C::Error>>>,
}

impl<I2C: ErrorType> IS31FL3731<I2C> {
    /// The bus the chip is on.
    pub closed spec fn bus(&self) -> I2C {
        self.i2c
    }

    /// The address that the writes go to.
    pub closed spec fn bus_address(&self) -> u8 {
        self.address
    }

    /// The frame that pixel writes go to: the one that the last successful
    /// frame select named, frame 0 before the first.
    pub closed spec fn selected_frame(&self) -> u8 {
        self.frame
    }

    /// The work that the blocking operations of this handle have carried out,
    /// oldest first.
    pub closed spec fn trace(&self) -> Seq<Exchange<I2C::Error>> {
        self.trace@
    }

    /// True when `self` is `before` after a run of `script` on the bus that
    /// ended with `result`: the trace grew by that run and the address stayed.
    pub open spec fn issued(
        &self,
        before: &Self,
        script: Seq<Action>,
        result: Result<(), I2C::Error>,
    ) -> bool {
        &&& self.bus_address() == before.bus_address()
        &&& performed(script, before.bus_address(), before.trace(), self.trace(), result)
    }

    /// True when `self` is `before`, with nothing done on the bus.
    pub open spec fn untouched(&self, before: &Self) -> bool {
        &&& self.bus() == before.bus()
        &&& self.bus_address() == before.bus_address()
        &&& self.selected_frame() == before.selected_frame()
        &&& self.trace() == before.trace()
    }

    /// A handle on the chip at `address`, with frame 0 selected.
    pub fn new(i2c: I2C, address: u8) -> (device: Self)
        ensures
            device.bus() == i2c,
            device.bus_address() == address,
            device.selected_frame() == 0,
            device.trace() == Seq::<Exchange<I2C::Error>>::empty(),
    {
        Self { i2c, address, frame: 0, trace: Ghost(Seq::empty()) }
    }

    /// Changes the address that the writes go to.
    pub fn set_address(&mut self, address: u8)
        ensures
            final(self).bus_address() == address,
            final(self).bus() == old(self).bus(),
            final(self).selected_frame() == old(self).selected_frame(),
            final(self).trace() == old(self).trace(),
    {
        self.address = address;
    }

    /// Begins a bank select.
    pub fn bank(&self, bank: u8) -> (seq: Sequence)
        ensures
            seq.script() == seq![bank_select(bank)],
            seq.position() == 0,
            seq.selects() is None,
    {
        let mut steps: Vec<Step> = Vec::new();
        push_bank(&mut steps, bank);
        assert(actions(steps@) =~= seq![bank_select(bank)]);
        Sequence::begin(steps, None)
    }

    /// Begins the write of one register of a bank.
    pub fn write_register(&self, bank: u8, register: u8, value: u8) -> (seq: Sequence)
        ensures
            seq.script() == register_write(bank, register, value),
            seq.position() == 0,
            seq.selects() is None,
    {
        let mut steps: Vec<Step> = Vec::new();
        push_register(&mut steps, bank, register, value);
        assert(actions(steps@) =~= register_write(bank, register, value));
        Sequence::begin(steps, None)
    }

    /// Begins a fill of `frame` with one brightness. With `blink` given, all
    /// LEDs of the frame are also set to blink or not to blink.
    pub fn fill(&self, brightness: u8, blink: Option<bool>, frame: u8) -> (seq: Sequence)
        ensures
            seq.script() == fill_script(brightness, blink, frame),
            seq.position() == 0,
            seq.selects() is None,
    {
        let mut steps: Vec<Step> = Vec::new();
        push_fill(&mut steps, brightness, blink, frame);
        assert(actions(steps@) =~= fill_script(brightness, blink, frame));
        Sequence::begin(steps, None)
    }

    /// Begins the bring-up of the chip.
    pub fn setup(&self) -> (seq: Sequence)
        ensures
            seq.script() == setup_script(),
            seq.position() == 0,
            seq.selects() == Some((SETUP_SELECT_AT as nat, 0u8)),
    {
        let mut steps: Vec<Step> = Vec::new();
        push_setup(&mut steps);
        assert(actions(steps@) =~= setup_script());
        Sequence::begin(steps, Some((SETUP_SELECT_AT, 0)))
    }

    /// Begins the write of one LED's brightness in the selected frame.
    /// An `led` that is no LED index is refused.
    pub fn pixel(&self, led: u8, brightness: u8) -> (r: Result<Sequence, Error<I2C::Error>>)
        ensures
            match r {
                Ok(seq) => {
                    &&& led < LEDS
                    &&& seq.script() == pixel_script(self.selected_frame(), led, brightness)
                    &&& seq.position() == 0
                    &&& seq.selects() is None
                },
                Err(e) => led >= LEDS && e == Error::<I2C::Error>::InvalidLocation(led),
            },
    {
        if led >= LEDS {
            return Err(Error::InvalidLocation(led));
        }
        let mut steps: Vec<Step> = Vec::new();
        push_pixel(&mut steps, self.frame, led, brightness);
        assert(actions(steps@) =~= pixel_script(self.frame, led, brightness));
        Ok(Sequence::begin(steps, None))
    }

    /// Begins the writes of the three LEDs of a colour pixel in the selected
    /// frame, red first.
    pub(crate) fn pixel_rgb(&self, leds: (u8, u8, u8), values: (u8, u8, u8)) -> (seq: Sequence)
        requires
            leds.0 < LEDS,
            leds.1 < LEDS,
            leds.2 < LEDS,
        ensures
            seq.script() == rgb_script(self.selected_frame(), leds, values),
            seq.position() == 0,
            seq.selects() is None,
    {
        let mut steps: Vec<Step> = Vec::new();
        push_pixel(&mut steps, self.frame, leds.0, values.0);
        push_pixel(&mut steps, self.frame, leds.1, values.1);
        push_pixel(&mut steps, self.frame, leds.2, values.2);
        assert(actions(steps@) =~= rgb_script(self.frame, leds, values));
        Sequence::begin(steps, None)
    }

    /// Begins the write of all 144 brightness values of the selected frame.
    pub fn all_pixels(&self, buf: &[u8; 144]) -> (seq: Sequence)
        ensures
            seq.script() == all_pixels_script(self.selected_frame(), buf@),
            seq.position() == 0,
            seq.selects() is None,
    {
        let mut steps: Vec<Step> = Vec::new();
        push_all_pixels(&mut steps, self.frame, buf);
        assert(actions(steps@) =~= all_pixels_script(self.frame, buf@));
        Sequence::begin(steps, None)
    }

    /// Begins the selection of `frame`. A `frame` that is no frame number is
    /// refused.
    pub fn frame(&self, frame: u8) -> (r: Result<Sequence, Error<I2C::Error>>)
        ensures
            match r {
                Ok(seq) => {
                    &&& frame < FRAMES
                    &&& seq.script() == frame_script(frame)
                    &&& seq.position() == 0
                    &&& seq.selects() == Some((FRAME_SELECT_AT as nat, frame))
                },
                Err(e) => frame >= FRAMES && e == Error::<I2C::Error>::InvalidLocation(frame),
            },
    {
        if frame >= FRAMES {
            return Err(Error::InvalidLocation(frame));
        }
        let mut steps: Vec<Step> = Vec::new();
        push_frame(&mut steps, frame);
        assert(actions(steps@) =~= frame_script(frame));
        Ok(Sequence::begin(steps, Some((FRAME_SELECT_AT, frame))))
    }

    /// Begins a reset.
    pub fn reset(&self) -> (seq: Sequence)
        ensures
            seq.script() == reset_script(),
            seq.position() == 0,
            seq.selects() is None,
    {
        let mut steps: Vec<Step> = Vec::new();
        push_reset(&mut steps);
        assert(actions(steps@) =~= reset_script());
        Sequence::begin(steps, None)
    }

    /// Begins the write of the display mode.
    pub fn mode(&self, mode: u8) -> (seq: Sequence)
        ensures
            seq.script() == mode_script(mode),
            seq.position() == 0,
            seq.selects() is None,
    {
        let mut steps: Vec<Step> = Vec::new();
        push_mode(&mut steps, mode);
        assert(actions(steps@) =~= mode_script(mode));
        Sequence::begin(steps, None)
    }

    /// Begins switching audio sync on or off.
    pub fn audio_sync(&self, yes: bool) -> (seq: Sequence)
        ensures
            seq.script() == audio_sync_script(yes),
            seq.position() == 0,
            seq.selects() is None,
    {
        let mut steps: Vec<Step> = Vec::new();
        push_audio_sync(&mut steps, yes);
        assert(actions(steps@) =~= audio_sync_script(yes));
        Sequence::begin(steps, None)
    }

    /// Begins putting the chip to sleep or waking it.
    pub fn sleep(&self, yes: bool) -> (seq: Sequence)
        ensures
            seq.script() == sleep_script(yes),
            seq.position() == 0,
            seq.selects() is None,
    {
        let mut steps: Vec<Step> = Vec::new();
        push_sleep(&mut steps, yes);
        assert(actions(steps@) =~= sleep_script(yes));
        Sequence::begin(steps, None)
    }

    /// Takes the outcome of the current step of `seq`.
    ///
    /// A failure ends the operation with that failure. A success leads to the
    /// next step or, after the last, ends the operation with success. The
    /// frame that the operation selects becomes the selected one when the
    /// write that selects it has succeeded, and not before.
    pub fn advance(&mut self, seq: Sequence, outcome: Result<(), I2C::Error>) -> (progress:
        Progress<I2C::Error>)
        ensures
            final(self).bus() == old(self).bus(),
            final(self).bus_address() == old(self).bus_address(),
            final(self).trace() == old(self).trace(),
            old(self).selected_frame() < FRAMES ==> final(self).selected_frame() < FRAMES,
            match outcome {
                Err(e) => {
                    &&& progress == Progress::Done(Err::<(), I2C::Error>(e))
                    &&& final(self).selected_frame() == old(self).selected_frame()
                },
                Ok(_) => {
                    &&& final(self).selected_frame() == seq.frame_after(old(self).selected_frame())
                    &&& if seq.position() + 1 < seq.script().len() {
                        &&& progress matches Progress::Next(rest)
                        &&& rest.script() == seq.script()
                        &&& rest.position() == seq.position() + 1
                        &&& rest.selects() == seq.selects()
                    } else {
                        progress == Progress::Done(Ok::<(), I2C::Error>(()))
                    }
                },
            },
    {
        match outcome {
            Err(e) => Progress::Done(Err(e)),
            Ok(_) => {
                match seq.selecting() {
                    Some(frame) => {
                        self.frame = frame;
                    },
                    None => {},
                }
                match seq.rest() {
                    Some(rest) => Progress::Next(rest),
                    None => Progress::Done(Ok(())),
                }
            },
        }
    }
}

impl<I2C: Transport> IS31FL3731<I2C> {
    /// Hands one transaction to the bus and records it.
    fn transfer(&mut self, bytes: &[u8]) -> (outcome: Result<(), I2C::Error>)
        ensures
            final(self).bus_address() == old(self).bus_address(),
            final(self).selected_frame() == old(self).selected_frame(),
            final(self).trace() == old(self).trace().push(
                Exchange::Wrote { address: old(self).bus_address(), bytes: bytes@, outcome },
            ),
    {
        let outcome = self.i2c.write(self.address, bytes);
        self.trace = Ghost(
            self.trace@.push(Exchange::Wrote { address: self.address, bytes: bytes@, outcome }),
        );
        outcome
    }

    /// Pauses and records the pause.
    fn pause<D: Delay>(&mut self, delay: &mut D, ms: u32)
        ensures
            final(self).bus() == old(self).bus(),
            final(self).bus_address() == old(self).bus_address(),
            final(self).selected_frame() == old(self).selected_frame(),
            final(self).trace() == old(self).trace().push(Exchange::Waited { ms }),
    {
        delay.delay_ms(ms);
        self.trace = Ghost(self.trace@.push(Exchange::Waited { ms }));
    }

    /// Drives a sequence of writes to its end. The sequence holds no pause, so
    /// none is taken.
    pub(crate) fn run(&mut self, seq: Sequence) -> (r: Result<(), I2C::Error>)
        requires
            seq.position() == 0,
            writes_only(seq.script()),
        ensures
            final(self).issued(old(self), seq.script(), r),
            final(self).selected_frame() == frame_once(
                seq.selects(),
                successes(old(self).trace(), final(self).trace(), r),
                old(self).selected_frame(),
            ),
    {
        let mut never = NoPause;
        self.run_with(seq, &mut never)
    }

    /// Drives a sequence to its end, pausing where it says so.
    fn run_with<D: Delay>(&mut self, seq: Sequence, delay: &mut D) -> (r: Result<(), I2C::Error>)
        requires
            seq.position() == 0,
        ensures
            final(self).issued(old(self), seq.script(), r),
            final(self).selected_frame() == frame_once(
                seq.selects(),
                successes(old(self).trace(), final(self).trace(), r),
                old(self).selected_frame(),
            ),
    {
        let ghost script = seq.script();
        let ghost select = seq.selects();
        let ghost before = self.trace();
        let ghost address = self.bus_address();
        let ghost frame = self.selected_frame();
        let mut todo = seq;
        assert(self.trace() =~= before + ran(script, address, 0, Ok::<(), I2C::Error>(())));
        loop
            invariant
                todo.script() == script,
                todo.selects() == select,
                script == seq.script(),
                select == seq.selects(),
                self.bus_address() == address,
                address == old(self).bus_address(),
                before == old(self).trace(),
                frame == old(self).selected_frame(),
                self.selected_frame() == frame_once(select, todo.position() as int, frame),
                self.trace() == before + ran(
                    script,
                    address,
                    todo.position(),
                    Ok::<(), I2C::Error>(()),
                ),
            decreases todo.script().len() - todo.position(),
        {
            let ghost at = todo.position();
            let outcome = match todo.current() {
                Step::Write(bytes) => self.transfer(bytes.as_slice()),
                Step::Delay(ms) => {
                    self.pause(delay, *ms);
                    Ok(())
                },
            };
            proof {
                if outcome is Ok {
                    lemma_one_success(outcome);
                }
            }
            assert(self.trace() =~= before + ran(script, address, at + 1, outcome));
            match self.advance(todo, outcome) {
                Progress::Next(rest) => {
                    todo = rest;
                },
                Progress::Done(r) => {
                    return r;
                },
            }
        }
    }
    /// Selects `bank` for the writes that follow.
    pub fn bank_blocking(&mut self, bank: u8) -> (r: Result<(), I2C::Error>)
        ensures
            final(self).issued(old(self), seq![bank_select(bank)], r),
            final(self).selected_frame() == old(self).selected_frame(),
    {
        let seq = self.bank(bank);
        self.run(seq)
    }

    /// Sets one register of a bank: the bank select, then the register with
    /// its value. The selected frame of the handle follows `frame_blocking`
    /// alone, not a write of the frame register made here.
    pub fn write_register_blocking(&mut self, bank: u8, register: u8, value: u8) -> (r: Result<
        (),
        I2C::Error,
    >)
        ensures
            final(self).issued(old(self), register_write(bank, register, value), r),
            final(self).selected_frame() == old(self).selected_frame(),
    {
        let seq = self.write_register(bank, register, value);
        self.run(seq)
    }

    /// Fills `frame` with one brightness and, where `blink` is given, sets
    /// all its LEDs to blink or not to blink.
    pub fn fill_blocking(&mut self, brightness: u8, blink: Option<bool>, frame: u8) -> (r: Result<
        (),
        I2C::Error,
    >)
        ensures
            final(self).issued(old(self), fill_script(brightness, blink, frame), r),
            final(self).selected_frame() == old(self).selected_frame(),
    {
        let seq = self.fill(brightness, blink, frame);
        proof {
            lemma_fill_script(brightness, blink, frame);
        }
        self.run(seq)
    }

    /// Brings the chip up: sleep, settle, picture mode, frame 0, every frame
    /// cleared and enabled, audio sync off, wake. Frame 0 is the selected
    /// frame as soon as the write that selects it has succeeded.
    pub fn setup_blocking<D: Delay>(&mut self, delay: &mut D) -> (r: Result<
        (),
        Error<I2C::Error>,
    >)
        ensures
            from_bus(r),
            final(self).issued(old(self), setup_script(), bus_result(r)),
            final(self).selected_frame() == frame_once(
                Some((SETUP_SELECT_AT as nat, 0u8)),
                successes(old(self).trace(), final(self).trace(), bus_result(r)),
                old(self).selected_frame(),
            ),
    {
        let seq = self.setup();
        lift(self.run_with(seq, delay))
    }

    /// Sets the brightness of one LED of the selected frame. An `led` that is
    /// no LED index is refused before anything is sent.
    pub fn pixel_blocking(&mut self, led: u8, brightness: u8) -> (r: Result<(), Error<I2C::Error>>)
        ensures
            final(self).selected_frame() == old(self).selected_frame(),
            if led < LEDS {
                &&& from_bus(r)
                &&& final(self).issued(
                    old(self),
                    pixel_script(old(self).selected_frame(), led, brightness),
                    bus_result(r),
                )
            } else {
                &&& r == Err::<(), Error<I2C::Error>>(Error::InvalidLocation(led))
                &&& final(self).untouched(old(self))
            },
    {
        match self.pixel(led, brightness) {
            Ok(seq) => lift(self.run(seq)),
            Err(refused) => Err(refused),
        }
    }

    /// Sets the brightness of all 144 LEDs of the selected frame in one
    /// transaction.
    pub fn all_pixels_blocking(&mut self, buf: &[u8; 144]) -> (r: Result<(), Error<I2C::Error>>)
        ensures
            from_bus(r),
            final(self).issued(
                old(self),
                all_pixels_script(old(self).selected_frame(), buf@),
                bus_result(r),
            ),
            final(self).selected_frame() == old(self).selected_frame(),
    {
        let seq = self.all_pixels(buf);
        lift(self.run(seq))
    }

    /// Selects `frame` on the chip. A `frame` that is no frame number is
    /// refused before anything is sent. The handle's selected frame changes
    /// only when the chip took the new one.
    pub fn frame_blocking(&mut self, frame: u8) -> (r: Result<(), Error<I2C::Error>>)
        ensures
            if frame < FRAMES {
                &&& from_bus(r)
                &&& final(self).issued(old(self), frame_script(frame), bus_result(r))
                &&& final(self).selected_frame() == if r is Ok {
                    frame
                } else {
                    old(self).selected_frame()
                }
            } else {
                &&& r == Err::<(), Error<I2C::Error>>(Error::InvalidLocation(frame))
                &&& final(self).untouched(old(self))
            },
    {
        match self.frame(frame) {
            Ok(seq) => lift(self.run(seq)),
            Err(refused) => Err(refused),
        }
    }

    /// Resets the chip: sleep, settle, wake.
    pub fn reset_blocking<D: Delay>(&mut self, delay: &mut D) -> (r: Result<(), I2C::Error>)
        ensures
            final(self).issued(old(self), reset_script(), r),
            final(self).selected_frame() == old(self).selected_frame(),
    {
        let seq = self.reset();
        self.run_with(seq, delay)
    }

    /// Sets the display mode.
    pub fn mode_blocking(&mut self, mode: u8) -> (r: Result<(), I2C::Error>)
        ensures
            final(self).issued(old(self), mode_script(mode), r),
            final(self).selected_frame() == old(self).selected_frame(),
    {
        let seq = self.mode(mode);
        self.run(seq)
    }

    /// Switches audio sync on or off.
    pub fn audio_sync_blocking(&mut self, yes: bool) -> (r: Result<(), I2C::Error>)
        ensures
            final(self).issued(old(self), audio_sync_script(yes), r),
            final(self).selected_frame() == old(self).selected_frame(),
    {
        let seq = self.audio_sync(yes);
        self.run(seq)
    }

    /// Puts the chip to sleep or wakes it.
    pub fn sleep_blocking(&mut self, yes: bool) -> (r: Result<(), I2C::Error>)
        ensures
            final(self).issued(old(self), sleep_script(yes), r),
            final(self).selected_frame() == old(self).selected_frame(),
    {
        let seq = self.sleep(yes);
        self.run(seq)
    }
}

} // verus!
