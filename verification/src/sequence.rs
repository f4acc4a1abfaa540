//! An operation in flight: its script and how far it has come.
//!
//! A sequence always has a current step. Whoever drives it carries that step
//! out and reports the outcome to the device handle, which answers with the
//! rest of the sequence or with the operation's result.

use crate::addresses::FRAMES;
use crate::script::{actions, Action, Step};
use vstd::prelude::*;

verus! {

/// An operation that has begun and is not over.
pub struct Sequence {
    steps: Vec<Step>,
    next: usize,
    select: Option<(usize, u8)>,
}

/// What reporting an outcome leads to.
pub enum Progress<E> {
    /// More work: the sequence, now at its next step.
    Next(Sequence),
    /// The operation is over, with this result.
    Done(Result<(), E>),
}

impl Sequence {
    #[verifier::type_invariant]
    spec fn pending(&self) -> bool {
        &&& self.next < self.steps.len()
        &&& self.select matches Some((_, frame)) ==> frame < FRAMES
    }

    /// The whole script of the operation.
    pub closed spec fn script(&self) -> Seq<Action> {
        actions(self.steps@)
    }

    /// How many steps were completed.
    pub closed spec fn position(&self) -> nat {
        self.next as nat
    }

    /// The step that writes the chip's frame register, if the script has one,
    /// with the frame it writes: once that step has succeeded, that frame is
    /// the selected one.
    pub closed spec fn selects(&self) -> Option<(nat, u8)> {
        match self.select {
            Some((at, frame)) => Some((at as nat, frame)),
            None => None,
        }
    }

    /// The frame that is selected once the current step has succeeded, where
    /// `frame` was selected before it.
    pub open spec fn frame_after(&self, frame: u8) -> u8 {
        match self.selects() {
            Some((at, selected)) if at == self.position() => selected,
            _ => frame,
        }
    }

    /// Starts on `steps`.
    pub(crate) fn begin(steps: Vec<Step>, select: Option<(usize, u8)>) -> (seq: Sequence)
        requires
            steps.len() > 0,
            select matches Some((_, frame)) ==> frame < FRAMES,
        ensures
            seq.script() == actions(steps@),
            seq.position() == 0,
            seq.selects() == match select {
                Some((at, frame)) => Some((at as nat, frame)),
                None => None,
            },
    {
        Sequence { steps, next: 0, select }
    }

    /// The step to carry out now.
    pub fn current(&self) -> (step: &Step)
        ensures
            self.position() < self.script().len(),
            step@ == self.script()[self.position() as int],
    {
        proof {
            use_type_invariant(self);
        }
        &self.steps[self.next]
    }

    /// Steps of the script, completed ones included.
    pub fn len(&self) -> (n: usize)
        ensures
            n == self.script().len(),
            self.position() < n,
    {
        proof {
            use_type_invariant(self);
        }
        self.steps.len()
    }

    /// Steps completed so far.
    pub fn completed(&self) -> (n: usize)
        ensures
            n == self.position(),
    {
        self.next
    }

    /// The frame that the current step selects, if it selects one.
    pub(crate) fn selecting(&self) -> (frame: Option<u8>)
        ensures
            frame == match self.selects() {
                Some((at, selected)) if at == self.position() => Some(selected),
                _ => None,
            },
            frame matches Some(selected) ==> selected < FRAMES,
    {
        proof {
            use_type_invariant(self);
        }
        match self.select {
            Some((at, frame)) => if at == self.next {
                Some(frame)
            } else {
                None
            },
            None => None,
        }
    }

    /// The sequence after its current step, or nothing when that was the last.
    pub(crate) fn rest(self) -> (rest: Option<Sequence>)
        ensures
            match rest {
                Some(seq) => {
                    &&& self.position() + 1 < self.script().len()
                    &&& seq.script() == self.script()
                    &&& seq.position() == self.position() + 1
                    &&& seq.selects() == self.selects()
                },
                None => self.position() + 1 == self.script().len(),
            },
    {
        proof {
            use_type_invariant(&self);
        }
        if self.next + 1 < self.steps.len() {
            Some(Sequence { steps: self.steps, next: self.next + 1, select: self.select })
        } else {
            None
        }
    }
}

} // verus!
