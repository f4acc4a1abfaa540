//! The record of the work a device handle has carried out, and what it means
//! for an operation to have run a script.

use crate::script::Action;
use vstd::prelude::*;

verus! {

/// One unit of work that was carried out.
pub enum Exchange<E> {
    /// `bytes` were handed to the bus for the device at `address`, and the
    /// bus answered with `outcome`.
    Wrote { address: u8, bytes: Seq<u8>, outcome: Result<(), E> },
    /// A pause of `ms` milliseconds was taken.
    Waited { ms: u32 },
}

/// The record that carrying out `action` leaves, where the bus answers a
/// write with `outcome`.
pub open spec fn exchange_of<E>(action: Action, address: u8, outcome: Result<(), E>) -> Exchange<
    E,
> {
    match action {
        Action::Write { bytes } => Exchange::Wrote { address, bytes, outcome },
        Action::Delay { ms } => Exchange::Waited { ms },
    }
}

/// The records of the first `count` actions of `script`: all succeeded but
/// the last, which had `result`.
pub open spec fn ran<E>(script: Seq<Action>, address: u8, count: nat, result: Result<(), E>) -> Seq<
    Exchange<E>,
> {
    Seq::new(
        count,
        |i: int|
            exchange_of(
                script[i],
                address,
                if i + 1 < count {
                    Ok(())
                } else {
                    result
                },
            ),
    )
}

/// `after` is `before` extended by a run of `script` that ended with
/// `result`: the actions in order, each begun only after the one before it
/// succeeded. A run that ended well carried out the whole script. A run that
/// ended with a failure ended with the write that failed, and the failure is
/// what the bus answered to that write.
pub open spec fn performed<E>(
    script: Seq<Action>,
    address: u8,
    before: Seq<Exchange<E>>,
    after: Seq<Exchange<E>>,
    result: Result<(), E>,
) -> bool {
    let count = after.len() - before.len();
    &&& 0 <= count <= script.len()
    &&& after == before + ran(script, address, count as nat, result)
    &&& result is Ok ==> count == script.len()
    &&& result is Err ==> count > 0 && script[count - 1] is Write
}

/// How many actions of a run succeeded, where the run extended `before` to
/// `after` and ended with `result`.
pub open spec fn successes<E>(
    before: Seq<Exchange<E>>,
    after: Seq<Exchange<E>>,
    result: Result<(), E>,
) -> int {
    if result is Ok {
        after.len() - before.len()
    } else {
        after.len() - before.len() - 1
    }
}

/// The selected frame after the first `done` actions of a script succeeded,
/// where `frame` was selected before and `selects` names the script's write to
/// the frame register.
pub open spec fn frame_once(selects: Option<(nat, u8)>, done: int, frame: u8) -> u8 {
    match selects {
        Some((at, selected)) if at < done => selected,
        _ => frame,
    }
}

} // verus!
