//! The capabilities the driver consumes: a bus to write to and a way to wait.
//!
//! The library makes no assumption on how an implementation behaves. What a
//! blocking operation hands to these traits, and what it does with the
//! answers, is recorded in the device handle's trace.

use vstd::prelude::*;

verus! {

/// Names what a bus reports when a transaction fails.
pub trait ErrorType {
    /// The failure of a transaction.
    type Error;
}

/// A two-wire bus on which the chip listens, written to by a call that
/// returns when the transaction is over.
pub trait Transport: ErrorType {
    /// Sends `bytes` to the device at the 7-bit `address` in one transaction.
    fn write(&mut self, address: u8, bytes: &[u8]) -> Result<(), Self::Error>;
}

/// A way to pause.
pub trait Delay {
    /// Pauses for at least `ms` milliseconds.
    fn delay_ms(&mut self, ms: u32);
}

} // verus!
