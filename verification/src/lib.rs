//! Driver core for the IS31FL3731, a controller for a matrix of 144 LEDs on a
//! two-wire bus.
//!
//! The chip's registers live in banks: one bank of device-wide configuration
//! and nine frames, each a page of per-LED brightness, blink and enable
//! registers. Every register write is preceded by a write that selects its
//! bank. This crate fixes, for each operation, the exact bus work it consists
//! of, and proves that its code issues that work and nothing else.
//!
//! - [`script`] defines the work of each operation as a list of actions.
//! - [`sequence`] holds an operation in flight, one step at a time, for a
//!   caller that carries the steps out itself.
//! - [`device`] is the handle on one chip; its blocking operations carry the
//!   steps out on a [`Transport`] and record them in the handle's [`trace`].
//! - [`layout`] and [`devices`] map the coordinates of the supported boards
//!   to LED indices.
//! - [`gamma`] corrects brightness for the eye.

pub mod addresses;
mod builder;
pub mod device;
pub mod devices;
pub mod error;
pub mod gamma;
pub mod layout;
pub mod script;
pub mod sequence;
pub mod trace;
pub mod transport;

pub use crate::device::IS31FL3731;
pub use crate::error::Error;
pub use crate::gamma::gamma;
pub use crate::script::Step;
pub use crate::sequence::{Progress, Sequence};
pub use crate::transport::{Delay, ErrorType, Transport};
