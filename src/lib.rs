//! Driver for the GP2Y1014AU optical dust sensor.
//!
//! The sensor's infrared emitter must be switched on right before an analog
//! sample is taken and switched off again afterwards. The hardware itself is
//! reached through capabilities that the host supplies: an output line for the
//! emitter and a one-shot analog converter. This crate owns those capabilities
//! ([`Gp2y1014au`]) and decides, step by step, what a reading does
//! ([`ReadCycle`]); the host performs each step and reports its outcome.

use vstd::prelude::*;

pub mod cycle;
pub mod driver;
pub mod error;

pub use cycle::{Action, Conversion, Event, ReadCycle};
pub use driver::Gp2y1014au;
pub use error::Error;

verus! {

} // verus!
