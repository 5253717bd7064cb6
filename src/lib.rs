//! Driver core for a UWB radio transceiver: the 40-bit clock model, the
//! decisions of the transmit/receive state machine, the ranging messages and
//! their wire format, and the double-sided two-way-ranging distance.
//!
//! The library performs no bus transactions itself. It says which register
//! operations start a transmission or a reception, how the status register
//! is to be read while polling, and how frames are encoded, decoded and
//! turned into a distance.
use vstd::prelude::*;

pub mod codec;
pub mod hl;
pub mod ll;
pub mod mac;
pub mod ranging;
pub mod time;
pub mod util;

pub use hl::Error;
pub use time::{Duration, Instant, TIME_MAX};

verus! {

} // verus!
