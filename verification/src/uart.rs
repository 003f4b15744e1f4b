//! Asynchronous serial port configuration values.
//!
//! Only the pure configuration arithmetic lives here; the serial port itself
//! is a simple register wrapper outside the verified core.

use vstd::prelude::*;

pub mod config;

verus! {

/// Clock used by the serial peripheral: 50 MHz.
pub const APB0: usize = 50_000_000;
/// Core clock oscillator: 24 MHz.
pub const CLK_OSC: usize = 24_000_000;
/// Transaction timeout in microseconds.
pub const TIMEOUT_US: u64 = 1_000_000;

} // verus!
