//! Board support for an STM32F303RE Nucleo that blinks its user LED and
//! reports each change on the virtual COM port.
//!
//! [`Hardware::init`] turns the peripheral token into the two configured
//! handles; [`messages`] holds the lines to send and
//! [`LED_BLINK_INTERVAL_MS`] the pace.

use vstd::prelude::*;

pub mod hal;
pub mod hardware;
pub mod messages;
pub mod settings;

pub use hardware::{Hardware, InitError};

verus! {

/// Time the LED stays on, and then off, in milliseconds.
pub const LED_BLINK_INTERVAL_MS: u64 = 500;

} // verus!
