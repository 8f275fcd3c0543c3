//! Plain descriptions of how a pin and a serial line are set up.
//!
//! These are the values that bring-up hands to the drivers and that the
//! contracts speak of; none of them touches the hardware.

use vstd::prelude::*;

verus! {

/// Logical level of a digital line.
#[derive(Clone, Copy, Debug, PartialEq, Eq, Structural)]
pub enum Level {
    Low,
    High,
}

/// Slew rate of an output, slowest first.
#[derive(Clone, Copy, Debug, PartialEq, Eq, Structural)]
pub enum Speed {
    Low,
    Medium,
    High,
    VeryHigh,
}

/// How an output stage drives its line.
#[derive(Clone, Copy, Debug, PartialEq, Eq, Structural)]
pub enum Drive {
    /// Sources and sinks current: both levels are driven.
    PushPull,
    /// Sinks current only: the high level is left to a pull-up.
    OpenDrain,
}

/// Parity bit of a serial frame.
#[derive(Clone, Copy, Debug, PartialEq, Eq, Structural)]
pub enum Parity {
    Disabled,
    Even,
    Odd,
}

/// Stop bits that close a serial frame.
#[derive(Clone, Copy, Debug, PartialEq, Eq, Structural)]
pub enum StopBits {
    One,
    Half,
    Two,
    OneAndHalf,
}

/// How bytes get from memory into the transmitter.
#[derive(Clone, Copy, Debug, PartialEq, Eq, Structural)]
pub enum Transfer {
    /// The processor writes each byte and waits for the transmitter.
    Blocking,
    /// A DMA channel feeds the transmitter.
    Dma,
}

/// How an output pin starts out.
#[derive(Clone, Copy, Debug, PartialEq, Eq, Structural)]
pub struct OutputSetup {
    pub drive: Drive,
    /// Level driven from the moment the pin becomes an output.
    pub initial: Level,
    pub speed: Speed,
}

/// Framing of a serial line.
#[derive(Clone, Copy, Debug, PartialEq, Eq, Structural)]
pub struct LineFormat {
    /// Nominal bits per second.
    pub baudrate: u32,
    /// Data bits per frame, the parity bit not counted.
    pub data_bits: u8,
    pub parity: Parity,
    pub stop_bits: StopBits,
}

/// How a serial transmitter is set up.
#[derive(Clone, Copy, Debug, PartialEq, Eq, Structural)]
pub struct SerialSetup {
    pub format: LineFormat,
    pub transfer: Transfer,
}

/// How the two peripherals of the board are set up: what a bundle of them
/// is, as far as contracts go.
#[derive(Clone, Copy, Debug, PartialEq, Eq, Structural)]
pub struct BoardSetup {
    pub led: OutputSetup,
    pub serial: SerialSetup,
}

impl LineFormat {
    /// Whether the serial driver can be asked for this format at all: the
    /// data word is eight bits wide, and the baud rate is one by which the
    /// driver can divide the peripheral clock and round in 32 bits.
    pub open spec fn programmable(self) -> bool {
        &&& self.data_bits == 8
        &&& 0 < self.baudrate
        &&& self.baudrate - 1 + self.baudrate / 2 <= u32::MAX
    }
}

impl OutputSetup {
    /// The user LED: push-pull, off at first, slowest slew rate.
    pub open spec fn spec_user_led() -> OutputSetup {
        OutputSetup { drive: Drive::PushPull, initial: Level::Low, speed: Speed::Low }
    }

    /// Setup of the user LED, see [`OutputSetup::spec_user_led`].
    pub fn user_led() -> (setup: OutputSetup)
        ensures
            setup == Self::spec_user_led(),
    {
        OutputSetup { drive: Drive::PushPull, initial: Level::Low, speed: Speed::Low }
    }
}

impl SerialSetup {
    /// The virtual COM port: 115200 baud, eight data bits, no parity, one
    /// stop bit, written byte by byte without DMA.
    pub open spec fn spec_virtual_com_port() -> SerialSetup {
        SerialSetup {
            format: LineFormat {
                baudrate: 115200,
                data_bits: 8,
                parity: Parity::Disabled,
                stop_bits: StopBits::One,
            },
            transfer: Transfer::Blocking,
        }
    }

    /// Setup of the virtual COM port, see
    /// [`SerialSetup::spec_virtual_com_port`].
    pub fn virtual_com_port() -> (setup: SerialSetup)
        ensures
            setup == Self::spec_virtual_com_port(),
            setup.format.programmable(),
    {
        SerialSetup {
            format: LineFormat {
                baudrate: 115200,
                data_bits: 8,
                parity: Parity::Disabled,
                stop_bits: StopBits::One,
            },
            transfer: Transfer::Blocking,
        }
    }
}

impl BoardSetup {
    /// The one setup of this board: [`OutputSetup::spec_user_led`] and
    /// [`SerialSetup::spec_virtual_com_port`].
    pub open spec fn nucleo() -> BoardSetup {
        BoardSetup {
            led: OutputSetup::spec_user_led(),
            serial: SerialSetup::spec_virtual_com_port(),
        }
    }
}

} // verus!
