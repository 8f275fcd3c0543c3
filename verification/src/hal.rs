//! The boundary to the `embassy-stm32` drivers.
//!
//! Everything in this file is taken on trust: the handle types hide a driver
//! value from the verifier, and the contracts of the functions say what the
//! driver's source shows, without proof.

use vstd::prelude::*;
use embassy_stm32::dma::NoDma;
use embassy_stm32::gpio;
use embassy_stm32::peripherals::{PA2, PA5, USART2};
use embassy_stm32::usart;
use embassy_stm32::Peripherals;
use crate::settings::{
    Drive, Level, LineFormat, OutputSetup, Parity, SerialSetup, Speed, StopBits, Transfer,
};

verus! {

/// `embassy_stm32::Peripherals`: the one-time token for all on-chip
/// peripherals.
#[verifier::external_type_specification]
#[verifier::external_body]
pub struct ExPeripherals(Peripherals);

/// `embassy_stm32::peripherals::USART2`.
#[verifier::external_type_specification]
#[verifier::external_body]
pub struct ExUsart2(USART2);

/// `embassy_stm32::peripherals::PA2`, the transmit pin of USART2.
#[verifier::external_type_specification]
#[verifier::external_body]
pub struct ExPa2(PA2);

/// `embassy_stm32::peripherals::PA5`, the pin of the user LED.
#[verifier::external_type_specification]
#[verifier::external_body]
pub struct ExPa5(PA5);

/// `embassy_stm32::usart::ConfigError`.
#[verifier::external_type_specification]
#[verifier::external_body]
pub struct ExConfigError(usart::ConfigError);

/// PA5 as an output. Holds `embassy_stm32::gpio::Output`, which the verifier
/// cannot be told of: the type is bounded by a trait of the driver crate.
#[verifier::external_body]
pub struct OutputPin {
    pub pin: gpio::Output<'static, PA5>,
}

/// USART2 as a transmitter. Holds `embassy_stm32::usart::UartTx`, hidden for
/// the same reason as the pin.
#[verifier::external_body]
pub struct SerialTx {
    pub port: usart::UartTx<'static, USART2, NoDma>,
}

/// The setup that an output pin was opened with.
pub uninterp spec fn pin_setup(pin: OutputPin) -> OutputSetup;

/// The setup that a transmitter was opened with.
pub uninterp spec fn serial_setup(tx: SerialTx) -> SerialSetup;

/// Picks out of the token the three peripherals that bring-up uses; the
/// others are dropped with it.
#[verifier::external_body]
pub(crate) fn take_board_pins(p: Peripherals) -> (USART2, PA2, PA5) {
    (p.USART2, p.PA2, p.PA5)
}

/// `UartTx::new` on USART2 with PA2 as transmit pin and `NoDma`.
///
/// The driver programs baud rate, parity and stop bits as asked, with an
/// eight-bit data word whatever `Config::data_bits` holds, so that field is
/// left as it is. Given `NoDma`, the transmitter offers blocking writes
/// only. The driver refuses a baud rate that the peripheral clock cannot
/// give; nothing is claimed of when. It divides by the baud rate and then
/// adds half of it to a remainder, which `programmable` keeps in range.
#[verifier::external_body]
pub(crate) fn open_serial_tx(
    usart: USART2,
    tx: PA2,
    format: LineFormat,
) -> (r: Result<SerialTx, usart::ConfigError>)
    requires
        format.programmable(),
    ensures
        r matches Ok(port) ==> serial_setup(port) == (SerialSetup {
            format,
            transfer: Transfer::Blocking,
        }),
{
    let mut config = usart::Config::default();
    config.baudrate = format.baudrate;
    config.parity = match format.parity {
        Parity::Disabled => usart::Parity::ParityNone,
        Parity::Even => usart::Parity::ParityEven,
        Parity::Odd => usart::Parity::ParityOdd,
    };
    config.stop_bits = match format.stop_bits {
        StopBits::One => usart::StopBits::STOP1,
        StopBits::Half => usart::StopBits::STOP0P5,
        StopBits::Two => usart::StopBits::STOP2,
        StopBits::OneAndHalf => usart::StopBits::STOP1P5,
    };
    usart::UartTx::new(usart, tx, NoDma, config).map(|port| SerialTx { port })
}

/// `Output::new` on PA5.
///
/// The driver sets the output latch to the initial level first, then makes
/// the line a push-pull output at the speed given.
#[verifier::external_body]
pub(crate) fn open_output(pin: PA5, initial: Level, speed: Speed) -> (led: OutputPin)
    ensures
        pin_setup(led) == (OutputSetup { drive: Drive::PushPull, initial, speed }),
{
    let level = match initial {
        Level::Low => gpio::Level::Low,
        Level::High => gpio::Level::High,
    };
    let speed = match speed {
        Speed::Low => gpio::Speed::Low,
        Speed::Medium => gpio::Speed::Medium,
        Speed::High => gpio::Speed::High,
        Speed::VeryHigh => gpio::Speed::VeryHigh,
    };
    OutputPin { pin: gpio::Output::new(pin, level, speed) }
}

} // verus!
