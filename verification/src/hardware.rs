//! Bring-up of the board: the serial transmitter and the LED pin, each
//! configured once and handed out together.

use vstd::prelude::*;
use embassy_stm32::peripherals::PA5;
use embassy_stm32::usart::ConfigError;
use embassy_stm32::Peripherals;
use crate::hal::{
    open_output, open_serial_tx, pin_setup, serial_setup, take_board_pins, OutputPin, SerialTx,
};
use crate::settings::{
    BoardSetup, Drive, Level, LineFormat, OutputSetup, Parity, SerialSetup, Speed, StopBits,
    Transfer,
};

verus! {

/// Why bring-up stopped.
#[derive(Clone, Copy, Debug, PartialEq, Eq)]
pub enum InitError {
    /// The serial driver refused the format of the virtual COM port.
    SerialRejected(ConfigError),
}

impl From<ConfigError> for InitError {
    fn from(cause: ConfigError) -> (e: InitError) {
        InitError::SerialRejected(cause)
    }
}

impl vstd::std_specs::convert::FromSpecImpl<ConfigError> for InitError {
    open spec fn obeys_from_spec() -> bool {
        true
    }

    open spec fn from_spec(cause: ConfigError) -> InitError {
        InitError::SerialRejected(cause)
    }
}

/// The configured peripherals of the board. Whoever holds the value owns
/// both; it cannot be copied, and only [`Hardware::init`] makes one.
pub struct Hardware {
    /// User LED (LD2, green) on PA5.
    pub led: OutputPin,
    /// Transmitter of USART2, wired to the virtual COM port of the debug
    /// probe.
    pub usart: SerialTx,
    sealed: (),
}

impl View for Hardware {
    type V = BoardSetup;

    /// How the two handles were opened.
    closed spec fn view(&self) -> BoardSetup {
        BoardSetup { led: pin_setup(self.led), serial: serial_setup(self.usart) }
    }
}

impl Hardware {
    /// Both peripherals were opened as the board wants them: the LED off on
    /// a slow push-pull output, the serial line at 115200 baud, 8N1, without
    /// DMA.
    pub open spec fn wf(&self) -> bool {
        self@ == BoardSetup::nucleo()
    }

    /// Configures the serial transmitter, then the LED, and returns both.
    ///
    /// Fails when the serial driver refuses the request, before the LED pin
    /// is touched. There is nothing to fall back on: the caller is expected
    /// to halt.
    pub fn init(p: Peripherals) -> (r: Result<Hardware, InitError>)
        ensures
            r matches Ok(hw) ==> hw.wf(),
    {
        let (usart, tx, led_pin) = take_board_pins(p);
        let serial = open_serial_tx(usart, tx, SerialSetup::virtual_com_port().format);
        Self::finish(serial, led_pin)
    }

    /// The second half of bring-up, given how the serial request went.
    ///
    /// With a transmitter, the LED pin is configured and the two are
    /// bundled. With a refusal, the pin is dropped as it came and the
    /// refusal is handed on.
    fn finish(serial: Result<SerialTx, ConfigError>, led_pin: PA5) -> (r: Result<
        Hardware,
        InitError,
    >)
        ensures
            match serial {
                Ok(tx) => r matches Ok(hw) && hw.usart == tx && hw@ == (BoardSetup {
                    led: OutputSetup::spec_user_led(),
                    serial: serial_setup(tx),
                }),
                Err(cause) => r == Err::<Hardware, InitError>(InitError::SerialRejected(cause)),
            },
    {
        match serial {
            Ok(usart) => {
                let led = OutputSetup::user_led();
                let led = open_output(led_pin, led.initial, led.speed);
                Ok(Hardware { led, usart, sealed: () })
            },
            Err(cause) => Err(InitError::from(cause)),
        }
    }
}

/// A bundle fresh from bring-up has its LED off: the line is a push-pull
/// output at the slowest slew rate, and low.
pub proof fn led_starts_low(hw: Hardware)
    requires
        hw.wf(),
    ensures
        hw@.led.initial == Level::Low,
        hw@.led.drive == Drive::PushPull,
        hw@.led.speed == Speed::Low,
{
}

/// A bundle fresh from bring-up sends at 115200 baud with eight data bits,
/// no parity and one stop bit, and without DMA.
pub proof fn serial_is_115200_8n1_blocking(hw: Hardware)
    requires
        hw.wf(),
    ensures
        hw@.serial.format == (LineFormat {
            baudrate: 115200,
            data_bits: 8,
            parity: Parity::Disabled,
            stop_bits: StopBits::One,
        }),
        hw@.serial.transfer == Transfer::Blocking,
{
}

} // verus!
