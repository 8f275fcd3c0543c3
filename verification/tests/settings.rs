use nucleo_board::settings::{
    Drive, Level, LineFormat, OutputSetup, Parity, SerialSetup, Speed, StopBits, Transfer,
};

#[test]
fn user_led_starts_low() {
    assert_eq!(OutputSetup::user_led().initial, Level::Low);
}

#[test]
fn user_led_is_a_slow_push_pull_output() {
    assert_eq!(OutputSetup::user_led().drive, Drive::PushPull);
    assert_eq!(OutputSetup::user_led().speed, Speed::Low);
}

#[test]
fn user_led_setup_is_exact() {
    assert_eq!(
        OutputSetup::user_led(),
        OutputSetup { drive: Drive::PushPull, initial: Level::Low, speed: Speed::Low }
    );
}

#[test]
fn virtual_com_port_is_115200_8n1() {
    let format = SerialSetup::virtual_com_port().format;
    assert_eq!(format.baudrate, 115200);
    assert_eq!(format.data_bits, 8);
    assert_eq!(format.parity, Parity::Disabled);
    assert_eq!(format.stop_bits, StopBits::One);
}

#[test]
fn virtual_com_port_has_no_dma() {
    assert_eq!(SerialSetup::virtual_com_port().transfer, Transfer::Blocking);
}

#[test]
fn virtual_com_port_setup_is_exact() {
    assert_eq!(
        SerialSetup::virtual_com_port(),
        SerialSetup {
            format: LineFormat {
                baudrate: 115200,
                data_bits: 8,
                parity: Parity::Disabled,
                stop_bits: StopBits::One,
            },
            transfer: Transfer::Blocking,
        }
    );
}

#[test]
fn virtual_com_port_baud_rate_can_be_divided_by() {
    let baudrate = SerialSetup::virtual_com_port().format.baudrate;
    assert!(baudrate > 0);
    assert!((baudrate - 1).checked_add(baudrate / 2).is_some());
}

#[test]
fn settings_are_the_same_on_every_call() {
    assert_eq!(SerialSetup::virtual_com_port(), SerialSetup::virtual_com_port());
    assert_eq!(OutputSetup::user_led(), OutputSetup::user_led());
}
