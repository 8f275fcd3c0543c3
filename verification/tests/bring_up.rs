use embassy_stm32::usart::ConfigError;
use nucleo_board::InitError;

#[test]
fn refusal_becomes_the_init_error() {
    let e = InitError::from(ConfigError::BaudrateTooHigh);
    assert_eq!(e, InitError::SerialRejected(ConfigError::BaudrateTooHigh));
}

#[test]
fn refusal_is_handed_on_unchanged() {
    for cause in [
        ConfigError::BaudrateTooLow,
        ConfigError::BaudrateTooHigh,
        ConfigError::RxOrTxNotEnabled,
    ] {
        match InitError::from(cause) {
            InitError::SerialRejected(e) => assert_eq!(e, cause),
        }
    }
}
