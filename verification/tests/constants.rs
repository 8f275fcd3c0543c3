use nucleo_board::messages::{LED_OFF, LED_ON};
use nucleo_board::LED_BLINK_INTERVAL_MS;

#[test]
fn blink_interval_is_500_ms() {
    assert_eq!(LED_BLINK_INTERVAL_MS, 500u64);
}

#[test]
fn blink_cycle_is_one_second() {
    assert_eq!(2 * LED_BLINK_INTERVAL_MS, 1000);
}

#[test]
fn led_on_is_the_exact_text() {
    assert_eq!(&LED_ON[..], &b"LED ON\r\n"[..]);
    assert_eq!(LED_ON.len(), 8);
}

#[test]
fn led_off_is_the_exact_text() {
    assert_eq!(&LED_OFF[..], &b"LED OFF\r\n"[..]);
    assert_eq!(LED_OFF.len(), 9);
}

#[test]
fn messages_end_in_cr_lf_and_nowhere_else() {
    for message in [&LED_ON[..], &LED_OFF[..]] {
        let (text, end) = message.split_at(message.len() - 2);
        assert_eq!(end, &[0x0d, 0x0a][..]);
        assert!(text.iter().all(|b| (0x20..=0x7e).contains(b)));
    }
}

#[test]
fn messages_have_no_padding() {
    assert_eq!(LED_ON[0], b'L');
    assert_eq!(LED_OFF[0], b'L');
    assert_eq!(LED_ON[5], b'N');
    assert_eq!(LED_OFF[6], b'F');
}

#[test]
fn messages_differ() {
    assert_ne!(&LED_ON[..], &LED_OFF[..]);
}
