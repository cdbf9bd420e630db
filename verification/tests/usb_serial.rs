use analog_noise_test1::usb_serial::{
    make_uppercase, requests_bootloader, EchoAction, EchoEvent, SerialEcho, BOOTLOADER_BAUD_RATE,
};
use usb_device::UsbError;

#[test]
fn uppercase_changes_only_lower_case_letters() {
    let mut buf = b"Hello, World! az{`@[09".to_vec();
    make_uppercase(&mut buf);
    assert_eq!(buf, b"HELLO, WORLD! AZ{`@[09".to_vec());
    let mut again = buf.clone();
    make_uppercase(&mut again);
    assert_eq!(again, buf);
    let mut high = vec![0xe1u8, 0x7f, 0x60, 0x7b];
    make_uppercase(&mut high);
    assert_eq!(high, vec![0xe1u8, 0x7f, 0x60, 0x7b]);
}

#[test]
fn bootloader_is_requested_at_1200_baud_only() {
    assert!(requests_bootloader(1200));
    assert!(!requests_bootloader(9600));
    assert!(!requests_bootloader(115200));
    assert_eq!(BOOTLOADER_BAUD_RATE, 1200);
}

#[test]
fn echo_sends_back_upper_case_in_pieces() {
    let mut echo = SerialEcho::new();
    assert!(matches!(echo.pending(), EchoAction::ReadDataRate));
    assert!(matches!(echo.step(EchoEvent::DataRate(9600)), EchoAction::Poll));
    assert!(matches!(echo.step(EchoEvent::Polled(false)), EchoAction::ReadDataRate));
    assert!(matches!(echo.step(EchoEvent::DataRate(9600)), EchoAction::Poll));
    assert!(matches!(echo.step(EchoEvent::Polled(true)), EchoAction::Read));
    assert!(matches!(echo.step(EchoEvent::Received(Ok(b"abc!".to_vec()))), EchoAction::LedOn));
    match echo.step(EchoEvent::LedSet) {
        EchoAction::Write(b) => assert_eq!(b, b"ABC!".to_vec()),
        other => panic!("unexpected {:?}", other),
    }
    match echo.step(EchoEvent::Written(Ok(2))) {
        EchoAction::Write(b) => assert_eq!(b, b"C!".to_vec()),
        other => panic!("unexpected {:?}", other),
    }
    match echo.step(EchoEvent::Written(Ok(0))) {
        EchoAction::Write(b) => assert_eq!(b, b"C!".to_vec()),
        other => panic!("unexpected {:?}", other),
    }
    match echo.step(EchoEvent::Written(Err(UsbError::WouldBlock))) {
        EchoAction::Write(b) => assert_eq!(b, b"C!".to_vec()),
        other => panic!("unexpected {:?}", other),
    }
    assert!(matches!(echo.step(EchoEvent::Written(Ok(2))), EchoAction::LedOff));
    assert!(matches!(echo.step(EchoEvent::LedSet), EchoAction::ReadDataRate));
}

#[test]
fn echo_skips_empty_and_failed_reads() {
    let mut echo = SerialEcho::new();
    echo.step(EchoEvent::DataRate(115200));
    echo.step(EchoEvent::Polled(true));
    assert!(matches!(echo.step(EchoEvent::Received(Ok(vec![]))), EchoAction::LedOff));
    assert!(matches!(echo.step(EchoEvent::LedSet), EchoAction::ReadDataRate));
    echo.step(EchoEvent::DataRate(115200));
    echo.step(EchoEvent::Polled(true));
    assert!(matches!(echo.step(EchoEvent::Received(Err(UsbError::WouldBlock))), EchoAction::LedOff));
}

#[test]
fn echo_enters_bootloader_at_1200_baud() {
    let mut echo = SerialEcho::new();
    assert!(matches!(echo.step(EchoEvent::DataRate(1200)), EchoAction::EnterBootloader));
    assert!(matches!(echo.step(EchoEvent::Polled(true)), EchoAction::EnterBootloader));
}

#[test]
fn echo_ignores_events_that_answer_nothing() {
    let mut echo = SerialEcho::new();
    assert!(matches!(echo.step(EchoEvent::LedSet), EchoAction::ReadDataRate));
    assert!(matches!(echo.step(EchoEvent::Polled(true)), EchoAction::ReadDataRate));
}
