use analog_noise_test1::ims::{Action, Error, Event, Reply, Transaction, IMS};
use analog_noise_test1::ims_selftest::{test_ims, ImsSelfTest, TestAction, TestEvent};
use embedded_hal::spi::ErrorKind;

fn expect_transfer(a: Action) -> Vec<u8> {
    match a {
        Action::Transfer(bytes) => bytes,
        other => panic!("expected a transfer, got {:?}", other),
    }
}

/// Runs a transaction where every transfer clocks in `replies` in turn.
fn run_ok(mut t: Transaction, replies: Vec<Vec<u8>>) -> (Vec<Vec<u8>>, Result<Reply, Error>) {
    let mut sent = Vec::new();
    assert!(matches!(t.pending(), Action::SelectChip));
    let mut a = t.step(Event::ChipSet);
    for r in replies {
        sent.push(expect_transfer(a));
        a = t.step(Event::Transferred(Ok(r)));
    }
    assert!(matches!(a, Action::DeselectChip));
    match t.step(Event::ChipSet) {
        Action::Finish(result) => (sent, result),
        other => panic!("expected finish, got {:?}", other),
    }
}

#[test]
fn read_sends_header_and_returns_second_byte() {
    let ims = IMS::new();
    let (sent, result) = run_ok(ims.read(0x0f), vec![vec![0xff, 0x33]]);
    assert_eq!(sent, vec![vec![0x8f, 0x00]]);
    assert!(matches!(result, Ok(Reply::Register(0x33))));
}

#[test]
fn read_masks_address_to_six_bits() {
    let ims = IMS::new();
    let (sent, _) = run_ok(ims.read(0xcf), vec![vec![0, 0]]);
    assert_eq!(sent, vec![vec![0x8f, 0x00]]);
}

#[test]
fn write_sends_address_and_value() {
    let ims = IMS::new();
    let (sent, result) = run_ok(ims.write(0xa0, 0x5f), vec![vec![0, 0]]);
    assert_eq!(sent, vec![vec![0x20, 0x5f]]);
    assert!(matches!(result, Ok(Reply::Written)));
}

#[test]
fn auto_increment_accesses_use_two_frames() {
    let ims = IMS::new();
    let (sent, result) = run_ok(ims.write_auto_inc(0x1e, vec![1, 2, 3]), vec![vec![0], vec![7, 8, 9]]);
    assert_eq!(sent, vec![vec![0x5e], vec![1, 2, 3]]);
    match result {
        Ok(Reply::Block(b)) => assert_eq!(b, vec![7, 8, 9]),
        other => panic!("unexpected {:?}", other),
    }
    let (sent, result) = run_ok(ims.read_auto_inc(0x0c, vec![0, 0]), vec![vec![0], vec![0x12, 0x34]]);
    assert_eq!(sent, vec![vec![0xcc], vec![0, 0]]);
    match result {
        Ok(Reply::Block(b)) => assert_eq!(b, vec![0x12, 0x34]),
        other => panic!("unexpected {:?}", other),
    }
}

#[test]
fn failed_transfer_releases_chip_then_reports_error() {
    let ims = IMS::new();
    let mut t = ims.read_auto_inc(0x27, vec![0; 9]);
    t.step(Event::ChipSet);
    let a = t.step(Event::Transferred(Err(ErrorKind::Overrun)));
    assert!(matches!(a, Action::DeselectChip));
    assert!(!t.is_finished());
    match t.step(Event::ChipSet) {
        Action::Finish(Err(Error::SpiError(ErrorKind::Overrun))) => {}
        other => panic!("unexpected {:?}", other),
    }
    assert!(t.is_finished());
}

#[test]
fn stray_events_repeat_the_pending_action() {
    let ims = IMS::new();
    let mut t = ims.read(0x0f);
    assert!(matches!(t.step(Event::Transferred(Ok(vec![1, 2]))), Action::SelectChip));
    assert_eq!(expect_transfer(t.step(Event::ChipSet)), vec![0x8f, 0]);
    assert_eq!(expect_transfer(t.step(Event::ChipSet)), vec![0x8f, 0]);
    // a reply of the wrong length does not answer the transfer
    assert_eq!(expect_transfer(t.step(Event::Transferred(Ok(vec![1])))), vec![0x8f, 0]);
    assert!(matches!(t.step(Event::Transferred(Ok(vec![1, 2]))), Action::DeselectChip));
}

/// Drives the self test with an accelerometer that answers from `regs`.
fn run_self_test(id: Option<u8>, fail_print: Option<usize>, fail_config: bool) -> (Vec<String>, Result<(), Error>) {
    let mut test: ImsSelfTest = test_ims(IMS::new());
    let mut lines = Vec::new();
    let mut action = test.pending();
    loop {
        action = match action {
            TestAction::Access(mut t) => {
                let mut a = t.pending();
                let result = loop {
                    a = match a {
                        Action::SelectChip | Action::DeselectChip => t.step(Event::ChipSet),
                        Action::Transfer(bytes) => {
                            let reply = if bytes == vec![0x8f, 0] {
                                match id {
                                    Some(v) => Ok(vec![0, v]),
                                    None => Err(ErrorKind::ModeFault),
                                }
                            } else if bytes.len() == 1 && bytes[0] == 0x5e && fail_config {
                                Err(ErrorKind::Other)
                            } else if bytes.len() == 2 && bytes[0] != 0 {
                                Ok(vec![0, 0x42])
                            } else {
                                Ok(bytes.iter().enumerate().map(|(i, _)| (i as u8) * 0x11).collect())
                            };
                            t.step(Event::Transferred(reply))
                        }
                        Action::Finish(r) => break r,
                    };
                };
                test.step(TestEvent::Accessed(result))
            }
            TestAction::Print(line) => {
                let failed = fail_print == Some(lines.len());
                lines.push(String::from_utf8(line).unwrap());
                if failed {
                    test.step(TestEvent::Printed(Err(core::fmt::Error)))
                } else {
                    test.step(TestEvent::Printed(Ok(())))
                }
            }
            TestAction::Finish(r) => return (lines, r),
        };
    }
}

#[test]
fn self_test_succeeds_with_expected_identity() {
    let (lines, result) = run_self_test(Some(0x33), None, false);
    assert!(result.is_ok());
    assert_eq!(lines.len(), 1 + 4 * 6);
    assert_eq!(lines[0], "IMS, WHO_AM_I: 33\r\n");
    assert_eq!(lines[1], "TEMP: 1100\r\n");
    assert_eq!(lines[2], "STATUS_REG: 00\r\n");
    assert_eq!(lines[3], "OUT_X: 2211\r\n");
    assert_eq!(lines[4], "OUT_Y: 4433\r\n");
    assert_eq!(lines[5], "OUT_Z: 6655\r\n");
    assert_eq!(lines[6], "FIFO REGS: 77, 88\r\n");
    assert_eq!(lines[24], "FIFO REGS: 77, 88\r\n");
}

#[test]
fn self_test_rejects_unexpected_identity() {
    let (lines, result) = run_self_test(Some(0x0a), None, false);
    assert!(matches!(result, Err(Error::WrongId)));
    assert_eq!(lines, vec!["IMS, WHO_AM_I: a\r\n", "IMS: ERROR: ID is not as expected\r\n"]);
}

#[test]
fn self_test_reports_unreadable_identity_as_wrong_id() {
    let (lines, result) = run_self_test(None, None, false);
    assert!(matches!(result, Err(Error::WrongId)));
    assert_eq!(lines, vec!["IMS, WHO_AM_I: error\r\n"]);
}

#[test]
fn self_test_stops_at_print_failure() {
    let (lines, result) = run_self_test(Some(0x33), Some(3), false);
    assert!(matches!(result, Err(Error::FormatError(_))));
    assert_eq!(lines.len(), 4);
}

#[test]
fn self_test_stops_on_configuration_failure() {
    let (lines, result) = run_self_test(Some(0x33), None, true);
    assert!(matches!(result, Err(Error::SpiError(ErrorKind::Other))));
    assert_eq!(lines, vec!["IMS, WHO_AM_I: 33\r\n"]);
}

#[test]
fn errors_convert_from_their_sources() {
    assert!(matches!(Error::from(ErrorKind::Overrun), Error::SpiError(ErrorKind::Overrun)));
    assert!(matches!(Error::from(core::fmt::Error), Error::FormatError(_)));
    assert!(matches!(
        analog_noise_test1::spi::Error::from(ErrorKind::ModeFault),
        analog_noise_test1::spi::Error::SpiError(ErrorKind::ModeFault)
    ));
}
