use analog_noise_test1::epd::{draw_text, render_test_frame, test_epd, EpdAction, Error, FRAME_LEN};
use ssd1680::driver::DisplayError;

#[test]
fn test_frame_is_drawn_on_white() {
    let frame = render_test_frame();
    assert_eq!(frame.len(), FRAME_LEN);
    assert!(frame.iter().any(|&b| b != 0xff));
    // the top rows are left white
    assert!(frame[..16 * 20].iter().all(|&b| b == 0xff));
    // the filled square covers x 60..100, y 60..100: bits of x 60..95 are
    // cleared, those of x 56..59 stay, in every row the text and circle
    // leave alone
    for row in 61..99 {
        assert_eq!(frame[row * 16 + 7], 0xf0);
        for col in 8..12 {
            assert_eq!(frame[row * 16 + col], 0x00);
        }
        for col in 0..7 {
            assert_eq!(frame[row * 16 + col], 0xff);
        }
    }
    for row in 100..250 {
        for col in 0..16 {
            assert_eq!(frame[row * 16 + col], 0xff);
        }
    }
}

#[test]
fn draw_text_marks_pixels() {
    let mut frame = vec![0xffu8; FRAME_LEN];
    assert!(draw_text(&mut frame, "Just a test", 40, 35).is_ok());
    assert!(frame.iter().any(|&b| b != 0xff));
    let mut empty = vec![0xffu8; FRAME_LEN];
    assert!(draw_text(&mut empty, "", 40, 35).is_ok());
    assert!(empty.iter().all(|&b| b == 0xff));
}

#[test]
fn display_test_runs_in_order() {
    let mut t = test_epd();
    assert!(matches!(t.pending(), EpdAction::ClearBwFrame));
    assert!(matches!(t.step(Ok(())), EpdAction::ClearRedFrame));
    match t.step(Ok(())) {
        EpdAction::UpdateBwFrame(f) => assert_eq!(f, render_test_frame()),
        other => panic!("unexpected {:?}", other),
    }
    assert!(matches!(t.step(Ok(())), EpdAction::DisplayFrame));
    assert!(matches!(t.step(Ok(())), EpdAction::Finish(Ok(()))));
    assert!(matches!(t.step(Ok(())), EpdAction::Finish(Ok(()))));
}

#[test]
fn display_test_stops_at_first_failure() {
    let mut t = test_epd();
    t.step(Ok(()));
    match t.step(Err(DisplayError::BusWriteError)) {
        EpdAction::Finish(Err(Error::DisplayError(DisplayError::BusWriteError))) => {}
        other => panic!("unexpected {:?}", other),
    }
    assert!(matches!(
        Error::from(DisplayError::CSError),
        Error::DisplayError(DisplayError::CSError)
    ));
}
