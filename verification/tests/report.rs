use keymatrix::key_table::MouseButton;
use keymatrix::pointer::{MouseTracker, PointerReport, PointerSample};
use keymatrix::report::{
    button_mask, check_write, consumer_report, press_buttons, settle_pointer_report,
    TransportError, WriteOutcome, CONSUMER_REPORT_CODES, LEFT_BUTTON_BIT, RIGHT_BUTTON_BIT,
};

#[test]
fn button_bits_are_one_and_two() {
    assert_eq!(LEFT_BUTTON_BIT, 1);
    assert_eq!(RIGHT_BUTTON_BIT, 2);
    assert_eq!(CONSUMER_REPORT_CODES, 4);
}

#[test]
fn button_mask_sets_one_bit_per_button() {
    assert_eq!(button_mask(&[]), 0);
    assert_eq!(button_mask(&[MouseButton::Left]), 1);
    assert_eq!(button_mask(&[MouseButton::Right]), 2);
    assert_eq!(button_mask(&[MouseButton::Left, MouseButton::Right]), 3);
    assert_eq!(button_mask(&[MouseButton::Right, MouseButton::Left]), 3);
    assert_eq!(button_mask(&[MouseButton::Right, MouseButton::Right]), 2);
}

#[test]
fn press_buttons_adds_to_what_is_pressed() {
    let mut r = PointerReport { buttons: 0, x: 3, y: -4 };
    press_buttons(&mut r, &[MouseButton::Right]);
    assert_eq!(r, PointerReport { buttons: 2, x: 3, y: -4 });
    press_buttons(&mut r, &[MouseButton::Left]);
    assert_eq!(r, PointerReport { buttons: 3, x: 3, y: -4 });
    press_buttons(&mut r, &[]);
    assert_eq!(r, PointerReport { buttons: 3, x: 3, y: -4 });
    let mut r = PointerReport { buttons: 1, x: 0, y: 0 };
    press_buttons(&mut r, &[MouseButton::Left]);
    assert_eq!(r.buttons, 1);
    let mut r = PointerReport { buttons: 0x84, x: 0, y: 0 };
    press_buttons(&mut r, &[MouseButton::Left, MouseButton::Right]);
    assert_eq!(r.buttons, 0x87);
}

#[test]
fn consumer_report_pads_with_zero() {
    assert_eq!(consumer_report(&[]), [0, 0, 0, 0]);
    assert_eq!(consumer_report(&[0xE2]), [0xE2, 0, 0, 0]);
    assert_eq!(consumer_report(&[0xE2, 0xE9, 0xEA]), [0xE2, 0xE9, 0xEA, 0]);
    assert_eq!(consumer_report(&[1, 2, 3, 4]), [1, 2, 3, 4]);
}

#[test]
fn consumer_report_takes_the_first_four() {
    assert_eq!(consumer_report(&[1, 2, 3, 4, 5]), [1, 2, 3, 4]);
    assert_eq!(consumer_report(&[9, 8, 7, 6, 5, 4, 3, 2, 1, 0]), [9, 8, 7, 6]);
}

#[test]
fn only_a_failed_write_is_fatal() {
    assert_eq!(check_write(WriteOutcome::Sent), Ok(true));
    assert_eq!(check_write(WriteOutcome::WouldBlock), Ok(false));
    assert_eq!(check_write(WriteOutcome::Duplicate), Ok(false));
    assert_eq!(check_write(WriteOutcome::Failed), Err(TransportError::WriteFailed));
}

fn tracker_with(x: i16) -> MouseTracker {
    let mut t = MouseTracker::new();
    t.ingest(PointerSample { x: 0, y: 0, button: false });
    t.ingest(PointerSample { x, y: 0, button: false });
    t
}

#[test]
fn sent_report_is_taken_off_the_unreported_motion() {
    let mut t = tracker_with(401);
    let mut r = PointerReport { buttons: 0, x: 0, y: 0 };
    t.populate_report(&mut r);
    assert_eq!(r.x, 5);
    assert_eq!(settle_pointer_report(&mut t, &r, WriteOutcome::Sent), Ok(()));
    assert_eq!(t.unreported_movement().x, 500);
}

#[test]
fn unsent_report_stays_in_the_unreported_motion() {
    for outcome in [WriteOutcome::WouldBlock, WriteOutcome::Duplicate] {
        let mut t = tracker_with(401);
        let mut r = PointerReport { buttons: 0, x: 0, y: 0 };
        t.populate_report(&mut r);
        assert_eq!(settle_pointer_report(&mut t, &r, outcome), Ok(()));
        assert_eq!(t.unreported_movement().x, 200_500);
    }
}

#[test]
fn failed_write_is_reported_and_changes_nothing() {
    let mut t = tracker_with(401);
    let mut r = PointerReport { buttons: 0, x: 0, y: 0 };
    t.populate_report(&mut r);
    assert_eq!(
        settle_pointer_report(&mut t, &r, WriteOutcome::Failed),
        Err(TransportError::WriteFailed)
    );
    assert_eq!(t.unreported_movement().x, 200_500);
}
