use keymatrix::buffers::ScanError;
use keymatrix::controller::{
    Controller, CONSUMER_REPORT_PERIOD_MS, KEYBOARD_REPORT_PERIOD_MS, POINTER_WARM_UP_MS,
    SCAN_PERIOD_MS,
};
use keymatrix::key_table::{KeyFunction, MouseButton};
use keymatrix::pointer::{PointerReport, PointerSample};
use keymatrix::report::{TransportError, WriteOutcome};

const LETTER_A: u8 = 0x04;
const LEFT_SHIFT: u8 = 0xE1;
const MUTE: u16 = 0xE2;

fn at(x: i16, y: i16) -> Option<PointerSample> {
    Some(PointerSample { x, y, button: false })
}

fn small_table() -> [[KeyFunction<'static>; 3]; 1] {
    [[
        KeyFunction::Dual(LETTER_A, MouseButton::Left),
        KeyFunction::Key(LEFT_SHIFT),
        KeyFunction::Media(MUTE),
    ]]
}

/// Runs scan ticks with nothing pressed until the pointing device may be
/// read.
fn warm_up<const R: usize, const C: usize>(c: &mut Controller<'_, R, C>) {
    let idle = [[false; C]; R];
    while !c.pointer_warmed_up() {
        assert_eq!(c.scan_tick(&idle), Ok(false));
    }
}

#[test]
fn periods_are_as_documented() {
    assert_eq!(SCAN_PERIOD_MS, 1);
    assert_eq!(KEYBOARD_REPORT_PERIOD_MS, 10);
    assert_eq!(CONSUMER_REPORT_PERIOD_MS, 50);
    assert_eq!(POINTER_WARM_UP_MS, 500);
}

#[test]
fn controller_starts_idle() {
    let c = Controller::new(small_table());
    assert!(!c.pointer_mode());
    assert!(!c.pointer_warmed_up());
    assert!(c.key_codes().is_empty());
    assert_eq!(c.consumer_report(), [0, 0, 0, 0]);
    assert_eq!(c.scan_clock, 0);
    assert_eq!(c.press_counter, 0);
    assert!(!c.debounce_states[0][0].is_pressed());
}

#[test]
fn dual_key_types_its_letter_while_mouseness_is_below_threshold() {
    let mut table = [[KeyFunction::Nothing; 17]; 6];
    table[0][0] = KeyFunction::Dual(LETTER_A, MouseButton::Left);
    let mut c = Controller::new(table);
    let mut raw = [[false; 17]; 6];
    raw[0][0] = true;
    for _ in 0..9 {
        assert_eq!(c.scan_tick(&raw), Ok(false));
        assert!(c.key_codes().is_empty());
    }
    assert_eq!(c.scan_tick(&raw), Ok(true));
    assert_eq!(c.key_codes(), &[LETTER_A]);
    assert!(c.buffers.mouse_buttons().is_empty());
    assert_eq!(c.press_counter, 1);
    let report = c.report_tick(None);
    assert_eq!(report, PointerReport { buttons: 0, x: 0, y: 0 });
}

#[test]
fn dual_key_presses_its_button_while_mouseness_is_above_threshold() {
    let mut table = [[KeyFunction::Nothing; 17]; 6];
    table[0][0] = KeyFunction::Dual(LETTER_A, MouseButton::Left);
    let mut c = Controller::new(table);
    warm_up(&mut c);
    // the pointer moves: 400 steps off the origin are five report units
    assert_eq!(c.report_tick(at(0, 0)), PointerReport { buttons: 0, x: 0, y: 0 });
    assert!(!c.pointer_mode());
    let moved = c.report_tick(at(400, 0));
    assert_eq!(moved, PointerReport { buttons: 0, x: 5, y: 0 });
    assert_eq!(c.arbiter.mouseness(), 5);
    assert!(c.pointer_mode());
    // now the switch goes down
    let mut raw = [[false; 17]; 6];
    raw[0][0] = true;
    for _ in 0..9 {
        assert_eq!(c.scan_tick(&raw), Ok(false));
    }
    assert_eq!(c.scan_tick(&raw), Ok(true));
    assert!(c.key_codes().is_empty());
    assert_eq!(c.buffers.mouse_buttons(), &[MouseButton::Left]);
    // and the next pointer report carries the button
    assert_eq!(c.pointer_report_written(&moved, WriteOutcome::Sent), Ok(()));
    let report = c.report_tick(at(0, 0));
    assert_eq!(report, PointerReport { buttons: 1, x: 0, y: 0 });
    assert!(c.pointer_mode());
}

#[test]
fn typing_turns_pointer_mode_off_again() {
    let mut c = Controller::new(small_table());
    warm_up(&mut c);
    c.report_tick(at(0, 0));
    let moved = c.report_tick(at(400, 0));
    assert_eq!(c.pointer_report_written(&moved, WriteOutcome::Sent), Ok(()));
    assert!(c.pointer_mode());
    // shift alone keeps it
    for _ in 0..10 {
        c.scan_tick(&[[false, true, false]]).unwrap();
    }
    assert_eq!(c.key_codes(), &[LEFT_SHIFT]);
    c.report_tick(at(0, 0));
    assert!(c.pointer_mode());
    // a media key ends it
    for _ in 0..10 {
        c.scan_tick(&[[false, true, true]]).unwrap();
    }
    assert_eq!(c.consumer_report(), [MUTE, 0, 0, 0]);
    c.report_tick(at(0, 0));
    assert!(!c.pointer_mode());
    assert_eq!(c.arbiter.mouseness(), 0);
    // with pointer mode off the dual key is a letter again
    for _ in 0..10 {
        c.scan_tick(&[[true, false, false]]).unwrap();
    }
    assert_eq!(c.key_codes(), &[LETTER_A]);
    c.report_tick(at(0, 0));
    assert!(!c.pointer_mode());
}

#[test]
fn pointer_is_not_read_during_warm_up() {
    let mut c = Controller::new(small_table());
    for _ in 0..499 {
        c.scan_tick(&[[false; 3]; 1]).unwrap();
    }
    assert!(!c.pointer_warmed_up());
    assert_eq!(c.report_tick(at(1000, 1000)), PointerReport { buttons: 0, x: 0, y: 0 });
    assert!(c.mouse_tracker.origin().is_none());
    c.scan_tick(&[[false; 3]; 1]).unwrap();
    assert_eq!(c.scan_clock, 500);
    assert!(c.pointer_warmed_up());
    c.report_tick(at(7, 8));
    let o = c.mouse_tracker.origin().unwrap();
    assert_eq!((o.x, o.y), (7, 8));
}

#[test]
fn failed_read_moves_nothing() {
    let mut c = Controller::new(small_table());
    warm_up(&mut c);
    c.report_tick(at(0, 0));
    assert_eq!(c.report_tick(None), PointerReport { buttons: 0, x: 0, y: 0 });
    assert_eq!(c.report_tick(at(80, -160)), PointerReport { buttons: 0, x: 1, y: -2 });
    assert_eq!(c.report_tick(None), PointerReport { buttons: 0, x: 1, y: -2 });
    assert_eq!(c.mouse_tracker.unreported_movement().x, 40_000);
}

#[test]
fn unsent_pointer_report_is_offered_again() {
    let mut c = Controller::new(small_table());
    warm_up(&mut c);
    c.report_tick(at(0, 0));
    let first = c.report_tick(at(80, 0));
    assert_eq!(first.x, 1);
    assert_eq!(c.pointer_report_written(&first, WriteOutcome::WouldBlock), Ok(()));
    let second = c.report_tick(None);
    assert_eq!(second.x, 1);
    assert_eq!(c.pointer_report_written(&second, WriteOutcome::Sent), Ok(()));
    assert_eq!(c.report_tick(None).x, 0);
    assert_eq!(
        c.pointer_report_written(&second, WriteOutcome::Failed),
        Err(TransportError::WriteFailed)
    );
    assert_eq!(c.mouse_tracker.unreported_movement().x, 0);
}

#[test]
fn press_counter_counts_every_press_once() {
    let mut c = Controller::new(small_table());
    for _ in 0..9 {
        assert_eq!(c.scan_tick(&[[true, true, false]]), Ok(false));
    }
    assert_eq!(c.scan_tick(&[[true, true, false]]), Ok(true));
    assert_eq!(c.press_counter, 2);
    assert_eq!(c.scan_tick(&[[true, true, false]]), Ok(false));
    assert_eq!(c.press_counter, 2);
    for _ in 0..20 {
        c.scan_tick(&[[false, true, false]]).unwrap();
    }
    for _ in 0..4 {
        assert_eq!(c.scan_tick(&[[true, true, false]]), Ok(false));
    }
    assert_eq!(c.scan_tick(&[[true, true, false]]), Ok(false));
    assert_eq!(c.press_counter, 2);
    for _ in 0..4 {
        assert_eq!(c.scan_tick(&[[true, true, false]]), Ok(false));
    }
    assert_eq!(c.scan_tick(&[[true, true, false]]), Ok(true));
    assert_eq!(c.press_counter, 3);
    assert_eq!(c.scan_clock, 11 + 20 + 10);
}

#[test]
fn overflowing_scan_is_reported_by_the_tick() {
    let mut table = [[KeyFunction::Nothing; 33]; 1];
    for (j, cell) in table[0].iter_mut().enumerate() {
        *cell = KeyFunction::Key(j as u8 + 4);
    }
    let mut c = Controller::new(table);
    for _ in 0..9 {
        assert_eq!(c.scan_tick(&[[true; 33]; 1]), Ok(false));
    }
    assert_eq!(c.scan_tick(&[[true; 33]; 1]), Err(ScanError::CapacityExceeded));
    assert!(c.key_codes().is_empty());
    assert_eq!(c.press_counter, 0);
    assert_eq!(c.scan_clock, 10);
}

#[test]
fn device_button_and_scanned_buttons_share_the_report() {
    let table = [[
        KeyFunction::Dual(LETTER_A, MouseButton::Right),
        KeyFunction::Dual(LETTER_A, MouseButton::Left),
    ]];
    let mut c = Controller::new(table);
    warm_up(&mut c);
    c.report_tick(at(0, 0));
    c.report_tick(at(400, 0));
    assert!(c.pointer_mode());
    for _ in 0..10 {
        c.scan_tick(&[[true, false]]).unwrap();
    }
    let r = c.report_tick(Some(PointerSample { x: 0, y: 0, button: true }));
    assert_eq!(r.buttons, 3);
    let r = c.report_tick(Some(PointerSample { x: 0, y: 0, button: false }));
    assert_eq!(r.buttons, 2);
    for _ in 0..10 {
        c.scan_tick(&[[true, true]]).unwrap();
    }
    let r = c.report_tick(Some(PointerSample { x: 0, y: 0, button: false }));
    assert_eq!(r.buttons, 3);
}
