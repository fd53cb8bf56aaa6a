use keymatrix::bounded::{BUTTON_CAPACITY, KEY_CAPACITY, MEDIA_CAPACITY};
use keymatrix::buffers::{ScanBuffers, ScanError};
use keymatrix::key_table::{MouseButton, NO_EVENT};

#[test]
fn new_buffers_are_empty() {
    let b = ScanBuffers::new();
    assert!(b.key_codes().is_empty());
    assert!(b.consumer_codes().is_empty());
    assert!(b.mouse_buttons().is_empty());
    let d = ScanBuffers::default();
    assert!(d.key_codes().is_empty());
}

#[test]
fn capacities_are_as_documented() {
    assert_eq!(KEY_CAPACITY, 32);
    assert_eq!(MEDIA_CAPACITY, 10);
    assert_eq!(BUTTON_CAPACITY, 2);
}

#[test]
fn key_codes_arrive_in_order() {
    let mut b = ScanBuffers::new();
    assert_eq!(b.insert_key(0x04), Ok(()));
    assert_eq!(b.insert_key(0x2C), Ok(()));
    assert_eq!(b.insert_key(0xE0), Ok(()));
    assert_eq!(b.key_codes(), &[0x04, 0x2C, 0xE0]);
}

#[test]
fn key_code_enters_only_once() {
    let mut b = ScanBuffers::new();
    assert_eq!(b.insert_key(0x04), Ok(()));
    assert_eq!(b.insert_key(0x05), Ok(()));
    assert_eq!(b.insert_key(0x04), Ok(()));
    assert_eq!(b.key_codes(), &[0x04, 0x05]);
}

#[test]
fn no_event_never_enters() {
    let mut b = ScanBuffers::new();
    assert_eq!(b.insert_key(NO_EVENT), Ok(()));
    assert!(b.key_codes().is_empty());
}

#[test]
fn thirty_third_key_code_is_refused() {
    let mut b = ScanBuffers::new();
    for code in 1..=32u8 {
        assert_eq!(b.insert_key(code), Ok(()));
    }
    assert_eq!(b.key_codes().len(), 32);
    assert_eq!(b.insert_key(33), Err(ScanError::CapacityExceeded));
    assert_eq!(b.key_codes().len(), 32);
    assert_eq!(b.key_codes()[31], 32);
    // a code that is already there still fits
    assert_eq!(b.insert_key(7), Ok(()));
    assert_eq!(b.insert_key(NO_EVENT), Ok(()));
    assert_eq!(b.key_codes().len(), 32);
}

#[test]
fn consumer_codes_keep_duplicates_and_order() {
    let mut b = ScanBuffers::new();
    assert_eq!(b.push_consumer(0xE9), Ok(()));
    assert_eq!(b.push_consumer(0xEA), Ok(()));
    assert_eq!(b.push_consumer(0xE9), Ok(()));
    assert_eq!(b.consumer_codes(), &[0xE9, 0xEA, 0xE9]);
}

#[test]
fn eleventh_consumer_code_is_refused() {
    let mut b = ScanBuffers::new();
    for code in 0..10u16 {
        assert_eq!(b.push_consumer(code), Ok(()));
    }
    assert_eq!(b.push_consumer(10), Err(ScanError::CapacityExceeded));
    assert_eq!(b.consumer_codes().len(), 10);
    assert_eq!(b.consumer_codes()[9], 9);
}

#[test]
fn pointer_button_enters_only_once() {
    let mut b = ScanBuffers::new();
    assert_eq!(b.insert_button(MouseButton::Right), Ok(()));
    assert_eq!(b.insert_button(MouseButton::Right), Ok(()));
    assert_eq!(b.insert_button(MouseButton::Left), Ok(()));
    assert_eq!(b.insert_button(MouseButton::Left), Ok(()));
    assert_eq!(b.mouse_buttons(), &[MouseButton::Right, MouseButton::Left]);
}

#[test]
fn clear_empties_every_buffer() {
    let mut b = ScanBuffers::new();
    b.insert_key(0x04).unwrap();
    b.push_consumer(0xE9).unwrap();
    b.insert_button(MouseButton::Left).unwrap();
    b.clear();
    assert!(b.key_codes().is_empty());
    assert!(b.consumer_codes().is_empty());
    assert!(b.mouse_buttons().is_empty());
    // and they can be filled again
    b.insert_key(0x04).unwrap();
    assert_eq!(b.key_codes(), &[0x04]);
}
