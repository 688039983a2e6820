//! The report struct: default value, structural equality, and the
//! serialized input bytes.

use usbd_boot_keyboard::report::{KeyboardReport, KEYBOARD_REPORT_IN_SIZE};

#[test]
fn default_report_is_all_zero() {
    let r = KeyboardReport::default();
    assert_eq!(r.modifier, 0);
    assert_eq!(r.reserved, 0);
    assert_eq!(r.leds, 0);
    assert_eq!(r.keycodes, [0u8; 6]);
}

#[test]
fn input_report_is_eight_bytes() {
    assert_eq!(KEYBOARD_REPORT_IN_SIZE, 8);
    let r = KeyboardReport::default();
    assert_eq!(r.input_report_bytes().len(), 8);
}

#[test]
fn input_report_bytes_layout() {
    let r = KeyboardReport {
        modifier: 0x22,
        reserved: 0,
        leds: 0,
        keycodes: [0x04, 0x05, 0x06, 0x1d, 0x1e, 0x27],
    };
    assert_eq!(r.input_report_bytes(), [0x22, 0x00, 0x04, 0x05, 0x06, 0x1d, 0x1e, 0x27]);
}

#[test]
fn leds_never_contribute_to_input_bytes() {
    let mut r = KeyboardReport::default();
    r.modifier = 0x01;
    r.keycodes = [0x04, 0, 0, 0, 0, 0];
    let without = r.input_report_bytes();
    r.leds = 0xff;
    let with = r.input_report_bytes();
    assert_eq!(without, with);
    assert_eq!(with.len(), 8);
}

#[test]
fn equality_is_structural() {
    let a = KeyboardReport {
        modifier: 1,
        reserved: 0,
        leds: 2,
        keycodes: [3, 4, 5, 6, 7, 8],
    };
    let b = KeyboardReport {
        modifier: 1,
        reserved: 0,
        leds: 2,
        keycodes: [3, 4, 5, 6, 7, 8],
    };
    assert_eq!(a, b);
    let mut c = b;
    c.leds = 3;
    assert!(a != c);
    let mut d = b;
    d.keycodes[5] = 9;
    assert!(a != d);
}
