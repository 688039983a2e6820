//! The report descriptor bytes: the exact wire value, and a comparison with
//! the strict Boot Keyboard descriptor that usbd-hid ships, from which this
//! one deliberately differs only in the widened keycode usage range.

use usbd_boot_keyboard::descriptor::report_descriptor;
use usbd_hid::descriptor::{KeyboardReport as StrictKeyboardReport, SerializedDescriptor};

#[test]
fn descriptor_bytes_are_the_boot_keyboard_descriptor() {
    let expected: [u8; 69] = [
        0x05, 0x01, // Usage Page (Generic Desktop)
        0x09, 0x06, // Usage (Keyboard)
        0xa1, 0x01, // Collection (Application)
        0x05, 0x07, // Usage Page (Keyboard)
        0x19, 0xe0, // Usage Minimum (0xE0)
        0x29, 0xe7, // Usage Maximum (0xE7)
        0x15, 0x00, // Logical Minimum (0)
        0x25, 0x01, // Logical Maximum (1)
        0x75, 0x01, // Report Size (1)
        0x95, 0x08, // Report Count (8)
        0x81, 0x02, // Input (Data, Variable, Absolute)
        0x19, 0x00, // Usage Minimum (0)
        0x29, 0xff, // Usage Maximum (255)
        0x26, 0xff, 0x00, // Logical Maximum (255)
        0x75, 0x08, // Report Size (8)
        0x95, 0x01, // Report Count (1)
        0x81, 0x03, // Input (Constant, Variable, Absolute)
        0x05, 0x08, // Usage Page (LEDs)
        0x19, 0x01, // Usage Minimum (1)
        0x29, 0x05, // Usage Maximum (5)
        0x25, 0x01, // Logical Maximum (1)
        0x75, 0x01, // Report Size (1)
        0x95, 0x05, // Report Count (5)
        0x91, 0x02, // Output (Data, Variable, Absolute)
        0x95, 0x03, // Report Count (3)
        0x91, 0x03, // Output (Constant, Variable)
        0x05, 0x07, // Usage Page (Keyboard)
        0x19, 0x00, // Usage Minimum (0)
        0x29, 0xff, // Usage Maximum (255)
        0x26, 0xff, 0x00, // Logical Maximum (255)
        0x75, 0x08, // Report Size (8)
        0x95, 0x06, // Report Count (6)
        0x81, 0x00, // Input (Data, Array, Absolute)
        0xc0, // End Collection
    ];
    assert_eq!(report_descriptor(), &expected[..]);
}

#[test]
fn descriptor_differs_from_strict_boot_keyboard_only_in_keycode_usage_max() {
    // usbd-hid's own KeyboardReport descriptor caps the keycode usages at
    // the strict Boot Keyboard ceiling 0xDD; this crate widens it to 0xFF
    // on purpose. Everything else must agree byte for byte.
    let ours = report_descriptor();
    let strict = StrictKeyboardReport::desc();
    assert_eq!(ours.len(), strict.len());
    for i in 0..ours.len() {
        if i == 58 {
            assert_eq!(ours[i], 0xff);
            assert_eq!(strict[i], 0xdd);
        } else {
            assert_eq!(ours[i], strict[i], "descriptor byte {} differs", i);
        }
    }
}

#[test]
fn descriptor_opens_and_closes_one_collection() {
    let d = report_descriptor();
    assert_eq!(&d[0..6], &[0x05, 0x01, 0x09, 0x06, 0xa1, 0x01]);
    assert_eq!(d[d.len() - 1], 0xc0);
    assert_eq!(d.iter().filter(|&&b| b == 0xa1).count(), 1);
    assert_eq!(d.iter().filter(|&&b| b == 0xc0).count(), 1);
}
