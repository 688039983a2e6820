//! The verified core of a USB HID boot keyboard class driver.
//!
//! The crate supplies every keyboard-specific decision that sits on top of
//! a generic HID class: the wire-exact input report layout and its
//! serialization, the HID report descriptor advertised to the host together
//! with a proof of what a conformant parser reads from it, the
//! classification of an endpoint's answer to a report push, and the
//! decoding of host-to-device LED output reports into calls on a
//! caller-supplied sink. The thin shell that owns the generic HID class
//! instance (a type generic over the foreign bus trait, which the verifier
//! cannot hold) hands plain values in and out of these functions.

pub mod descriptor;
pub mod keyboard;
pub mod leds;
pub mod report;
