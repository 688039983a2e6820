//! The keyboard-specific decisions of the class driver: the byte-count
//! guard applied to an input-report submission, and the handling of a raw
//! report pulled back from the generic HID class after a host-to-device
//! control transfer.
//!
//! The generic HID class itself, and every type of the USB stack, is generic
//! over the bus; the verifier refuses such a type in any declaration or
//! field, so the thin shell that owns the class instance lives outside the
//! verified library and hands the plain values below in and out. Everything
//! the shell decides or computes is here, with its contract.

use vstd::prelude::*;
use crate::leds::{decode_led_byte, Leds};
use crate::report::KEYBOARD_REPORT_IN_SIZE;
use usb_device::UsbError;

verus! {

/// Relies on usb_device::UsbError, the error enum of the USB bus layer;
/// declared transparently so contracts can name its variants.
#[verifier::external_type_specification]
pub struct ExUsbError(UsbError);

/// The declared type of a report pulled out of the generic HID class, as
/// usbd_hid::hid_class::ReportType names them.
#[derive(Clone, Copy, Debug, PartialEq, Eq, Structural)]
pub enum ReportKind {
    Input,
    Output,
    Feature,
    Reserved,
}

/// Whether a pulled raw report is the LED output report this class owns:
/// declared type Output, report ID 0 (no report-ID multiplexing in the Boot
/// Keyboard profile), and length exactly 1 byte.
pub open spec fn spec_is_led_report(kind: ReportKind, report_id: u8, len: usize) -> bool {
    kind == ReportKind::Output && report_id == 0 && len == 1
}

/// Decides whether a pulled raw report carries LED state for this class.
pub fn is_led_report(kind: ReportKind, report_id: u8, len: usize) -> (r: bool)
    ensures
        r == spec_is_led_report(kind, report_id, len),
{
    kind == ReportKind::Output && report_id == 0 && len == 1
}

/// What `classify_push_outcome` returns for each answer of the endpoint.
pub open spec fn push_outcome(outcome: Result<usize, UsbError>) -> Result<(), UsbError> {
    match outcome {
        Ok(n) => if n == KEYBOARD_REPORT_IN_SIZE {
            Ok(())
        } else {
            Err(UsbError::BufferOverflow)
        },
        Err(e) => Err(e),
    }
}

/// Classifies the endpoint's answer to an input-report submission: success
/// if and only if the endpoint accepted exactly the report's 8 bytes. Any
/// other accepted count can only arise from an endpoint allocated with the
/// wrong size, and is surfaced as `BufferOverflow` rather than silently
/// truncated; an endpoint error is propagated unchanged for the caller to
/// retry on its own schedule.
pub fn classify_push_outcome(outcome: Result<usize, UsbError>) -> (r: Result<(), UsbError>)
    ensures
        r == push_outcome(outcome),
        r is Ok <==> outcome == Ok::<usize, UsbError>(KEYBOARD_REPORT_IN_SIZE),
{
    match outcome {
        Ok(n) => if n == KEYBOARD_REPORT_IN_SIZE {
            Ok(())
        } else {
            Err(UsbError::BufferOverflow)
        },
        Err(e) => Err(e),
    }
}

/// Forwards the five LED states of a report byte to the sink, if and only
/// if the report's metadata marks it as the LED output report (type Output,
/// report ID 0, length 1). Every other report is ignored without touching
/// the sink: the shared control endpoint legitimately carries requests this
/// class does not own. Bits 0-4 of the byte are decoded in ascending order
/// as Num Lock, Caps Lock, Scroll Lock, Compose and Kana, and all five are
/// delivered, whether or not they changed.
pub fn apply_output_report<L: Leds>(
    leds: &mut L,
    kind: ReportKind,
    report_id: u8,
    len: usize,
    byte: u8,
)
    ensures
        !spec_is_led_report(kind, report_id, len) ==> *final(leds) == *old(leds),
{
    if is_led_report(kind, report_id, len) {
        let states = decode_led_byte(byte);
        leds.num_lock(states.num_lock);
        leds.caps_lock(states.caps_lock);
        leds.scroll_lock(states.scroll_lock);
        leds.compose(states.compose);
        leds.kana(states.kana);
    }
}

/// Handles the outcome of pulling a raw one-byte report back from the
/// generic HID class after a control transfer: a failed pull (nothing
/// buffered, or a report longer than one byte) is silently ignored, and a
/// pulled report is applied to the LED sink as `apply_output_report` says —
/// so anything other than an LED output report leaves the sink untouched.
pub fn handle_pulled_report<L: Leds>(
    leds: &mut L,
    pulled: Result<(ReportKind, u8, usize), UsbError>,
    byte: u8,
)
    ensures
        (match pulled {
            Ok((kind, report_id, len)) => !spec_is_led_report(kind, report_id, len),
            Err(_) => true,
        }) ==> *final(leds) == *old(leds),
{
    match pulled {
        Ok((kind, report_id, len)) => {
            apply_output_report(leds, kind, report_id, len, byte);
        },
        Err(_) => (),
    }
}

} // verus!
