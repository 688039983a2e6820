//! The Boot Keyboard report: a fixed binary structure holding the modifier
//! bits, the reserved byte, the LED byte and up to six keycodes, together
//! with its serialization into the bytes of an input (device-to-host) report.

use vstd::prelude::*;

verus! {

/// A standard HID report compatible with the Boot Keyboard profile
/// (HID specification, Appendix B). It can express all eight modifier keys
/// and up to 6 keys pressed at the same time.
#[derive(Clone, Copy, Debug)]
pub struct KeyboardReport {
    /// Modifier keys, one bit per key in ascending usage order (0xE0-0xE7).
    pub modifier: u8,
    /// Boot Keyboard reserved byte; transmitted but not interpreted.
    pub reserved: u8,
    /// LED states (host -> device); never part of the input report bytes.
    pub leds: u8,
    /// Pressed key usage codes; unused slots hold 0 (no key).
    pub keycodes: [u8; 6],
}

/// The number of bytes of an input (device-to-host) report:
/// modifier, reserved, and the six keycodes. The `leds` field is
/// output-direction only and is excluded.
pub const KEYBOARD_REPORT_IN_SIZE: usize = 8;

/// The bytes of the input report for `r`: modifier, reserved, then the six
/// keycodes in order. The `leds` field does not appear.
pub open spec fn input_bytes(r: KeyboardReport) -> Seq<u8> {
    seq![
        r.modifier,
        r.reserved,
        r.keycodes@[0],
        r.keycodes@[1],
        r.keycodes@[2],
        r.keycodes@[3],
        r.keycodes@[4],
        r.keycodes@[5],
    ]
}

impl KeyboardReport {
    /// Serializes the input-direction bytes of the report.
    pub fn input_report_bytes(&self) -> (r: [u8; 8])
        ensures
            r@ == input_bytes(*self),
    {
        let bytes: [u8; 8] = [
            self.modifier,
            self.reserved,
            self.keycodes[0],
            self.keycodes[1],
            self.keycodes[2],
            self.keycodes[3],
            self.keycodes[4],
            self.keycodes[5],
        ];
        proof {
            assert(bytes@ =~= input_bytes(*self));
        }
        bytes
    }
}

impl PartialEq for KeyboardReport {
    /// Structural equality: all fields compared, `leds` included.
    fn eq(&self, o: &Self) -> (r: bool) {
        let keys_eq = self.keycodes[0] == o.keycodes[0] && self.keycodes[1] == o.keycodes[1]
            && self.keycodes[2] == o.keycodes[2] && self.keycodes[3] == o.keycodes[3]
            && self.keycodes[4] == o.keycodes[4] && self.keycodes[5] == o.keycodes[5];
        proof {
            if keys_eq {
                assert(self.keycodes@ =~= o.keycodes@);
            }
        }
        self.modifier == o.modifier && self.reserved == o.reserved && self.leds == o.leds
            && keys_eq
    }
}

impl Eq for KeyboardReport {

}

impl vstd::std_specs::cmp::PartialEqSpecImpl for KeyboardReport {
    open spec fn obeys_eq_spec() -> bool {
        true
    }

    open spec fn eq_spec(&self, o: &Self) -> bool {
        self.modifier == o.modifier && self.reserved == o.reserved && self.leds == o.leds
            && self.keycodes@ == o.keycodes@
    }
}

impl Default for KeyboardReport {
    /// The "no keys pressed" report: every field zero.
    fn default() -> (r: Self)
        ensures
            r.modifier == 0,
            r.reserved == 0,
            r.leds == 0,
            forall|i: int| 0 <= i < 6 ==> r.keycodes@[i] == 0,
    {
        KeyboardReport { modifier: 0, reserved: 0, leds: 0, keycodes: [0u8; 6] }
    }
}

/// The input report of every report value is exactly
/// `KEYBOARD_REPORT_IN_SIZE` bytes long, and the `leds` field never
/// contributes to it: two reports that differ only in `leds` serialize
/// to the same input bytes.
pub proof fn lemma_input_report_size(r: KeyboardReport)
    ensures
        input_bytes(r).len() == KEYBOARD_REPORT_IN_SIZE,
        forall|l: u8|
            input_bytes(KeyboardReport { leds: l, ..r }) == input_bytes(r),
{
    assert forall|l: u8|
        input_bytes(KeyboardReport { leds: l, ..r }) == input_bytes(r) by {
        assert(input_bytes(KeyboardReport { leds: l, ..r }) =~= input_bytes(r));
    }
}

/// The input bytes depend on the transmitted fields alone: two reports that
/// agree on modifier, reserved and keycodes serialize to identical bytes, so
/// pushing the same report twice submits the same payload both times.
pub proof fn lemma_equal_reports_equal_bytes(a: KeyboardReport, b: KeyboardReport)
    requires
        a.modifier == b.modifier,
        a.reserved == b.reserved,
        a.keycodes@ == b.keycodes@,
    ensures
        input_bytes(a) == input_bytes(b),
{
    assert(input_bytes(a) =~= input_bytes(b));
}

} // verus!
