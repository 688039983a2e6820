//! The LED sink and the decoding of LED output reports.
//!
//! A host signals keyboard LED state with a one-byte Output report whose
//! bits 0-4, in ascending order, carry Num Lock, Caps Lock, Scroll Lock,
//! Compose and Kana. Decoding turns that byte into five booleans, which are
//! forwarded to a caller-supplied [`Leds`] sink.

use vstd::prelude::*;

verus! {

/// A sink for keyboard LED state changes.
///
/// Every method defaults to a no-op; `()` implements this trait for callers
/// that do not care about LEDs. Each call delivers a fresh absolute state,
/// whether or not it changed.
pub trait Leds {
    /// Sets the num lock state.
    fn num_lock(&mut self, status: bool) {
        let _ = status;
    }

    /// Sets the caps lock state.
    fn caps_lock(&mut self, status: bool) {
        let _ = status;
    }

    /// Sets the scroll lock state.
    fn scroll_lock(&mut self, status: bool) {
        let _ = status;
    }

    /// Sets the compose state.
    fn compose(&mut self, status: bool) {
        let _ = status;
    }

    /// Sets the kana state.
    fn kana(&mut self, status: bool) {
        let _ = status;
    }
}

impl Leds for () {

}

/// The five LED states carried by one byte of an LED output report.
#[derive(Clone, Copy, Debug, PartialEq, Eq, Structural)]
pub struct LedStates {
    pub num_lock: bool,
    pub caps_lock: bool,
    pub scroll_lock: bool,
    pub compose: bool,
    pub kana: bool,
}

/// The LED states encoded by `b`: bits 0-4 in ascending order are
/// Num Lock, Caps Lock, Scroll Lock, Compose, Kana; bits 5-7 are ignored.
pub open spec fn decoded_leds(b: u8) -> LedStates {
    LedStates {
        num_lock: b & 0x01 != 0,
        caps_lock: b & 0x02 != 0,
        scroll_lock: b & 0x04 != 0,
        compose: b & 0x08 != 0,
        kana: b & 0x10 != 0,
    }
}

/// Decodes the byte of an LED output report into the five LED states.
pub fn decode_led_byte(b: u8) -> (r: LedStates)
    ensures
        r == decoded_leds(b),
{
    LedStates {
        num_lock: b & 0x01 != 0,
        caps_lock: b & 0x02 != 0,
        scroll_lock: b & 0x04 != 0,
        compose: b & 0x08 != 0,
        kana: b & 0x10 != 0,
    }
}

/// Decoding reads bits 0-4 alone: two bytes that agree on those bits decode
/// to the same LED states, whatever their bits 5-7 hold.
pub proof fn lemma_decode_ignores_high_bits(b1: u8, b2: u8)
    requires
        b1 & 0x1f == b2 & 0x1f,
    ensures
        decoded_leds(b1) == decoded_leds(b2),
{
    assert((b1 & 0x01 != 0) == (b2 & 0x01 != 0) && (b1 & 0x02 != 0) == (b2 & 0x02 != 0)
        && (b1 & 0x04 != 0) == (b2 & 0x04 != 0) && (b1 & 0x08 != 0) == (b2 & 0x08 != 0)
        && (b1 & 0x10 != 0) == (b2 & 0x10 != 0)) by (bit_vector)
        requires
            b1 & 0x1f == b2 & 0x1f,
    ;
}

} // verus!
