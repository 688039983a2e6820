//! The HID report descriptor advertised to the host, and a specification-level
//! model of how a conformant HID parser reads it.
//!
//! The descriptor is the one bit-exact external contract of the crate: it
//! describes, inside a single application collection (Generic Desktop /
//! Keyboard), an 8-bit modifier input field, an 8-bit constant reserved input
//! field, a 5-bit LED output field with 3 bits of constant padding, and a
//! 6-element keycode input array. The keycode usages deliberately span the
//! full 0x00-0xFF range rather than the stricter Boot Keyboard ceiling, so
//! that usage codes above that ceiling are still delivered on hosts that
//! tolerate the wider range.
//!
//! The parser model below follows the short-item grammar of the HID
//! specification (section 6.2.2): a prefix byte holds the data size in its
//! low two bits, the item type in the next two, and the tag in the high four;
//! global items set state that persists, local items set state that a main
//! item consumes and clears, and main items yield fields or collections.

use vstd::prelude::*;
use crate::report::KEYBOARD_REPORT_IN_SIZE;

verus! {

/// The HID report descriptor of the Boot Keyboard report.
pub const KEYBOARD_REPORT_DESCRIPTOR: [u8; 69] = [
    0x05, 0x01,  // Usage Page (Generic Desktop)
    0x09, 0x06,  // Usage (Keyboard)
    0xa1, 0x01,  // Collection (Application)
    0x05, 0x07,  //   Usage Page (Keyboard)
    0x19, 0xe0,  //   Usage Minimum (0xE0: left Ctrl)
    0x29, 0xe7,  //   Usage Maximum (0xE7: right GUI)
    0x15, 0x00,  //   Logical Minimum (0)
    0x25, 0x01,  //   Logical Maximum (1)
    0x75, 0x01,  //   Report Size (1)
    0x95, 0x08,  //   Report Count (8)
    0x81, 0x02,  //   Input (Data, Variable, Absolute): modifier bits
    0x19, 0x00,  //   Usage Minimum (0)
    0x29, 0xff,  //   Usage Maximum (255)
    0x26, 0xff, 0x00,  //   Logical Maximum (255)
    0x75, 0x08,  //   Report Size (8)
    0x95, 0x01,  //   Report Count (1)
    0x81, 0x03,  //   Input (Constant, Variable, Absolute): reserved byte
    0x05, 0x08,  //   Usage Page (LEDs)
    0x19, 0x01,  //   Usage Minimum (1: Num Lock)
    0x29, 0x05,  //   Usage Maximum (5: Kana)
    0x25, 0x01,  //   Logical Maximum (1)
    0x75, 0x01,  //   Report Size (1)
    0x95, 0x05,  //   Report Count (5)
    0x91, 0x02,  //   Output (Data, Variable, Absolute): LED bits
    0x95, 0x03,  //   Report Count (3)
    0x91, 0x03,  //   Output (Constant, Variable): LED padding bits
    0x05, 0x07,  //   Usage Page (Keyboard)
    0x19, 0x00,  //   Usage Minimum (0)
    0x29, 0xff,  //   Usage Maximum (255)
    0x26, 0xff, 0x00,  //   Logical Maximum (255)
    0x75, 0x08,  //   Report Size (8)
    0x95, 0x06,  //   Report Count (6)
    0x81, 0x00,  //   Input (Data, Array, Absolute): keycodes
    0xc0,  // End Collection
];

/// The descriptor bytes as a sequence.
pub open spec fn spec_report_descriptor() -> Seq<u8> {
    KEYBOARD_REPORT_DESCRIPTOR@
}

/// The descriptor bytes handed to the generic HID class at construction.
pub fn report_descriptor() -> (r: &'static [u8])
    ensures
        r@ == spec_report_descriptor(),
{
    &KEYBOARD_REPORT_DESCRIPTOR
}

/// The direction of a report field.
pub enum HidFieldKind {
    /// Device-to-host.
    Input,
    /// Host-to-device.
    Output,
}

/// A report field definition, as a conformant HID parser accumulates it from
/// the global and local item state in force when a main item is reached.
pub struct HidField {
    pub kind: HidFieldKind,
    /// The main item's data: bit 0 set means constant (not data), bit 1 set
    /// means variable (not array), bit 2 set means relative (not absolute).
    pub flags: nat,
    pub usage_page: nat,
    pub usage_min: nat,
    pub usage_max: nat,
    pub logical_min: int,
    pub logical_max: int,
    pub report_size: nat,
    pub report_count: nat,
}

/// One element of a parsed descriptor, in reading order.
pub enum DescElem {
    CollectionStart { kind: nat, usage_page: nat, usage: nat },
    CollectionEnd,
    Field { field: HidField },
}

/// The item state a HID parser carries while reading a descriptor.
pub struct DescState {
    pub usage_page: nat,
    pub logical_min: int,
    pub logical_max: int,
    pub report_size: nat,
    pub report_count: nat,
    pub usage: nat,
    pub usage_min: nat,
    pub usage_max: nat,
}

/// The state before any item has been read.
pub open spec fn initial_state() -> DescState {
    DescState {
        usage_page: 0,
        logical_min: 0,
        logical_max: 0,
        report_size: 0,
        report_count: 0,
        usage: 0,
        usage_min: 0,
        usage_max: 0,
    }
}

/// Local items apply only to the next main item: each main item consumes
/// and clears them.
pub open spec fn clear_locals(st: DescState) -> DescState {
    DescState { usage: 0, usage_min: 0, usage_max: 0, ..st }
}

/// The number of data bytes a short item's prefix announces: its low two
/// bits, where 3 stands for 4 bytes.
pub open spec fn item_size(prefix: u8) -> nat {
    if prefix % 4 == 3 {
        4
    } else {
        (prefix % 4) as nat
    }
}

/// The unsigned value of little-endian data bytes.
pub open spec fn le_value(data: Seq<u8>) -> nat
    decreases data.len(),
{
    if data.len() == 0 {
        0
    } else {
        (data[0] + 256 * le_value(data.drop_first())) as nat
    }
}

/// The signed value of little-endian data bytes, two's complement in the
/// item's data width (the widths the short-item grammar allows).
pub open spec fn le_signed(data: Seq<u8>) -> int {
    let v = le_value(data) as int;
    if data.len() == 1 && v >= 0x80 {
        v - 0x100
    } else if data.len() == 2 && v >= 0x8000 {
        v - 0x10000
    } else if data.len() == 4 && v >= 0x80000000 {
        v - 0x100000000
    } else {
        v
    }
}

/// The state after a non-emitting item: global items (type 1) update the
/// field they name, local items (type 2) update the usage window, and any
/// other main item clears the locals. Items the model does not track leave
/// the state unchanged.
pub open spec fn updated_state(typ: u8, tag: u8, data: Seq<u8>, st: DescState) -> DescState {
    if typ == 0 {
        clear_locals(st)
    } else if typ == 1 {
        if tag == 0 {
            DescState { usage_page: le_value(data), ..st }
        } else if tag == 1 {
            DescState { logical_min: le_signed(data), ..st }
        } else if tag == 2 {
            DescState { logical_max: le_signed(data), ..st }
        } else if tag == 7 {
            DescState { report_size: le_value(data), ..st }
        } else if tag == 9 {
            DescState { report_count: le_value(data), ..st }
        } else {
            st
        }
    } else if typ == 2 {
        if tag == 0 {
            DescState { usage: le_value(data), ..st }
        } else if tag == 1 {
            DescState { usage_min: le_value(data), ..st }
        } else if tag == 2 {
            DescState { usage_max: le_value(data), ..st }
        } else {
            st
        }
    } else {
        st
    }
}

/// Parses the short items of `s` from position `i` inside `depth` open
/// collections. Yields the collections and fields in reading order, or
/// `None` where the descriptor is malformed: an item whose data runs past
/// the end, a collection closed that was never opened, or one left open at
/// the end.
pub open spec fn parse_from(s: Seq<u8>, i: nat, st: DescState, depth: nat) -> Option<
    Seq<DescElem>,
>
    decreases s.len() - i,
{
    if i >= s.len() {
        if depth == 0 {
            Some(seq![])
        } else {
            None
        }
    } else {
        let prefix = s[i as int];
        let n = item_size(prefix);
        if i + 1 + n > s.len() {
            None
        } else {
            let data = s.subrange(i as int + 1, i as int + 1 + n as int);
            let tag = prefix / 16;
            let typ = (prefix / 4) % 4;
            if typ == 0 && tag == 10 {
                match parse_from(s, i + 1 + n, clear_locals(st), depth + 1) {
                    Some(tail) => Some(
                        seq![
                            DescElem::CollectionStart {
                                kind: le_value(data),
                                usage_page: st.usage_page,
                                usage: st.usage,
                            },
                        ] + tail,
                    ),
                    None => None,
                }
            } else if typ == 0 && tag == 12 {
                if depth == 0 {
                    None
                } else {
                    match parse_from(s, i + 1 + n, clear_locals(st), (depth - 1) as nat) {
                        Some(tail) => Some(seq![DescElem::CollectionEnd] + tail),
                        None => None,
                    }
                }
            } else if typ == 0 && (tag == 8 || tag == 9) {
                let f = HidField {
                    kind: if tag == 8 {
                        HidFieldKind::Input
                    } else {
                        HidFieldKind::Output
                    },
                    flags: le_value(data),
                    usage_page: st.usage_page,
                    usage_min: st.usage_min,
                    usage_max: st.usage_max,
                    logical_min: st.logical_min,
                    logical_max: st.logical_max,
                    report_size: st.report_size,
                    report_count: st.report_count,
                };
                match parse_from(s, i + 1 + n, clear_locals(st), depth) {
                    Some(tail) => Some(seq![DescElem::Field { field: f }] + tail),
                    None => None,
                }
            } else {
                parse_from(s, i + 1 + n, updated_state(typ, tag, data, st), depth)
            }
        }
    }
}

/// What a conformant HID parser yields for descriptor bytes `s`.
pub open spec fn parsed_descriptor(s: Seq<u8>) -> Option<Seq<DescElem>> {
    parse_from(s, 0, initial_state(), 0)
}

/// The field definition at position `i` of the parsed Boot Keyboard
/// descriptor (see `boot_keyboard_elements`).
pub open spec fn boot_keyboard_element(i: int) -> DescElem {
    if i == 0 {
        DescElem::CollectionStart { kind: 1, usage_page: 1, usage: 6 }
    } else if i == 1 {
        DescElem::Field {
            field: HidField {
                kind: HidFieldKind::Input,
                flags: 2,
                usage_page: 7,
                usage_min: 0xe0,
                usage_max: 0xe7,
                logical_min: 0,
                logical_max: 1,
                report_size: 1,
                report_count: 8,
            },
        }
    } else if i == 2 {
        DescElem::Field {
            field: HidField {
                kind: HidFieldKind::Input,
                flags: 3,
                usage_page: 7,
                usage_min: 0,
                usage_max: 0xff,
                logical_min: 0,
                logical_max: 0xff,
                report_size: 8,
                report_count: 1,
            },
        }
    } else if i == 3 {
        DescElem::Field {
            field: HidField {
                kind: HidFieldKind::Output,
                flags: 2,
                usage_page: 8,
                usage_min: 1,
                usage_max: 5,
                logical_min: 0,
                logical_max: 1,
                report_size: 1,
                report_count: 5,
            },
        }
    } else if i == 4 {
        DescElem::Field {
            field: HidField {
                kind: HidFieldKind::Output,
                flags: 3,
                usage_page: 8,
                usage_min: 0,
                usage_max: 0,
                logical_min: 0,
                logical_max: 1,
                report_size: 1,
                report_count: 3,
            },
        }
    } else if i == 5 {
        DescElem::Field {
            field: HidField {
                kind: HidFieldKind::Input,
                flags: 0,
                usage_page: 7,
                usage_min: 0,
                usage_max: 0xff,
                logical_min: 0,
                logical_max: 0xff,
                report_size: 8,
                report_count: 6,
            },
        }
    } else {
        DescElem::CollectionEnd
    }
}

/// The field definitions of the Boot Keyboard report, in order: one
/// application collection (Generic Desktop / Keyboard) holding the 8 modifier
/// bits, the constant reserved byte, the 5 LED output bits with their 3
/// constant padding bits, and the 6-element keycode array over the full
/// usage range 0x00-0xFF.
pub open spec fn boot_keyboard_elements() -> Seq<DescElem> {
    Seq::new(7, |i: int| boot_keyboard_element(i))
}

proof fn lemma_parse_from_68()
    ensures
        parse_from(
            spec_report_descriptor(),
            68,
            DescState {
                usage_page: 7,
                logical_min: 0,
                logical_max: 0xff,
                report_size: 8,
                report_count: 6,
                usage: 0,
                usage_min: 0,
                usage_max: 0,
            },
            1,
        ) == Some(boot_keyboard_elements().subrange(6, 7)),
{
    reveal_with_fuel(parse_from, 3);
    reveal_with_fuel(le_value, 3);
    assert(seq![DescElem::CollectionEnd] + Seq::<DescElem>::empty() =~= boot_keyboard_elements()
        .subrange(6, 7));
}

proof fn lemma_parse_from_62()
    ensures
        parse_from(
            spec_report_descriptor(),
            62,
            DescState {
                usage_page: 7,
                logical_min: 0,
                logical_max: 0xff,
                report_size: 1,
                report_count: 3,
                usage: 0,
                usage_min: 0,
                usage_max: 0xff,
            },
            1,
        ) == Some(boot_keyboard_elements().subrange(5, 7)),
{
    reveal_with_fuel(parse_from, 4);
    reveal_with_fuel(le_value, 3);
    lemma_parse_from_68();
    assert(seq![boot_keyboard_elements()[5]] + boot_keyboard_elements().subrange(6, 7)
        =~= boot_keyboard_elements().subrange(5, 7));
}

proof fn lemma_parse_from_53()
    ensures
        parse_from(
            spec_report_descriptor(),
            53,
            DescState {
                usage_page: 8,
                logical_min: 0,
                logical_max: 1,
                report_size: 1,
                report_count: 3,
                usage: 0,
                usage_min: 0,
                usage_max: 0,
            },
            1,
        ) == Some(boot_keyboard_elements().subrange(5, 7)),
{
    reveal_with_fuel(parse_from, 5);
    reveal_with_fuel(le_value, 3);
    lemma_parse_from_62();
}

proof fn lemma_parse_from_49()
    ensures
        parse_from(
            spec_report_descriptor(),
            49,
            DescState {
                usage_page: 8,
                logical_min: 0,
                logical_max: 1,
                report_size: 1,
                report_count: 5,
                usage: 0,
                usage_min: 0,
                usage_max: 0,
            },
            1,
        ) == Some(boot_keyboard_elements().subrange(4, 7)),
{
    reveal_with_fuel(parse_from, 3);
    reveal_with_fuel(le_value, 3);
    lemma_parse_from_53();
    assert(seq![boot_keyboard_elements()[4]] + boot_keyboard_elements().subrange(5, 7)
        =~= boot_keyboard_elements().subrange(4, 7));
}

proof fn lemma_parse_from_43()
    ensures
        parse_from(
            spec_report_descriptor(),
            43,
            DescState {
                usage_page: 8,
                logical_min: 0,
                logical_max: 1,
                report_size: 8,
                report_count: 1,
                usage: 0,
                usage_min: 1,
                usage_max: 5,
            },
            1,
        ) == Some(boot_keyboard_elements().subrange(3, 7)),
{
    reveal_with_fuel(parse_from, 4);
    reveal_with_fuel(le_value, 3);
    lemma_parse_from_49();
    assert(seq![boot_keyboard_elements()[3]] + boot_keyboard_elements().subrange(4, 7)
        =~= boot_keyboard_elements().subrange(3, 7));
}

proof fn lemma_parse_from_35()
    ensures
        parse_from(
            spec_report_descriptor(),
            35,
            DescState {
                usage_page: 7,
                logical_min: 0,
                logical_max: 0xff,
                report_size: 8,
                report_count: 1,
                usage: 0,
                usage_min: 0,
                usage_max: 0,
            },
            1,
        ) == Some(boot_keyboard_elements().subrange(3, 7)),
{
    reveal_with_fuel(parse_from, 5);
    reveal_with_fuel(le_value, 3);
    lemma_parse_from_43();
}

proof fn lemma_parse_from_29()
    ensures
        parse_from(
            spec_report_descriptor(),
            29,
            DescState {
                usage_page: 7,
                logical_min: 0,
                logical_max: 0xff,
                report_size: 1,
                report_count: 8,
                usage: 0,
                usage_min: 0,
                usage_max: 0xff,
            },
            1,
        ) == Some(boot_keyboard_elements().subrange(2, 7)),
{
    reveal_with_fuel(parse_from, 4);
    reveal_with_fuel(le_value, 3);
    lemma_parse_from_35();
    assert(seq![boot_keyboard_elements()[2]] + boot_keyboard_elements().subrange(3, 7)
        =~= boot_keyboard_elements().subrange(2, 7));
}

proof fn lemma_parse_from_22()
    ensures
        parse_from(
            spec_report_descriptor(),
            22,
            DescState {
                usage_page: 7,
                logical_min: 0,
                logical_max: 1,
                report_size: 1,
                report_count: 8,
                usage: 0,
                usage_min: 0,
                usage_max: 0,
            },
            1,
        ) == Some(boot_keyboard_elements().subrange(2, 7)),
{
    reveal_with_fuel(parse_from, 4);
    reveal_with_fuel(le_value, 4);
    lemma_parse_from_29();
}

proof fn lemma_parse_from_14()
    ensures
        parse_from(
            spec_report_descriptor(),
            14,
            DescState {
                usage_page: 7,
                logical_min: 0,
                logical_max: 0,
                report_size: 0,
                report_count: 0,
                usage: 0,
                usage_min: 0xe0,
                usage_max: 0xe7,
            },
            1,
        ) == Some(boot_keyboard_elements().subrange(1, 7)),
{
    reveal_with_fuel(parse_from, 5);
    reveal_with_fuel(le_value, 3);
    lemma_parse_from_22();
    assert(seq![boot_keyboard_elements()[1]] + boot_keyboard_elements().subrange(2, 7)
        =~= boot_keyboard_elements().subrange(1, 7));
}

proof fn lemma_parse_from_6()
    ensures
        parse_from(
            spec_report_descriptor(),
            6,
            DescState {
                usage_page: 1,
                logical_min: 0,
                logical_max: 0,
                report_size: 0,
                report_count: 0,
                usage: 0,
                usage_min: 0,
                usage_max: 0,
            },
            1,
        ) == Some(boot_keyboard_elements().subrange(1, 7)),
{
    reveal_with_fuel(parse_from, 5);
    reveal_with_fuel(le_value, 3);
    lemma_parse_from_14();
}

/// The bits one parsed element contributes to reports of direction `kind`.
pub open spec fn elem_bits(elem: DescElem, kind: HidFieldKind) -> nat {
    match elem {
        DescElem::Field { field } => if field.kind == kind {
            field.report_size * field.report_count
        } else {
            0
        },
        _ => 0,
    }
}

/// The bits the fields of direction `kind` cover, over the parsed elements
/// from position `i` on.
pub open spec fn field_bits_from(elems: Seq<DescElem>, i: nat, kind: HidFieldKind) -> nat
    decreases elems.len() - i,
{
    if i >= elems.len() {
        0
    } else {
        (elem_bits(elems[i as int], kind) + field_bits_from(elems, i + 1, kind)) as nat
    }
}

/// The bits the fields of direction `kind` cover, over the parsed elements
/// in order.
pub open spec fn field_bits(elems: Seq<DescElem>, kind: HidFieldKind) -> nat {
    field_bits_from(elems, 0, kind)
}

/// The advertised layout matches the wire format: the descriptor's input
/// fields cover exactly the 64 bits of the 8-byte input report, and its
/// output fields exactly the 8 bits of the one LED byte.
#[verifier::rlimit(100)]
pub proof fn lemma_descriptor_matches_report_layout()
    ensures
        field_bits(boot_keyboard_elements(), HidFieldKind::Input) == 8 * KEYBOARD_REPORT_IN_SIZE,
        field_bits(boot_keyboard_elements(), HidFieldKind::Output) == 8,
{
    reveal_with_fuel(field_bits_from, 9);
    // The products of each field's size and count, which the solver does
    // not evaluate unprompted.
    assert(1nat * 8nat == 8nat);
    assert(8nat * 1nat == 8nat);
    assert(8nat * 6nat == 48nat);
    assert(1nat * 5nat == 5nat);
    assert(1nat * 3nat == 3nat);
    assert(8 * KEYBOARD_REPORT_IN_SIZE == 64);
}

/// The advertised report descriptor, read by a conformant HID parser,
/// yields exactly the Boot Keyboard field definitions: field order, bit
/// widths, directions, flags and usage ranges.
pub proof fn lemma_descriptor_parses_as_boot_keyboard()
    ensures
        parsed_descriptor(spec_report_descriptor()) == Some(boot_keyboard_elements()),
{
    reveal_with_fuel(parse_from, 4);
    reveal_with_fuel(le_value, 3);
    lemma_parse_from_6();
    assert(seq![boot_keyboard_elements()[0]] + boot_keyboard_elements().subrange(1, 7)
        =~= boot_keyboard_elements().subrange(0, 7));
    assert(boot_keyboard_elements().subrange(0, 7) =~= boot_keyboard_elements());
}

} // verus!
