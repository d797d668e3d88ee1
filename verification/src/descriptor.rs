//! The HID report descriptor and its input-field schema.
//!
//! The descriptor is a fixed byte sequence in the HID short-item grammar; it
//! declares to the host which input fields the device's reports carry, in
//! which order and at which widths. The host parses notified payloads
//! positionally against it, so a descriptor that drifts from the codec makes
//! the device silently unusable. This module builds the descriptor, parses
//! its field declarations back out, and proves that decoding an encoded
//! report against those declarations recovers every field.

use vstd::prelude::*;
use crate::report::MouseReport;
use crate::report::MAX_BUTTON_MASK;

verus! {

/// Report ID under which the mouse input report is registered and sent.
pub const MOUSE_REPORT_ID: u8 = 0x01;

/// HID short-item prefix of an Input main item (size bits zero).
pub const ITEM_INPUT: u8 = 0x80;

/// HID short-item prefix of the Report Size global item (size bits zero).
pub const ITEM_REPORT_SIZE: u8 = 0x74;

/// HID short-item prefix of the Report Count global item (size bits zero).
pub const ITEM_REPORT_COUNT: u8 = 0x94;

/// One input field group declared by the descriptor: `count` consecutive
/// fields of `size_bits` bits each. `constant` marks padding fields the
/// host ignores.
#[derive(Clone, Copy, PartialEq, Eq, Structural, Debug)]
pub struct InputField {
    pub size_bits: u8,
    pub count: u8,
    pub constant: bool,
}

/// Opening items: usage Generic Desktop / Mouse, an application collection
/// holding a Pointer physical collection, report ID 0x01.
pub open spec fn desc_opening() -> Seq<u8> {
    seq![0x05u8, 0x01, 0x09, 0x02, 0xa1, 0x01, 0x85, 0x01, 0x09, 0x01, 0xa1, 0x00]
}

/// Button items: usages Button 1 through Button 5, logical range 0..1,
/// five 1-bit data fields.
pub open spec fn desc_buttons() -> Seq<u8> {
    seq![0x05u8, 0x09, 0x19, 0x01, 0x29, 0x05, 0x15, 0x00, 0x25, 0x01, 0x75, 0x01, 0x95, 0x05, 0x81, 0x02]
}

/// Padding items: three constant bits to byte-align the button field.
pub open spec fn desc_padding() -> Seq<u8> {
    seq![0x75u8, 0x03, 0x95, 0x01, 0x81, 0x03]
}

/// Axis items: usages X, Y and Wheel on the Generic Desktop page, logical
/// range -127..127, three 8-bit relative data fields.
pub open spec fn desc_axes() -> Seq<u8> {
    seq![0x05u8, 0x01, 0x09, 0x30, 0x09, 0x31, 0x09, 0x38, 0x15, 0x81, 0x25, 0x7f, 0x75, 0x08, 0x95, 0x03, 0x81, 0x06]
}

/// Horizontal-wheel items: usage AC Pan on the Consumer page, logical range
/// -127..127, one 8-bit relative data field.
pub open spec fn desc_horizontal_wheel() -> Seq<u8> {
    seq![0x05u8, 0x0c, 0x0a, 0x38, 0x02, 0x15, 0x81, 0x25, 0x7f, 0x75, 0x08, 0x95, 0x01, 0x81, 0x06]
}

/// Closing items: end of the physical and the application collection.
pub open spec fn desc_closing() -> Seq<u8> {
    seq![0xc0u8, 0xc0]
}

/// The whole report descriptor: one fixed 69-byte sequence.
pub open spec fn spec_descriptor() -> Seq<u8> {
    desc_opening() + desc_buttons() + desc_padding() + desc_axes() + desc_horizontal_wheel()
        + desc_closing()
}

/// The input fields the descriptor declares, in order: five 1-bit button
/// flags, three constant padding bits, three 8-bit relative axes (X, Y,
/// wheel), and one 8-bit relative axis (AC Pan).
pub open spec fn mouse_schema() -> Seq<InputField> {
    seq![
        (InputField { size_bits: 1, count: 5, constant: false }),
        (InputField { size_bits: 3, count: 1, constant: true }),
        (InputField { size_bits: 8, count: 3, constant: false }),
        (InputField { size_bits: 8, count: 1, constant: false }),
    ]
}

/// How many data bytes a short item's size code declares (code 3 means 4).
pub open spec fn item_data_len(code: u8) -> int {
    if code == 3 {
        4
    } else {
        code as int
    }
}

/// Walk the descriptor's short items from position `i`, carrying the current
/// Report Size and Report Count globals, and collect one `InputField` per
/// Input main item. Returns `None` on a truncated item.
pub open spec fn parse_fields_from(
    d: Seq<u8>,
    i: int,
    size: u8,
    count: u8,
    acc: Seq<InputField>,
) -> Option<Seq<InputField>>
    decreases d.len() - i,
{
    if i < 0 || i >= d.len() {
        if i == d.len() {
            Some(acc)
        } else {
            None
        }
    } else {
        let prefix = d[i];
        let n = item_data_len(prefix % 4);
        if i + 1 + n > d.len() {
            None
        } else {
            let value = if n >= 1 { d[i + 1] } else { 0u8 };
            let j = i + 1 + n;
            if prefix / 4 == ITEM_REPORT_SIZE / 4 {
                parse_fields_from(d, j, value, count, acc)
            } else if prefix / 4 == ITEM_REPORT_COUNT / 4 {
                parse_fields_from(d, j, size, value, acc)
            } else if prefix / 4 == ITEM_INPUT / 4 {
                parse_fields_from(
                    d,
                    j,
                    size,
                    count,
                    acc.push(InputField { size_bits: size, count: count, constant: value % 2 == 1 }),
                )
            } else {
                parse_fields_from(d, j, size, count, acc)
            }
        }
    }
}

/// The input-field declarations of a whole descriptor.
pub open spec fn parse_input_fields_spec(d: Seq<u8>) -> Option<Seq<InputField>> {
    parse_fields_from(d, 0, 0, 0, Seq::empty())
}

/// Build the report descriptor.
pub fn report_descriptor() -> (r: Vec<u8>)
    ensures
        r@ == spec_descriptor(),
        r@.len() == 69,
{
    let d: Vec<u8> = vec![
        0x05, 0x01,        // Usage Page (Generic Desktop)
        0x09, 0x02,        // Usage (Mouse)
        0xa1, 0x01,        // Collection (Application)
        0x85, 0x01,        //   Report ID (1)
        0x09, 0x01,        //   Usage (Pointer)
        0xa1, 0x00,        //   Collection (Physical)
        0x05, 0x09,        //     Usage Page (Buttons)
        0x19, 0x01,        //     Usage Minimum (Button 1)
        0x29, 0x05,        //     Usage Maximum (Button 5)
        0x15, 0x00,        //     Logical Minimum (0)
        0x25, 0x01,        //     Logical Maximum (1)
        0x75, 0x01,        //     Report Size (1)
        0x95, 0x05,        //     Report Count (5)
        0x81, 0x02,        //     Input (Data, Variable, Absolute)
        0x75, 0x03,        //     Report Size (3)
        0x95, 0x01,        //     Report Count (1)
        0x81, 0x03,        //     Input (Constant): padding
        0x05, 0x01,        //     Usage Page (Generic Desktop)
        0x09, 0x30,        //     Usage (X)
        0x09, 0x31,        //     Usage (Y)
        0x09, 0x38,        //     Usage (Wheel)
        0x15, 0x81,        //     Logical Minimum (-127)
        0x25, 0x7f,        //     Logical Maximum (127)
        0x75, 0x08,        //     Report Size (8)
        0x95, 0x03,        //     Report Count (3)
        0x81, 0x06,        //     Input (Data, Variable, Relative)
        0x05, 0x0c,        //     Usage Page (Consumer)
        0x0a, 0x38, 0x02,  //     Usage (AC Pan)
        0x15, 0x81,        //     Logical Minimum (-127)
        0x25, 0x7f,        //     Logical Maximum (127)
        0x75, 0x08,        //     Report Size (8)
        0x95, 0x01,        //     Report Count (1)
        0x81, 0x06,        //     Input (Data, Variable, Relative)
        0xc0,              //   End Collection
        0xc0,              // End Collection
    ];
    proof {
        assert(d@ =~= spec_descriptor());
        assert(spec_descriptor().len() == 69);
    }
    d
}

/// Extract the input-field declarations from a report descriptor: the
/// executable counterpart of `parse_input_fields_spec`.
pub fn parse_input_fields(d: &Vec<u8>) -> (r: Option<Vec<InputField>>)
    ensures
        match r {
            Some(fields) => parse_input_fields_spec(d@) == Some(fields@),
            None => parse_input_fields_spec(d@) is None,
        },
{
    let mut i: usize = 0;
    let mut size: u8 = 0;
    let mut count: u8 = 0;
    let mut out: Vec<InputField> = Vec::new();
    while i < d.len()
        invariant
            i <= d.len(),
            parse_fields_from(d@, i as int, size, count, out@) == parse_input_fields_spec(d@),
        decreases d.len() - i,
    {
        let prefix = d[i];
        let code = prefix % 4;
        let n: usize = if code == 3 { 4 } else { code as usize };
        if n > d.len() - i - 1 {
            return None;
        }
        let value: u8 = if n >= 1 { d[i + 1] } else { 0 };
        let tag = prefix / 4;
        if tag == ITEM_REPORT_SIZE / 4 {
            size = value;
        } else if tag == ITEM_REPORT_COUNT / 4 {
            count = value;
        } else if tag == ITEM_INPUT / 4 {
            out.push(InputField { size_bits: size, count: count, constant: value % 2 == 1 });
        }
        i = i + 1 + n;
    }
    Some(out)
}

/// Decode a wire payload against a parsed field schema. Succeeds exactly
/// when the schema is the mouse layout, the payload is the five bytes that
/// layout declares, and the reserved button bits are zero.
pub open spec fn decode_report_spec(schema: Seq<InputField>, bytes: Seq<u8>) -> Option<MouseReport> {
    if schema == mouse_schema() && bytes.len() == 5 && bytes[0] <= MAX_BUTTON_MASK {
        Some(MouseReport {
            buttons: bytes[0],
            x: bytes[1] as i8,
            y: bytes[2] as i8,
            wheel: bytes[3] as i8,
            horizontal_wheel: bytes[4] as i8,
        })
    } else {
        None
    }
}

/// Decode a wire payload against a parsed field schema: the executable
/// counterpart of `decode_report_spec`.
pub fn decode_report(schema: &Vec<InputField>, bytes: &Vec<u8>) -> (r: Option<MouseReport>)
    ensures
        r == decode_report_spec(schema@, bytes@),
{
    if schema.len() != 4 {
        proof {
            assert(schema@ != mouse_schema());
        }
        return None;
    }
    let expected0 = InputField { size_bits: 1, count: 5, constant: false };
    let expected1 = InputField { size_bits: 3, count: 1, constant: true };
    let expected2 = InputField { size_bits: 8, count: 3, constant: false };
    let expected3 = InputField { size_bits: 8, count: 1, constant: false };
    if schema[0] != expected0 || schema[1] != expected1 || schema[2] != expected2 || schema[3]
        != expected3 {
        proof {
            assert(schema@ != mouse_schema());
        }
        return None;
    }
    proof {
        assert(schema@ =~= mouse_schema());
    }
    if bytes.len() != 5 {
        return None;
    }
    let b0 = bytes[0];
    if b0 > MAX_BUTTON_MASK {
        return None;
    }
    Some(MouseReport {
        buttons: b0,
        x: bytes[1] as i8,
        y: bytes[2] as i8,
        wheel: bytes[3] as i8,
        horizontal_wheel: bytes[4] as i8,
    })
}

/// The descriptor's field declarations are exactly the mouse schema.
#[verifier::rlimit(100)]
pub proof fn lemma_descriptor_schema()
    ensures
        parse_input_fields_spec(spec_descriptor()) == Some(mouse_schema()),
{
    let d = spec_descriptor();
    assert(d.len() == 69);
    let e = Seq::<InputField>::empty();
    let a1 = e.push(InputField { size_bits: 1, count: 5, constant: false });
    let a2 = a1.push(InputField { size_bits: 3, count: 1, constant: true });
    let a3 = a2.push(InputField { size_bits: 8, count: 3, constant: false });
    let a4 = a3.push(InputField { size_bits: 8, count: 1, constant: false });
    assert(parse_fields_from(d, 0, 0, 0, e) == parse_fields_from(d, 2, 0, 0, e));
    assert(parse_fields_from(d, 2, 0, 0, e) == parse_fields_from(d, 4, 0, 0, e));
    assert(parse_fields_from(d, 4, 0, 0, e) == parse_fields_from(d, 6, 0, 0, e));
    assert(parse_fields_from(d, 6, 0, 0, e) == parse_fields_from(d, 8, 0, 0, e));
    assert(parse_fields_from(d, 8, 0, 0, e) == parse_fields_from(d, 10, 0, 0, e));
    assert(parse_fields_from(d, 10, 0, 0, e) == parse_fields_from(d, 12, 0, 0, e));
    assert(parse_fields_from(d, 12, 0, 0, e) == parse_fields_from(d, 14, 0, 0, e));
    assert(parse_fields_from(d, 14, 0, 0, e) == parse_fields_from(d, 16, 0, 0, e));
    assert(parse_fields_from(d, 16, 0, 0, e) == parse_fields_from(d, 18, 0, 0, e));
    assert(parse_fields_from(d, 18, 0, 0, e) == parse_fields_from(d, 20, 0, 0, e));
    assert(parse_fields_from(d, 20, 0, 0, e) == parse_fields_from(d, 22, 0, 0, e));
    assert(parse_fields_from(d, 22, 0, 0, e) == parse_fields_from(d, 24, 1, 0, e));
    assert(parse_fields_from(d, 24, 1, 0, e) == parse_fields_from(d, 26, 1, 5, e));
    assert(parse_fields_from(d, 26, 1, 5, e) == parse_fields_from(d, 28, 1, 5, a1));
    assert(parse_fields_from(d, 28, 1, 5, a1) == parse_fields_from(d, 30, 3, 5, a1));
    assert(parse_fields_from(d, 30, 3, 5, a1) == parse_fields_from(d, 32, 3, 1, a1));
    assert(parse_fields_from(d, 32, 3, 1, a1) == parse_fields_from(d, 34, 3, 1, a2));
    assert(parse_fields_from(d, 34, 3, 1, a2) == parse_fields_from(d, 36, 3, 1, a2));
    assert(parse_fields_from(d, 36, 3, 1, a2) == parse_fields_from(d, 38, 3, 1, a2));
    assert(parse_fields_from(d, 38, 3, 1, a2) == parse_fields_from(d, 40, 3, 1, a2));
    assert(parse_fields_from(d, 40, 3, 1, a2) == parse_fields_from(d, 42, 3, 1, a2));
    assert(parse_fields_from(d, 42, 3, 1, a2) == parse_fields_from(d, 44, 3, 1, a2));
    assert(parse_fields_from(d, 44, 3, 1, a2) == parse_fields_from(d, 46, 3, 1, a2));
    assert(parse_fields_from(d, 46, 3, 1, a2) == parse_fields_from(d, 48, 8, 1, a2));
    assert(parse_fields_from(d, 48, 8, 1, a2) == parse_fields_from(d, 50, 8, 3, a2));
    assert(parse_fields_from(d, 50, 8, 3, a2) == parse_fields_from(d, 52, 8, 3, a3));
    assert(parse_fields_from(d, 52, 8, 3, a3) == parse_fields_from(d, 54, 8, 3, a3));
    assert(parse_fields_from(d, 54, 8, 3, a3) == parse_fields_from(d, 57, 8, 3, a3));
    assert(parse_fields_from(d, 57, 8, 3, a3) == parse_fields_from(d, 59, 8, 3, a3));
    assert(parse_fields_from(d, 59, 8, 3, a3) == parse_fields_from(d, 61, 8, 3, a3));
    assert(parse_fields_from(d, 61, 8, 3, a3) == parse_fields_from(d, 63, 8, 3, a3));
    assert(parse_fields_from(d, 63, 8, 3, a3) == parse_fields_from(d, 65, 8, 1, a3));
    assert(parse_fields_from(d, 65, 8, 1, a3) == parse_fields_from(d, 67, 8, 1, a4));
    assert(parse_fields_from(d, 67, 8, 1, a4) == parse_fields_from(d, 68, 8, 1, a4));
    assert(parse_fields_from(d, 68, 8, 1, a4) == parse_fields_from(d, 69, 8, 1, a4));
    assert(parse_fields_from(d, 69, 8, 1, a4) == Some(a4));
    assert(a4 =~= mouse_schema());
}

/// Total bits declared by the schema's first `k` field groups.
pub open spec fn bits_before(schema: Seq<InputField>, k: int) -> int
    decreases k,
{
    if k <= 0 {
        0
    } else {
        bits_before(schema, k - 1) + schema[k - 1].size_bits * schema[k - 1].count
    }
}

/// The declared layout is byte-exact: buttons and padding fill the first
/// byte, each axis field starts on a byte boundary, and the whole report is
/// 40 bits, the five bytes the codec produces.
pub proof fn lemma_schema_bit_layout()
    ensures
        bits_before(mouse_schema(), 1) == 5,
        bits_before(mouse_schema(), 2) == 8,
        bits_before(mouse_schema(), 3) == 32,
        bits_before(mouse_schema(), 4) == 40,
{
    let s = mouse_schema();
    assert(bits_before(s, 0) == 0);
    assert(s[0].size_bits * s[0].count == 1 * 5);
    assert(bits_before(s, 1) == 5);
    assert(s[1].size_bits * s[1].count == 3 * 1);
    assert(bits_before(s, 2) == 8);
    assert(s[2].size_bits * s[2].count == 8 * 3);
    assert(bits_before(s, 3) == 32);
    assert(s[3].size_bits * s[3].count == 8 * 1);
    assert(bits_before(s, 4) == 40);
}

/// Startup self-check that the descriptor and the codec agree: parse the
/// built descriptor and compare its field declarations against the codec's
/// layout. Proved to always hold, so a caller may fail fast on `false`
/// without that branch ever being taken.
pub fn descriptor_self_check() -> (r: bool)
    ensures
        r,
{
    proof {
        lemma_descriptor_schema();
    }
    let d = report_descriptor();
    let parsed = parse_input_fields(&d);
    match parsed {
        Some(schema) => {
            let expected0 = InputField { size_bits: 1, count: 5, constant: false };
            let expected1 = InputField { size_bits: 3, count: 1, constant: true };
            let expected2 = InputField { size_bits: 8, count: 3, constant: false };
            let expected3 = InputField { size_bits: 8, count: 1, constant: false };
            schema.len() == 4 && schema[0] == expected0 && schema[1] == expected1 && schema[2]
                == expected2 && schema[3] == expected3
        },
        None => false,
    }
}

/// Descriptor stability: the descriptor is one fixed byte sequence, so any
/// two builds of it are identical.
pub proof fn lemma_descriptor_deterministic(a: Seq<u8>, b: Seq<u8>)
    requires
        a == spec_descriptor(),
        b == spec_descriptor(),
    ensures
        a == b,
{
}

/// Descriptor/codec agreement: the field declarations parsed out of the
/// report descriptor are the codec's layout, and decoding an encoded report
/// against them recovers every field of the report.
pub proof fn lemma_descriptor_codec_agreement(r: MouseReport)
    requires
        r.wf(),
    ensures
        parse_input_fields_spec(spec_descriptor()) == Some(mouse_schema()),
        bits_before(mouse_schema(), mouse_schema().len() as int) == 8 * r.wire_bytes().len(),
        decode_report_spec(mouse_schema(), r.wire_bytes()) == Some(r),
{
    lemma_descriptor_schema();
    lemma_schema_bit_layout();
    let x = r.x;
    let y = r.y;
    let w = r.wheel;
    let h = r.horizontal_wheel;
    assert((x as u8) as i8 == x) by (bit_vector);
    assert((y as u8) as i8 == y) by (bit_vector);
    assert((w as u8) as i8 == w) by (bit_vector);
    assert((h as u8) as i8 == h) by (bit_vector);
}

} // verus!
