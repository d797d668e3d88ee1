use ble_mouse::config::DeviceConfig;
use ble_mouse::descriptor::decode_report;
use ble_mouse::descriptor::descriptor_self_check;
use ble_mouse::descriptor::parse_input_fields;
use ble_mouse::descriptor::report_descriptor;
use ble_mouse::descriptor::InputField;
use ble_mouse::descriptor::MOUSE_REPORT_ID;
use ble_mouse::driver::burst_steps;
use ble_mouse::driver::driver_state;
use ble_mouse::driver::run_cycle;
use ble_mouse::driver::DriverState;
use ble_mouse::report::MouseReport;
use ble_mouse::report::MAX_BUTTON_MASK;
use ble_mouse::session::MouseSession;

fn sample_report(buttons: u8, x: i8, y: i8, wheel: i8, hwheel: i8) -> MouseReport {
    let mut r = MouseReport::new();
    r.set_buttons(buttons);
    r.set_motion(x, y, wheel, hwheel);
    r
}

#[test]
fn descriptor_has_expected_bytes() {
    let d = report_descriptor();
    let expected: Vec<u8> = vec![
        0x05, 0x01, 0x09, 0x02, 0xa1, 0x01, 0x85, 0x01, 0x09, 0x01, 0xa1, 0x00, 0x05, 0x09, 0x19,
        0x01, 0x29, 0x05, 0x15, 0x00, 0x25, 0x01, 0x75, 0x01, 0x95, 0x05, 0x81, 0x02, 0x75, 0x03,
        0x95, 0x01, 0x81, 0x03, 0x05, 0x01, 0x09, 0x30, 0x09, 0x31, 0x09, 0x38, 0x15, 0x81, 0x25,
        0x7f, 0x75, 0x08, 0x95, 0x03, 0x81, 0x06, 0x05, 0x0c, 0x0a, 0x38, 0x02, 0x15, 0x81, 0x25,
        0x7f, 0x75, 0x08, 0x95, 0x01, 0x81, 0x06, 0xc0, 0xc0,
    ];
    assert_eq!(d, expected);
    assert_eq!(d.len(), 69);
    assert_eq!(MOUSE_REPORT_ID, 0x01);
}

#[test]
fn descriptor_is_deterministic_across_builds() {
    let a = report_descriptor();
    let b = report_descriptor();
    assert_eq!(a, b);
}

#[test]
fn descriptor_schema_matches_codec_layout() {
    let d = report_descriptor();
    let schema = parse_input_fields(&d).expect("descriptor must parse");
    let expected = vec![
        InputField { size_bits: 1, count: 5, constant: false },
        InputField { size_bits: 3, count: 1, constant: true },
        InputField { size_bits: 8, count: 3, constant: false },
        InputField { size_bits: 8, count: 1, constant: false },
    ];
    assert_eq!(schema, expected);
    let total_bits: u32 = schema.iter().map(|f| f.size_bits as u32 * f.count as u32).sum();
    assert_eq!(total_bits, 40);
}

#[test]
fn descriptor_self_check_holds() {
    assert!(descriptor_self_check());
}

#[test]
fn decode_recovers_encoded_report() {
    let d = report_descriptor();
    let schema = parse_input_fields(&d).expect("descriptor must parse");
    let r = sample_report(0b0001_0101, -127, 127, -1, 64);
    let bytes = r.encode();
    let back = decode_report(&schema, &bytes).expect("round trip must succeed");
    assert_eq!(back, r);
}

#[test]
fn decode_rejects_wrong_schema_length_and_reserved_bits() {
    let d = report_descriptor();
    let schema = parse_input_fields(&d).expect("descriptor must parse");
    let r = sample_report(3, 1, 2, 3, 4);
    let bytes = r.encode();

    let mut wrong_schema = schema.clone();
    wrong_schema[0].size_bits = 2;
    assert_eq!(decode_report(&wrong_schema, &bytes), None);

    let mut short = bytes.clone();
    short.pop();
    assert_eq!(decode_report(&schema, &short), None);

    let mut reserved = bytes.clone();
    reserved[0] = 0xE0;
    assert_eq!(decode_report(&schema, &reserved), None);
}

#[test]
fn parser_rejects_truncated_descriptor() {
    let mut d = report_descriptor();
    d.pop();
    d.pop();
    d.pop();
    assert_eq!(parse_input_fields(&d), None);
}

#[test]
fn encode_is_five_bytes_at_the_extremes() {
    assert_eq!(sample_report(0, 0, 0, 0, 0).encode().len(), 5);
    assert_eq!(sample_report(MAX_BUTTON_MASK, 127, -127, 127, -127).encode().len(), 5);
    assert_eq!(sample_report(0b0001_1111, -1, 1, -127, 127).encode().len(), 5);
}

#[test]
fn encode_left_button_and_twos_complement() {
    let left = sample_report(0b0000_0001, 0, 0, 0, 0);
    assert_eq!(left.encode()[0], 0x01);
    let back = sample_report(0, -10, 0, 0, 0);
    assert_eq!(back.encode()[1], 0xF6);
    let forth = sample_report(0, 10, 0, 0, 0);
    assert_eq!(forth.encode()[1], 0x0A);
}

#[test]
fn move_by_same_arguments_gives_identical_payloads() {
    let mut s = MouseSession::new();
    s.click(0b0000_0101);
    let p1 = s.move_by(10, -20, 3, -4);
    let p2 = s.move_by(10, -20, 3, -4);
    assert_eq!(p1, p2);
    assert_eq!(p1, vec![0b0000_0101, 0x0A, 0xEC, 0x03, 0xFC]);
}

#[test]
fn click_sets_buttons_until_released_by_zero_mask() {
    let mut s = MouseSession::new();
    let down = s.click(0b0000_0001);
    assert_eq!(down, vec![0x01, 0, 0, 0, 0]);
    let moved = s.move_by(5, 5, 0, 0);
    assert_eq!(moved[0], 0x01);
    let up = s.click(0);
    assert_eq!(up[0], 0x00);
}

#[test]
fn cycle_disconnected_sends_nothing() {
    let mut s = MouseSession::new();
    let before = s.transmit_payload();
    let payloads = run_cycle(&mut s, false);
    assert_eq!(payloads.len(), 0);
    assert_eq!(s.transmit_payload(), before);
    assert_eq!(driver_state(false), DriverState::Idle);
}

#[test]
fn cycle_connected_sends_four_moves_in_pattern() {
    let mut s = MouseSession::new();
    let payloads = run_cycle(&mut s, true);
    assert_eq!(payloads.len(), 4);
    assert_eq!(payloads[0], vec![0, 0x0A, 0x0A, 0, 0]);
    assert_eq!(payloads[1], vec![0, 0xF6, 0xF6, 0, 0]);
    assert_eq!(payloads[2], vec![0, 0x0A, 0x0A, 0, 0]);
    assert_eq!(payloads[3], vec![0, 0xF6, 0xF6, 0, 0]);
    assert_eq!(driver_state(true), DriverState::Active);

    let steps = burst_steps();
    assert_eq!(steps.len(), 4);
    assert_eq!((steps[0].dx, steps[0].dy, steps[0].wheel, steps[0].hwheel), (10, 10, 0, 0));
    assert_eq!((steps[1].dx, steps[1].dy, steps[1].wheel, steps[1].hwheel), (-10, -10, 0, 0));
    assert_eq!((steps[2].dx, steps[2].dy, steps[2].wheel, steps[2].hwheel), (10, 10, 0, 0));
    assert_eq!((steps[3].dx, steps[3].dy, steps[3].wheel, steps[3].hwheel), (-10, -10, 0, 0));
}

#[test]
fn standard_config_values() {
    let c = DeviceConfig::standard();
    assert_eq!(c.name, "BTMouse");
    assert_eq!(c.manufacturer, "ant.org");
    assert_eq!(c.appearance, 0x03C2);
    assert_eq!(c.pnp_source, 0x02);
    assert_eq!(c.vendor_id, 0x05ac);
    assert_eq!(c.product_id, 0x820a);
    assert_eq!(c.product_version, 0x0210);
    assert_eq!(c.hid_country, 0x00);
    assert_eq!(c.hid_flags, 0x02);
    assert_eq!(c.battery_level, 100);
    assert!(!c.scan_response);
}
