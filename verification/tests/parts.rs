//! The parts that the result is built from: categories and texts.

use frame_grabber::{decode_text, ResponseStatus, Status, StatusCodes};

const CODES: StatusCodes = StatusCodes { ok: 0, invalid_input: 1, not_found: 2, internal: 3 };

#[test]
fn each_code_has_its_category() {
    assert_eq!(CODES.classify(0), Status::Success);
    assert_eq!(CODES.classify(1), Status::InvalidInput);
    assert_eq!(CODES.classify(2), Status::NotFound);
    assert_eq!(CODES.classify(3), Status::Internal);
}

#[test]
fn other_codes_are_undefined() {
    assert_eq!(CODES.classify(4), Status::Undefined);
    assert_eq!(CODES.classify(-1), Status::Undefined);
    assert_eq!(CODES.classify(i32::MIN), Status::Undefined);
    assert_eq!(CODES.classify(i32::MAX), Status::Undefined);
}

#[test]
fn categories_are_tested_in_a_fixed_order() {
    let all = StatusCodes { ok: 1, invalid_input: 1, not_found: 1, internal: 1 };
    assert_eq!(all.classify(1), Status::Success);
    let failures = StatusCodes { ok: 0, invalid_input: 1, not_found: 1, internal: 1 };
    assert_eq!(failures.classify(1), Status::InvalidInput);
    let last_two = StatusCodes { ok: 0, invalid_input: 2, not_found: 1, internal: 1 };
    assert_eq!(last_two.classify(1), Status::Internal);
    assert_eq!(last_two.classify(3), Status::Undefined);
}

#[test]
fn well_formed_bytes_are_text() {
    assert_eq!(decode_text(b"180"), Some("180"));
    assert_eq!(decode_text(b""), Some(""));
    assert_eq!(decode_text(&[0xE2, 0x82, 0xAC]), Some("\u{20ac}"));
    assert_eq!(decode_text(&[0xF0, 0x9F, 0x8E, 0xA5]), Some("\u{1f3a5}"));
    assert_eq!(decode_text(&[b'a', 0, b'b']), Some("a\0b"));
}

#[test]
fn malformed_bytes_are_no_text() {
    assert_eq!(decode_text(&[0x80]), None);
    assert_eq!(decode_text(&[0xC3]), None);
    assert_eq!(decode_text(&[0xC0, 0x80]), None);
    assert_eq!(decode_text(&[0xE0, 0x80, 0x80]), None);
    assert_eq!(decode_text(&[0xED, 0xA0, 0x80]), None);
    assert_eq!(decode_text(&[0xF4, 0x90, 0x80, 0x80]), None);
    assert_eq!(decode_text(&[b'1', b'8', b'0', 0xFF]), None);
}

#[test]
fn description_is_decoded_or_empty() {
    let with = |description| ResponseStatus { code: 1, description }.describe();
    assert_eq!(with(Some(&b"corrupted file"[..])), "corrupted file");
    assert_eq!(with(Some(&b""[..])), "");
    assert_eq!(with(None), "");
    assert_eq!(with(Some(&[b'a', 0xFF][..])), "");
}
