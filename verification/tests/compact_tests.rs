//! The compact integer codec against the wire format's known encodings,
//! and decode-of-encode round trips across all four modes.

use lobster::compact::{compact_decode, compact_encode, compact_encode_u64};

fn round_trips(x: u128) {
    let enc = compact_encode(x);
    let got = compact_decode(enc.as_slice(), 0);
    assert_eq!(got, Some((x, enc.len())));
}

#[test]
fn encodes_single_byte_mode() {
    assert_eq!(compact_encode(0), vec![0x00]);
    assert_eq!(compact_encode(1), vec![0x04]);
    assert_eq!(compact_encode(42), vec![0xa8]);
    assert_eq!(compact_encode(63), vec![0xfc]);
}

#[test]
fn encodes_two_byte_mode() {
    assert_eq!(compact_encode(64), vec![0x01, 0x01]);
    assert_eq!(compact_encode(16383), vec![0xfd, 0xff]);
}

#[test]
fn encodes_four_byte_mode() {
    assert_eq!(compact_encode(16384), vec![0x02, 0x00, 0x01, 0x00]);
    assert_eq!(compact_encode((1u128 << 30) - 1), vec![0xfe, 0xff, 0xff, 0xff]);
}

#[test]
fn encodes_big_integer_mode() {
    assert_eq!(compact_encode(1u128 << 30), vec![0x03, 0x00, 0x00, 0x00, 0x40]);
    assert_eq!(
        compact_encode(u64::MAX as u128),
        vec![0x13, 0xff, 0xff, 0xff, 0xff, 0xff, 0xff, 0xff, 0xff]
    );
    assert_eq!(
        compact_encode(u128::MAX),
        {
            let mut expected = vec![0x33];
            expected.extend(std::iter::repeat(0xff).take(16));
            expected
        }
    );
}

#[test]
fn decode_recovers_encode_at_mode_boundaries() {
    for x in [
        0u128,
        63,
        64,
        16383,
        16384,
        (1u128 << 30) - 1,
        1u128 << 30,
        u64::MAX as u128,
    ] {
        round_trips(x);
    }
}

#[test]
fn decode_recovers_encode_for_wide_values() {
    round_trips(u128::MAX);
    round_trips(1_000_000_000_000);
    round_trips(0xdead_beef_cafe_f00d_u128 << 40);
}

#[test]
fn decode_ignores_trailing_bytes() {
    let mut enc = compact_encode_u64(16384);
    let len = enc.len();
    enc.extend_from_slice(&[0xaa, 0xbb]);
    assert_eq!(compact_decode(enc.as_slice(), 0), Some((16384, len)));
}

#[test]
fn decode_rejects_truncated_input() {
    // A two-byte-mode tag with its second byte missing.
    assert_eq!(compact_decode(&[0x01], 0), None);
    // A big-integer tag announcing five bytes, with only two present.
    assert_eq!(compact_decode(&[0x07, 0x01, 0x02], 0), None);
    // Reading past the end.
    assert_eq!(compact_decode(&[0x00], 1), None);
}
