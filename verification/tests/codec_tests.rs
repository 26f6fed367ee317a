use serial_session::codec::{
    format_bin_spaced, format_hex_spaced, hex_decode, render_bytes, render_utf8, HexDecodeError,
    RxFormats,
};
use serial_session::text::u64_to_dec;

#[test]
fn dec_renders_zero() {
    assert_eq!(u64_to_dec(0), "0");
}

#[test]
fn dec_renders_digits() {
    assert_eq!(u64_to_dec(7), "7");
    assert_eq!(u64_to_dec(10), "10");
    assert_eq!(u64_to_dec(1234), "1234");
    assert_eq!(u64_to_dec(18446744073709551615), "18446744073709551615");
}

#[test]
fn hex_format_empty() {
    assert_eq!(format_hex_spaced(&vec![]), "");
}

#[test]
fn hex_format_exact() {
    assert_eq!(format_hex_spaced(&vec![0xDE, 0xAD, 0xBE, 0xEF]), "DE AD BE EF");
    assert_eq!(format_hex_spaced(&vec![0x00]), "00");
    assert_eq!(format_hex_spaced(&vec![0x0F, 0xA0]), "0F A0");
}

#[test]
fn bin_format_exact() {
    assert_eq!(format_bin_spaced(&vec![]), "");
    assert_eq!(format_bin_spaced(&vec![5]), "00000101");
    assert_eq!(format_bin_spaced(&vec![0xFF, 0x00]), "11111111 00000000");
}

#[test]
fn hex_decode_exact() {
    assert_eq!(hex_decode("DEADBEEF").unwrap(), vec![0xDE, 0xAD, 0xBE, 0xEF]);
    assert_eq!(hex_decode("deadbeef").unwrap(), vec![0xDE, 0xAD, 0xBE, 0xEF]);
    assert_eq!(hex_decode("").unwrap(), Vec::<u8>::new());
}

#[test]
fn hex_decode_strips_spaces() {
    assert_eq!(hex_decode(" D E A D ").unwrap(), vec![0xDE, 0xAD]);
    assert_eq!(hex_decode("DE AD BE EF").unwrap(), vec![0xDE, 0xAD, 0xBE, 0xEF]);
}

#[test]
fn hex_decode_odd_length() {
    assert!(matches!(hex_decode("ABC"), Err(HexDecodeError::OddLength)));
    assert!(matches!(hex_decode("A B C"), Err(HexDecodeError::OddLength)));
    assert!(matches!(hex_decode("0"), Err(HexDecodeError::OddLength)));
}

#[test]
fn hex_decode_bad_digit() {
    match hex_decode("ZZ") {
        Err(HexDecodeError::BadDigit(msg)) => {
            assert_eq!(msg, "Invalid character 'Z' at position 0");
        }
        other => panic!("expected a bad-digit error, got {other:?}"),
    }
}

#[test]
fn hex_round_trip_concrete() {
    let cases: Vec<Vec<u8>> = vec![
        vec![],
        vec![0x00],
        vec![0xFF],
        vec![0xDE, 0xAD, 0xBE, 0xEF],
        (0u8..=255).collect(),
    ];
    for b in cases {
        let rendered = format_hex_spaced(&b);
        assert_eq!(hex_decode(&rendered).unwrap(), b);
        if b.is_empty() {
            assert_eq!(rendered.len(), 0);
        } else {
            assert_eq!(rendered.len(), 3 * b.len() - 1);
        }
        assert_eq!(rendered.split(' ').filter(|g| !g.is_empty()).count(), b.len());
    }
}

#[test]
fn utf8_render_valid() {
    assert_eq!(render_utf8(&b"Hi\n".to_vec()), "Hi\n");
    assert_eq!(render_utf8(&vec![]), "");
}

#[test]
fn utf8_render_invalid_surfaces_error() {
    let r = render_utf8(&vec![0xFF]);
    assert_eq!(r, "invalid utf-8 sequence of 1 bytes from index 0");
}

#[test]
fn render_bytes_order_and_content() {
    let buf = vec![0x48, 0x69];
    let all = RxFormats { utf8: true, hex: true, bin: true };
    let lines = render_bytes(2, &buf, all);
    assert_eq!(
        lines,
        vec![
            "Received 2 bytes: 48 69".to_string(),
            "Received 2 bytes: 01001000 01101001".to_string(),
            "Received 2 bytes: Hi".to_string(),
        ]
    );
}

#[test]
fn render_bytes_none_active() {
    let none = RxFormats { utf8: false, hex: false, bin: false };
    assert_eq!(render_bytes(5, &vec![1, 2, 3], none), Vec::<String>::new());
}
