use eve_multibox::codec::{
    decode_address, decode_window_id, digit_of, encode_decimal, encode_hex, encode_hex8,
    parse_decimal, parse_number, truncate_id,
};
use eve_multibox::text::{to_chars, whitespace};

#[test]
fn hex8_round_trip_of_documented_id() {
    let text = encode_hex8(0x06e00008);
    assert_eq!(text, "0x06e00008");
    assert_eq!(decode_window_id(&text), 0x06e00008);
    assert_eq!(decode_address(&text), 0x06e00008);
}

#[test]
fn short_hex_round_trip_of_documented_id() {
    let text = encode_hex(0x06e00008);
    assert_eq!(text, "0x6e00008");
    assert_eq!(decode_address(&text), 0x06e00008);
    assert_eq!(decode_window_id(&text), 0x06e00008);
}

#[test]
fn decimal_round_trip_of_documented_id() {
    let text = encode_decimal(0x06e00008);
    assert_eq!(text, "115343368");
    assert_eq!(decode_window_id(&text), 0x06e00008);
}

#[test]
fn round_trips_at_the_edges() {
    for id in [0u32, 1, 9, 10, 15, 16, 255, 0x1000_0000, 0x7fff_ffff, 0x8000_0000, u32::MAX] {
        assert_eq!(decode_window_id(&encode_hex8(id)), id);
        assert_eq!(decode_address(&encode_hex(id)), id);
        assert_eq!(decode_window_id(&encode_decimal(id)), id);
    }
}

#[test]
fn encoders_agree_with_the_standard_formats() {
    for id in [0u32, 7, 0xabc, 0x06e00008, 0xdead_beef, u32::MAX] {
        assert_eq!(encode_hex8(id), format!("0x{:08x}", id));
        assert_eq!(encode_hex(id), format!("0x{:x}", id));
        assert_eq!(encode_decimal(id), format!("{}", id));
    }
}

#[test]
fn unparseable_ids_decode_to_zero() {
    for text in ["", "0x", "window", "0xzz", "12a", "-5", "0x-5", " 12", "12 ", "1_000"] {
        assert_eq!(decode_window_id(text), 0, "{:?}", text);
    }
    assert_eq!(decode_window_id("4294967296"), 0);
    assert_eq!(decode_window_id("0x100000000"), 0);
    assert_eq!(decode_window_id("4294967295"), u32::MAX);
    assert_eq!(decode_window_id("0xffffffff"), u32::MAX);
}

#[test]
fn decimal_is_the_fallback_without_marker() {
    assert_eq!(decode_window_id("115343368"), 115343368);
    assert_eq!(decode_window_id("06e00008"), 0);
    assert_eq!(decode_window_id("0X10"), 0);
    assert_eq!(decode_window_id("+42"), 42);
    assert_eq!(decode_window_id("0x+2a"), 42);
    assert_eq!(decode_window_id("0x2A"), 42);
}

#[test]
fn address_without_marker_is_zero() {
    assert_eq!(decode_address("12345678"), 0);
    assert_eq!(decode_address("0x12345678"), 0x12345678);
    assert_eq!(decode_address("0x55d0c8a2b3f0"), 0);
    assert_eq!(decode_address(""), 0);
}

#[test]
fn container_id_keeps_its_low_32_bits() {
    assert_eq!(truncate_id(5), 5);
    assert_eq!(truncate_id(0x1_0000_0005), 5);
    assert_eq!(truncate_id(0xffff_ffff), u32::MAX);
    assert_eq!(truncate_id(0x1_0000_0000), 0);
    assert_eq!(truncate_id(u64::MAX), u32::MAX);
}

#[test]
fn parsing_agrees_with_the_standard_library() {
    let samples = [
        "", "+", "-", "0", "00", "007", "+0", "+7", "++7", "-7", "7+", "42", "4294967295",
        "4294967296", "99999999999999999999", "ff", "FF", "fF", "g", "z", "Z", "0x10", "1 2",
        " 1", "1\n", "١٢", "1e3", "1.0", "12345678", "abcdef", "x", "7fffffff", "100000000",
    ];
    for radix in [2u32, 8, 10, 16, 36] {
        for text in samples {
            let expected = u32::from_str_radix(text, radix).ok();
            assert_eq!(parse_number(&to_chars(text), 0, radix), expected, "{:?} base {}", text, radix);
        }
    }
    for text in samples {
        assert_eq!(parse_decimal(&to_chars(text)), text.parse::<u32>().ok(), "{:?}", text);
    }
}

#[test]
fn parse_number_starts_where_it_is_told() {
    let chars = to_chars("id:1234");
    assert_eq!(parse_number(&chars, 3, 10), Some(1234));
    assert_eq!(parse_number(&chars, 7, 10), None);
    assert_eq!(parse_number(&chars, 0, 10), None);
}

#[test]
fn digits_agree_with_the_standard_library() {
    for code in 0u32..0x500 {
        if let Some(c) = char::from_u32(code) {
            assert_eq!(digit_of(c), c.to_digit(36), "{:?}", c);
        }
    }
}

#[test]
fn whitespace_agrees_with_the_standard_library() {
    for code in 0u32..=0x10ffff {
        if let Some(c) = char::from_u32(code) {
            assert_eq!(whitespace(c), c.is_whitespace(), "U+{:04X}", code);
        }
    }
}
