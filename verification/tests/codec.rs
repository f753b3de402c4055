use ffi_bridge::dec::{format_i64, format_u64, parse_i64, parse_u64};
use ffi_bridge::marshal::{marshal_param, marshal_params, NativeArg, Param};
use ffi_bridge::utf8::is_valid_utf8;
use ffi_bridge::value::{BridgeError, TypeTag, WireValue};

#[test]
fn format_u64_zero_and_max() {
    assert_eq!(format_u64(0), b"0".to_vec());
    assert_eq!(format_u64(7), b"7".to_vec());
    assert_eq!(format_u64(18446744073709551615), b"18446744073709551615".to_vec());
}

#[test]
fn format_i64_signed_values() {
    assert_eq!(format_i64(0), b"0".to_vec());
    assert_eq!(format_i64(-1), b"-1".to_vec());
    assert_eq!(format_i64(i64::MIN), b"-9223372036854775808".to_vec());
    assert_eq!(format_i64(i64::MAX), b"9223372036854775807".to_vec());
}

#[test]
fn parse_u64_round_trips_max() {
    assert_eq!(parse_u64(b"18446744073709551615"), Some(u64::MAX));
    assert_eq!(parse_u64(&format_u64(u64::MAX)), Some(u64::MAX));
    assert_eq!(parse_u64(&format_u64(12345)), Some(12345));
}

#[test]
fn parse_u64_rejects_bad_text() {
    assert_eq!(parse_u64(b""), None);
    assert_eq!(parse_u64(b"12a"), None);
    assert_eq!(parse_u64(b"-5"), None);
    assert_eq!(parse_u64(b"18446744073709551616"), None);
    assert_eq!(parse_u64(b"99999999999999999999999"), None);
}

#[test]
fn parse_u64_accepts_leading_zeros() {
    assert_eq!(parse_u64(b"007"), Some(7));
}

#[test]
fn parse_i64_round_trips_full_range() {
    assert_eq!(parse_i64(b"-9223372036854775808"), Some(i64::MIN));
    assert_eq!(parse_i64(b"9223372036854775807"), Some(i64::MAX));
    assert_eq!(parse_i64(&format_i64(i64::MIN)), Some(i64::MIN));
    assert_eq!(parse_i64(&format_i64(-42)), Some(-42));
}

#[test]
fn parse_i64_rejects_bad_text() {
    assert_eq!(parse_i64(b"-"), None);
    assert_eq!(parse_i64(b"--1"), None);
    assert_eq!(parse_i64(b"-9223372036854775809"), None);
    assert_eq!(parse_i64(b"9223372036854775808"), None);
}

#[test]
fn utf8_accepts_valid_sequences() {
    assert!(is_valid_utf8(b""));
    assert!(is_valid_utf8(b"Hello, World"));
    assert!(is_valid_utf8(&[0xc3, 0xa9])); // two-byte scalar
    assert!(is_valid_utf8(&[0xe2, 0x82, 0xac])); // three-byte scalar
    assert!(is_valid_utf8(&[0xf0, 0x9f, 0x98, 0x80])); // four-byte scalar
}

#[test]
fn utf8_rejects_invalid_sequences() {
    assert!(!is_valid_utf8(&[0xff]));
    assert!(!is_valid_utf8(&[0x80])); // stray continuation byte
    assert!(!is_valid_utf8(&[0xc3])); // truncated two-byte scalar
    assert!(!is_valid_utf8(&[0xc0, 0xaf])); // overlong two-byte form
    assert!(!is_valid_utf8(&[0xe0, 0x80, 0x80])); // overlong three-byte form
    assert!(!is_valid_utf8(&[0xed, 0xa0, 0x80])); // surrogate
    assert!(!is_valid_utf8(&[0xf4, 0x90, 0x80, 0x80])); // beyond last scalar
    assert!(!is_valid_utf8(b"Hi\xffthere"));
}

#[test]
fn utf8_agrees_with_std() {
    let cases: Vec<Vec<u8>> = vec![
        b"plain ascii".to_vec(),
        vec![0xc3, 0xa9, 0x41],
        vec![0xe0, 0xa0, 0x80],
        vec![0xf1, 0x80, 0x80, 0x80],
        vec![0xed, 0x9f, 0xbf],
        vec![0xee, 0x80, 0x80],
        vec![0xc2],
        vec![0xe2, 0x82],
        vec![0xf0, 0x28, 0x8c, 0x28],
    ];
    for bytes in cases {
        assert_eq!(is_valid_utf8(&bytes), std::str::from_utf8(&bytes).is_ok());
    }
}

#[test]
fn marshal_truncates_u8_at_width() {
    // 300 tagged u8 wraps to 44
    let r = marshal_param(TypeTag::U8, &WireValue::UInt(300));
    assert_eq!(r, Ok(NativeArg::U8(44)));
}

#[test]
fn marshal_truncates_signed_widths() {
    assert_eq!(marshal_param(TypeTag::I8, &WireValue::Int(-129)), Ok(NativeArg::I8(127)));
    assert_eq!(marshal_param(TypeTag::I8, &WireValue::Int(-1)), Ok(NativeArg::I8(-1)));
    assert_eq!(marshal_param(TypeTag::I16, &WireValue::Int(70000)), Ok(NativeArg::I16(4464)));
    assert_eq!(
        marshal_param(TypeTag::I32, &WireValue::Int(4294967296 + 5)),
        Ok(NativeArg::I32(5))
    );
    assert_eq!(marshal_param(TypeTag::U16, &WireValue::UInt(65536 + 9)), Ok(NativeArg::U16(9)));
    assert_eq!(
        marshal_param(TypeTag::U32, &WireValue::UInt(u64::MAX)),
        Ok(NativeArg::U32(u32::MAX))
    );
}

#[test]
fn marshal_parses_64_bit_text() {
    assert_eq!(
        marshal_param(TypeTag::U64, &WireValue::Text(b"18446744073709551615".to_vec())),
        Ok(NativeArg::U64(u64::MAX))
    );
    assert_eq!(
        marshal_param(TypeTag::I64, &WireValue::Text(b"-7".to_vec())),
        Ok(NativeArg::I64(-7))
    );
    assert_eq!(
        marshal_param(TypeTag::U64, &WireValue::Text(b"not a number".to_vec())),
        Err(BridgeError::Marshal)
    );
    assert_eq!(marshal_param(TypeTag::U64, &WireValue::UInt(5)), Err(BridgeError::Marshal));
}

#[test]
fn marshal_builds_null_terminated_strings() {
    assert_eq!(
        marshal_param(TypeTag::Str, &WireValue::Text(b"hi".to_vec())),
        Ok(NativeArg::CString(b"hi\0".to_vec()))
    );
    assert_eq!(
        marshal_param(TypeTag::Str, &WireValue::Text(b"h\0i".to_vec())),
        Err(BridgeError::Marshal)
    );
}

#[test]
fn marshal_copies_byte_buffers() {
    assert_eq!(
        marshal_param(TypeTag::Ptr, &WireValue::Bytes(vec![1, 2, 3])),
        Ok(NativeArg::Buffer(vec![1, 2, 3]))
    );
    assert_eq!(marshal_param(TypeTag::Ptr, &WireValue::UInt(0)), Err(BridgeError::Marshal));
}

#[test]
fn marshal_rejects_mismatched_payloads() {
    assert_eq!(marshal_param(TypeTag::U8, &WireValue::Text(b"1".to_vec())), Err(BridgeError::Marshal));
    assert_eq!(marshal_param(TypeTag::F32, &WireValue::UInt(1)), Err(BridgeError::Marshal));
    assert_eq!(marshal_param(TypeTag::I8, &WireValue::Null), Err(BridgeError::Marshal));
}

#[test]
fn marshal_params_stops_at_first_error() {
    let params = vec![
        Param { tag: TypeTag::I32, value: WireValue::UInt(2) },
        Param { tag: TypeTag::U8, value: WireValue::Null },
        Param { tag: TypeTag::U64, value: WireValue::UInt(1) },
    ];
    assert_eq!(marshal_params(&params), Err(BridgeError::Marshal));

    let good = vec![
        Param { tag: TypeTag::I32, value: WireValue::UInt(2) },
        Param { tag: TypeTag::Str, value: WireValue::Text(b"x".to_vec()) },
    ];
    assert_eq!(
        marshal_params(&good),
        Ok(vec![NativeArg::I32(2), NativeArg::CString(b"x\0".to_vec())])
    );
}

#[test]
fn marshal_void_and_rawptr_params_become_unit() {
    assert_eq!(marshal_param(TypeTag::Void, &WireValue::Null), Ok(NativeArg::Void));
    assert_eq!(marshal_param(TypeTag::RawPtr, &WireValue::Null), Ok(NativeArg::Void));
}

#[test]
fn marshal_passes_float_bits_through() {
    assert_eq!(
        marshal_param(TypeTag::F32, &WireValue::F32Bits(0x4048f5c3)),
        Ok(NativeArg::F32Bits(0x4048f5c3))
    );
    assert_eq!(
        marshal_param(TypeTag::F64, &WireValue::F64Bits(0x400921fb54442d18)),
        Ok(NativeArg::F64Bits(0x400921fb54442d18))
    );
}

#[test]
fn marshal_signed_tags_accept_unsigned_carrier() {
    assert_eq!(marshal_param(TypeTag::I32, &WireValue::UInt(7)), Ok(NativeArg::I32(7)));
    assert_eq!(
        marshal_param(TypeTag::I32, &WireValue::UInt(u64::MAX)),
        Err(BridgeError::Marshal)
    );
}
