use ffi_bridge::call::{decode_result, plan_call, CallRequest, CallPlan, RawRet, Target};
use ffi_bridge::marshal::{NativeArg, Param};
use ffi_bridge::registry::Registry;
use ffi_bridge::sample_lib;
use ffi_bridge::value::{BridgeError, TypeTag, WireValue};

fn empty_request() -> CallRequest {
    CallRequest {
        handle_id: None,
        symbol: None,
        address: None,
        params: Vec::new(),
        return_tag: TypeTag::Void,
        return_len: None,
    }
}

/// Opens some shared library that is present on any Linux host with a C
/// runtime, so the registry's open path is exercised for real.
fn open_some_library(reg: &mut Registry) -> u64 {
    for name in ["libc.so.6", "libm.so.6", "libdl.so.2", "libpthread.so.0"] {
        if let Ok(id) = reg.open(name) {
            return id;
        }
    }
    panic!("no loadable shared library found");
}

#[test]
fn open_missing_library_fails_cleanly() {
    let mut reg = Registry::new();
    let r = reg.open("/definitely/not/a/real/library.so");
    assert!(r.is_err());
    // the failed open left nothing behind
    assert_eq!(reg.close(0), Err(BridgeError::InvalidHandle));
}

#[test]
fn open_then_close_invalidates_handle() {
    let mut reg = Registry::new();
    let id = open_some_library(&mut reg);
    assert!(reg.is_open(id));
    assert_eq!(reg.close(id), Ok(()));
    assert!(!reg.is_open(id));
    // a second close is an error, never a crash
    assert_eq!(reg.close(id), Err(BridgeError::InvalidHandle));
    // and a call through the closed id is refused
    let mut req = empty_request();
    req.handle_id = Some(id);
    req.symbol = Some(b"abs".to_vec());
    req.return_tag = TypeTag::I32;
    let r = plan_call(&reg, &req);
    assert_eq!(r.err(), Some(BridgeError::InvalidHandle));
}

#[test]
fn distinct_handles_for_distinct_opens() {
    let mut reg = Registry::new();
    let a = open_some_library(&mut reg);
    let b = open_some_library(&mut reg);
    assert_ne!(a, b);
    assert!(reg.is_open(a) && reg.is_open(b));
    assert_eq!(reg.close(a), Ok(()));
    assert!(reg.is_open(b));
    assert_eq!(reg.close(b), Ok(()));
}

#[test]
fn close_unknown_handle_is_invalid() {
    let mut reg = Registry::new();
    assert_eq!(reg.close(42), Err(BridgeError::InvalidHandle));
}

#[test]
fn call_with_unopened_handle_is_invalid_handle() {
    let reg = Registry::new();
    let mut req = empty_request();
    req.handle_id = Some(12345);
    req.symbol = Some(b"add".to_vec());
    req.return_tag = TypeTag::I32;
    let r = plan_call(&reg, &req);
    assert_eq!(r.err(), Some(BridgeError::InvalidHandle));
    assert_eq!(BridgeError::InvalidHandle.label(), "InvalidHandle");
}

#[test]
fn ptr_return_without_length_is_marshal_error() {
    let reg = Registry::new();
    let mut req = empty_request();
    req.address = Some(0x1000);
    req.return_tag = TypeTag::Ptr;
    let r = plan_call(&reg, &req);
    assert_eq!(r.err(), Some(BridgeError::Marshal));
    assert_eq!(BridgeError::Marshal.label(), "MarshalError");

    req.return_len = Some(4);
    assert!(plan_call(&reg, &req).is_ok());
}

#[test]
fn address_overrides_symbol_lookup() {
    // an explicit address needs no handle at all
    let reg = Registry::new();
    let mut req = empty_request();
    req.address = Some(0x2000);
    req.handle_id = Some(999); // closed; ignored because the address wins
    req.symbol = Some(b"ignored".to_vec());
    let plan = plan_call(&reg, &req).unwrap();
    assert_eq!(plan.target, Target::Address(0x2000));
}

#[test]
fn request_without_target_is_marshal_error() {
    let reg = Registry::new();
    let req = empty_request();
    assert_eq!(plan_call(&reg, &req).err(), Some(BridgeError::Marshal));

    let mut reg2 = Registry::new();
    let id = open_some_library(&mut reg2);
    let mut req2 = empty_request();
    req2.handle_id = Some(id);
    // no symbol and no address
    assert_eq!(plan_call(&reg2, &req2).err(), Some(BridgeError::Marshal));
}

#[test]
fn add_call_plans_and_decodes() {
    // open a real library; planning resolves the handle, not the symbol
    let mut reg = Registry::new();
    let id = open_some_library(&mut reg);
    let req = CallRequest {
        handle_id: Some(id),
        symbol: Some(b"add".to_vec()),
        address: None,
        params: vec![
            Param { tag: TypeTag::I32, value: WireValue::UInt(2) },
            Param { tag: TypeTag::I32, value: WireValue::UInt(3) },
        ],
        return_tag: TypeTag::I32,
        return_len: None,
    };
    let plan: CallPlan = plan_call(&reg, &req).unwrap();
    assert_eq!(plan.target, Target::Symbol { handle_id: id, name: b"add".to_vec() });
    assert_eq!(plan.args, vec![NativeArg::I32(2), NativeArg::I32(3)]);

    // stand in for the native call with the sample library's behavior
    let (a, b) = match (&plan.args[0], &plan.args[1]) {
        (NativeArg::I32(a), NativeArg::I32(b)) => (*a, *b),
        _ => unreachable!(),
    };
    let raw = RawRet::I32(sample_lib::add(a, b));
    let result = decode_result(plan.return_tag, raw).unwrap();
    assert_eq!(result, WireValue::Int(5));
}

#[test]
fn hello_call_marshals_and_decodes() {
    let reg = Registry::new();
    let req = CallRequest {
        handle_id: None,
        symbol: None,
        address: Some(0x4000),
        params: vec![Param { tag: TypeTag::Str, value: WireValue::Text(b"World".to_vec()) }],
        return_tag: TypeTag::Str,
        return_len: None,
    };
    let plan = plan_call(&reg, &req).unwrap();
    assert_eq!(plan.args, vec![NativeArg::CString(b"World\0".to_vec())]);

    // stand in for the native callee: it sees the buffer up to the
    // terminator and returns a fresh null-terminated greeting
    let name = match &plan.args[0] {
        NativeArg::CString(buf) => &buf[..buf.len() - 1],
        _ => unreachable!(),
    };
    let greeting = sample_lib::hello(name);
    let raw = RawRet::CStringBytes(Some(greeting));
    let result = decode_result(plan.return_tag, raw).unwrap();
    assert_eq!(result, WireValue::Text(b"Hello, World".to_vec()));
}

#[test]
fn string_return_requires_valid_utf8() {
    let ok = decode_result(TypeTag::Str, RawRet::CStringBytes(Some(b"text".to_vec())));
    assert_eq!(ok, Ok(WireValue::Text(b"text".to_vec())));

    let bad = decode_result(TypeTag::Str, RawRet::CStringBytes(Some(vec![0xff, 0xfe])));
    assert_eq!(bad, Err(BridgeError::Decode));

    let null = decode_result(TypeTag::Str, RawRet::CStringBytes(None));
    assert_eq!(null, Err(BridgeError::Decode));
    assert_eq!(BridgeError::Decode.label(), "DecodeError");
}

#[test]
fn sixty_four_bit_returns_become_text() {
    assert_eq!(
        decode_result(TypeTag::U64, RawRet::U64(u64::MAX)),
        Ok(WireValue::Text(b"18446744073709551615".to_vec()))
    );
    assert_eq!(
        decode_result(TypeTag::I64, RawRet::I64(i64::MIN)),
        Ok(WireValue::Text(b"-9223372036854775808".to_vec()))
    );
    assert_eq!(
        decode_result(TypeTag::RawPtr, RawRet::Address(4096)),
        Ok(WireValue::Text(b"4096".to_vec()))
    );
}

#[test]
fn narrow_returns_become_numbers() {
    assert_eq!(decode_result(TypeTag::U8, RawRet::U8(200)), Ok(WireValue::UInt(200)));
    assert_eq!(decode_result(TypeTag::I16, RawRet::I16(-5)), Ok(WireValue::Int(-5)));
    assert_eq!(decode_result(TypeTag::Void, RawRet::Unit), Ok(WireValue::Null));
    // a raw value whose shape does not match the tag is a decode error
    assert_eq!(decode_result(TypeTag::U8, RawRet::Unit), Err(BridgeError::Decode));
}

#[test]
fn buffer_return_passes_bytes_through() {
    let bytes = vec![10, 20, 30, 40];
    assert_eq!(
        decode_result(TypeTag::Ptr, RawRet::Bytes(bytes.clone())),
        Ok(WireValue::Bytes(bytes))
    );
}

#[test]
fn sample_library_behavior() {
    assert_eq!(sample_lib::add(2, 3), 5);
    assert_eq!(sample_lib::add(-7, 7), 0);
    assert_eq!(sample_lib::hello(b"World"), b"Hello, World".to_vec());
    assert_eq!(sample_lib::hello(b""), b"Hello, ".to_vec());
}

#[test]
fn error_labels_match_taxonomy() {
    assert_eq!(BridgeError::LibraryLoad.label(), "LibraryLoadError");
    assert_eq!(BridgeError::InvalidHandle.label(), "InvalidHandle");
    assert_eq!(BridgeError::SymbolNotFound.label(), "SymbolNotFound");
    assert_eq!(BridgeError::Marshal.label(), "MarshalError");
    assert_eq!(BridgeError::Decode.label(), "DecodeError");
}

#[test]
fn float_returns_pass_bits_through() {
    assert_eq!(
        decode_result(TypeTag::F32, RawRet::F32Bits(0x3f800000)),
        Ok(WireValue::F32Bits(0x3f800000))
    );
    assert_eq!(
        decode_result(TypeTag::F64, RawRet::F64Bits(0x3ff0000000000000)),
        Ok(WireValue::F64Bits(0x3ff0000000000000))
    );
}

#[test]
fn raw_address_return_is_decimal_text() {
    assert_eq!(
        decode_result(TypeTag::RawPtr, RawRet::Address(u64::MAX)),
        Ok(WireValue::Text(b"18446744073709551615".to_vec()))
    );
}
