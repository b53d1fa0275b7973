use rgb_lightning_node::ffi::{
    check_opaque_type, convert_optional_string, format_error_for_ffi, panic_payload_to_string,
    ptr_to_string, rln_variant_tag, string_to_ptr, CResult, CResultPayload, CResultString,
    CResultValue, Error, PanicPayload, RlnError,
};

fn rln(kind: RlnError) -> Error {
    Error::Rln(kind, "category text".to_string())
}

#[test]
fn variant_tags_name_the_variant() {
    assert_eq!(rln_variant_tag(&RlnError::NotInitialized), "NotInitialized");
    assert_eq!(rln_variant_tag(&RlnError::InvalidRequest), "InvalidRequest");
    assert_eq!(rln_variant_tag(&RlnError::NotFound), "NotFound");
    assert_eq!(rln_variant_tag(&RlnError::Conflict), "Conflict");
    assert_eq!(rln_variant_tag(&RlnError::Internal), "Internal");
}

#[test]
fn error_messages() {
    assert_eq!(
        Error::JSONConversion("EOF while parsing".to_string()).message(),
        "Error converting JSON: EOF while parsing"
    );
    assert_eq!(Error::HexConversion("odd".to_string()).message(), "Error converting hex: odd");
    assert_eq!(Error::StringParse("bad".to_string()).message(), "Error parsing string: bad");
    assert_eq!(rln(RlnError::NotFound).message(), "Error from rgb-lightning-node: NotFound");
    assert_eq!(Error::TypeMismatch.message(), "Type mismatch");
    assert_eq!(
        Error::Panic("rln_sync".to_string(), "boom".to_string()).message(),
        "FFI panic in rln_sync: boom"
    );
}

#[test]
fn rln_errors_prefer_the_stashed_detail() {
    let e = rln(RlnError::Conflict);
    assert_eq!(
        format_error_for_ffi(&e, &mut Some("unsupported in external signer mode: issueassetnia".to_string())),
        "Rln(Conflict): unsupported in external signer mode: issueassetnia"
    );
    assert_eq!(format_error_for_ffi(&e, &mut None), "Rln(Conflict): category text");
}

#[test]
fn other_errors_ignore_the_stashed_detail() {
    assert_eq!(
        format_error_for_ffi(&Error::TypeMismatch, &mut Some("stale".to_string())),
        "Type mismatch"
    );
    assert_eq!(
        format_error_for_ffi(&Error::StringParse("x".to_string()), &mut None),
        "Error parsing string: x"
    );
}

#[test]
fn strings_become_nul_terminated_bytes() {
    assert_eq!(string_to_ptr("abc".to_string()), b"abc\0".to_vec());
    assert_eq!(string_to_ptr(String::new()), b"\0".to_vec());
    assert_eq!(string_to_ptr("é".to_string()), vec![0xc3, 0xa9, 0]);
}

#[test]
fn strings_with_nul_are_replaced() {
    assert_eq!(
        string_to_ptr("a\0b".to_string()),
        b"Error converting string: contains a null-char\0".to_vec()
    );
}

#[test]
fn reading_c_strings() {
    assert_eq!(ptr_to_string(None), "");
    assert_eq!(ptr_to_string(Some(b"hello")), "hello");
    assert_eq!(ptr_to_string(Some(&[0x68, 0xff, 0x69])), "h\u{fffd}i");
    assert_eq!(convert_optional_string(None), None);
    assert_eq!(convert_optional_string(Some(b"x")), Some("x".to_string()));
    assert_eq!(convert_optional_string(Some(b"")), Some(String::new()));
}

#[test]
fn strings_survive_the_round_trip() {
    for s in ["", "plain", "ünïcödé ✓", "{\"a\":1}"] {
        let bytes = string_to_ptr(s.to_string());
        assert_eq!(*bytes.last().unwrap(), 0);
        assert_eq!(ptr_to_string(Some(&bytes[..bytes.len() - 1])), s);
    }
}

#[test]
fn panic_payloads() {
    assert_eq!(panic_payload_to_string(&PanicPayload::Str("static".to_string())), "static");
    assert_eq!(panic_payload_to_string(&PanicPayload::Owned("owned".to_string())), "owned");
    assert_eq!(
        panic_payload_to_string(&PanicPayload::Other),
        "panic with non-string payload"
    );
}

#[test]
fn opaque_type_check() {
    assert!(check_opaque_type(7, 7).is_ok());
    assert_eq!(check_opaque_type(7, 8), Err(Error::TypeMismatch));
}

#[test]
fn string_results() {
    let ok = CResultString::from_string_result(Ok("{}".to_string()), &mut Some("stale".to_string()));
    assert_eq!(ok.result, CResultValue::Success);
    assert_eq!(ok.inner, Some(b"{}\0".to_vec()));
    let err = CResultString::from_string_result(Err(rln(RlnError::Internal)), &mut Some("detail".to_string()));
    assert_eq!(err.result, CResultValue::Failure);
    assert_eq!(err.inner, Some(b"Rln(Internal): detail\0".to_vec()));
}

#[test]
fn unit_results() {
    let ok = CResultString::from_unit_result(Ok(()), &mut Some("stale".to_string()));
    assert_eq!(ok.result, CResultValue::Success);
    assert_eq!(ok.inner, None);
    let err = CResultString::from_unit_result(Err(Error::TypeMismatch), &mut None);
    assert_eq!(err.result, CResultValue::Failure);
    assert_eq!(err.inner, Some(b"Type mismatch\0".to_vec()));
}

#[test]
fn value_results() {
    let ok = CResult::from_result(Ok(42u32), &mut Some("stale".to_string()));
    assert_eq!(ok.result, CResultValue::Success);
    assert_eq!(ok.inner, CResultPayload::Value(42));
    let err: CResult<u32> = CResult::from_result(Err(rln(RlnError::NotInitialized)), &mut None);
    assert_eq!(err.result, CResultValue::Failure);
    assert_eq!(err.inner, CResultPayload::Message(b"Rln(NotInitialized): category text\0".to_vec()));
}

#[test]
fn detail_slot_is_drained_on_every_outcome() {
    let mut slot = Some("stale".to_string());
    let _ = CResult::from_result(Ok(1u8), &mut slot);
    assert_eq!(slot, None);
    let mut slot = Some("detail".to_string());
    let err = CResultString::from_unit_result(Err(rln(RlnError::Conflict)), &mut slot);
    assert_eq!(err.inner, Some(b"Rln(Conflict): detail\0".to_vec()));
    assert_eq!(slot, None);
    let later = CResultString::from_unit_result(Err(rln(RlnError::Conflict)), &mut slot);
    assert_eq!(later.inner, Some(b"Rln(Conflict): category text\0".to_vec()));
    let mut slot = Some("unrelated".to_string());
    assert_eq!(format_error_for_ffi(&Error::TypeMismatch, &mut slot), "Type mismatch");
    assert_eq!(slot, None);
}
