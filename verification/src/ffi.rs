//! The C boundary's result and error encoding: which variant a call reports,
//! the error text handed to the caller, and the NUL-terminated bytes behind
//! every string pointer.
use vstd::prelude::*;
use vstd::utf8::{decode_utf8, encode_utf8, valid_utf8};

verus! {

/// Error categories of the node's SDK surface.
#[derive(Debug, Clone, PartialEq, Eq)]
pub enum RlnError {
    NotInitialized,
    InvalidRequest,
    NotFound,
    Conflict,
    Internal,
}

/// Errors raised on the C boundary.
#[derive(Debug, Clone, PartialEq, Eq)]
pub enum Error {
    /// A JSON conversion failed; carries the converter's error text.
    JSONConversion(String),
    HexConversion(String),
    StringParse(String),
    /// An SDK call failed: its category and the category's display text.
    Rln(RlnError, String),
    TypeMismatch,
    /// A panic caught at the boundary: the entry point's label and the payload text.
    Panic(String, String),
}

/// Outcome tag of a call across the C boundary: the call succeeded, or it
/// failed and the payload is an error message.
#[derive(Debug, Clone, PartialEq, Eq)]
pub enum CResultValue {
    Success,
    Failure,
}

/// Stable tag of an [`RlnError`] category.
pub open spec fn variant_tag(e: RlnError) -> Seq<char> {
    match e {
        RlnError::NotInitialized => "NotInitialized"@,
        RlnError::InvalidRequest => "InvalidRequest"@,
        RlnError::NotFound => "NotFound"@,
        RlnError::Conflict => "Conflict"@,
        RlnError::Internal => "Internal"@,
    }
}

/// Stable, grep-friendly tag of an [`RlnError`] category.
pub fn rln_variant_tag(e: &RlnError) -> (s: &'static str)
    ensures
        s@ == variant_tag(*e),
{
    match e {
        RlnError::NotInitialized => "NotInitialized",
        RlnError::InvalidRequest => "InvalidRequest",
        RlnError::NotFound => "NotFound",
        RlnError::Conflict => "Conflict",
        RlnError::Internal => "Internal",
    }
}

/// Display text of an [`Error`].
pub open spec fn error_text(e: Error) -> Seq<char> {
    match e {
        Error::JSONConversion(m) => "Error converting JSON: "@ + m@,
        Error::HexConversion(m) => "Error converting hex: "@ + m@,
        Error::StringParse(m) => "Error parsing string: "@ + m@,
        Error::Rln(k, _) => "Error from rgb-lightning-node: "@ + variant_tag(k),
        Error::TypeMismatch => "Type mismatch"@,
        Error::Panic(label, m) => "FFI panic in "@ + label@ + ": "@ + m@,
    }
}

fn concat2(a: &str, b: &str) -> (s: String)
    ensures
        s@ == a@ + b@,
{
    let mut s = String::from_str(a);
    s.append(b);
    s
}

impl Error {
    /// Display text of the error.
    pub fn message(&self) -> (s: String)
        ensures
            s@ == error_text(*self),
    {
        match self {
            Error::JSONConversion(m) => concat2("Error converting JSON: ", m.as_str()),
            Error::HexConversion(m) => concat2("Error converting hex: ", m.as_str()),
            Error::StringParse(m) => concat2("Error parsing string: ", m.as_str()),
            Error::Rln(k, _) => concat2("Error from rgb-lightning-node: ", rln_variant_tag(k)),
            Error::TypeMismatch => String::from_str("Type mismatch"),
            Error::Panic(label, m) => {
                let mut s = concat2("FFI panic in ", label.as_str());
                s.append(": ");
                s.append(m.as_str());
                assert(s@ =~= "FFI panic in "@ + label@ + ": "@ + m@);
                s
            },
        }
    }
}

/// Text handed to the C caller for a failed call. `stashed` is the detail
/// string the SDK left in its slot for the last failed API call.
pub open spec fn ffi_error_text(e: Error, stashed: Option<String>) -> Seq<char> {
    match e {
        Error::Rln(k, text) => "Rln("@ + variant_tag(k) + "): "@ + match stashed {
            Some(d) => d@,
            None => text@,
        },
        _ => error_text(e),
    }
}

/// Formats an error for the C boundary: SDK failures as `Rln(<tag>): <detail>`,
/// preferring the detail in `slot` to the category's text; every other error
/// by its display text. The slot is drained either way, so a detail never
/// outlives the call it belongs to.
pub fn format_error_for_ffi(e: &Error, slot: &mut Option<String>) -> (s: String)
    ensures
        s@ == ffi_error_text(*e, *old(slot)),
        *final(slot) is None,
{
    let stashed = slot.take();
    match e {
        Error::Rln(k, text) => {
            let mut s = concat2("Rln(", rln_variant_tag(k));
            s.append("): ");
            match stashed {
                Some(d) => {
                    s.append(d.as_str());
                },
                None => {
                    s.append(text.as_str());
                },
            }
            assert(s@ =~= ffi_error_text(*e, stashed));
            s
        },
        _ => e.message(),
    }
}

/// Message that replaces a string which cannot cross the boundary.
pub open spec fn null_char_fallback() -> Seq<char> {
    "Error converting string: contains a null-char"@
}

/// The NUL-terminated bytes handed to C for the string `s`: its UTF-8
/// encoding, or the fallback message's when the encoding holds a NUL byte.
pub open spec fn c_string_bytes(s: Seq<char>) -> Seq<u8> {
    if encode_utf8(s).contains(0u8) {
        encode_utf8(null_char_fallback()).push(0u8)
    } else {
        encode_utf8(s).push(0u8)
    }
}

fn copy_with_nul(b: &[u8]) -> (v: Vec<u8>)
    ensures
        v@ == b@.push(0u8),
{
    let mut v: Vec<u8> = Vec::new();
    let n = b.len();
    let mut i: usize = 0;
    while i < n
        invariant
            n == b@.len(),
            i <= n,
            v@ == b@.take(i as int),
        decreases n - i,
    {
        v.push(b[i]);
        i = i + 1;
        assert(v@ =~= b@.take(i as int));
    }
    v.push(0u8);
    assert(v@ =~= b@.push(0u8));
    v
}

/// The bytes the C string pointer for `other` points to, terminator
/// included. A string with an interior NUL cannot be a C string and is
/// replaced by a fixed message.
pub fn string_to_ptr(other: String) -> (v: Vec<u8>)
    ensures
        v@ == c_string_bytes(other@),
{
    let b = other.as_str().as_bytes();
    let n = b.len();
    let mut i: usize = 0;
    while i < n
        invariant
            n == b@.len(),
            b@ == encode_utf8(other@),
            i <= n,
            forall|j: int| 0 <= j < i ==> b@[j] != 0u8,
        decreases n - i,
    {
        if b[i] == 0u8 {
            assert(b@.contains(0u8)) by {
                assert(b@[i as int] == 0u8);
            }
            assert(b@ == encode_utf8(other@));
            let fallback = "Error converting string: contains a null-char";
            assert(fallback@ == null_char_fallback());
            return copy_with_nul(fallback.as_bytes());
        }
        i = i + 1;
    }
    assert(!b@.contains(0u8));
    assert(b@ == encode_utf8(other@));
    copy_with_nul(b)
}

/// Text of a UTF-8 decoding in which every invalid sequence is replaced by
/// U+FFFD.
pub uninterp spec fn utf8_lossy(b: Seq<u8>) -> Seq<char>;

/// `String::from_utf8_lossy(bytes).into_owned()`: decodes `bytes` as UTF-8,
/// replacing invalid sequences with U+FFFD. Valid UTF-8 is decoded as is;
/// for other input only the name of the result is claimed.
#[verifier::external_body]
fn decode_utf8_lossy(bytes: &[u8]) -> (s: String)
    ensures
        s@ == utf8_lossy(bytes@),
        valid_utf8(bytes@) ==> s@ == decode_utf8(bytes@),
{
    String::from_utf8_lossy(bytes).into_owned()
}

/// Reads a C string: `ptr` holds the bytes before its terminating NUL, or
/// is `None` for a null pointer, which reads as the empty string.
pub fn ptr_to_string(ptr: Option<&[u8]>) -> (s: String)
    ensures
        match ptr {
            None => s@ == Seq::<char>::empty(),
            Some(b) => s@ == utf8_lossy(b@),
        },
        match ptr {
            Some(b) => valid_utf8(b@) ==> s@ == decode_utf8(b@),
            None => true,
        },
{
    match ptr {
        None => String::new(),
        Some(b) => decode_utf8_lossy(b),
    }
}

/// Reads an optional C string argument: a null pointer is `None`.
pub fn convert_optional_string(ptr: Option<&[u8]>) -> (r: Option<String>)
    ensures
        match ptr {
            None => r is None,
            Some(b) => r matches Some(s) && s@ == utf8_lossy(b@),
        },
        match ptr {
            Some(b) => valid_utf8(b@) ==> (r matches Some(s) && s@ == decode_utf8(b@)),
            None => true,
        },
{
    match ptr {
        None => None,
        Some(b) => Some(ptr_to_string(Some(b))),
    }
}

/// The payload of a caught panic, as far as it can be read.
#[derive(Debug, Clone, PartialEq, Eq)]
pub enum PanicPayload {
    /// A `&'static str` payload.
    Str(String),
    /// A `String` payload.
    Owned(String),
    /// Any other payload type.
    Other,
}

/// Text of a caught panic's payload.
pub fn panic_payload_to_string(payload: &PanicPayload) -> (s: String)
    ensures
        match payload {
            PanicPayload::Str(m) => s@ == m@,
            PanicPayload::Owned(m) => s@ == m@,
            PanicPayload::Other => s@ == "panic with non-string payload"@,
        },
{
    match payload {
        PanicPayload::Str(m) => m.clone(),
        PanicPayload::Owned(m) => m.clone(),
        PanicPayload::Other => String::from_str("panic with non-string payload"),
    }
}

/// Checks that an opaque handle holds the expected type: `stored` is the
/// handle's type tag, `expected` the tag of the type asked for.
pub fn check_opaque_type(stored: u64, expected: u64) -> (r: Result<(), Error>)
    ensures
        stored == expected ==> r is Ok,
        stored != expected ==> r matches Err(Error::TypeMismatch),
{
    if stored != expected {
        return Err(Error::TypeMismatch);
    }
    Ok(())
}

/// What a string-valued call hands across the boundary: the outcome tag and
/// the bytes behind the `inner` pointer (`None` for a null pointer).
#[derive(Debug, Clone, PartialEq, Eq)]
pub struct CResultString {
    pub result: CResultValue,
    pub inner: Option<Vec<u8>>,
}

/// Payload of a value-returning call: the value that gets boxed into an
/// opaque handle, or the bytes of the error message.
#[derive(Debug, Clone, PartialEq, Eq)]
pub enum CResultPayload<T> {
    Value(T),
    Message(Vec<u8>),
}

/// What a value-returning call hands across the boundary.
#[derive(Debug, Clone, PartialEq, Eq)]
pub struct CResult<T> {
    pub result: CResultValue,
    pub inner: CResultPayload<T>,
}

impl<T> CResult<T> {
    /// Encodes a call's result. `slot` is the SDK's detail slot: it is drained
    /// on every outcome, so a stale detail never reaches a later error.
    pub fn from_result(other: Result<T, Error>, slot: &mut Option<String>) -> (r: CResult<T>)
        ensures
            *final(slot) is None,
            match other {
                Ok(d) => r.result is Success && r.inner == CResultPayload::Value(d),
                Err(e) => {
                    &&& r.result is Failure
                    &&& r.inner matches CResultPayload::Message(b) && b@ == c_string_bytes(
                        ffi_error_text(e, *old(slot)),
                    )
                },
            },
    {
        match other {
            Ok(d) => {
                let _ = slot.take();
                CResult { result: CResultValue::Success, inner: CResultPayload::Value(d) }
            },
            Err(e) => CResult {
                result: CResultValue::Failure,
                inner: CResultPayload::Message(string_to_ptr(format_error_for_ffi(&e, slot))),
            },
        }
    }
}

impl CResultString {
    /// Encodes a string-valued call's result (see [`CResult::from_result`]).
    pub fn from_string_result(other: Result<String, Error>, slot: &mut Option<String>) -> (r:
        CResultString)
        ensures
            *final(slot) is None,
            match other {
                Ok(d) => {
                    &&& r.result is Success
                    &&& r.inner matches Some(b) && b@ == c_string_bytes(d@)
                },
                Err(e) => {
                    &&& r.result is Failure
                    &&& r.inner matches Some(b) && b@ == c_string_bytes(ffi_error_text(e, *old(slot)))
                },
            },
    {
        match other {
            Ok(d) => {
                let _ = slot.take();
                CResultString { result: CResultValue::Success, inner: Some(string_to_ptr(d)) }
            },
            Err(e) => CResultString {
                result: CResultValue::Failure,
                inner: Some(string_to_ptr(format_error_for_ffi(&e, slot))),
            },
        }
    }

    /// Encodes a call that returns nothing: success carries a null pointer.
    pub fn from_unit_result(other: Result<(), Error>, slot: &mut Option<String>) -> (r:
        CResultString)
        ensures
            *final(slot) is None,
            match other {
                Ok(_) => r.result is Success && r.inner is None,
                Err(e) => {
                    &&& r.result is Failure
                    &&& r.inner matches Some(b) && b@ == c_string_bytes(ffi_error_text(e, *old(slot)))
                },
            },
    {
        match other {
            Ok(()) => {
                let _ = slot.take();
                CResultString { result: CResultValue::Success, inner: None }
            },
            Err(e) => CResultString {
                result: CResultValue::Failure,
                inner: Some(string_to_ptr(format_error_for_ffi(&e, slot))),
            },
        }
    }
}

proof fn lemma_fallback_has_no_nul()
    ensures
        !encode_utf8(null_char_fallback()).contains(0u8),
{
    broadcast use vstd::utf8::is_ascii_chars_encode_utf8;

    reveal_strlit("Error converting string: contains a null-char");
    let f = null_char_fallback();
    assert(f.len() == 45);
    assert(vstd::utf8::is_ascii_chars(f));
    let b = encode_utf8(f);
    assert forall|i: int| 0 <= i < b.len() implies b[i] != 0u8 by {
        assert(f[i] as u8 == b[i]);
        assert(f[i] != '\0');
    }
}

/// Every string crosses the boundary as a well-formed C string: the bytes end
/// in exactly one NUL, their only one.
pub proof fn lemma_c_string_well_formed(s: Seq<char>)
    ensures
        c_string_bytes(s).len() >= 1,
        c_string_bytes(s).last() == 0u8,
        forall|i: int| 0 <= i < c_string_bytes(s).len() - 1 ==> c_string_bytes(s)[i] != 0u8,
{
    lemma_fallback_has_no_nul();
    let b = if encode_utf8(s).contains(0u8) {
        encode_utf8(null_char_fallback())
    } else {
        encode_utf8(s)
    };
    assert(c_string_bytes(s) == b.push(0u8));
    assert forall|i: int| 0 <= i < c_string_bytes(s).len() - 1 implies c_string_bytes(s)[i] != 0u8 by {
        assert(c_string_bytes(s)[i] == b[i]);
        if b[i] == 0u8 {
            assert(b.contains(0u8));
        }
    }
}

/// A string without NUL characters survives the trip to C and back: reading
/// the bytes before the terminator gives the string again.
pub proof fn lemma_c_string_roundtrip(s: Seq<char>)
    requires
        !encode_utf8(s).contains(0u8),
    ensures
        valid_utf8(c_string_bytes(s).drop_last()),
        decode_utf8(c_string_bytes(s).drop_last()) == s,
{
    broadcast use vstd::utf8::encode_utf8_valid_utf8, vstd::utf8::encode_utf8_decode_utf8;

    assert(c_string_bytes(s).drop_last() =~= encode_utf8(s));
}

} // verus!
