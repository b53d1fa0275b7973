//! Hexadecimal text: the mathematical encoding, the calls into the
//! `bitcoin::hex` codec, and a local lower-case encoder.
use vstd::prelude::*;
use bitcoin::hex::{DisplayHex, FromHex};
use crate::text::push_char;
use vstd::utf8::encode_utf8;

verus! {

/// Value of an ASCII hex digit (either case), or -1 for any other character.
pub open spec fn hex_digit_value(c: char) -> int {
    let v = c as int;
    if 48 <= v <= 57 {
        v - 48
    } else if 97 <= v <= 102 {
        v - 87
    } else if 65 <= v <= 70 {
        v - 55
    } else {
        -1
    }
}

pub open spec fn is_hex_digit(c: char) -> bool {
    hex_digit_value(c) >= 0
}

/// A string the hex decoder accepts: an even number of ASCII hex digits.
pub open spec fn is_hex_string(s: Seq<char>) -> bool {
    &&& s.len() % 2 == 0
    &&& forall|i: int| 0 <= i < s.len() ==> is_hex_digit(#[trigger] s[i])
}

/// The bytes a hex string denotes, two digits per byte, high nibble first.
pub open spec fn hex_decode(s: Seq<char>) -> Seq<u8> {
    Seq::new(
        s.len() / 2,
        |i: int| (hex_digit_value(s[2 * i]) * 16 + hex_digit_value(s[2 * i + 1])) as u8,
    )
}

/// Lower-case hex digit for a nibble `n` in `0..16`.
pub open spec fn lower_hex_char(n: int) -> char {
    if n == 0 { '0' }
    else if n == 1 { '1' }
    else if n == 2 { '2' }
    else if n == 3 { '3' }
    else if n == 4 { '4' }
    else if n == 5 { '5' }
    else if n == 6 { '6' }
    else if n == 7 { '7' }
    else if n == 8 { '8' }
    else if n == 9 { '9' }
    else if n == 10 { 'a' }
    else if n == 11 { 'b' }
    else if n == 12 { 'c' }
    else if n == 13 { 'd' }
    else if n == 14 { 'e' }
    else { 'f' }
}

/// Lower-case hex text of `b`: two characters per byte, high nibble first.
pub open spec fn hex_lower(b: Seq<u8>) -> Seq<char> {
    Seq::new(
        b.len() * 2,
        |i: int|
            if i % 2 == 0 {
                lower_hex_char(b[i / 2] as int / 16)
            } else {
                lower_hex_char(b[i / 2] as int % 16)
            },
    )
}

/// Text of the error that the decoder reports for a string it rejects: an
/// odd number of UTF-8 bytes is reported as such, anything else as an
/// invalid character.
pub open spec fn hex_error_text(s: Seq<char>) -> Seq<char> {
    if encode_utf8(s).len() % 2 == 1 {
        "odd length, failed to create bytes from hex"@
    } else {
        "invalid char, failed to create bytes from hex"@
    }
}

/// `Vec::<u8>::from_hex` of `bitcoin::hex` (hex-conservative): accepts exactly
/// the strings of an even number of ASCII hex digits of either case and
/// decodes them pairwise; any other string is rejected, and the error's
/// `Display` text (with `std`, no source appended) is returned.
#[verifier::external_body]
pub(crate) fn decode_hex(s: &str) -> (r: Result<Vec<u8>, String>)
    ensures
        r is Ok <==> is_hex_string(s@),
        r matches Ok(v) ==> v@ == hex_decode(s@),
        r matches Err(m) ==> m@ == hex_error_text(s@),
{
    match Vec::<u8>::from_hex(s) {
        Ok(v) => Ok(v),
        Err(e) => Err(e.to_string()),
    }
}

/// `DisplayHex::to_lower_hex_string` of `bitcoin::hex` on a byte slice: two
/// lower-case digits per byte from the table `0123456789abcdef`. It panics
/// when twice the length overflows `usize`, which `requires` leaves out.
#[verifier::external_body]
pub(crate) fn lower_hex_string(bytes: &[u8]) -> (r: String)
    requires
        bytes@.len() * 2 <= usize::MAX,
    ensures
        r@ == hex_lower(bytes@),
{
    bytes.to_lower_hex_string()
}

/// The lower-case digit for a nibble.
pub fn nibble_char(n: u8) -> (c: char)
    requires
        n < 16,
    ensures
        c == lower_hex_char(n as int),
{
    match n {
        0 => '0',
        1 => '1',
        2 => '2',
        3 => '3',
        4 => '4',
        5 => '5',
        6 => '6',
        7 => '7',
        8 => '8',
        9 => '9',
        10 => 'a',
        11 => 'b',
        12 => 'c',
        13 => 'd',
        14 => 'e',
        _ => 'f',
    }
}

/// Lower-case hex encoding of `bytes`, two digits per byte.
pub fn hex_encode_lower(bytes: &[u8]) -> (s: String)
    ensures
        s@ == hex_lower(bytes@),
{
    let mut s = String::new();
    let n = bytes.len();
    let mut i: usize = 0;
    while i < n
        invariant
            n == bytes@.len(),
            i <= n,
            s@ =~= hex_lower(bytes@.take(i as int)),
        decreases n - i,
    {
        let b = bytes[i];
        push_char(&mut s, nibble_char(b / 16));
        push_char(&mut s, nibble_char(b % 16));
        proof {
            assert(hex_lower(bytes@.take(i as int + 1)) =~= hex_lower(bytes@.take(i as int)).push(
                lower_hex_char(b as int / 16),
            ).push(lower_hex_char(b as int % 16)));
        }
        i = i + 1;
    }
    assert(bytes@.take(n as int) =~= bytes@);
    s
}

proof fn lemma_nibble_roundtrip(n: int)
    requires
        0 <= n < 16,
    ensures
        hex_digit_value(lower_hex_char(n)) == n,
        is_hex_digit(lower_hex_char(n)),
{
}

/// Lower-case hex text is accepted by the decoder and decodes back to the
/// bytes it was made from.
pub proof fn lemma_hex_roundtrip(b: Seq<u8>)
    ensures
        is_hex_string(hex_lower(b)),
        hex_decode(hex_lower(b)) == b,
{
    let s = hex_lower(b);
    assert forall|i: int| 0 <= i < s.len() implies is_hex_digit(#[trigger] s[i]) by {
        lemma_nibble_roundtrip(b[i / 2] as int / 16);
        lemma_nibble_roundtrip(b[i / 2] as int % 16);
    }
    assert forall|i: int| 0 <= i < b.len() implies #[trigger] hex_decode(s)[i] == b[i] by {
        lemma_nibble_roundtrip(b[i] as int / 16);
        lemma_nibble_roundtrip(b[i] as int % 16);
        assert((2 * i) / 2 == i);
        assert((2 * i + 1) / 2 == i);
        assert((2 * i) % 2 == 0);
        assert((2 * i + 1) % 2 == 1);
    }
    assert(hex_decode(s) =~= b);
}

} // verus!
