//! Hexadecimal text for byte strings, through the `hex` crate.

use vstd::prelude::*;
use vstd::string::StringSliceAdditionalSpecFns;

verus! {

/// The lower-case hex digit of `n` (0..16).
pub open spec fn hex_digit(n: int) -> char {
    if n < 10 {
        (('0' as int) + n) as char
    } else {
        (('a' as int) + n - 10) as char
    }
}

/// The lower-case hex text of `bytes`: two digits per byte, high nibble first.
pub open spec fn hex_text(bytes: Seq<u8>) -> Seq<char> {
    Seq::new(2 * bytes.len(), |i: int| if i % 2 == 0 {
        hex_digit(bytes[i / 2] as int / 16)
    } else {
        hex_digit(bytes[i / 2] as int % 16)
    })
}

/// Whether the byte `c` is a hex digit, of either case.
pub open spec fn is_hex_byte(c: u8) -> bool {
    (48 <= c <= 57) || (65 <= c <= 70) || (97 <= c <= 102)
}

/// The value of a hex digit byte.
pub open spec fn hex_value(c: u8) -> int {
    if 48 <= c <= 57 {
        c - 48
    } else if 65 <= c <= 70 {
        c - 55
    } else {
        c - 87
    }
}

/// Whether `text` (as bytes) is hex: an even number of hex digits.
pub open spec fn is_hex_text(text: Seq<u8>) -> bool {
    text.len() % 2 == 0 && forall|i: int| 0 <= i < text.len() ==> is_hex_byte(#[trigger] text[i])
}

/// The bytes that hex `text` stands for.
pub open spec fn hex_bytes(text: Seq<u8>) -> Seq<u8> {
    Seq::new(text.len() / 2, |i: int| (hex_value(text[2 * i]) * 16 + hex_value(text[2 * i + 1])) as u8)
}

/// `hex::encode`: the lower-case hex text of `data`.
#[verifier::external_body]
pub(crate) fn hex_encode(data: &[u8]) -> (r: String)
    ensures
        r@ == hex_text(data@),
{
    hex::encode(data)
}

/// `hex::decode`: the bytes of hex `text`, upper or lower case; an error
/// (with `hex`'s own message, which is not stated here) when `text` has an
/// odd length or a byte that is no hex digit.
#[verifier::external_body]
pub(crate) fn hex_decode(text: &str) -> (r: Result<Vec<u8>, String>)
    ensures
        r is Ok <==> is_hex_text(text.spec_bytes()),
        r matches Ok(v) ==> v@ == hex_bytes(text.spec_bytes()),
{
    hex::decode(text).map_err(|e| e.to_string())
}

} // verus!
