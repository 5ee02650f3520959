//! Canonical percent-encoding of path text.

use vstd::prelude::*;
use vstd::string::StringSliceAdditionalSpecFns;

verus! {

/// Bytes that percent-encoding leaves as they are: ASCII letters, digits
/// and `-`, `.`, `_`, `~`.
pub open spec fn is_unreserved(b: u8) -> bool {
    (0x30 <= b && b <= 0x39) || (0x41 <= b && b <= 0x5A) || (0x61 <= b && b <= 0x7A) || b == 0x2D
        || b == 0x2E || b == 0x5F || b == 0x7E
}

/// Upper-case hexadecimal digit of a value below 16, as an ASCII byte.
pub open spec fn hex_digit(d: u8) -> u8 {
    if d < 10 {
        (0x30 + d) as u8
    } else {
        (0x41 + d - 10) as u8
    }
}

/// The encoding of one byte: itself when unreserved, else `%` and two
/// upper-case hexadecimal digits.
pub open spec fn encoded_byte(b: u8) -> Seq<u8> {
    if is_unreserved(b) {
        seq![b]
    } else {
        seq![0x25u8, hex_digit(b / 16), hex_digit(b % 16)]
    }
}

/// The percent-encoding of a byte string, byte by byte.
pub open spec fn percent_encoded(b: Seq<u8>) -> Seq<u8>
    decreases b.len(),
{
    if b.len() == 0 {
        Seq::empty()
    } else {
        percent_encoded(b.drop_last()) + encoded_byte(b.last())
    }
}

/// Relies on urlencoding::encode_binary: every byte but ASCII letters,
/// digits and `-`, `.`, `_`, `~` becomes `%` and two upper-case
/// hexadecimal digits; the others are kept.
#[verifier::external_body]
pub(crate) fn percent_encode(b: &[u8]) -> (r: Vec<u8>)
    ensures
        r@ == percent_encoded(b@),
{
    urlencoding::encode_binary(b).into_owned().into_bytes()
}

/// ASCII bytes read as characters.
pub open spec fn ascii_text(b: Seq<u8>) -> Seq<char> {
    b.map_values(|x: u8| x as char)
}

/// Relies on urlencoding::encode: the UTF-8 bytes of the text, each but ASCII
/// letters, digits and `-`, `.`, `_`, `~` written as `%` and two upper-case
/// hexadecimal digits.
#[verifier::external_body]
pub(crate) fn percent_encode_text(s: &str) -> (r: String)
    ensures
        r@ == ascii_text(percent_encoded(s.spec_bytes())),
{
    urlencoding::encode(s).into_owned()
}

} // verus!
