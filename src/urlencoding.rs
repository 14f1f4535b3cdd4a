//! Form encoding of query values.
use vstd::prelude::*;
use vstd::utf8::encode_utf8;

verus! {

/// The bytes that form encoding keeps as they are: ASCII letters and digits
/// and `*`, `-`, `.`, `_`.
pub open spec fn kept_in_form(b: u8) -> bool {
    b == 0x2a || b == 0x2d || b == 0x2e || b == 0x5f || (0x30 <= b <= 0x39) || (0x41 <= b <= 0x5a)
        || (0x61 <= b <= 0x7a)
}

/// An upper-case hexadecimal digit.
pub open spec fn hex_digit(n: u8) -> char {
    "0123456789ABCDEF"@[n as int]
}

/// The form encoding of one byte: kept, `+` for a space, else `%` and two
/// upper-case hexadecimal digits.
pub open spec fn form_byte(b: u8) -> Seq<char> {
    if kept_in_form(b) {
        seq![b as char]
    } else if b == 0x20 {
        seq!['+']
    } else {
        seq!['%', hex_digit(b / 16), hex_digit(b % 16)]
    }
}

/// The form encoding of a byte sequence, byte by byte.
pub open spec fn form_bytes(bytes: Seq<u8>) -> Seq<char>
    decreases bytes.len(),
{
    if bytes.len() == 0 {
        Seq::empty()
    } else {
        form_byte(bytes[0]) + form_bytes(bytes.drop_first())
    }
}

/// The `application/x-www-form-urlencoded` serialization of the UTF-8 bytes of `s`.
pub open spec fn form_urlencoded_of(s: Seq<char>) -> Seq<char> {
    form_bytes(encode_utf8(s))
}

/// Relies on `url::form_urlencoded::byte_serialize`, which maps each byte of its
/// input as `form_byte` says (through `percent_encoding::percent_encode_byte`
/// for the escaped ones) and yields the pieces in order.
#[verifier::external_body]
pub fn encode(s: &str) -> (r: String)
    ensures
        r@ == form_urlencoded_of(s@),
{
    url::form_urlencoded::byte_serialize(s.as_bytes()).collect()
}

} // verus!
