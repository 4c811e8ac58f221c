//! Hexadecimal text: what it says of bytes, and the two calls that write and read it.

use vstd::prelude::*;

verus! {

/// The sixteen lower-case hexadecimal digits.
pub open spec fn hex_alphabet() -> Seq<char> {
    seq!['0', '1', '2', '3', '4', '5', '6', '7', '8', '9', 'a', 'b', 'c', 'd', 'e', 'f']
}

/// The hexadecimal text of a byte sequence: two lower-case digits for each byte,
/// the high half first.
pub open spec fn hex_chars(bytes: Seq<u8>) -> Seq<char> {
    Seq::new(
        2 * bytes.len(),
        |i: int|
            if i % 2 == 0 {
                hex_alphabet()[bytes[i / 2] as int / 16]
            } else {
                hex_alphabet()[bytes[i / 2] as int % 16]
            },
    )
}

/// The value of a hexadecimal digit of either case, if `c` is one.
pub open spec fn hex_value(c: char) -> Option<int> {
    if '0' <= c <= '9' {
        Some(c as int - '0' as int)
    } else if 'a' <= c <= 'f' {
        Some(c as int - 'a' as int + 10)
    } else if 'A' <= c <= 'F' {
        Some(c as int - 'A' as int + 10)
    } else {
        None
    }
}

/// Whether `text` is hexadecimal: an even number of hexadecimal digits.
pub open spec fn is_hex(text: Seq<char>) -> bool {
    text.len() % 2 == 0 && forall|i: int| 0 <= i < text.len() ==> hex_value(#[trigger] text[i]) is Some
}

/// The bytes that hexadecimal text stands for.
pub open spec fn hex_bytes(text: Seq<char>) -> Seq<u8> {
    Seq::new(
        text.len() / 2,
        |i: int| (hex_value(text[2 * i])->0 * 16 + hex_value(text[2 * i + 1])->0) as u8,
    )
}

/// `hex::encode`: two lower-case digits for each byte.
#[verifier::external_body]
pub(crate) fn hex_encode(bytes: &[u8]) -> (text: String)
    ensures
        text@ == hex_chars(bytes@),
{
    hex::encode(bytes)
}

/// `hex::decode`: the bytes of a text of an even number of hexadecimal digits of
/// either case; an error, here `None`, for every other text.
#[verifier::external_body]
pub(crate) fn hex_decode(text: &str) -> (bytes: Option<Vec<u8>>)
    ensures
        bytes is Some == is_hex(text@),
        bytes is Some ==> bytes->0@ == hex_bytes(text@),
{
    hex::decode(text).ok()
}

/// The text `0x` followed by the hexadecimal text of `bytes`.
pub open spec fn prefixed_hex(bytes: Seq<u8>) -> Seq<char> {
    seq!['0', 'x'] + hex_chars(bytes)
}

/// Writes bytes as `0x` and their hexadecimal digits.
pub fn encode_prefixed(bytes: &[u8]) -> (text: String)
    ensures
        text@ == prefixed_hex(bytes@),
{
    let digits = hex_encode(bytes);
    let text = String::from_str("0x").concat(digits.as_str());
    proof {
        reveal_strlit("0x");
        assert("0x"@ =~= seq!['0', 'x']);
    }
    text
}

/// The bytes that a prefixed text stands for: its first two characters are
/// passed over, whatever they are, and the rest must be hexadecimal.
pub open spec fn prefixed_bytes(text: Seq<char>) -> Option<Seq<u8>> {
    if text.len() >= 2 && is_hex(text.skip(2)) {
        Some(hex_bytes(text.skip(2)))
    } else {
        None
    }
}

/// Reads the bytes of a prefixed hexadecimal text.
pub fn decode_prefixed(text: &str) -> (bytes: Option<Vec<u8>>)
    ensures
        bytes is Some == prefixed_bytes(text@) is Some,
        bytes is Some ==> bytes->0@ == prefixed_bytes(text@)->0,
{
    let n = text.unicode_len();
    if n < 2 {
        return None;
    }
    let rest = text.substring_char(2, n);
    assert(rest@ =~= text@.skip(2));
    hex_decode(rest)
}

} // verus!
