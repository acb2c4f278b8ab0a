use vstd::prelude::*;

verus! {

/// Whether `c` is an ASCII hex digit (both cases accepted).
pub open spec fn is_hex_digit(c: char) -> bool {
    let v = c as u32;
    (48 <= v && v <= 57)  // '0'..='9'
    || (97 <= v && v <= 102)  // 'a'..='f'
    || (65 <= v && v <= 70)  // 'A'..='F'
}

/// Numeric value of a hex digit.
pub open spec fn hex_digit_val(c: char) -> int {
    let v = c as u32;
    if 48 <= v && v <= 57 {
        v - 48
    } else if 97 <= v && v <= 102 {
        v - 87
    } else {
        v - 55
    }
}

/// A string decodes as hex iff its length is even and every character is a
/// hex digit.
pub open spec fn hex_ok(s: Seq<char>) -> bool {
    s.len() % 2 == 0 && (forall|i: int| 0 <= i < s.len() ==> is_hex_digit(#[trigger] s[i]))
}

/// The bytes a hex string denotes: one byte per pair of digits, high digit
/// first.
pub open spec fn hex_bytes(s: Seq<char>) -> Seq<u8> {
    Seq::new((s.len() / 2) as nat, |i: int| (16 * hex_digit_val(s[2 * i]) + hex_digit_val(s[2 * i + 1])) as u8)
}

/// Relies on `hex::decode`: it returns the denoted bytes exactly when the
/// input has even length and consists of hex digits, and fails otherwise
/// (a character outside ASCII makes some byte a non-digit, so it fails too).
#[verifier::external_body]
pub(crate) fn hex_decode(s: &str) -> (r: Option<Vec<u8>>)
    ensures
        r is Some <==> hex_ok(s@),
        r matches Some(v) ==> v@ == hex_bytes(s@),
{
    hex::decode(s.as_bytes()).ok()
}

} // verus!
