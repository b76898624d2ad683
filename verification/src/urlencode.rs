//! The `application/x-www-form-urlencoded` rendering of a sequence of
//! key/value pairs, and the trusted call that produces it.

use vstd::prelude::*;
use vstd::utf8::encode_utf8;

verus! {

/// An upper-case hexadecimal digit.
pub open spec fn hex_upper(n: u8) -> char
    recommends
        n < 16,
{
    if n == 0 { '0' } else if n == 1 { '1' } else if n == 2 { '2' } else if n == 3 { '3' }
    else if n == 4 { '4' } else if n == 5 { '5' } else if n == 6 { '6' } else if n == 7 { '7' }
    else if n == 8 { '8' } else if n == 9 { '9' } else if n == 10 { 'A' } else if n == 11 { 'B' }
    else if n == 12 { 'C' } else if n == 13 { 'D' } else if n == 14 { 'E' } else { 'F' }
}

/// The bytes a form-urlencoding leaves unchanged: ASCII alphanumerics and
/// `*`, `-`, `.`, `_`.
pub open spec fn urlencode_unchanged(b: u8) -> bool {
    b == 42 || b == 45 || b == 46 || (48 <= b && b <= 57) || (65 <= b && b <= 90) || b == 95 || (
    97 <= b && b <= 122)
}

/// The form-urlencoding of one byte: kept as is when unreserved, `+` for a
/// space, `%XX` (upper-case hexadecimal) otherwise.
pub open spec fn urlencode_byte(b: u8) -> Seq<char> {
    if urlencode_unchanged(b) {
        seq![b as char]
    } else if b == 32 {
        seq!['+']
    } else {
        seq!['%', hex_upper(b / 16), hex_upper(b % 16)]
    }
}

/// The form-urlencoding of a byte sequence, byte for byte.
pub open spec fn urlencode_bytes(bs: Seq<u8>) -> Seq<char>
    decreases bs.len(),
{
    if bs.len() == 0 {
        Seq::empty()
    } else {
        urlencode_byte(bs[0]) + urlencode_bytes(bs.drop_first())
    }
}

/// The form-urlencoding of a string: its UTF-8 bytes, each encoded.
pub open spec fn urlencode_component(s: Seq<char>) -> Seq<char> {
    urlencode_bytes(encode_utf8(s))
}

/// The form-urlencoding of one key/value pair: `key=value`, each side
/// encoded.
pub open spec fn urlencode_pair(p: (Seq<char>, Seq<char>)) -> Seq<char> {
    urlencode_component(p.0) + "="@ + urlencode_component(p.1)
}

/// The form-urlencoding of a pair sequence: the encoded pairs joined by `&`,
/// in order.
pub open spec fn form_urlencode(pairs: Seq<(Seq<char>, Seq<char>)>) -> Seq<char>
    decreases pairs.len(),
{
    if pairs.len() == 0 {
        Seq::empty()
    } else if pairs.len() == 1 {
        urlencode_pair(pairs[0])
    } else {
        urlencode_pair(pairs[0]) + "&"@ + form_urlencode(pairs.drop_first())
    }
}

/// Relies on serde_urlencoded::to_string: a sequence of string pairs is
/// rendered as `key=value` joined by `&`, each key and value percent-encoded
/// byte for byte (space as `+`, upper-case hexadecimal otherwise, ASCII
/// alphanumerics and `*-._` unchanged); its pair serializer accepts a
/// two-tuple of strings and never fails on one.
#[verifier::external_body]
fn urlencode_string_pairs(pairs: &Vec<(String, String)>) -> (r: String)
    ensures
        r@ == form_urlencode(pairs.deep_view()),
{
    serde_urlencoded::to_string(pairs).unwrap()
}

/// Render a sequence of key/value pairs as a single
/// `application/x-www-form-urlencoded` body.
pub fn urlencode_form(pairs: &Vec<(String, String)>) -> (r: String)
    ensures
        r@ == form_urlencode(pairs.deep_view()),
{
    urlencode_string_pairs(pairs)
}

} // verus!
