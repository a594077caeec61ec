//! Hex text as the library's contracts see it: spec-level encoding and
//! decoding of byte strings, and the trusted bridge to the hex crate.

use vstd::prelude::*;

verus! {

/// The lowercase hex digit for a value below 16.
pub open spec fn hex_digit(n: int) -> char {
    if n == 0 {
        '0'
    } else if n == 1 {
        '1'
    } else if n == 2 {
        '2'
    } else if n == 3 {
        '3'
    } else if n == 4 {
        '4'
    } else if n == 5 {
        '5'
    } else if n == 6 {
        '6'
    } else if n == 7 {
        '7'
    } else if n == 8 {
        '8'
    } else if n == 9 {
        '9'
    } else if n == 10 {
        'a'
    } else if n == 11 {
        'b'
    } else if n == 12 {
        'c'
    } else if n == 13 {
        'd'
    } else if n == 14 {
        'e'
    } else {
        'f'
    }
}

/// The lowercase hex spelling of a byte string: two digits per byte, in order.
pub open spec fn hex_of(s: Seq<u8>) -> Seq<char>
    decreases s.len(),
{
    if s.len() == 0 {
        Seq::empty()
    } else {
        seq![hex_digit(s[0] as int / 16), hex_digit(s[0] as int % 16)] + hex_of(s.drop_first())
    }
}

pub open spec fn is_hex_char(c: char) -> bool {
    ('0' <= c && c <= '9') || ('a' <= c && c <= 'f') || ('A' <= c && c <= 'F')
}

/// The value of one hex digit, either case.
pub open spec fn hex_char_val(c: char) -> int {
    if '0' <= c && c <= '9' {
        c as int - '0' as int
    } else if 'a' <= c && c <= 'f' {
        c as int - 'a' as int + 10
    } else {
        c as int - 'A' as int + 10
    }
}

/// Whether a character string is well-formed hex: even length, digits only.
pub open spec fn hex_valid(s: Seq<char>) -> bool {
    s.len() % 2 == 0 && (forall|i: int| 0 <= i < s.len() ==> is_hex_char(#[trigger] s[i]))
}

/// The bytes spelled by a hex string, two digits to a byte.
pub open spec fn hex_bytes(s: Seq<char>) -> Seq<u8>
    decreases s.len(),
{
    if s.len() < 2 {
        Seq::empty()
    } else {
        seq![(hex_char_val(s[0]) * 16 + hex_char_val(s[1])) as u8] + hex_bytes(s.skip(2))
    }
}

pub proof fn lemma_hex_of_len(s: Seq<u8>)
    ensures
        hex_of(s).len() == 2 * s.len(),
    decreases s.len(),
{
    if s.len() > 0 {
        lemma_hex_of_len(s.drop_first());
    }
}

/// Hex encoding distributes over concatenation.
pub proof fn lemma_hex_of_append(a: Seq<u8>, b: Seq<u8>)
    ensures
        hex_of(a + b) == hex_of(a) + hex_of(b),
    decreases a.len(),
{
    if a.len() == 0 {
        assert(a + b =~= b);
        assert(hex_of(a) =~= Seq::<char>::empty());
        assert(hex_of(a) + hex_of(b) =~= hex_of(b));
    } else {
        assert((a + b)[0] == a[0]);
        assert((a + b).drop_first() =~= a.drop_first() + b);
        lemma_hex_of_append(a.drop_first(), b);
        assert(hex_of(a + b) =~= seq![
            hex_digit(a[0] as int / 16),
            hex_digit(a[0] as int % 16),
        ] + (hex_of(a.drop_first()) + hex_of(b)));
        assert(hex_of(a) + hex_of(b) =~= (seq![
            hex_digit(a[0] as int / 16),
            hex_digit(a[0] as int % 16),
        ] + hex_of(a.drop_first())) + hex_of(b));
    }
}

/// Relies on hex::encode: the result spells the input bytes as lowercase
/// hex, two digits per byte, in order.
#[verifier::external_body]
pub(crate) fn hex_encode(bytes: &[u8]) -> (r: String)
    ensures
        r@ == hex_of(bytes@),
{
    hex::encode(bytes)
}

/// Relies on hex::decode: it succeeds exactly on even-length strings made of
/// hex digits of either case, pairing the digits into bytes in order, and
/// reports an error on any other input.
#[verifier::external_body]
pub(crate) fn hex_decode(s: &str) -> (r: Option<Vec<u8>>)
    ensures
        match r {
            Some(v) => hex_valid(s@) && v@ == hex_bytes(s@),
            None => !hex_valid(s@),
        },
{
    hex::decode(s).ok()
}

} // verus!
