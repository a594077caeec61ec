//! The compact, self-describing wire encoding of unsigned integers used
//! throughout the chain's binary format.
//!
//! Four modes, selected by magnitude and tagged in the low two bits of the
//! first byte: one byte (`0b00`), two bytes (`0b01`), four bytes (`0b10`),
//! and a length byte followed by the value's own little-endian bytes
//! (`0b11`).

use vstd::prelude::*;

use crate::bytesutil::{
    byte_len, le_bytes, le_val, lemma_byte_len_bound, lemma_byte_len_le, lemma_byte_len_u128,
    lemma_le_bytes_len, lemma_le_canonical, lemma_le_val_bound, lemma_le_val_le_bytes,
    lemma_le_val_push, lemma_pow256_monotone, pow256,
};

verus! {

/// The compact encoding of `n`.
pub open spec fn compact_of(n: u128) -> Seq<u8> {
    if n < 64 {
        seq![(n * 4) as u8]
    } else if n < 16384 {
        le_bytes((n * 4 + 1) as nat, 2)
    } else if n < 0x40000000 {
        le_bytes((n * 4 + 2) as nat, 4)
    } else {
        seq![((byte_len(n as nat) - 4) * 4 + 3) as u8] + le_bytes(n as nat, byte_len(n as nat))
    }
}

/// What reading a compact encoding at position `at` of `s` yields: the
/// decoded value and the number of bytes consumed, or nothing where the
/// bytes do not form a complete encoding.
pub open spec fn compact_decode_spec(s: Seq<u8>, at: int) -> Option<(u128, int)> {
    if !(0 <= at < s.len()) {
        None
    } else {
        let b = s[at] as int;
        if b % 4 == 0 {
            Some(((b / 4) as u128, 1))
        } else if b % 4 == 1 {
            if at + 2 <= s.len() {
                Some((((b + 256 * s[at + 1]) / 4) as u128, 2))
            } else {
                None
            }
        } else if b % 4 == 2 {
            if at + 4 <= s.len() {
                Some(((le_val(s.subrange(at, at + 4)) / 4) as u128, 4))
            } else {
                None
            }
        } else {
            let l = b / 4 + 4;
            if l <= 16 && at + 1 + l <= s.len() {
                Some((le_val(s.subrange(at + 1, at + 1 + l)) as u128, 1 + l))
            } else {
                None
            }
        }
    }
}

/// Encode `n` in the compact scheme.
pub fn compact_encode(n: u128) -> (r: Vec<u8>)
    ensures
        r@ == compact_of(n),
{
    let mut out: Vec<u8> = Vec::new();
    if n < 64 {
        out.push((n as u8) * 4);
        assert(out@ =~= compact_of(n));
    } else if n < 16384 {
        let v: u32 = (n as u32) * 4 + 1;
        out.push((v % 256) as u8);
        out.push((v / 256) as u8);
        proof {
            let vn = (n * 4 + 1) as nat;
            assert(le_bytes(vn, 2) =~= seq![(vn % 256) as u8] + le_bytes(vn / 256, 1));
            assert(le_bytes(vn / 256, 1) =~= seq![((vn / 256) % 256) as u8] + le_bytes(
                vn / 65536,
                0,
            ));
            assert(le_bytes(vn / 65536, 0) =~= Seq::<u8>::empty());
            assert((vn / 256) % 256 == vn / 256);
            assert(out@ =~= compact_of(n));
        }
    } else if n < 0x40000000 {
        let v: u64 = (n as u64) * 4 + 2;
        out.push((v % 256) as u8);
        out.push(((v / 256) % 256) as u8);
        out.push(((v / 65536) % 256) as u8);
        out.push(((v / 16777216) % 256) as u8);
        proof {
            let vn = (n * 4 + 2) as nat;
            assert(le_bytes(vn, 4) =~= seq![(vn % 256) as u8] + le_bytes(vn / 256, 3));
            assert(le_bytes(vn / 256, 3) =~= seq![((vn / 256) % 256) as u8] + le_bytes(
                vn / 65536,
                2,
            ));
            assert(le_bytes(vn / 65536, 2) =~= seq![((vn / 65536) % 256) as u8] + le_bytes(
                vn / 16777216,
                1,
            ));
            assert(le_bytes(vn / 16777216, 1) =~= seq![((vn / 16777216) % 256) as u8] + le_bytes(
                vn / 4294967296,
                0,
            ));
            assert(le_bytes(vn / 4294967296, 0) =~= Seq::<u8>::empty());
            assert(out@ =~= compact_of(n));
        }
    } else {
        let mut digits: Vec<u8> = Vec::new();
        let mut rest: u128 = n;
        proof {
            assert(pow256(0) == 1);
        }
        while rest > 0
            invariant
                le_val(digits@) + rest * pow256(digits@.len()) == n,
                rest == 0 && digits@.len() > 0 ==> digits@[digits@.len() - 1] != 0,
            decreases rest,
        {
            let b: u8 = (rest % 256) as u8;
            let ghost old_digits = digits@;
            let ghost old_rest = rest;
            digits.push(b);
            rest = rest / 256;
            proof {
                lemma_le_val_push(old_digits, b);
                assert(le_val(digits@) == le_val(old_digits) + b * pow256(old_digits.len()));
                assert(old_rest == 256 * rest + b);
                assert((256 * rest + b) * pow256(old_digits.len()) == rest * (256 * pow256(
                    old_digits.len(),
                )) + b * pow256(old_digits.len())) by (nonlinear_arith);
                assert(pow256(digits@.len()) == 256 * pow256(old_digits.len()));
                if rest == 0 {
                    assert(b == old_rest);
                }
            }
        }
        proof {
            assert(le_val(digits@) == n);
            lemma_le_canonical(digits@);
            assert(byte_len(n as nat) == digits@.len());
            assert(le_bytes(n as nat, byte_len(n as nat)) =~= digits@);
            lemma_byte_len_u128(n);
            if digits@.len() < 4 {
                lemma_pow256_monotone(digits@.len(), 3);
                assert(n < pow256(3)) by {
                    lemma_byte_len_bound(n as nat);
                };
                assert(pow256(3) == 0x1000000) by {
                reveal_with_fuel(pow256, 4);
            };
            }
            assert(digits@.len() >= 4);
        }
        let prefix: u8 = ((digits.len() - 4) * 4 + 3) as u8;
        out.push(prefix);
        let ghost pre = out@;
        let ghost dig = digits@;
        out.append(&mut digits);
        proof {
            assert(out@ =~= pre + dig);
            assert(out@ =~= compact_of(n));
        }
    }
    out
}

/// Encode a 64-bit counter in the compact scheme.
pub fn compact_encode_u64(n: u64) -> (r: Vec<u8>)
    ensures
        r@ == compact_of(n as u128),
{
    compact_encode(n as u128)
}

/// Read one compact encoding from `bytes`, starting at `at`.
///
/// Returns the decoded value and the count of bytes consumed, or `None`
/// where the bytes at `at` do not form a complete encoding.
pub fn compact_decode(bytes: &[u8], at: usize) -> (r: Option<(u128, usize)>)
    ensures
        match (r, compact_decode_spec(bytes@, at as int)) {
            (Some((v, c)), Some((sv, sc))) => v == sv && c == sc,
            (None, None) => true,
            _ => false,
        },
{
    let n = bytes.len();
    if at >= n {
        return None;
    }
    let b = bytes[at];
    let mode = b % 4;
    if mode == 0 {
        Some(((b / 4) as u128, 1))
    } else if mode == 1 {
        if n - at >= 2 {
            let v: u32 = (b as u32) + 256 * (bytes[at + 1] as u32);
            Some(((v / 4) as u128, 2))
        } else {
            None
        }
    } else if mode == 2 {
        if n - at >= 4 {
            let v: u64 = (bytes[at] as u64) + 256 * ((bytes[at + 1] as u64) + 256 * ((bytes[at
                + 2] as u64) + 256 * (bytes[at + 3] as u64)));
            proof {
                reveal_with_fuel(le_val, 6);
                let s = bytes@.subrange(at as int, at + 4);
                assert(s.len() == 4);
                assert(s.drop_first() =~= bytes@.subrange(at + 1, at + 4));
                assert(s.drop_first().drop_first() =~= bytes@.subrange(at + 2, at + 4));
                assert(s.drop_first().drop_first().drop_first() =~= bytes@.subrange(at + 3, at + 4));
                assert(s.drop_first().drop_first().drop_first().drop_first() =~= Seq::<u8>::empty());
                assert(le_val(s) == v);
            }
            Some(((v / 4) as u128, 4))
        } else {
            None
        }
    } else {
        let l = (b / 4) as usize + 4;
        if l <= 16 && n - at >= 1 + l {
            let mut v: u128 = 0;
            let mut i: usize = l;
            while i > 0
                invariant
                    i <= l,
                    l <= 16,
                    at + 1 + l <= bytes@.len(),
                    bytes@.len() <= usize::MAX,
                    v == le_val(bytes@.subrange(at + 1 + i, at + 1 + l)),
                decreases i,
            {
                i = i - 1;
                let ghost tail = bytes@.subrange(at + 1 + i + 1, at + 1 + l);
                proof {
                    lemma_le_val_bound(tail);
                    lemma_pow256_monotone(tail.len(), 15);
                    assert(pow256(15) == 0x1000000000000000000000000000000) by {
                        reveal_with_fuel(pow256, 16);
                    };
                    assert(v < 0x1000000000000000000000000000000);
                }
                v = v * 256 + (bytes[at + 1 + i] as u128);
                proof {
                    let s = bytes@.subrange(at + 1 + i, at + 1 + l);
                    assert(s.drop_first() =~= tail);
                    assert(s[0] == bytes@[at + 1 + i]);
                    assert(le_val(s) == s[0] + 256 * le_val(tail));
                }
            }
            proof {
                assert(bytes@.subrange(at + 1, at + 1 + l) =~= bytes@.subrange(
                    at + 1 + 0,
                    at + 1 + l,
                ));
            }
            Some((v, 1 + l))
        } else {
            None
        }
    }
}

/// Law: decoding starts over again where encoding left off.  Whatever
/// follows the encoding of `v` in a byte string, reading a compact integer
/// at its start yields `v` back and consumes exactly the encoding.
pub proof fn lemma_compact_round_trip(v: u128, tail: Seq<u8>)
    ensures
        compact_decode_spec(compact_of(v) + tail, 0) == Some(
            (v, compact_of(v).len() as int),
        ),
{
    let s = compact_of(v) + tail;
    if v < 64 {
        assert(s[0] == (v * 4) as u8);
    } else if v < 16384 {
        let vn = (v * 4 + 1) as nat;
        lemma_le_bytes_len(vn, 2);
        assert(le_bytes(vn, 2) =~= seq![(vn % 256) as u8] + le_bytes(vn / 256, 1));
        assert(le_bytes(vn / 256, 1) =~= seq![((vn / 256) % 256) as u8] + le_bytes(vn / 65536, 0));
        assert(le_bytes(vn / 65536, 0) =~= Seq::<u8>::empty());
        assert(s[0] == (vn % 256) as u8 && s[1] == ((vn / 256) % 256) as u8);
        assert((vn / 256) % 256 == vn / 256);
        let b = s[0] as int;
        assert(b == vn % 256);
        assert(b % 4 == 1 && (b + 256 * (s[1] as int)) == vn);
        assert((b + 256 * (s[1] as int)) / 4 == v);
    } else if v < 0x40000000 {
        let vn = (v * 4 + 2) as nat;
        lemma_le_bytes_len(vn, 4);
        assert(s.subrange(0, 4) =~= le_bytes(vn, 4));
        assert(pow256(4) == 0x100000000) by {
            reveal_with_fuel(pow256, 5);
        };
        lemma_le_val_le_bytes(vn, 4);
        assert(le_bytes(vn, 4) =~= seq![(vn % 256) as u8] + le_bytes(vn / 256, 3));
        assert(s[0] == (vn % 256) as u8);
        let b = s[0] as int;
        assert(b == vn % 256);
        assert(b % 4 == 2);
        assert(le_val(s.subrange(0, 4)) == vn);
        assert(le_val(s.subrange(0, 4)) / 4 == v);
    } else {
        let bl = byte_len(v as nat);
        lemma_byte_len_u128(v);
        lemma_byte_len_bound(v as nat);
        assert(pow256(3) == 0x1000000) by {
                reveal_with_fuel(pow256, 4);
            };
        if bl < 4 {
            lemma_pow256_monotone(bl, 3);
        }
        assert(bl >= 4);
        lemma_le_bytes_len(v as nat, bl);
        assert(s[0] == ((bl - 4) * 4 + 3) as u8);
        let b = s[0] as int;
        assert((bl - 4) * 4 + 3 <= 51);
        assert(b == (bl - 4) * 4 + 3);
        assert(b % 4 == 3);
        let l = b / 4 + 4;
        assert(l == bl);
        assert(s.subrange(1, 1 + l) =~= le_bytes(v as nat, bl));
        lemma_le_val_le_bytes(v as nat, bl);
        assert(le_val(s.subrange(1, 1 + l)) == v);
    }
}

} // verus!
