//! Little-endian byte representations of unsigned integers, and the facts
//! about them that the compact integer codec builds on.

use vstd::prelude::*;

verus! {

/// 256 raised to the power `k`.
pub open spec fn pow256(k: nat) -> nat
    decreases k,
{
    if k == 0 {
        1
    } else {
        256 * pow256((k - 1) as nat)
    }
}

/// The `len` low-order bytes of `n`, least significant first.
pub open spec fn le_bytes(n: nat, len: nat) -> Seq<u8>
    decreases len,
{
    if len == 0 {
        Seq::empty()
    } else {
        seq![(n % 256) as u8] + le_bytes(n / 256, (len - 1) as nat)
    }
}

/// The value of a little-endian byte string.
pub open spec fn le_val(s: Seq<u8>) -> nat
    decreases s.len(),
{
    if s.len() == 0 {
        0
    } else {
        (s[0] + 256 * le_val(s.drop_first())) as nat
    }
}

/// How many bytes the minimal little-endian representation of `n` takes.
pub open spec fn byte_len(n: nat) -> nat
    decreases n,
{
    if n == 0 {
        0
    } else {
        byte_len(n / 256) + 1
    }
}

pub proof fn lemma_pow256_monotone(j: nat, k: nat)
    requires
        j <= k,
    ensures
        pow256(j) <= pow256(k),
    decreases k,
{
    if j < k {
        lemma_pow256_monotone(j, (k - 1) as nat);
    }
}

pub proof fn lemma_le_bytes_len(n: nat, len: nat)
    ensures
        le_bytes(n, len).len() == len,
    decreases len,
{
    if len > 0 {
        lemma_le_bytes_len(n / 256, (len - 1) as nat);
    }
}

/// A value below `pow256(len)` is recovered exactly from its `len` bytes.
pub proof fn lemma_le_val_le_bytes(n: nat, len: nat)
    requires
        n < pow256(len),
    ensures
        le_val(le_bytes(n, len)) == n,
    decreases len,
{
    if len > 0 {
        assert(n / 256 < pow256((len - 1) as nat)) by {
            assert(n < 256 * pow256((len - 1) as nat));
        };
        lemma_le_val_le_bytes(n / 256, (len - 1) as nat);
        let s = le_bytes(n, len);
        assert(s.drop_first() =~= le_bytes(n / 256, (len - 1) as nat));
    }
}

pub proof fn lemma_le_val_bound(s: Seq<u8>)
    ensures
        le_val(s) < pow256(s.len()),
    decreases s.len(),
{
    if s.len() > 0 {
        lemma_le_val_bound(s.drop_first());
    }
}

/// Appending a byte at the high end adds its value scaled by the length so far.
pub proof fn lemma_le_val_push(s: Seq<u8>, b: u8)
    ensures
        le_val(s.push(b)) == le_val(s) + b * pow256(s.len()),
    decreases s.len(),
{
    if s.len() == 0 {
        assert(s.push(b) =~= seq![b]);
        assert(seq![b].drop_first() =~= Seq::<u8>::empty());
        assert(le_val(Seq::<u8>::empty()) == 0);
        assert(le_val(seq![b]) == b + 256 * le_val(seq![b].drop_first()));
        assert(pow256(0) == 1);
        assert(le_val(s) == 0);
    } else {
        lemma_le_val_push(s.drop_first(), b);
        assert(s.push(b).drop_first() =~= s.drop_first().push(b));
        assert(s.push(b)[0] == s[0]);
        assert(le_val(s.push(b)) == s[0] + 256 * le_val(s.drop_first().push(b)));
        assert(le_val(s) == s[0] + 256 * le_val(s.drop_first()));
        assert(pow256(s.len()) == 256 * pow256(s.drop_first().len()));
        assert(256 * (le_val(s.drop_first()) + b * pow256(s.drop_first().len())) == 256 * le_val(
            s.drop_first(),
        ) + b * (256 * pow256(s.drop_first().len()))) by (nonlinear_arith);
    }
}

/// `n` fits in its own minimal byte length.
pub proof fn lemma_byte_len_bound(n: nat)
    ensures
        n < pow256(byte_len(n)),
    decreases n,
{
    if n > 0 {
        lemma_byte_len_bound(n / 256);
        assert(n < 256 * pow256(byte_len(n / 256))) by {
            assert(n / 256 < pow256(byte_len(n / 256)));
        };
    }
}

/// Anything below `pow256(k)` takes at most `k` bytes.
pub proof fn lemma_byte_len_le(n: nat, k: nat)
    requires
        n < pow256(k),
    ensures
        byte_len(n) <= k,
    decreases k,
{
    if n > 0 {
        if k == 0 {
        } else {
            assert(n / 256 < pow256((k - 1) as nat)) by {
                assert(n < 256 * pow256((k - 1) as nat));
            };
            lemma_byte_len_le(n / 256, (k - 1) as nat);
        }
    }
}

/// A byte string whose last byte is non-zero is the minimal representation
/// of its own value.
pub proof fn lemma_le_canonical(s: Seq<u8>)
    requires
        s.len() == 0 || s[s.len() - 1] != 0,
    ensures
        byte_len(le_val(s)) == s.len(),
        le_bytes(le_val(s), s.len()) =~= s,
    decreases s.len(),
{
    if s.len() > 0 {
        let rest = s.drop_first();
        if rest.len() > 0 {
            assert(rest[rest.len() - 1] == s[s.len() - 1]);
        }
        lemma_le_canonical(rest);
        let v = le_val(s);
        assert(v == s[0] + 256 * le_val(rest));
        assert(v / 256 == le_val(rest) && v % 256 == s[0]) by {
            assert(s[0] < 256);
        };
        if rest.len() == 0 {
            assert(s[0] != 0);
            assert(v == s[0]);
        } else {
            assert(le_val(rest) > 0) by {
                if le_val(rest) == 0 {
                    assert(byte_len(0nat) == 0);
                }
            };
        }
        assert(le_bytes(v, s.len()) =~= seq![(v % 256) as u8] + le_bytes(
            v / 256,
            (s.len() - 1) as nat,
        ));
        assert(le_bytes(v, s.len()) =~= s) by {
            assert(le_bytes(v / 256, (s.len() - 1) as nat) =~= rest);
            assert((v % 256) as u8 == s[0]);
            assert(seq![s[0]] + rest =~= s);
        };
    }
}

/// `u128::MAX` needs no more than 16 bytes.
pub proof fn lemma_byte_len_u128(n: u128)
    ensures
        byte_len(n as nat) <= 16,
{
    assert(pow256(16) == 0x100000000000000000000000000000000) by {
        reveal_with_fuel(pow256, 17);
    };
    lemma_byte_len_le(n as nat, 16);
}

} // verus!
