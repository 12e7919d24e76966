//! Field layout primitives: little-endian integer encodings and zero runs.
//!
//! Multi-byte integer fields are laid out least-significant byte first. A
//! `w`-byte field holds values below `pow256(w)`; on that range encoding and
//! reading back are proved inverse to each other.

use vstd::arithmetic::div_mod::lemma_fundamental_div_mod;
use vstd::arithmetic::div_mod::lemma_multiply_divide_lt;
use vstd::prelude::*;
use vstd::slice::slice_index_get;

verus! {

/// 256 raised to `w`: the number of distinct values of a `w`-byte field.
pub open spec fn pow256(w: nat) -> nat
    decreases w,
{
    if w == 0 {
        1
    } else {
        256 * pow256((w - 1) as nat)
    }
}

/// The `w`-byte little-endian encoding of `x`, least-significant byte first.
pub open spec fn spec_le_bytes(x: nat, w: nat) -> Seq<u8>
    decreases w,
{
    if w == 0 {
        Seq::empty()
    } else {
        seq![(x % 256) as u8] + spec_le_bytes(x / 256, (w - 1) as nat)
    }
}

/// The value of a little-endian byte sequence.
pub open spec fn spec_le_value(s: Seq<u8>) -> nat
    decreases s.len(),
{
    if s.len() == 0 {
        0
    } else {
        s[0] as nat + 256 * spec_le_value(s.drop_first())
    }
}

/// A run of `n` zero bytes, as written after a variant's fields.
pub open spec fn zero_seq(n: nat) -> Seq<u8> {
    Seq::new(n, |i: int| 0u8)
}

/// A little-endian encoding is exactly as wide as requested.
pub proof fn lemma_le_bytes_len(x: nat, w: nat)
    ensures
        spec_le_bytes(x, w).len() == w,
    decreases w,
{
    if w > 0 {
        lemma_le_bytes_len(x / 256, (w - 1) as nat);
    }
}

/// `pow256` grows with the width.
pub proof fn lemma_pow256_increases(a: nat, b: nat)
    requires
        a <= b,
    ensures
        pow256(a) <= pow256(b),
    decreases b,
{
    if a < b {
        lemma_pow256_increases(a, (b - 1) as nat);
    }
}

/// The value read from any byte sequence fits in its width.
pub proof fn lemma_le_value_bound(s: Seq<u8>)
    ensures
        spec_le_value(s) < pow256(s.len()),
    decreases s.len(),
{
    if s.len() > 0 {
        lemma_le_value_bound(s.drop_first());
    }
}

/// Reading back a `w`-byte little-endian encoding recovers the value,
/// provided the value fits in `w` bytes.
pub proof fn lemma_le_round_trip(x: nat, w: nat)
    requires
        x < pow256(w),
    ensures
        spec_le_value(spec_le_bytes(x, w)) == x,
    decreases w,
{
    if w > 0 {
        lemma_multiply_divide_lt(x as int, 256, pow256((w - 1) as nat) as int);
        lemma_le_round_trip(x / 256, (w - 1) as nat);
        lemma_le_bytes_len(x / 256, (w - 1) as nat);
        assert(spec_le_bytes(x, w).drop_first() =~= spec_le_bytes(x / 256, (w - 1) as nat));
        lemma_fundamental_div_mod(x as int, 256);
    }
}

/// Builds the `w`-byte little-endian encoding of `x`.
pub fn le_bytes_of(x: u64, w: u8) -> (r: Vec<u8>)
    ensures
        r@ == spec_le_bytes(x as nat, w as nat),
    decreases w,
{
    if w == 0 {
        let r: Vec<u8> = Vec::new();
        assert(r@ =~= spec_le_bytes(x as nat, 0));
        r
    } else {
        let mut r: Vec<u8> = Vec::new();
        r.push((x % 256) as u8);
        let mut rest = le_bytes_of(x / 256, w - 1);
        r.append(&mut rest);
        assert(r@ =~= spec_le_bytes(x as nat, w as nat));
        r
    }
}

/// Reads the `w`-byte little-endian field of `buf` that starts at `off`.
pub fn le_value_of(buf: &[u8], off: usize, w: u8) -> (r: u64)
    requires
        w <= 8,
        off + w <= buf@.len(),
    ensures
        r as nat == spec_le_value(buf@.subrange(off as int, off + w)),
    decreases w,
{
    let n = buf.len();
    if w == 0 {
        assert(buf@.subrange(off as int, off as int).len() == 0);
        0
    } else {
        assert(off + (w as usize) <= n);
        let rest = le_value_of(buf, off + 1, w - 1);
        let b = *slice_index_get(buf, off);
        proof {
            let tail = buf@.subrange(off + 1, off + w);
            lemma_le_value_bound(tail);
            lemma_pow256_increases(tail.len(), 7);
            assert(pow256(7) == 0x100000000000000) by {
                reveal_with_fuel(pow256, 8);
            }
            let whole = buf@.subrange(off as int, off + w);
            assert(whole.drop_first() =~= tail);
            assert(whole[0] == buf@[off as int]);
        }
        b as u64 + 256 * rest
    }
}

} // verus!
