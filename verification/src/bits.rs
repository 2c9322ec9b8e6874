//! 32-bit rotation and the `rlwinm`/`rlwnm` mask, with the mask's
//! bit-counting law.

use vstd::prelude::*;

verus! {

/// 32-bit rotate left by `n` (only `n % 32` matters).
pub open spec fn spec_rotl32(x: u32, n: u32) -> u32 {
    let s = n % 32;
    if s == 0 {
        x
    } else {
        (x << s) | (x >> ((32 - s) as u32))
    }
}

/// Rotate `x` left by `n` bit positions.
pub fn rotl32(x: u32, n: u32) -> (r: u32)
    ensures
        r == spec_rotl32(x, n),
{
    let s: u32 = n % 32;
    if s == 0 {
        x
    } else {
        (x << s) | (x >> (32 - s))
    }
}

/// Bit `b` of `x`, with bits numbered from the most significant (bit 0)
/// down to the least significant (bit 31), as PowerPC numbers them.
pub open spec fn bit32(x: u32, b: u32) -> bool
    recommends
        b < 32,
{
    (x >> ((31 - b) as u32)) & 1 == 1
}

/// Whether bit `b` lies in the wrap-inclusive interval named by `(mb, me)`:
/// for `mb <= me` the bits `mb..=me`; otherwise every bit outside
/// `me+1..=mb-1` (the wrap-around mask, with `mb == me + 1` naming all bits).
pub open spec fn in_wrap_interval(mb: u32, me: u32, b: u32) -> bool {
    if mb <= me {
        mb <= b <= me
    } else {
        b <= me || mb <= b
    }
}

/// The mask restricted to bits with index below `n`.
pub open spec fn mask_up_to(mb: u32, me: u32, n: nat) -> u32
    decreases n,
{
    if n == 0 {
        0u32
    } else {
        let b = (n - 1) as u32;
        mask_up_to(mb, me, (n - 1) as nat) | (if in_wrap_interval(mb, me, b) {
            1u32 << ((31 - b) as u32)
        } else {
            0u32
        })
    }
}

/// The rotate mask named by `(mb, me)`.
pub open spec fn spec_mask(mb: u32, me: u32) -> u32 {
    mask_up_to(mb, me, 32)
}

/// Build the `rlwinm`/`rlwnm` mask for mask-begin `begin` and mask-end `end`.
pub fn mask_value(begin: u32, end: u32) -> (r: u32)
    requires
        begin < 32,
        end < 32,
    ensures
        r == spec_mask(begin, end),
{
    let mut mask: u32 = 0;
    let mut b: u32 = 0;
    while b < 32
        invariant
            b <= 32,
            begin < 32,
            end < 32,
            mask == mask_up_to(begin, end, b as nat),
        decreases 32 - b,
    {
        let hit = if begin <= end {
            begin <= b && b <= end
        } else {
            b <= end || begin <= b
        };
        let piece: u32 = if hit {
            1u32 << (31 - b)
        } else {
            0u32
        };
        assert(mask | 0u32 == mask) by (bit_vector);
        mask = mask | piece;
        b = b + 1;
    }
    mask
}

/// How many of the bits `0..n` of `x` are set.
pub open spec fn count_bits_up_to(x: u32, n: nat) -> nat
    decreases n,
{
    if n == 0 {
        0
    } else {
        count_bits_up_to(x, (n - 1) as nat) + (if bit32(x, (n - 1) as u32) {
            1nat
        } else {
            0nat
        })
    }
}

/// The number of set bits of `x`.
pub open spec fn pop32(x: u32) -> nat {
    count_bits_up_to(x, 32)
}

/// How many of the bits `0..n` lie in the wrap-inclusive interval.
pub open spec fn interval_count_up_to(mb: u32, me: u32, n: nat) -> nat
    decreases n,
{
    if n == 0 {
        0
    } else {
        interval_count_up_to(mb, me, (n - 1) as nat) + (if in_wrap_interval(
            mb,
            me,
            (n - 1) as u32,
        ) {
            1nat
        } else {
            0nat
        })
    }
}

/// The number of bits named by the wrap-inclusive interval `(mb, me)`.
pub open spec fn wrap_interval_size(mb: u32, me: u32) -> nat {
    interval_count_up_to(mb, me, 32)
}

proof fn lemma_bit_or(y: u32, z: u32, s: u32)
    requires
        s < 32,
    ensures
        ((y | z) >> s) & 1 == 1 <==> ((y >> s) & 1 == 1 || (z >> s) & 1 == 1),
{
    assert(((y | z) >> s) & 1 == 1 <==> ((y >> s) & 1 == 1 || (z >> s) & 1 == 1)) by (bit_vector)
        requires s < 32;
}

proof fn lemma_bit_single(k: u32, s: u32)
    requires
        k < 32,
        s < 32,
    ensures
        ((1u32 << k) >> s) & 1 == 1 <==> k == s,
{
    assert(((1u32 << k) >> s) & 1 == 1 <==> k == s) by (bit_vector)
        requires k < 32, s < 32;
}

proof fn lemma_bit_zero(s: u32)
    requires
        s < 32,
    ensures
        !bit32(0u32, s),
{
    assert((0u32 >> ((31 - s) as u32)) & 1 == 0) by (bit_vector)
        requires s < 32;
}

/// Bit `b` of `mask_up_to(mb, me, n)` is set exactly when `b < n` and the
/// bit lies in the wrap-inclusive interval.
proof fn lemma_mask_up_to_bit(mb: u32, me: u32, n: nat, b: u32)
    requires
        b < 32,
        n <= 32,
    ensures
        bit32(mask_up_to(mb, me, n), b) <==> (b < n && in_wrap_interval(mb, me, b)),
    decreases n,
{
    if n == 0 {
        lemma_bit_zero(b);
    } else {
        let prev = mask_up_to(mb, me, (n - 1) as nat);
        let c = (n - 1) as u32;
        let piece: u32 = if in_wrap_interval(mb, me, c) {
            1u32 << ((31 - c) as u32)
        } else {
            0u32
        };
        lemma_mask_up_to_bit(mb, me, (n - 1) as nat, b);
        lemma_bit_or(prev, piece, (31 - b) as u32);
        if in_wrap_interval(mb, me, c) {
            lemma_bit_single((31 - c) as u32, (31 - b) as u32);
        } else {
            lemma_bit_zero(b);
        }
    }
}

proof fn lemma_mask_count(mb: u32, me: u32, n: nat)
    requires
        mb < 32,
        me < 32,
        n <= 32,
    ensures
        count_bits_up_to(spec_mask(mb, me), n) == interval_count_up_to(mb, me, n),
    decreases n,
{
    if n > 0 {
        lemma_mask_count(mb, me, (n - 1) as nat);
        lemma_mask_up_to_bit(mb, me, 32, (n - 1) as u32);
    }
}

/// Mask law: the mask named by `(mb, me)` has exactly as many set bits as
/// the wrap-inclusive interval names.
pub proof fn lemma_mask_popcount(mb: u32, me: u32)
    requires
        mb < 32,
        me < 32,
    ensures
        pop32(spec_mask(mb, me)) == wrap_interval_size(mb, me),
{
    lemma_mask_count(mb, me, 32);
}

} // verus!
