//! Cyclic reduction of an integer into a half-open range.

use vstd::prelude::*;
use vstd::arithmetic::div_mod::{
    lemma_mod_add_multiples_vanish, lemma_mod_sub_multiples_vanish, lemma_small_mod,
};

verus! {

/// The member of `[min, max)` that differs from `n` by a multiple of the
/// range's width.
pub open spec fn wrap_spec(n: int, min: int, max: int) -> int
    recommends
        min < max,
{
    min + (n - min) % (max - min)
}

/// The reduced value lies in the range, and it is the only member of the
/// range congruent to `n` modulo the width.
pub proof fn lemma_wrap_spec_unique(n: int, min: int, max: int, r: int)
    requires
        min < max,
        min <= r < max,
        (r - min) % (max - min) == (n - min) % (max - min),
    ensures
        r == wrap_spec(n, min, max),
        min <= wrap_spec(n, min, max) < max,
{
    lemma_small_mod((r - min) as nat, (max - min) as nat);
}

/// Reduces `n` into `[min, max)` by adding or subtracting the width of the
/// range until the value lies inside.
pub fn wrap(n: i32, min: i32, max: i32) -> (r: i32)
    requires
        min < max,
    ensures
        r == wrap_spec(n as int, min as int, max as int),
        min <= r < max,
{
    let width: i64 = max as i64 - min as i64;
    let mut m: i64 = n as i64;
    while m < min as i64
        invariant
            width == max - min,
            width > 0,
            m == n || m < max,
            (m - min) % (width as int) == (n - min) % (width as int),
        decreases
            (if m < min { min - m } else { 0 }),
    {
        proof {
            lemma_mod_add_multiples_vanish(m - min, width as int);
        }
        m = m + width;
    }
    while m >= max as i64
        invariant
            width == max - min,
            width > 0,
            min <= m,
            (m - min) % (width as int) == (n - min) % (width as int),
        decreases
            (if m >= max { m - max + 1 } else { 0 }),
    {
        proof {
            lemma_mod_sub_multiples_vanish(m - min, width as int);
        }
        m = m - width;
    }
    proof {
        lemma_wrap_spec_unique(n as int, min as int, max as int, m as int);
    }
    m as i32
}

} // verus!
