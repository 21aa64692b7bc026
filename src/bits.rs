use vstd::prelude::*;

verus! {

/// Whether bit `i` of `x` is set.
pub open spec fn bit_set(x: u64, i: nat) -> bool {
    (x >> i) & 1 == 1
}

/// The number of set bits among the lowest `n` bits of `x`.
pub open spec fn ones_below(x: u64, n: nat) -> nat
    decreases n,
{
    if n == 0 {
        0
    } else {
        ones_below(x, (n - 1) as nat) + if bit_set(x, (n - 1) as nat) { 1nat } else { 0nat }
    }
}

/// The population count of `x`.
pub open spec fn popcount(x: u64) -> nat {
    ones_below(x, 64)
}

proof fn lemma_ones_below_bound(x: u64, n: nat)
    ensures
        ones_below(x, n) <= n,
    decreases n,
{
    if n > 0 {
        lemma_ones_below_bound(x, (n - 1) as nat);
    }
}

/// Counts the set bits of `x`.
pub fn count_ones(x: u64) -> (r: u32)
    ensures
        r == popcount(x),
{
    let mut i: u64 = 0;
    let mut c: u32 = 0;
    while i < 64
        invariant
            i <= 64,
            c == ones_below(x, i as nat),
        decreases 64 - i,
    {
        proof {
            lemma_ones_below_bound(x, i as nat);
        }
        if (x >> i) & 1 == 1 {
            c = c + 1;
        }
        i = i + 1;
    }
    c
}

} // verus!
