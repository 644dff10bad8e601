use vstd::prelude::*;

verus! {

/// Two to the power `e`.
pub open spec fn two_pow(e: nat) -> nat
    decreases e,
{
    if e == 0 {
        1
    } else {
        2 * two_pow((e - 1) as nat)
    }
}

/// Two to the power `e`, for exponents that fit.
pub fn pow2(e: u32) -> (p: u64)
    requires
        e < 64,
    ensures
        p == two_pow(e as nat),
{
    let mut p: u64 = 1;
    let mut i: u32 = 0;
    while i < e
        invariant
            0 <= i <= e < 64,
            p == two_pow(i as nat),
        decreases e - i,
    {
        proof {
            lemma_two_pow_bound(i as nat + 1);
        }
        p = p * 2;
        i = i + 1;
    }
    p
}

/// Powers of two are positive.
pub proof fn lemma_two_pow_positive(e: nat)
    ensures
        1 <= two_pow(e),
    decreases e,
{
    if e > 0 {
        lemma_two_pow_positive((e - 1) as nat);
    }
}

/// Powers of two grow with the exponent.
pub proof fn lemma_two_pow_monotone(a: nat, b: nat)
    requires
        a <= b,
    ensures
        1 <= two_pow(a) <= two_pow(b),
    decreases b,
{
    lemma_two_pow_positive(a);
    if b > a {
        lemma_two_pow_monotone(a, (b - 1) as nat);
    }
}

/// Powers of two with exponents below 64 fit in a `u64`.
pub proof fn lemma_two_pow_bound(e: nat)
    requires
        e < 64,
    ensures
        1 <= two_pow(e) <= 0x8000_0000_0000_0000,
{
    reveal_with_fuel(two_pow, 64);
    assert(two_pow(63) == 0x8000_0000_0000_0000);
    lemma_two_pow_monotone(e, 63);
}

} // verus!
